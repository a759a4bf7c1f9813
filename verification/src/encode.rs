//! Which recordings get a new encode request, and with which encode profile.

use crate::config::{encode_rules_view, Config, ConfigView, EncodeRule, EncodeRuleView};
use crate::epgstation_api::model::{
    requests_view, EncodeItem, EncodeItemView, FetchEncodeResponse, FetchEncodeResponseView,
    Record, RecordId, RecordView, RequestEncodeProperty, RequestEncodePropertyView, RuleId,
};
use vstd::prelude::*;

verus! {

/// The type tag of a media file that holds the raw transport stream.
pub open spec fn raw_stream_type() -> Seq<char> {
    "ts"@
}

/// The directory of the server under which encoded files are put.
pub open spec fn encoded_parent_dir() -> Seq<char> {
    "recorded"@
}

impl RecordView {
    /// A recording can be encoded when it has exactly one media file and that
    /// file holds the raw transport stream.
    pub open spec fn is_encodable(self) -> bool {
        self.video_files.len() == 1 && self.video_files[0].type_ == raw_stream_type()
    }

    /// A recording is a candidate for a new encode request when it can be
    /// encoded and is not in the encode queue already.
    pub open spec fn is_candidate(self, queue: Seq<RecordId>) -> bool {
        self.is_encodable() && !queue.contains(self.id)
    }
}

/// The recordings of one part of the encode queue.
pub open spec fn recorded_ids(items: Seq<EncodeItemView>) -> Seq<RecordId> {
    items.map_values(|item: EncodeItemView| item.recorded.id)
}

impl FetchEncodeResponseView {
    /// The recordings in the encode queue: those being encoded, then those
    /// that wait.
    pub open spec fn queued(self) -> Seq<RecordId> {
        recorded_ids(self.running_items) + recorded_ids(self.wait_items)
    }
}

fn push_recorded_ids(ids: &mut Vec<RecordId>, items: &Vec<EncodeItem>)
    ensures
        final(ids)@ == old(ids)@ + recorded_ids(items@.map_values(|item: EncodeItem| item@)),
{
    let ghost views = items@.map_values(|item: EncodeItem| item@);
    let mut i: usize = 0;
    while i < items.len()
        invariant
            i <= items.len(),
            views == items@.map_values(|item: EncodeItem| item@),
            ids@ == old(ids)@ + recorded_ids(views.take(i as int)),
        decreases items.len() - i,
    {
        ids.push(items[i].recorded.id);
        assert(views.take(i + 1) =~= views.take(i as int).push(views[i as int]));
        assert(recorded_ids(views.take(i + 1)) =~= recorded_ids(views.take(i as int)).push(
            items[i as int].recorded.id,
        ));
        i += 1;
    }
    assert(views.take(i as int) =~= views);
}

/// The snapshot of the encode queue: the identifiers of the recordings that
/// are being encoded or wait for it.
pub fn encode_queue_record_ids(response: &FetchEncodeResponse) -> (ids: Vec<RecordId>)
    ensures
        ids@ == response@.queued(),
{
    let mut ids: Vec<RecordId> = Vec::new();
    push_recorded_ids(&mut ids, &response.running_items);
    push_recorded_ids(&mut ids, &response.wait_items);
    assert(ids@ =~= response@.queued());
    ids
}

/// `true` when `id` is one of `ids`.
pub fn contains_id(ids: &Vec<u64>, id: u64) -> (found: bool)
    ensures
        found == ids@.contains(id),
{
    let mut i: usize = 0;
    while i < ids.len()
        invariant
            i <= ids.len(),
            forall|j: int| 0 <= j < i ==> ids@[j] != id,
        decreases ids.len() - i,
    {
        if ids[i] == id {
            return true;
        }
        i += 1;
    }
    false
}

/// Decides whether a recording is a candidate for a new encode request.
pub fn is_encode_target(record: &Record, encode_queue_record_ids: &Vec<RecordId>) -> (yes: bool)
    ensures
        yes == record@.is_candidate(encode_queue_record_ids@),
{
    if record.video_files.len() != 1 {
        return false;
    }
    let marker = "ts".to_owned();
    if !(record.video_files[0].type_ == marker) {
        return false;
    }
    !contains_id(encode_queue_record_ids, record.id)
}

/// The candidates among `records`, in the order of `records`.
pub open spec fn candidates(records: Seq<Record>, queue: Seq<RecordId>) -> Seq<Record> {
    records.filter(|record: Record| record@.is_candidate(queue))
}

/// The recordings that a list of references points to.
pub open spec fn referents(records: Seq<&Record>) -> Seq<Record> {
    records.map_values(|record: &Record| *record)
}

/// Selects the recordings that get a new encode request: those that can be
/// encoded and are not in the encode queue, in the order in which they came.
pub fn filter_encode_target<'a>(
    records: &'a Vec<Record>,
    encode_queue_record_ids: &Vec<RecordId>,
) -> (targets: Vec<&'a Record>)
    ensures
        referents(targets@) == candidates(records@, encode_queue_record_ids@),
{
    let ghost queue = encode_queue_record_ids@;
    let mut targets: Vec<&'a Record> = Vec::new();
    let mut i: usize = 0;
    proof {
        reveal(Seq::filter);
        assert(records@.take(0) =~= Seq::empty());
        assert(referents(targets@) =~= candidates(records@.take(0), queue));
    }
    while i < records.len()
        invariant
            i <= records.len(),
            queue == encode_queue_record_ids@,
            referents(targets@) == candidates(records@.take(i as int), queue),
        decreases records.len() - i,
    {
        let record = &records[i];
        let ghost before = targets@;
        let selected = is_encode_target(record, encode_queue_record_ids);
        if selected {
            targets.push(record);
        }
        proof {
            reveal(Seq::filter);
            let front = records@.take(i + 1);
            assert(front.drop_last() =~= records@.take(i as int));
            assert(front.last() == records@[i as int]);
            if selected {
                assert(referents(targets@) =~= referents(before).push(*record));
            }
            assert(referents(targets@) =~= candidates(front, queue));
        }
        i += 1;
    }
    assert(records@.take(i as int) =~= records@);
    targets
}

/// A recording is selected exactly when it is one of the given recordings,
/// has exactly one media file, that file holds the raw transport stream, and
/// the recording is not in the encode queue.
pub proof fn lemma_selected_iff_candidate(
    records: Seq<Record>,
    queue: Seq<RecordId>,
    record: Record,
)
    ensures
        candidates(records, queue).contains(record) <==> records.contains(record)
            && record@.video_files.len() == 1 && record@.video_files[0].type_ == "ts"@
            && !queue.contains(record@.id),
{
    let wanted = |record: Record| record@.is_candidate(queue);
    let selected = records.filter(wanted);
    if selected.contains(record) {
        let i = choose|i: int| 0 <= i < selected.len() && selected[i] == record;
        records.lemma_filter_pred(wanted, i);
        records.lemma_filter_contains_rev(wanted, record);
    }
    if records.contains(record) && record@.is_candidate(queue) {
        let i = choose|i: int| 0 <= i < records.len() && records[i] == record;
        records.lemma_filter_contains(wanted, i);
    }
}

/// The selected recordings stand in the order of the given ones: of two
/// selected recordings, the earlier one is found earlier among the given
/// recordings than the later one.
pub proof fn lemma_selection_keeps_order(
    records: Seq<Record>,
    queue: Seq<RecordId>,
    i: int,
    j: int,
)
    requires
        0 <= i < j < candidates(records, queue).len(),
    ensures
        exists|p: int, q: int|
            0 <= p < q < records.len() && #[trigger] records[p] == candidates(records, queue)[i]
                && #[trigger] records[q] == candidates(records, queue)[j],
    decreases records.len(),
{
    reveal(Seq::filter);
    let wanted = |record: Record| record@.is_candidate(queue);
    let selected = records.filter(wanted);
    let front = records.drop_last();
    let selected_front = front.filter(wanted);
    if j < selected_front.len() {
        lemma_selection_keeps_order(front, queue, i, j);
        let (p, q) = choose|p: int, q: int|
            0 <= p < q < front.len() && #[trigger] front[p] == selected_front[i]
                && #[trigger] front[q] == selected_front[j];
        assert(records[p] == selected[i] && records[q] == selected[j]);
    } else {
        assert(selected == selected_front.push(records.last()));
        assert(selected_front.contains(selected_front[i]));
        front.lemma_filter_contains_rev(wanted, selected_front[i]);
        let p = choose|p: int| 0 <= p < front.len() && front[p] == selected_front[i];
        let q = records.len() - 1;
        assert(records[p] == selected[i] && records[q] == selected[j]);
    }
}

/// A recording that does not have exactly one media file, such as one with
/// two, is no candidate and is never selected, whatever the encode queue and
/// the given recordings are.
pub proof fn lemma_without_single_file_never_selected(
    records: Seq<Record>,
    queue: Seq<RecordId>,
    record: Record,
)
    requires
        record@.video_files.len() != 1,
    ensures
        !record@.is_candidate(queue),
        !candidates(records, queue).contains(record),
{
    lemma_selected_iff_candidate(records, queue, record);
}

impl FetchEncodeResponseView {
    /// `true` when the recording `id` is being encoded or waits for it.
    pub open spec fn holds(self, id: RecordId) -> bool {
        ||| exists|i: int|
            0 <= i < self.running_items.len() && (#[trigger] self.running_items[i]).recorded.id
                == id
        ||| exists|i: int|
            0 <= i < self.wait_items.len() && (#[trigger] self.wait_items[i]).recorded.id == id
    }
}

/// The snapshot of the encode queue holds exactly the recordings that are
/// being encoded or wait for it.
pub proof fn lemma_queued_iff_held(response: FetchEncodeResponseView, id: RecordId)
    ensures
        response.queued().contains(id) <==> response.holds(id),
{
    let running = recorded_ids(response.running_items);
    let waiting = recorded_ids(response.wait_items);
    let queue = response.queued();
    if queue.contains(id) {
        let k = choose|k: int| 0 <= k < queue.len() && queue[k] == id;
        if k < running.len() {
            assert(response.running_items[k].recorded.id == id);
        } else {
            assert(response.wait_items[k - running.len()].recorded.id == id);
        }
    }
    if response.holds(id) {
        if exists|i: int|
            0 <= i < response.running_items.len() && (
            #[trigger] response.running_items[i]).recorded.id == id {
            let i = choose|i: int|
                0 <= i < response.running_items.len() && (
                #[trigger] response.running_items[i]).recorded.id == id;
            assert(queue[i] == id);
        } else {
            let i = choose|i: int|
                0 <= i < response.wait_items.len() && (
                #[trigger] response.wait_items[i]).recorded.id == id;
            assert(queue[running.len() + i] == id);
        }
    }
}

/// A recording that is being encoded or waits for it is no candidate and is
/// never selected, even where it could be encoded.
pub proof fn lemma_queued_never_selected(
    response: FetchEncodeResponseView,
    records: Seq<Record>,
    record: Record,
)
    requires
        response.holds(record@.id),
    ensures
        !record@.is_candidate(response.queued()),
        !candidates(records, response.queued()).contains(record),
{
    lemma_queued_iff_held(response, record@.id);
    lemma_selected_iff_candidate(records, response.queued(), record);
}

/// Whether an encode rule applies to a recording whose recording rule is
/// `target` (`None`: the recording was not made by a rule).
///
/// A rule with a list of recording rules applies only to a recording made by
/// one of them. A rule with the flag for recordings without a rule applies
/// only where the flag says what holds of the recording. A rule with both
/// asks for both, and a rule with neither applies to every recording.
pub open spec fn rule_matches(rule: EncodeRuleView, target: Option<RuleId>) -> bool {
    &&& match rule.rules {
        Some(ids) => target is Some && ids.contains(target->0),
        None => true,
    }
    &&& match rule.no_rule {
        Some(flag) => flag == (target is None),
        None => true,
    }
}

/// The position of the first rule that applies, if any does.
pub open spec fn first_match(rules: Seq<EncodeRuleView>, target: Option<RuleId>) -> Option<int>
    decreases rules.len(),
{
    if rules.len() == 0 {
        None
    } else if rule_matches(rules[0], target) {
        Some(0)
    } else {
        match first_match(rules.drop_first(), target) {
            Some(i) => Some(i + 1),
            None => None,
        }
    }
}

/// The encode profile of a recording: that of the first rule that applies,
/// and the default profile where none does.
pub open spec fn resolve_mode(
    target: Option<RuleId>,
    rules: Seq<EncodeRuleView>,
    default_mode: Seq<char>,
) -> Seq<char> {
    match first_match(rules, target) {
        Some(i) => rules[i].encode_mode,
        None => default_mode,
    }
}

/// `first_match` gives a rule that applies and that no applying rule
/// precedes, and gives `None` only where no rule applies.
pub proof fn lemma_first_match(rules: Seq<EncodeRuleView>, target: Option<RuleId>)
    ensures
        match first_match(rules, target) {
            Some(i) => {
                &&& 0 <= i < rules.len()
                &&& rule_matches(rules[i], target)
                &&& forall|j: int| 0 <= j < i ==> !rule_matches(#[trigger] rules[j], target)
            },
            None => forall|j: int| 0 <= j < rules.len() ==> !rule_matches(
                #[trigger] rules[j],
                target,
            ),
        },
    decreases rules.len(),
{
    if rules.len() > 0 && !rule_matches(rules[0], target) {
        let rest = rules.drop_first();
        lemma_first_match(rest, target);
        assert forall|j: int| 0 < j < rules.len() implies rules[j] == rest[j - 1] by {}
        match first_match(rest, target) {
            Some(i) => {
                assert forall|j: int| 0 <= j < i + 1 implies !rule_matches(
                    #[trigger] rules[j],
                    target,
                ) by {
                    if j > 0 {
                        assert(rules[j] == rest[j - 1]);
                    }
                }
            },
            None => {
                assert forall|j: int| 0 <= j < rules.len() implies !rule_matches(
                    #[trigger] rules[j],
                    target,
                ) by {
                    if j > 0 {
                        assert(rules[j] == rest[j - 1]);
                    }
                }
            },
        }
    }
}

/// The first rule that applies decides: where rule `i` applies and no rule
/// before it does, the recording gets the profile of rule `i`, whatever the
/// rules after it say.
pub proof fn lemma_first_matching_rule_wins(
    target: Option<RuleId>,
    rules: Seq<EncodeRuleView>,
    default_mode: Seq<char>,
    i: int,
)
    requires
        0 <= i < rules.len(),
        rule_matches(rules[i], target),
        forall|j: int| 0 <= j < i ==> !rule_matches(#[trigger] rules[j], target),
    ensures
        resolve_mode(target, rules, default_mode) == rules[i].encode_mode,
{
    lemma_first_match(rules, target);
}

/// Where no rule applies, the recording gets the default profile.
pub proof fn lemma_default_without_match(
    target: Option<RuleId>,
    rules: Seq<EncodeRuleView>,
    default_mode: Seq<char>,
)
    requires
        forall|j: int| 0 <= j < rules.len() ==> !rule_matches(#[trigger] rules[j], target),
    ensures
        resolve_mode(target, rules, default_mode) == default_mode,
{
    lemma_first_match(rules, target);
}

/// Decides whether an encode rule applies to a recording whose recording
/// rule is `target_rule_id`.
pub fn rule_applies(rule: &EncodeRule, target_rule_id: Option<RuleId>) -> (is_match: bool)
    ensures
        is_match == rule_matches(rule@, target_rule_id),
{
    let mut is_match = true;
    if let Some(rules) = &rule.rules {
        let listed = match target_rule_id {
            Some(target_id) => contains_id(rules, target_id),
            None => false,
        };
        is_match = is_match && listed;
    }
    if let Some(no_rule) = rule.no_rule {
        is_match = is_match && no_rule == target_rule_id.is_none();
    }
    is_match
}

/// Finds the encode profile of a recording whose recording rule is
/// `target_rule_id`: the profile of the first rule of `encode_rules` that
/// applies, and `default_encode_mode` where none does.
pub fn find_encode_mode(
    target_rule_id: Option<RuleId>,
    encode_rules: &Vec<EncodeRule>,
    default_encode_mode: &str,
) -> (mode: String)
    ensures
        mode@ == resolve_mode(
            target_rule_id,
            encode_rules_view(encode_rules@),
            default_encode_mode@,
        ),
{
    let ghost rules = encode_rules_view(encode_rules@);
    proof {
        lemma_first_match(rules, target_rule_id);
    }
    let mut i: usize = 0;
    while i < encode_rules.len()
        invariant
            i <= encode_rules.len(),
            rules == encode_rules_view(encode_rules@),
            forall|j: int| 0 <= j < i ==> !rule_matches(#[trigger] rules[j], target_rule_id),
        decreases encode_rules.len() - i,
    {
        if rule_applies(&encode_rules[i], target_rule_id) {
            proof {
                lemma_first_matching_rule_wins(
                    target_rule_id,
                    rules,
                    default_encode_mode@,
                    i as int,
                );
            }
            return encode_rules[i].encode_mode.clone();
        }
        i += 1;
    }
    default_encode_mode.to_owned()
}

/// The encode request for a recording: its first media file, encoded with
/// the profile that the settings give the recording, put under the fixed
/// directory, the source file kept.
pub open spec fn encode_request_view(record: RecordView, config: ConfigView) -> RequestEncodePropertyView
    recommends
        record.video_files.len() > 0,
{
    RequestEncodePropertyView {
        recorded_id: record.id,
        source_video_file_id: record.video_files[0].id,
        parent_dir: encoded_parent_dir(),
        mode: resolve_mode(record.rule_id, config.encode_rule, config.default_encode_mode),
        remove_original: false,
    }
}

/// Makes the encode request for a recording that has a media file.
pub fn encode_request(record: &Record, config: &Config) -> (request: RequestEncodeProperty)
    requires
        record@.video_files.len() > 0,
    ensures
        request@ == encode_request_view(record@, config@),
{
    let mode = find_encode_mode(
        record.rule_id,
        &config.encode_rule,
        config.default_encode_mode.as_str(),
    );
    RequestEncodeProperty {
        recorded_id: record.id,
        source_video_file_id: record.video_files[0].id,
        parent_dir: "recorded".to_owned(),
        mode,
        remove_original: false,
    }
}

/// The encode requests of a run: one for each candidate, in the order of
/// the candidates.
pub open spec fn planned_requests(
    records: Seq<Record>,
    queue: Seq<RecordId>,
    config: ConfigView,
) -> Seq<RequestEncodePropertyView> {
    candidates(records, queue).map_values(|record: Record| encode_request_view(record@, config))
}

/// Makes the encode requests of a run from the recordings that the server
/// knows and the snapshot of its encode queue: one request for each
/// candidate, in the order in which the recordings came.
pub fn plan_encode_requests(
    records: &Vec<Record>,
    encode_queue_record_ids: &Vec<RecordId>,
    config: &Config,
) -> (requests: Vec<RequestEncodeProperty>)
    ensures
        requests_view(requests@) == planned_requests(
            records@,
            encode_queue_record_ids@,
            config@,
        ),
{
    let targets = filter_encode_target(records, encode_queue_record_ids);
    let ghost chosen = candidates(records@, encode_queue_record_ids@);
    let ghost plan = planned_requests(records@, encode_queue_record_ids@, config@);
    let mut requests: Vec<RequestEncodeProperty> = Vec::new();
    let mut i: usize = 0;
    while i < targets.len()
        invariant
            i <= targets.len(),
            referents(targets@) == chosen,
            chosen == candidates(records@, encode_queue_record_ids@),
            plan == chosen.map_values(|record: Record| encode_request_view(record@, config@)),
            requests_view(requests@) == plan.take(i as int),
        decreases targets.len() - i,
    {
        let record = targets[i];
        proof {
            assert(*record == chosen[i as int]);
            records@.lemma_filter_pred(
                |record: Record| record@.is_candidate(encode_queue_record_ids@),
                i as int,
            );
            assert(record@.is_encodable());
        }
        let request = encode_request(record, config);
        let ghost before = requests@;
        requests.push(request);
        assert(requests_view(requests@) =~= requests_view(before).push(request@));
        assert(plan.take(i + 1) =~= plan.take(i as int).push(plan[i as int]));
        i += 1;
    }
    assert(plan.take(i as int) =~= plan);
    requests
}

} // verus!
