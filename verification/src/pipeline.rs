//! The course of a run. The run decides what is asked of the recording
//! server next; the caller does it and reports what came of it.
//!
//! A run fetches the encode queue, then the recordings, and then submits one
//! encode request for each candidate, in the order of the candidates, each
//! only after the one before it has succeeded. The first failure ends the
//! run.

use crate::config::{Config, ConfigView};
use crate::encode::{encode_queue_record_ids, plan_encode_requests, planned_requests};
use crate::epgstation_api::model::{
    requests_view, FetchEncodeResponse, FetchRecordedProperty, FetchRecordedPropertyView, Record,
    RecordId, RequestEncodeProperty, RequestEncodePropertyView,
};
use vstd::prelude::*;

verus! {

/// The most recordings that a run asks the server for.
pub const RECORDED_LIMIT: i32 = 100000000;

/// How far a run has come.
#[derive(Debug)]
pub enum Stage {
    /// Nothing has been asked yet.
    Start,
    /// The encode queue has been asked for.
    AwaitingQueue,
    /// The recordings have been asked for; `queue` is the snapshot of the
    /// encode queue.
    AwaitingRecords { queue: Vec<RecordId> },
    /// Request number `current` of `requests` has been handed out, and those
    /// before it have succeeded.
    Submitting { requests: Vec<RequestEncodeProperty>, current: usize },
    /// Every request has succeeded.
    Finished,
    /// Something failed, or an answer came that was not asked for.
    Aborted,
}

/// What a [`Stage`] holds, with texts and lists as sequences.
pub enum StageView {
    Start,
    AwaitingQueue,
    AwaitingRecords { queue: Seq<RecordId> },
    Submitting { requests: Seq<RequestEncodePropertyView>, current: nat },
    Finished,
    Aborted,
}

impl View for Stage {
    type V = StageView;

    open spec fn view(&self) -> StageView {
        match self {
            Stage::Start => StageView::Start,
            Stage::AwaitingQueue => StageView::AwaitingQueue,
            Stage::AwaitingRecords { queue } => StageView::AwaitingRecords { queue: queue@ },
            Stage::Submitting { requests, current } => StageView::Submitting {
                requests: requests_view(requests@),
                current: *current as nat,
            },
            Stage::Finished => StageView::Finished,
            Stage::Aborted => StageView::Aborted,
        }
    }
}

/// What the caller reports to a run.
#[derive(Debug)]
pub enum Event {
    /// The run is to begin.
    Begin,
    /// The server has sent its encode queue.
    Queue(FetchEncodeResponse),
    /// The server has sent its recordings, the newest first.
    Records(Vec<Record>),
    /// The server has accepted the encode request.
    Submitted,
    /// What was asked of the server has failed.
    Failed,
}

/// What a run asks the caller to do next.
#[derive(Debug)]
pub enum Action {
    /// Fetch the encode queue.
    FetchEncodeQueue { is_half_width: bool },
    /// Fetch the recordings that the selection describes.
    FetchRecorded(FetchRecordedProperty),
    /// Submit the encode request.
    RequestEncode(RequestEncodeProperty),
    /// Nothing more: the run has ended.
    Stop,
}

/// What an [`Action`] holds, with texts and lists as sequences.
pub enum ActionView {
    FetchEncodeQueue { is_half_width: bool },
    FetchRecorded(FetchRecordedPropertyView),
    RequestEncode(RequestEncodePropertyView),
    Stop,
}

impl View for Action {
    type V = ActionView;

    open spec fn view(&self) -> ActionView {
        match self {
            Action::FetchEncodeQueue { is_half_width } => ActionView::FetchEncodeQueue {
                is_half_width: *is_half_width,
            },
            Action::FetchRecorded(property) => ActionView::FetchRecorded(property@),
            Action::RequestEncode(request) => ActionView::RequestEncode(request@),
            Action::Stop => ActionView::Stop,
        }
    }
}

impl FetchRecordedPropertyView {
    /// The selection of a run: every recording, the newest first, with no
    /// filter.
    pub open spec fn everything() -> FetchRecordedPropertyView {
        FetchRecordedPropertyView {
            is_half_width: true,
            offset: 0,
            limit: RECORDED_LIMIT,
            is_reverse: Some(true),
            rule_id: None,
            channel_id: None,
            genre: None,
            keyword: None,
            has_original_file: None,
        }
    }
}

/// Makes the selection of a run.
pub fn all_recorded_property() -> (property: FetchRecordedProperty)
    ensures
        property@ == FetchRecordedPropertyView::everything(),
{
    FetchRecordedProperty {
        is_half_width: true,
        offset: 0,
        limit: RECORDED_LIMIT,
        is_reverse: Some(true),
        rule_id: None,
        channel_id: None,
        genre: None,
        keyword: None,
        has_original_file: None,
    }
}

/// Where a run stands when request number `at` of `requests` is due: it
/// hands that request out, or has finished where there is none.
pub open spec fn submit_from(requests: Seq<RequestEncodePropertyView>, at: nat) -> (
    StageView,
    ActionView,
) {
    if at < requests.len() {
        (
            StageView::Submitting { requests, current: at },
            ActionView::RequestEncode(requests[at as int]),
        )
    } else {
        (StageView::Finished, ActionView::Stop)
    }
}

/// The stage that follows `stage` on `event`, and what the caller is asked
/// to do.
pub open spec fn next(config: ConfigView, stage: StageView, event: Event) -> (
    StageView,
    ActionView,
) {
    match stage {
        StageView::Start => match event {
            Event::Begin => (
                StageView::AwaitingQueue,
                ActionView::FetchEncodeQueue { is_half_width: true },
            ),
            _ => (StageView::Aborted, ActionView::Stop),
        },
        StageView::AwaitingQueue => match event {
            Event::Queue(response) => (
                StageView::AwaitingRecords { queue: response@.queued() },
                ActionView::FetchRecorded(FetchRecordedPropertyView::everything()),
            ),
            _ => (StageView::Aborted, ActionView::Stop),
        },
        StageView::AwaitingRecords { queue } => match event {
            Event::Records(records) => submit_from(planned_requests(records@, queue, config), 0),
            _ => (StageView::Aborted, ActionView::Stop),
        },
        StageView::Submitting { requests, current } => match event {
            Event::Submitted => submit_from(requests, current + 1),
            _ => (StageView::Aborted, ActionView::Stop),
        },
        StageView::Finished => (StageView::Finished, ActionView::Stop),
        StageView::Aborted => (StageView::Aborted, ActionView::Stop),
    }
}

/// What the caller is asked to do, step by step, when a run stands at
/// `stage` and the caller reports `events` one after another.
pub open spec fn actions(config: ConfigView, stage: StageView, events: Seq<Event>) -> Seq<
    ActionView,
>
    decreases events.len(),
{
    if events.len() == 0 {
        seq![]
    } else {
        let (after, action) = next(config, stage, events[0]);
        seq![action] + actions(config, after, events.drop_first())
    }
}

/// `count` reports of an accepted encode request.
pub open spec fn successes(count: nat) -> Seq<Event> {
    Seq::new(count, |i: int| Event::Submitted)
}

/// The requests from `from` on, each as the action that hands it out.
pub open spec fn submissions(requests: Seq<RequestEncodePropertyView>, from: nat) -> Seq<
    ActionView,
> {
    requests.subrange(from as int, requests.len() as int).map_values(
        |request: RequestEncodePropertyView| ActionView::RequestEncode(request),
    )
}

/// While every request is accepted, a run that has handed out request number
/// `current` hands out the requests behind it one by one, in their order, and
/// then stops.
pub proof fn lemma_submits_the_rest_in_order(
    config: ConfigView,
    requests: Seq<RequestEncodePropertyView>,
    current: nat,
)
    requires
        current < requests.len(),
    ensures
        actions(
            config,
            StageView::Submitting { requests, current },
            successes((requests.len() - current) as nat),
        ) == submissions(requests, current + 1) + seq![ActionView::Stop],
    decreases requests.len() - current,
{
    let stage = StageView::Submitting { requests, current };
    let events = successes((requests.len() - current) as nat);
    let rest = events.drop_first();
    let (after, action) = next(config, stage, events[0]);
    assert(rest =~= successes((requests.len() - current - 1) as nat));
    if current + 1 < requests.len() {
        lemma_submits_the_rest_in_order(config, requests, current + 1);
        assert(seq![action] + (submissions(requests, current + 2) + seq![ActionView::Stop])
            =~= submissions(requests, current + 1) + seq![ActionView::Stop]);
    } else {
        assert(actions(config, after, rest) =~= seq![]);
        assert(seq![action] + Seq::<ActionView>::empty() =~= submissions(requests, current + 1)
            + seq![ActionView::Stop]);
    }
}

/// Once the recordings have come and while every request is accepted, a run
/// hands out exactly the planned requests, one for each candidate in the
/// order of the candidates, and then stops.
pub proof fn lemma_submits_the_plan_in_order(
    config: ConfigView,
    queue: Seq<RecordId>,
    records: Vec<Record>,
)
    ensures
        actions(
            config,
            StageView::AwaitingRecords { queue },
            seq![Event::Records(records)] + successes(
                planned_requests(records@, queue, config).len(),
            ),
        ) == submissions(planned_requests(records@, queue, config), 0) + seq![ActionView::Stop],
{
    let plan = planned_requests(records@, queue, config);
    let events = seq![Event::Records(records)] + successes(plan.len());
    let (after, action) = next(config, StageView::AwaitingRecords { queue }, events[0]);
    assert(events.drop_first() =~= successes(plan.len()));
    if plan.len() == 0 {
        assert(actions(config, after, events.drop_first()) =~= seq![]);
        assert(seq![action] + Seq::<ActionView>::empty() =~= submissions(plan, 0) + seq![
            ActionView::Stop,
        ]);
    } else {
        lemma_submits_the_rest_in_order(config, plan, 0);
        assert(seq![action] + (submissions(plan, 1) + seq![ActionView::Stop]) =~= submissions(
            plan,
            0,
        ) + seq![ActionView::Stop]);
    }
}

/// A run that has ended stays as it is and asks for nothing more, whatever
/// is reported to it.
pub proof fn lemma_ended_run_stays(config: ConfigView, stage: StageView, events: Seq<Event>)
    requires
        stage is Finished || stage is Aborted,
    ensures
        actions(config, stage, events) == Seq::new(events.len(), |i: int| ActionView::Stop),
    decreases events.len(),
{
    if events.len() > 0 {
        lemma_ended_run_stays(config, stage, events.drop_first());
    }
    assert(actions(config, stage, events) =~= Seq::new(events.len(), |i: int| ActionView::Stop));
}

/// A failure ends a run that has not finished: the run is aborted, and
/// neither this step nor any later one asks for anything more. In
/// particular no request is handed out behind one that failed.
pub proof fn lemma_failure_ends_the_run(config: ConfigView, stage: StageView, later: Seq<Event>)
    requires
        !(stage is Finished),
    ensures
        next(config, stage, Event::Failed) == (StageView::Aborted, ActionView::Stop),
        actions(config, stage, seq![Event::Failed] + later) == Seq::new(
            later.len() + 1,
            |i: int| ActionView::Stop,
        ),
{
    let events = seq![Event::Failed] + later;
    assert(events.drop_first() =~= later);
    lemma_ended_run_stays(config, StageView::Aborted, later);
    assert(actions(config, stage, events) =~= Seq::new(
        later.len() + 1,
        |i: int| ActionView::Stop,
    ));
}

/// A run: the settings it goes by and how far it has come.
#[derive(Debug)]
pub struct Run {
    pub config: Config,
    pub stage: Stage,
}

/// What a [`Run`] holds, with texts and lists as sequences.
pub struct RunView {
    pub config: ConfigView,
    pub stage: StageView,
}

impl View for Run {
    type V = RunView;

    open spec fn view(&self) -> RunView {
        RunView { config: self.config@, stage: self.stage@ }
    }
}

fn submit(requests: Vec<RequestEncodeProperty>, at: usize) -> (result: (Stage, Action))
    ensures
        (result.0@, result.1@) == submit_from(requests_view(requests@), at as nat),
{
    if at < requests.len() {
        let request = requests[at].clone();
        (Stage::Submitting { requests, current: at }, Action::RequestEncode(request))
    } else {
        (Stage::Finished, Action::Stop)
    }
}

impl Run {
    /// A run that has not begun.
    pub fn new(config: Config) -> (run: Run)
        ensures
            run@ == (RunView { config: config@, stage: StageView::Start }),
    {
        Run { config, stage: Stage::Start }
    }

    /// `true` when the run has ended, well or not.
    pub fn is_over(&self) -> (over: bool)
        ensures
            over == (self@.stage is Finished || self@.stage is Aborted),
    {
        match &self.stage {
            Stage::Finished => true,
            Stage::Aborted => true,
            _ => false,
        }
    }

    /// `true` when the run has ended because something failed.
    pub fn has_failed(&self) -> (failed: bool)
        ensures
            failed == (self@.stage is Aborted),
    {
        match &self.stage {
            Stage::Aborted => true,
            _ => false,
        }
    }

    /// Takes what the caller reports, moves the run on, and says what the
    /// caller is to do next. The settings stay as they are.
    pub fn step(&mut self, event: Event) -> (action: Action)
        ensures
            final(self)@.config == old(self)@.config,
            (final(self)@.stage, action@) == next(old(self)@.config, old(self)@.stage, event),
    {
        let mut stage = Stage::Aborted;
        core::mem::swap(&mut self.stage, &mut stage);
        let (stage_after, action) = match stage {
            Stage::Start => match event {
                Event::Begin => (
                    Stage::AwaitingQueue,
                    Action::FetchEncodeQueue { is_half_width: true },
                ),
                _ => (Stage::Aborted, Action::Stop),
            },
            Stage::AwaitingQueue => match event {
                Event::Queue(response) => (
                    Stage::AwaitingRecords { queue: encode_queue_record_ids(&response) },
                    Action::FetchRecorded(all_recorded_property()),
                ),
                _ => (Stage::Aborted, Action::Stop),
            },
            Stage::AwaitingRecords { queue } => match event {
                Event::Records(records) => {
                    let requests = plan_encode_requests(&records, &queue, &self.config);
                    submit(requests, 0)
                },
                _ => (Stage::Aborted, Action::Stop),
            },
            Stage::Submitting { requests, current } => match event {
                Event::Submitted => {
                    if current < requests.len() {
                        submit(requests, current + 1)
                    } else {
                        (Stage::Finished, Action::Stop)
                    }
                },
                _ => (Stage::Aborted, Action::Stop),
            },
            Stage::Finished => (Stage::Finished, Action::Stop),
            Stage::Aborted => (Stage::Aborted, Action::Stop),
        };
        self.stage = stage_after;
        action
    }
}

} // verus!
