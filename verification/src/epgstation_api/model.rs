//! The data that travels between this program and the recording server, each
//! type with the mathematical value that contracts speak of.

use crate::decimal::{bool_text, bool_to_string, decimal_text, i32_to_string, u64_to_string};
use vstd::prelude::*;

verus! {

pub type RecordId = u64;

pub type VideoFileId = u64;

pub type ChannelId = u64;

pub type RuleId = u64;

pub type ProgramId = u64;

pub type ThumbnailId = u64;

pub type EncodeId = u64;

/// A list of name and value pairs, as texts.
pub type Parameters = Seq<(Seq<char>, Seq<char>)>;

/// The texts of a list of name and value pairs.
pub open spec fn parameters_view(pairs: Seq<(String, String)>) -> Parameters {
    pairs.map_values(|pair: (String, String)| (pair.0@, pair.1@))
}

/// The text of an optional string.
pub open spec fn optional_text(text: Option<String>) -> Option<Seq<char>> {
    match text {
        Some(text) => Some(text@),
        None => None,
    }
}

/// One media file of a recording.
#[derive(Debug)]
pub struct VideoFile {
    pub id: VideoFileId,
    pub name: String,
    pub filename: String,
    pub type_: String,
    pub size: usize,
}

/// What a [`VideoFile`] holds, with texts and lists as sequences.
pub struct VideoFileView {
    pub id: VideoFileId,
    pub name: Seq<char>,
    pub filename: Seq<char>,
    pub type_: Seq<char>,
    pub size: usize,
}

impl View for VideoFile {
    type V = VideoFileView;

    open spec fn view(&self) -> VideoFileView {
        VideoFileView {
            id: self.id,
            name: self.name@,
            filename: self.filename@,
            type_: self.type_@,
            size: self.size,
        }
    }
}

/// A completed capture that the recording server keeps track of.
#[derive(Debug)]
pub struct Record {
    pub id: RecordId,
    pub channel_id: ChannelId,
    pub start_at: u64,
    pub end_at: u64,
    pub name: String,
    pub is_recording: bool,
    pub is_encoding: bool,
    pub is_protected: bool,
    pub rule_id: Option<RuleId>,
    pub program_id: ProgramId,
    pub description: Option<String>,
    pub extended: Option<String>,
    pub genre1: Option<u16>,
    pub sub_genre1: Option<u16>,
    pub video_type: String,
    pub video_resolution: String,
    pub video_stream_content: i32,
    pub video_component_type: i32,
    pub audio_sampling_rate: u32,
    pub audio_component_type: u8,
    pub thumbnails: Vec<ThumbnailId>,
    pub video_files: Vec<VideoFile>,
}

/// What a [`Record`] holds, with texts and lists as sequences.
pub struct RecordView {
    pub id: RecordId,
    pub channel_id: ChannelId,
    pub start_at: u64,
    pub end_at: u64,
    pub name: Seq<char>,
    pub is_recording: bool,
    pub is_encoding: bool,
    pub is_protected: bool,
    pub rule_id: Option<RuleId>,
    pub program_id: ProgramId,
    pub description: Option<Seq<char>>,
    pub extended: Option<Seq<char>>,
    pub genre1: Option<u16>,
    pub sub_genre1: Option<u16>,
    pub video_type: Seq<char>,
    pub video_resolution: Seq<char>,
    pub video_stream_content: i32,
    pub video_component_type: i32,
    pub audio_sampling_rate: u32,
    pub audio_component_type: u8,
    pub thumbnails: Seq<ThumbnailId>,
    pub video_files: Seq<VideoFileView>,
}

impl View for Record {
    type V = RecordView;

    open spec fn view(&self) -> RecordView {
        RecordView {
            id: self.id,
            channel_id: self.channel_id,
            start_at: self.start_at,
            end_at: self.end_at,
            name: self.name@,
            is_recording: self.is_recording,
            is_encoding: self.is_encoding,
            is_protected: self.is_protected,
            rule_id: self.rule_id,
            program_id: self.program_id,
            description: optional_text(self.description),
            extended: optional_text(self.extended),
            genre1: self.genre1,
            sub_genre1: self.sub_genre1,
            video_type: self.video_type@,
            video_resolution: self.video_resolution@,
            video_stream_content: self.video_stream_content,
            video_component_type: self.video_component_type,
            audio_sampling_rate: self.audio_sampling_rate,
            audio_component_type: self.audio_component_type,
            thumbnails: self.thumbnails@,
            video_files: self.video_files@.map_values(|file: VideoFile| file@),
        }
    }
}

/// The values of a list of recordings.
pub open spec fn records_view(records: Seq<Record>) -> Seq<RecordView> {
    records.map_values(|record: Record| record@)
}

/// The answer of the server to a request for recordings.
#[derive(Debug)]
pub struct RecordedEndpointResponse {
    pub records: Vec<Record>,
    pub total: usize,
}

/// What a [`RecordedEndpointResponse`] holds, with texts and lists as sequences.
pub struct RecordedEndpointResponseView {
    pub records: Seq<RecordView>,
    pub total: usize,
}

impl View for RecordedEndpointResponse {
    type V = RecordedEndpointResponseView;

    open spec fn view(&self) -> RecordedEndpointResponseView {
        RecordedEndpointResponseView { records: records_view(self.records@), total: self.total }
    }
}

/// A request to encode one media file of a recording.
#[derive(Debug)]
pub struct RequestEncodeProperty {
    pub recorded_id: RecordId,
    pub source_video_file_id: VideoFileId,
    pub parent_dir: String,
    pub mode: String,
    pub remove_original: bool,
}

/// What a [`RequestEncodeProperty`] holds, with texts and lists as sequences.
pub struct RequestEncodePropertyView {
    pub recorded_id: RecordId,
    pub source_video_file_id: VideoFileId,
    pub parent_dir: Seq<char>,
    pub mode: Seq<char>,
    pub remove_original: bool,
}

impl View for RequestEncodeProperty {
    type V = RequestEncodePropertyView;

    open spec fn view(&self) -> RequestEncodePropertyView {
        RequestEncodePropertyView {
            recorded_id: self.recorded_id,
            source_video_file_id: self.source_video_file_id,
            parent_dir: self.parent_dir@,
            mode: self.mode@,
            remove_original: self.remove_original,
        }
    }
}

impl Clone for RequestEncodeProperty {
    fn clone(&self) -> (copy: Self)
        ensures
            copy@ == self@,
    {
        RequestEncodeProperty {
            recorded_id: self.recorded_id,
            source_video_file_id: self.source_video_file_id,
            parent_dir: self.parent_dir.clone(),
            mode: self.mode.clone(),
            remove_original: self.remove_original,
        }
    }
}

/// The values of a list of encode requests.
pub open spec fn requests_view(requests: Seq<RequestEncodeProperty>) -> Seq<
    RequestEncodePropertyView,
> {
    requests.map_values(|request: RequestEncodeProperty| request@)
}

/// One entry of the server's encode queue.
#[derive(Debug)]
pub struct EncodeItem {
    pub id: EncodeId,
    pub mode: String,
    pub recorded: Record,
    pub percent: Option<u64>,
    pub log: Option<String>,
}

/// What an [`EncodeItem`] holds, with texts and lists as sequences.
pub struct EncodeItemView {
    pub id: EncodeId,
    pub mode: Seq<char>,
    pub recorded: RecordView,
    pub percent: Option<u64>,
    pub log: Option<Seq<char>>,
}

impl View for EncodeItem {
    type V = EncodeItemView;

    open spec fn view(&self) -> EncodeItemView {
        EncodeItemView {
            id: self.id,
            mode: self.mode@,
            recorded: self.recorded@,
            percent: self.percent,
            log: optional_text(self.log),
        }
    }
}

/// The server's encode queue: what is being encoded and what waits for it.
#[derive(Debug)]
pub struct FetchEncodeResponse {
    pub running_items: Vec<EncodeItem>,
    pub wait_items: Vec<EncodeItem>,
}

/// What a [`FetchEncodeResponse`] holds, with texts and lists as sequences.
pub struct FetchEncodeResponseView {
    pub running_items: Seq<EncodeItemView>,
    pub wait_items: Seq<EncodeItemView>,
}

impl View for FetchEncodeResponse {
    type V = FetchEncodeResponseView;

    open spec fn view(&self) -> FetchEncodeResponseView {
        FetchEncodeResponseView {
            running_items: self.running_items@.map_values(|item: EncodeItem| item@),
            wait_items: self.wait_items@.map_values(|item: EncodeItem| item@),
        }
    }
}

/// Which recordings to ask the server for.
#[derive(Debug)]
pub struct FetchRecordedProperty {
    pub is_half_width: bool,
    pub offset: i32,
    pub limit: i32,
    pub is_reverse: Option<bool>,
    pub rule_id: Option<RuleId>,
    pub channel_id: Option<ChannelId>,
    pub genre: Option<i32>,
    pub keyword: Option<String>,
    pub has_original_file: Option<bool>,
}

/// What a [`FetchRecordedProperty`] holds, with texts and lists as sequences.
pub struct FetchRecordedPropertyView {
    pub is_half_width: bool,
    pub offset: i32,
    pub limit: i32,
    pub is_reverse: Option<bool>,
    pub rule_id: Option<RuleId>,
    pub channel_id: Option<ChannelId>,
    pub genre: Option<i32>,
    pub keyword: Option<Seq<char>>,
    pub has_original_file: Option<bool>,
}

impl View for FetchRecordedProperty {
    type V = FetchRecordedPropertyView;

    open spec fn view(&self) -> FetchRecordedPropertyView {
        FetchRecordedPropertyView {
            is_half_width: self.is_half_width,
            offset: self.offset,
            limit: self.limit,
            is_reverse: self.is_reverse,
            rule_id: self.rule_id,
            channel_id: self.channel_id,
            genre: self.genre,
            keyword: optional_text(self.keyword),
            has_original_file: self.has_original_file,
        }
    }
}

/// No pair where the value is absent, the pair of `name` and the value
/// where it is present.
pub open spec fn optional_parameter(name: Seq<char>, value: Option<Seq<char>>) -> Parameters {
    match value {
        Some(text) => seq![(name, text)],
        None => seq![],
    }
}

/// The text of an optional boolean.
pub open spec fn optional_bool_text(value: Option<bool>) -> Option<Seq<char>> {
    match value {
        Some(flag) => Some(bool_text(flag)),
        None => None,
    }
}

/// The decimal text of an optional integer.
pub open spec fn optional_decimal_text(value: Option<int>) -> Option<Seq<char>> {
    match value {
        Some(number) => Some(decimal_text(number)),
        None => None,
    }
}

/// An optional machine integer as an optional mathematical one.
pub open spec fn optional_u64(value: Option<u64>) -> Option<int> {
    match value {
        Some(number) => Some(number as int),
        None => None,
    }
}

/// An optional machine integer as an optional mathematical one.
pub open spec fn optional_i32(value: Option<i32>) -> Option<int> {
    match value {
        Some(number) => Some(number as int),
        None => None,
    }
}

impl FetchRecordedPropertyView {
    /// The query parameters that carry this selection: the three that are
    /// always sent, then each filter that is present, in a fixed order.
    pub open spec fn parameters(self) -> Parameters {
        seq![
            ("isHalfWidth"@, bool_text(self.is_half_width)),
            ("offset"@, decimal_text(self.offset as int)),
            ("limit"@, decimal_text(self.limit as int)),
        ] + optional_parameter("isReverse"@, optional_bool_text(self.is_reverse))
            + optional_parameter("ruleId"@, optional_decimal_text(optional_u64(self.rule_id)))
            + optional_parameter(
            "channelId"@,
            optional_decimal_text(optional_u64(self.channel_id)),
        ) + optional_parameter("genre"@, optional_decimal_text(optional_i32(self.genre)))
            + optional_parameter("keyword"@, self.keyword) + optional_parameter(
            "hasOriginalFile"@,
            optional_bool_text(self.has_original_file),
        )
    }

    /// The selection that asks for the first 24 recordings, with no filter.
    pub open spec fn initial() -> FetchRecordedPropertyView {
        FetchRecordedPropertyView {
            is_half_width: true,
            offset: 0,
            limit: 24,
            is_reverse: None,
            rule_id: None,
            channel_id: None,
            genre: None,
            keyword: None,
            has_original_file: None,
        }
    }
}

/// Puts one pair behind the others.
pub(crate) fn push_parameter(params: &mut Vec<(String, String)>, name: &str, value: String)
    ensures
        parameters_view(final(params)@) == parameters_view(old(params)@).push((name@, value@)),
{
    params.push((name.to_owned(), value));
    assert(parameters_view(params@) =~= parameters_view(old(params)@).push((name@, value@)));
}

/// Puts the pair of `name` and the value behind the others, where the value
/// is present.
pub(crate) fn push_optional_parameter(params: &mut Vec<(String, String)>, name: &str, value: Option<String>)
    ensures
        parameters_view(final(params)@) == parameters_view(old(params)@) + optional_parameter(
            name@,
            optional_text(value),
        ),
{
    match value {
        Some(text) => {
            push_parameter(params, name, text);
            assert(parameters_view(params@) =~= parameters_view(old(params)@) + seq![
                (name@, text@),
            ]);
        },
        None => {
            assert(parameters_view(params@) =~= parameters_view(old(params)@) + seq![]);
        },
    }
}

fn optional_bool_string(value: Option<bool>) -> (text: Option<String>)
    ensures
        optional_text(text) == optional_bool_text(value),
{
    match value {
        Some(flag) => Some(bool_to_string(flag)),
        None => None,
    }
}

fn optional_u64_string(value: Option<u64>) -> (text: Option<String>)
    ensures
        optional_text(text) == optional_decimal_text(optional_u64(value)),
{
    match value {
        Some(number) => Some(u64_to_string(number)),
        None => None,
    }
}

fn optional_i32_string(value: Option<i32>) -> (text: Option<String>)
    ensures
        optional_text(text) == optional_decimal_text(optional_i32(value)),
{
    match value {
        Some(number) => Some(i32_to_string(number)),
        None => None,
    }
}

fn optional_string_copy(value: &Option<String>) -> (text: Option<String>)
    ensures
        optional_text(text) == optional_text(*value),
{
    match value {
        Some(text) => Some(text.clone()),
        None => None,
    }
}

fn fixed_parameters(is_half_width: bool, offset: i32, limit: i32) -> (params: Vec<(String, String)>)
    ensures
        parameters_view(params@) == seq![
            ("isHalfWidth"@, bool_text(is_half_width)),
            ("offset"@, decimal_text(offset as int)),
            ("limit"@, decimal_text(limit as int)),
        ],
{
    let mut params: Vec<(String, String)> = Vec::new();
    assert(parameters_view(params@) =~= Seq::empty());
    push_parameter(&mut params, "isHalfWidth", bool_to_string(is_half_width));
    push_parameter(&mut params, "offset", i32_to_string(offset));
    push_parameter(&mut params, "limit", i32_to_string(limit));
    assert(parameters_view(params@) =~= seq![
        ("isHalfWidth"@, bool_text(is_half_width)),
        ("offset"@, decimal_text(offset as int)),
        ("limit"@, decimal_text(limit as int)),
    ]);
    params
}

impl FetchRecordedProperty {
    /// The query parameters of a request for recordings, in the order in
    /// which they are sent.
    pub fn to_parameter(&self) -> (params: Vec<(String, String)>)
        ensures
            parameters_view(params@) == self@.parameters(),
    {
        let mut params = fixed_parameters(self.is_half_width, self.offset, self.limit);
        push_optional_parameter(&mut params, "isReverse", optional_bool_string(self.is_reverse));
        push_optional_parameter(&mut params, "ruleId", optional_u64_string(self.rule_id));
        push_optional_parameter(&mut params, "channelId", optional_u64_string(self.channel_id));
        push_optional_parameter(&mut params, "genre", optional_i32_string(self.genre));
        push_optional_parameter(&mut params, "keyword", optional_string_copy(&self.keyword));
        push_optional_parameter(
            &mut params,
            "hasOriginalFile",
            optional_bool_string(self.has_original_file),
        );
        params
    }
}

impl Default for FetchRecordedProperty {
    fn default() -> (property: Self)
        ensures
            property@ == FetchRecordedPropertyView::initial(),
    {
        FetchRecordedProperty {
            is_half_width: true,
            offset: 0,
            limit: 24,
            is_reverse: None,
            rule_id: None,
            channel_id: None,
            genre: None,
            keyword: None,
            has_original_file: None,
        }
    }
}

impl Clone for FetchRecordedProperty {
    fn clone(&self) -> (copy: Self)
        ensures
            copy@ == self@,
    {
        FetchRecordedProperty {
            is_half_width: self.is_half_width,
            offset: self.offset,
            limit: self.limit,
            is_reverse: self.is_reverse,
            rule_id: self.rule_id,
            channel_id: self.channel_id,
            genre: self.genre,
            keyword: optional_string_copy(&self.keyword),
            has_original_file: self.has_original_file,
        }
    }
}

/// Which kind of recording rules to ask the server for.
pub enum RuleFetchType {
    All,
    Normal,
    Conflict,
    Skip,
    Overlap,
}

impl RuleFetchType {
    /// The word by which the server knows this kind.
    pub open spec fn text(self) -> Seq<char> {
        match self {
            RuleFetchType::All => "all"@,
            RuleFetchType::Normal => "normal"@,
            RuleFetchType::Conflict => "conflict"@,
            RuleFetchType::Skip => "skip"@,
            RuleFetchType::Overlap => "overlap"@,
        }
    }

    /// The word by which the server knows this kind.
    pub fn to_string(&self) -> (text: String)
        ensures
            text@ == self.text(),
    {
        match self {
            RuleFetchType::All => "all".to_owned(),
            RuleFetchType::Normal => "normal".to_owned(),
            RuleFetchType::Conflict => "conflict".to_owned(),
            RuleFetchType::Skip => "skip".to_owned(),
            RuleFetchType::Overlap => "overlap".to_owned(),
        }
    }
}

/// What a recording rule searches for.
#[derive(Debug)]
pub struct RuleSearchOption {
    pub keyword: String,
    pub ignore_keyword: Option<String>,
}

/// What a [`RuleSearchOption`] holds, with texts and lists as sequences.
pub struct RuleSearchOptionView {
    pub keyword: Seq<char>,
    pub ignore_keyword: Option<Seq<char>>,
}

impl View for RuleSearchOption {
    type V = RuleSearchOptionView;

    open spec fn view(&self) -> RuleSearchOptionView {
        RuleSearchOptionView {
            keyword: self.keyword@,
            ignore_keyword: optional_text(self.ignore_keyword),
        }
    }
}

/// A recording rule of the server, as far as this program reads it.
#[derive(Debug)]
pub struct Rule {
    pub is_time_specification: bool,
    pub search_option: RuleSearchOption,
    pub id: RuleId,
}

/// What a [`Rule`] holds, with texts and lists as sequences.
pub struct RuleView {
    pub is_time_specification: bool,
    pub search_option: RuleSearchOptionView,
    pub id: RuleId,
}

impl View for Rule {
    type V = RuleView;

    open spec fn view(&self) -> RuleView {
        RuleView {
            is_time_specification: self.is_time_specification,
            search_option: self.search_option@,
            id: self.id,
        }
    }
}

/// The answer of the server to a request for recording rules.
#[derive(Debug)]
pub struct FetchRulesResponse {
    pub rules: Vec<Rule>,
    pub total: usize,
}

/// What a [`FetchRulesResponse`] holds, with texts and lists as sequences.
pub struct FetchRulesResponseView {
    pub rules: Seq<RuleView>,
    pub total: usize,
}

impl View for FetchRulesResponse {
    type V = FetchRulesResponseView;

    open spec fn view(&self) -> FetchRulesResponseView {
        FetchRulesResponseView {
            rules: self.rules@.map_values(|rule: Rule| rule@),
            total: self.total,
        }
    }
}

} // verus!
