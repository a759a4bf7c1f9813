//! The requests that the recording server understands: for each, the method,
//! the path and the query parameters. Sending them is left to the caller.

use crate::decimal::{bool_text, bool_to_string, decimal_text, i64_to_string};
use crate::epgstation_api::model::{
    optional_parameter, optional_text, parameters_view, push_optional_parameter, push_parameter,
    FetchRecordedProperty, FetchRecordedPropertyView, Parameters, RuleFetchType,
};
use vstd::prelude::*;

verus! {

/// How a request is made.
#[derive(Clone, Copy, Debug, PartialEq, Eq, Structural)]
pub enum Method {
    Get,
    Post,
}

/// A request to the recording server, relative to the server's base address.
#[derive(Debug)]
pub struct Endpoint {
    pub method: Method,
    /// The path that takes the place of the base address's path.
    pub path: String,
    /// `true`: `query` takes the place of the base address's query.
    /// `false`: `query` is put behind what the base address has.
    pub replaces_query: bool,
    /// The query parameters, in the order in which they are sent.
    pub query: Vec<(String, String)>,
}

/// What an [`Endpoint`] holds, with texts and lists as sequences.
pub struct EndpointView {
    pub method: Method,
    pub path: Seq<char>,
    pub replaces_query: bool,
    pub query: Parameters,
}

impl View for Endpoint {
    type V = EndpointView;

    open spec fn view(&self) -> EndpointView {
        EndpointView {
            method: self.method,
            path: self.path@,
            replaces_query: self.replaces_query,
            query: parameters_view(self.query@),
        }
    }
}

/// The text of an optional kind of rules.
pub open spec fn optional_kind_text(kind: Option<RuleFetchType>) -> Option<Seq<char>> {
    match kind {
        Some(kind) => Some(kind.text()),
        None => None,
    }
}

impl EndpointView {
    /// The request for recordings: the selection is the whole query.
    pub open spec fn recorded(property: FetchRecordedPropertyView) -> EndpointView {
        EndpointView {
            method: Method::Get,
            path: "/api/recorded"@,
            replaces_query: true,
            query: property.parameters(),
        }
    }

    /// The request for the encode queue.
    pub open spec fn encode_queue(is_half_width: bool) -> EndpointView {
        EndpointView {
            method: Method::Get,
            path: "/api/encode"@,
            replaces_query: false,
            query: seq![("isHalfWidth"@, bool_text(is_half_width))],
        }
    }

    /// The request that puts a recording into the encode queue. What is to be
    /// encoded travels in the body, not in the query.
    pub open spec fn encode_request() -> EndpointView {
        EndpointView {
            method: Method::Post,
            path: "/api/encode"@,
            replaces_query: false,
            query: seq![],
        }
    }

    /// The request for recording rules: where to start and how many, then the
    /// kind and the keyword where they are given.
    pub open spec fn rules(
        offset: i64,
        limit: i64,
        kind: Option<RuleFetchType>,
        keyword: Option<Seq<char>>,
    ) -> EndpointView {
        EndpointView {
            method: Method::Get,
            path: "/api/rules"@,
            replaces_query: false,
            query: seq![
                ("offset"@, decimal_text(offset as int)),
                ("limit"@, decimal_text(limit as int)),
            ] + optional_parameter("type"@, optional_kind_text(kind)) + optional_parameter(
                "keyword"@,
                keyword,
            ),
        }
    }
}

/// Describes the request for the recordings that `property` selects.
pub fn recorded_endpoint(property: &FetchRecordedProperty) -> (endpoint: Endpoint)
    ensures
        endpoint@ == EndpointView::recorded(property@),
{
    Endpoint {
        method: Method::Get,
        path: "/api/recorded".to_owned(),
        replaces_query: true,
        query: property.to_parameter(),
    }
}

/// Describes the request for the encode queue.
pub fn encode_queue_endpoint(is_half_width: bool) -> (endpoint: Endpoint)
    ensures
        endpoint@ == EndpointView::encode_queue(is_half_width),
{
    let mut query: Vec<(String, String)> = Vec::new();
    assert(parameters_view(query@) =~= Seq::empty());
    push_parameter(&mut query, "isHalfWidth", bool_to_string(is_half_width));
    assert(parameters_view(query@) =~= seq![("isHalfWidth"@, bool_text(is_half_width))]);
    Endpoint { method: Method::Get, path: "/api/encode".to_owned(), replaces_query: false, query }
}

/// Describes the request that puts a recording into the encode queue.
pub fn encode_request_endpoint() -> (endpoint: Endpoint)
    ensures
        endpoint@ == EndpointView::encode_request(),
{
    let query: Vec<(String, String)> = Vec::new();
    assert(parameters_view(query@) =~= seq![]);
    Endpoint { method: Method::Post, path: "/api/encode".to_owned(), replaces_query: false, query }
}

fn optional_kind_string(kind: &Option<RuleFetchType>) -> (text: Option<String>)
    ensures
        optional_text(text) == optional_kind_text(*kind),
{
    match kind {
        Some(kind) => Some(kind.to_string()),
        None => None,
    }
}

/// Describes the request for `limit` recording rules from `offset` on, of
/// the kind `type_` and with `keyword`, where they are given.
pub fn rules_endpoint(
    offset: i64,
    limit: i64,
    type_: Option<RuleFetchType>,
    keyword: Option<String>,
) -> (endpoint: Endpoint)
    ensures
        endpoint@ == EndpointView::rules(offset, limit, type_, optional_text(keyword)),
{
    let mut query: Vec<(String, String)> = Vec::new();
    assert(parameters_view(query@) =~= Seq::empty());
    push_parameter(&mut query, "offset", i64_to_string(offset));
    push_parameter(&mut query, "limit", i64_to_string(limit));
    assert(parameters_view(query@) =~= seq![
        ("offset"@, decimal_text(offset as int)),
        ("limit"@, decimal_text(limit as int)),
    ]);
    push_optional_parameter(&mut query, "type", optional_kind_string(&type_));
    push_optional_parameter(&mut query, "keyword", keyword);
    Endpoint { method: Method::Get, path: "/api/rules".to_owned(), replaces_query: false, query }
}

} // verus!
