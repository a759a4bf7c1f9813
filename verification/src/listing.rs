//! The listing of the server's recording rules, which helps to write the
//! rule list of the settings.

use crate::decimal::{decimal_text, pad_left, pad_left_to, u64_to_string};
use crate::epgstation_api::api::{rules_endpoint, Endpoint, EndpointView};
use crate::epgstation_api::model::{Rule, RuleView};
use vstd::prelude::*;

verus! {

/// The most rules that one listing asks for.
pub const LISTING_LIMIT: i64 = 1000000;

/// The width to which the identifiers of a listing are padded.
pub const ID_WIDTH: usize = 3;

/// The line of a listing for one rule: the identifier, padded with spaces in
/// front to three characters, a bar, and the keyword that the rule searches.
pub open spec fn listing_line(rule: RuleView) -> Seq<char> {
    pad_left(decimal_text(rule.id as int), ID_WIDTH as nat) + " | "@ + rule.search_option.keyword
}

/// Describes the request for all rules of a listing.
pub fn listing_endpoint() -> (endpoint: Endpoint)
    ensures
        endpoint@ == EndpointView::rules(0, LISTING_LIMIT, None, None),
{
    rules_endpoint(0, LISTING_LIMIT, None, None)
}

/// The first line of a listing, which names the columns.
pub fn rule_listing_header() -> (line: String)
    ensures
        line@ == "ID  | Keyword"@,
{
    "ID  | Keyword".to_owned()
}

/// Writes the line of a listing for one rule.
pub fn rule_listing_line(rule: &Rule) -> (line: String)
    ensures
        line@ == listing_line(rule@),
{
    let id = pad_left_to(u64_to_string(rule.id), ID_WIDTH);
    id.concat(" | ").concat(rule.search_option.keyword.as_str())
}

} // verus!
