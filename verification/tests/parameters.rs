use epgstation_encode::epgstation_api::api::{
    encode_queue_endpoint, encode_request_endpoint, recorded_endpoint, rules_endpoint, Method,
};
use epgstation_encode::epgstation_api::model::{FetchRecordedProperty, RuleFetchType};
use epgstation_encode::pipeline::all_recorded_property;

fn pairs(list: &[(&str, &str)]) -> Vec<(String, String)> {
    let mut owned = Vec::new();
    for (name, value) in list {
        owned.push((name.to_string(), value.to_string()));
    }
    owned
}

#[test]
fn default_selection_asks_for_the_first_24() {
    let property = FetchRecordedProperty::default();
    assert!(property.is_half_width);
    assert_eq!(property.offset, 0);
    assert_eq!(property.limit, 24);
    assert_eq!(property.is_reverse, None);
    assert_eq!(property.rule_id, None);
    assert_eq!(property.channel_id, None);
    assert_eq!(property.genre, None);
    assert_eq!(property.keyword, None);
    assert_eq!(property.has_original_file, None);
}

#[test]
fn default_selection_has_three_parameters() {
    assert_eq!(
        FetchRecordedProperty::default().to_parameter(),
        pairs(&[("isHalfWidth", "true"), ("offset", "0"), ("limit", "24")])
    );
}

#[test]
fn full_selection_lists_every_parameter_in_order() {
    let property = FetchRecordedProperty {
        is_half_width: false,
        offset: 48,
        limit: 12,
        is_reverse: Some(false),
        rule_id: Some(17),
        channel_id: Some(3273601024),
        genre: Some(-1),
        keyword: Some("news & weather".to_string()),
        has_original_file: Some(true),
    };
    assert_eq!(
        property.to_parameter(),
        pairs(&[
            ("isHalfWidth", "false"),
            ("offset", "48"),
            ("limit", "12"),
            ("isReverse", "false"),
            ("ruleId", "17"),
            ("channelId", "3273601024"),
            ("genre", "-1"),
            ("keyword", "news & weather"),
            ("hasOriginalFile", "true"),
        ])
    );
}

#[test]
fn absent_filters_leave_no_gap() {
    let property = FetchRecordedProperty {
        is_half_width: true,
        offset: -5,
        limit: i32::MAX,
        is_reverse: None,
        rule_id: Some(0),
        channel_id: None,
        genre: Some(i32::MIN),
        keyword: None,
        has_original_file: Some(false),
    };
    assert_eq!(
        property.to_parameter(),
        pairs(&[
            ("isHalfWidth", "true"),
            ("offset", "-5"),
            ("limit", "2147483647"),
            ("ruleId", "0"),
            ("genre", "-2147483648"),
            ("hasOriginalFile", "false"),
        ])
    );
}

#[test]
fn empty_keyword_is_still_sent() {
    let property = FetchRecordedProperty {
        keyword: Some(String::new()),
        ..FetchRecordedProperty::default()
    };
    assert_eq!(
        property.to_parameter(),
        pairs(&[("isHalfWidth", "true"), ("offset", "0"), ("limit", "24"), ("keyword", "")])
    );
}

#[test]
fn cloned_selection_has_the_same_parameters() {
    let property = FetchRecordedProperty {
        is_half_width: false,
        offset: 1,
        limit: 2,
        is_reverse: Some(true),
        rule_id: Some(3),
        channel_id: Some(4),
        genre: Some(5),
        keyword: Some("six".to_string()),
        has_original_file: Some(false),
    };
    let copy = property.clone();
    assert_eq!(copy.to_parameter(), property.to_parameter());
    assert_eq!(copy.to_parameter().len(), 9);
}

#[test]
fn selection_of_a_run_asks_for_everything_newest_first() {
    let property = all_recorded_property();
    assert_eq!(
        property.to_parameter(),
        pairs(&[
            ("isHalfWidth", "true"),
            ("offset", "0"),
            ("limit", "100000000"),
            ("isReverse", "true"),
        ])
    );
}

#[test]
fn kinds_of_rules_have_their_words() {
    assert_eq!(RuleFetchType::All.to_string(), "all");
    assert_eq!(RuleFetchType::Normal.to_string(), "normal");
    assert_eq!(RuleFetchType::Conflict.to_string(), "conflict");
    assert_eq!(RuleFetchType::Skip.to_string(), "skip");
    assert_eq!(RuleFetchType::Overlap.to_string(), "overlap");
}

#[test]
fn recorded_endpoint_replaces_the_query_with_the_selection() {
    let property = FetchRecordedProperty {
        rule_id: Some(8),
        ..FetchRecordedProperty::default()
    };
    let endpoint = recorded_endpoint(&property);
    assert_eq!(endpoint.method, Method::Get);
    assert_eq!(endpoint.path, "/api/recorded");
    assert!(endpoint.replaces_query);
    assert_eq!(endpoint.query, property.to_parameter());
    assert_eq!(endpoint.query.len(), 4);
}

#[test]
fn encode_queue_endpoint_sends_the_width_flag() {
    let endpoint = encode_queue_endpoint(true);
    assert_eq!(endpoint.method, Method::Get);
    assert_eq!(endpoint.path, "/api/encode");
    assert!(!endpoint.replaces_query);
    assert_eq!(endpoint.query, pairs(&[("isHalfWidth", "true")]));
    assert_eq!(encode_queue_endpoint(false).query, pairs(&[("isHalfWidth", "false")]));
}

#[test]
fn encode_request_endpoint_posts_without_parameters() {
    let endpoint = encode_request_endpoint();
    assert_eq!(endpoint.method, Method::Post);
    assert_eq!(endpoint.path, "/api/encode");
    assert!(!endpoint.replaces_query);
    assert!(endpoint.query.is_empty());
}

#[test]
fn rules_endpoint_sends_offset_and_limit() {
    let endpoint = rules_endpoint(0, 1000000, None, None);
    assert_eq!(endpoint.method, Method::Get);
    assert_eq!(endpoint.path, "/api/rules");
    assert!(!endpoint.replaces_query);
    assert_eq!(endpoint.query, pairs(&[("offset", "0"), ("limit", "1000000")]));
}

#[test]
fn rules_endpoint_sends_kind_and_keyword_where_given() {
    let both = rules_endpoint(
        -3,
        i64::MAX,
        Some(RuleFetchType::Conflict),
        Some("drama".to_string()),
    );
    assert_eq!(
        both.query,
        pairs(&[
            ("offset", "-3"),
            ("limit", "9223372036854775807"),
            ("type", "conflict"),
            ("keyword", "drama"),
        ])
    );
    let kind_only = rules_endpoint(10, 20, Some(RuleFetchType::Overlap), None);
    assert_eq!(
        kind_only.query,
        pairs(&[("offset", "10"), ("limit", "20"), ("type", "overlap")])
    );
    let keyword_only = rules_endpoint(i64::MIN, 0, None, Some(String::new()));
    assert_eq!(
        keyword_only.query,
        pairs(&[("offset", "-9223372036854775808"), ("limit", "0"), ("keyword", "")])
    );
}
