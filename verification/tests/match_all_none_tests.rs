use search_queries::Query;
use search_queries::json_text::render_json;
use search_queries::match_all_query::MatchAllQuery;
use search_queries::match_none_query::MatchNoneQuery;

#[test]
fn should_return_match_all_from_type() {
    let query = MatchAllQuery::new();

    assert_eq!(query.get_type(), "match_all")
}

#[test]
fn match_all_query_should_retrieve_valid_json() {
    let query = MatchAllQuery::new();

    assert_eq!(render_json(&query.to_json()), "{\"match_all\":{}}");
}

#[test]
fn should_return_match_none_from_type() {
    let query = MatchNoneQuery;

    assert_eq!(query.get_type(), "match_none")
}

#[test]
fn match_none_query_should_retrieve_valid_json() {
    let query = MatchNoneQuery;

    let rendered: serde_json::Value =
        serde_json::from_str(&render_json(&query.to_json())).unwrap();
    let expected: serde_json::Value = serde_json::from_str("{ \"match_none\": { } }").unwrap();
    assert_eq!(rendered, expected);
}
