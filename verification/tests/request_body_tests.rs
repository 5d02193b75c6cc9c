use search_queries::Query;
use search_queries::RequestBody;
use search_queries::json_text::render_json;
use search_queries::match_all_query::MatchAllQuery;
use search_queries::match_query::MatchQuery;

#[test]
fn lib_should_retrieve_valid_json() {
    let request_body = RequestBody::from_query(MatchAllQuery::new());

    assert_eq!(
        request_body.to_json().unwrap(),
        "{\"query\":{\"match_all\":{}}}"
    );
}

#[test]
fn request_body_wraps_a_match_query() {
    let query = MatchQuery::new("title".to_string(), "verse".to_string()).unwrap();
    let request_body = RequestBody::from_query(query);

    assert_eq!(
        request_body.to_json().unwrap(),
        "{\"query\":{\"match\":{\"title\":{\"query\":\"verse\"}}}}"
    );
}

#[test]
fn strings_are_escaped_in_the_rendered_text() {
    let mut query = MatchQuery::new("field".to_string(), "a\"b\\c\nd".to_string()).unwrap();
    query.set_analyzer("\u{1}".to_string());

    let text = render_json(&query.to_json());
    assert_eq!(
        text,
        "{\"match\":{\"field\":{\"query\":\"a\\\"b\\\\c\\u000ad\",\"analyzer\":\"\\u0001\"}}}"
    );

    let parsed: serde_json::Value = serde_json::from_str(&text).unwrap();
    let expected: serde_json::Value = serde_json::from_str(
        "{\"match\":{\"field\":{\"query\":\"a\\\"b\\\\c\\nd\",\"analyzer\":\"\\u0001\"}}}",
    )
    .unwrap();
    assert_eq!(parsed, expected);
}

#[test]
fn integers_render_in_decimal() {
    let mut query = MatchQuery::new("field".to_string(), "search".to_string()).unwrap();
    query.set_prefix_length(0);
    query.set_max_expansions(4294967295);

    assert_eq!(
        render_json(&query.to_json()),
        "{\"match\":{\"field\":{\"query\":\"search\",\"prefix_length\":0,\"max_expansions\":4294967295}}}"
    );
}
