use search_queries::json_text::render_json;
use search_queries::mono_field_query::MonoFieldQuery;
use search_queries::mono_field_query::ValidationError;

fn get_valid_instance() -> MonoFieldQuery {
    MonoFieldQuery::new("my_query", "field".to_string(), "search".to_string()).unwrap()
}

fn rendered(value: &search_queries::JsonValue) -> serde_json::Value {
    serde_json::from_str(&render_json(value)).unwrap()
}

#[test]
fn should_construct_with_props() {
    let query = get_valid_instance();

    assert_eq!(query.query_type, "my_query");
    assert_eq!(query.field, "field");
    assert_eq!(query.query_string, "search");
}

#[test]
fn should_return_error_when_query_type_is_empty() {
    let query = MonoFieldQuery::new("", "field".to_string(), "".to_string());

    query.unwrap_err();
}

#[test]
fn should_return_error_when_field_is_empty() {
    let query = MonoFieldQuery::new("my_type", "".to_string(), "".to_string());

    query.unwrap_err();
}

#[test]
fn mono_field_query_should_retrieve_valid_json() {
    let query = get_valid_instance();

    let expected: serde_json::Value =
        serde_json::from_str("{\"my_query\":{\"field\":{\"query\":\"search\"}}}").unwrap();
    assert_eq!(rendered(&query.to_json()), expected);
}

#[test]
fn empty_query_type_reports_that_error_first() {
    let err = MonoFieldQuery::new("", "".to_string(), "text".to_string()).unwrap_err();

    assert_eq!(err, ValidationError::EmptyQueryType);
}

#[test]
fn empty_field_reports_that_error() {
    let err = MonoFieldQuery::new("term", "".to_string(), "text".to_string()).unwrap_err();

    assert_eq!(err, ValidationError::EmptyField);
}

#[test]
fn get_field_returns_the_given_field() {
    let query = MonoFieldQuery::new("term", "title".to_string(), "text".to_string()).unwrap();

    assert_eq!(query.get_field().as_str(), "title");
}
