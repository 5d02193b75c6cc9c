use search_queries::Query;
use search_queries::common::Operator;
use search_queries::json_text::render_json;
use search_queries::simple_query_string_query::SimpleQueryStringQuery;

fn get_valid_instance() -> SimpleQueryStringQuery {
    SimpleQueryStringQuery::new("test".to_string())
}

fn rendered(query: SimpleQueryStringQuery) -> serde_json::Value {
    serde_json::from_str(&render_json(&query.to_json())).unwrap()
}

fn expected(text: &str) -> serde_json::Value {
    serde_json::from_str(text).unwrap()
}

#[test]
fn should_set_flag() {
    let mut query = get_valid_instance();

    query.set_flags("AND|OR".to_string());

    assert_eq!(
        rendered(query),
        expected("{ \"simple_query_string\": { \"query\": \"test\", \"flags\": \"AND|OR\" } }")
    );
}

#[test]
fn should_set_fields() {
    let mut query = get_valid_instance();

    query.set_fields(vec!["test".to_string(), "test2".to_string()]);

    assert_eq!(
        rendered(query),
        expected(
            "{ \"simple_query_string\": { \"query\": \"test\", \"fields\": [\"test\", \"test2\"] } }"
        )
    );
}

#[test]
fn simple_query_string_query_should_set_analyzer() {
    let mut query = get_valid_instance();

    query.set_analyzer("test".to_string());

    assert_eq!(
        rendered(query),
        expected("{ \"simple_query_string\": { \"query\": \"test\", \"analyzer\": \"test\" } }")
    );
}

#[test]
fn should_set_default_operator() {
    let mut query = get_valid_instance();

    query.set_default_operator(Operator::And);

    assert_eq!(
        rendered(query),
        expected(
            "{ \"simple_query_string\": { \"query\": \"test\", \"default_operator\": \"and\" } }"
        )
    );
}

#[test]
fn fields_render_in_the_given_order_as_exact_text() {
    let mut query = get_valid_instance();

    query.set_fields(vec!["test".to_string(), "test2".to_string()]);

    assert_eq!(
        render_json(&query.to_json()),
        "{\"simple_query_string\":{\"query\":\"test\",\"fields\":[\"test\",\"test2\"]}}"
    );
}

#[test]
fn an_empty_query_text_is_accepted() {
    let query = SimpleQueryStringQuery::new("".to_string());

    assert_eq!(
        rendered(query),
        expected("{ \"simple_query_string\": { \"query\": \"\" } }")
    );
}

#[test]
fn simple_query_string_reports_its_type() {
    let query = get_valid_instance();

    assert_eq!(query.get_type(), "simple_query_string");
}

#[test]
fn multiple_parameters_appear_together() {
    let mut query = get_valid_instance();

    query.set_flags("AND|OR".to_string());
    query.set_analyzer("keyword".to_string());
    query.set_default_operator(Operator::Or);

    assert_eq!(
        rendered(query),
        expected(
            "{ \"simple_query_string\": { \"query\": \"test\", \"flags\": \"AND|OR\", \"analyzer\": \"keyword\", \"default_operator\": \"or\" } }"
        )
    );
}
