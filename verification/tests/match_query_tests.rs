use search_queries::Query;
use search_queries::common::Operator;
use search_queries::common::RewriteType;
use search_queries::common::ZeroTermsQuery;
use search_queries::json_text::render_json;
use search_queries::match_query::MatchQuery;
use search_queries::mono_field_query::ValidationError;

fn get_valid_instance() -> MatchQuery {
    MatchQuery::new("field".to_string(), "search".to_string()).unwrap()
}

fn rendered(query: MatchQuery) -> serde_json::Value {
    serde_json::from_str(&render_json(&query.to_json())).unwrap()
}

fn expected(text: &str) -> serde_json::Value {
    serde_json::from_str(text).unwrap()
}

#[test]
fn should_set_operator() {
    let mut query = get_valid_instance();

    query.set_operator(Operator::And);

    assert_eq!(
        rendered(query),
        expected("{\"match\":{\"field\":{\"query\":\"search\", \"operator\": \"and\"}}}")
    );
}

#[test]
fn should_set_zero_terms_query() {
    let mut query = get_valid_instance();

    query.set_zero_terms_query(ZeroTermsQuery::AllDocuments);

    assert_eq!(
        rendered(query),
        expected("{\"match\":{\"field\":{\"query\":\"search\", \"zero_terms_query\": \"all\"}}}")
    );
}

#[test]
fn should_set_fuzzy_rewrite() {
    let mut query = get_valid_instance();

    query.set_fuzzy_rewrite(RewriteType::ConstantScoreBoolean);

    assert_eq!(
        rendered(query),
        expected(
            "{\"match\":{\"field\":{\"query\":\"search\", \"fuzzy_rewrite\": \"constant_score_boolean\"}}}"
        )
    );
}

#[test]
fn should_set_lenient() {
    let mut query = get_valid_instance();

    query.set_lenient(true);

    assert_eq!(
        rendered(query),
        expected("{\"match\":{\"field\":{\"query\":\"search\", \"lenient\": true}}}")
    );
}

#[test]
fn should_set_fuzziness() {
    let mut query = get_valid_instance();

    query.set_fuzziness("AUTO".to_string());

    assert_eq!(
        rendered(query),
        expected("{\"match\":{\"field\":{\"query\":\"search\", \"fuzziness\": \"AUTO\"}}}")
    );
}

#[test]
fn should_set_prefix_length() {
    let mut query = get_valid_instance();

    query.set_prefix_length(12);

    assert_eq!(
        rendered(query),
        expected("{\"match\":{\"field\":{\"query\":\"search\", \"prefix_length\": 12}}}")
    );
}

#[test]
fn should_set_max_expansions() {
    let mut query = get_valid_instance();

    query.set_max_expansions(14);

    assert_eq!(
        rendered(query),
        expected("{\"match\":{\"field\":{\"query\":\"search\", \"max_expansions\": 14}}}")
    );
}

#[test]
fn should_set_fuzzy_transpositions() {
    let mut query = get_valid_instance();

    query.set_fuzzy_transpositions(false);

    assert_eq!(
        rendered(query),
        expected("{\"match\":{\"field\":{\"query\":\"search\", \"fuzzy_transpositions\": false}}}")
    );
}

#[test]
fn match_query_should_set_analyzer() {
    let mut query = get_valid_instance();

    query.set_analyzer("test".to_string());

    assert_eq!(
        rendered(query),
        expected("{\"match\":{\"field\":{\"query\":\"search\", \"analyzer\": \"test\"}}}")
    );
}

#[test]
fn should_set_multiple_props() {
    let mut query = get_valid_instance();

    query.set_operator(Operator::And);
    query.set_fuzziness("AUTO".to_string());

    assert_eq!(
        rendered(query),
        expected(
            "{\"match\":{\"field\":{\"query\":\"search\", \"operator\": \"and\", \"fuzziness\": \"AUTO\"}}}"
        )
    );
}

#[test]
fn unset_parameters_leave_no_keys() {
    let query = get_valid_instance();

    assert_eq!(
        rendered(query),
        expected("{\"match\":{\"field\":{\"query\":\"search\"}}}")
    );
}

#[test]
fn setting_twice_keeps_the_last_value() {
    let mut query = get_valid_instance();

    query.set_fuzziness("1".to_string());
    query.set_fuzziness("AUTO".to_string());

    assert_eq!(
        rendered(query),
        expected("{\"match\":{\"field\":{\"query\":\"search\", \"fuzziness\": \"AUTO\"}}}")
    );
}

#[test]
fn match_query_rejects_an_empty_field() {
    let query = MatchQuery::new("".to_string(), "search".to_string());

    assert!(matches!(query, Err(ValidationError::EmptyField)));
}

#[test]
fn match_query_renders_to_exact_text() {
    let mut query = get_valid_instance();

    query.set_operator(Operator::And);

    assert_eq!(
        render_json(&query.to_json()),
        "{\"match\":{\"field\":{\"query\":\"search\",\"operator\":\"and\"}}}"
    );
}

#[test]
fn match_query_reports_its_type() {
    let query = get_valid_instance();

    assert_eq!(query.get_type(), "match");
}
