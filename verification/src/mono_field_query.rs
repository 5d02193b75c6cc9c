//! The validated skeleton shared by every query scoped to exactly one field.

use vstd::prelude::*;
use crate::json_value::JsonValue;
use crate::json_value::JsonModel;
use crate::json_value::entry_models_of;

verus! {

/// Why construction of a field-scoped query was refused.
#[derive(Clone, Copy, PartialEq, Eq, Structural, Debug)]
pub enum ValidationError {
    /// The wire type tag was empty.
    EmptyQueryType,
    /// The field name was empty.
    EmptyField,
}

/// A query scoped to exactly one field: a non-empty wire type tag, a
/// non-empty field name, and the query string. Validated once at
/// construction, read-only thereafter.
#[derive(Debug)]
pub struct MonoFieldQuery {
    pub query_type: String,
    pub field: String,
    pub query_string: String,
}

impl MonoFieldQuery {
    /// The construction invariant: tag and field are non-empty.
    pub open spec fn wf(self) -> bool {
        self.query_type@.len() > 0 && self.field@.len() > 0
    }

    /// The innermost object of the rendering: the query string under the
    /// fixed `"query"` key.
    pub open spec fn inner_model(self) -> JsonModel {
        JsonModel::Obj(seq![("query"@, JsonModel::Str(self.query_string@))])
    }

    /// The full rendering: `{ query_type: { field: { "query": query_string } } }`.
    pub open spec fn json_model(self) -> JsonModel {
        JsonModel::Obj(
            seq![
                (self.query_type@, JsonModel::Obj(seq![(self.field@, self.inner_model())])),
            ],
        )
    }

    /// Construct a validated mono-field query. Fails with `EmptyQueryType`
    /// on an empty tag, then with `EmptyField` on an empty field; succeeds
    /// on exactly the remaining inputs, keeping all three strings as given.
    pub fn new(query_type: &str, field: String, query_string: String) -> (r: Result<
        MonoFieldQuery,
        ValidationError,
    >)
        ensures
            r is Ok <==> query_type@.len() > 0 && field@.len() > 0,
            query_type@.len() == 0 ==> r == Err::<MonoFieldQuery, ValidationError>(
                ValidationError::EmptyQueryType,
            ),
            query_type@.len() > 0 && field@.len() == 0 ==> r == Err::<
                MonoFieldQuery,
                ValidationError,
            >(ValidationError::EmptyField),
            r matches Ok(q) ==> q.query_type@ == query_type@ && q.field == field
                && q.query_string == query_string && q.wf(),
    {
        if query_type.is_empty() {
            return Err(ValidationError::EmptyQueryType);
        }
        if field.as_str().is_empty() {
            return Err(ValidationError::EmptyField);
        }
        Ok(MonoFieldQuery { query_type: query_type.to_owned(), field, query_string })
    }

    /// The field this query is scoped to.
    pub fn get_field(&self) -> (r: &String)
        ensures
            r@ == self.field@,
    {
        &self.field
    }

    /// Render the innermost object, `{ "query": query_string }`.
    pub fn inner_json(&self) -> (r: JsonValue)
        ensures
            r@ == self.inner_model(),
    {
        let mut entries: Vec<(String, JsonValue)> = Vec::new();
        entries.push(("query".to_owned(), JsonValue::Str(self.query_string.clone())));
        let r = JsonValue::Obj(entries);
        proof {
            crate::json_value::lemma_entry_models_of(entries@);
            assert(entry_models_of(entries@) =~= seq![
                ("query"@, JsonModel::Str(self.query_string@)),
            ]);
        }
        r
    }

    /// Wrap an already rendered inner object into the nested envelope,
    /// `{ query_type: { field: inner } }`.
    pub fn wrap_inner(&self, inner: JsonValue) -> (r: JsonValue)
        ensures
            r@ == (JsonModel::Obj(
                seq![(self.query_type@, JsonModel::Obj(seq![(self.field@, inner@)]))],
            )),
    {
        let ghost inner_model = inner@;
        let mut field_entries: Vec<(String, JsonValue)> = Vec::new();
        field_entries.push((self.field.clone(), inner));
        let middle = JsonValue::Obj(field_entries);
        let ghost middle_model = middle@;
        proof {
            crate::json_value::lemma_entry_models_of(field_entries@);
            assert(entry_models_of(field_entries@) =~= seq![(self.field@, inner_model)]);
        }
        let mut outer_entries: Vec<(String, JsonValue)> = Vec::new();
        outer_entries.push((self.query_type.clone(), middle));
        let r = JsonValue::Obj(outer_entries);
        proof {
            crate::json_value::lemma_entry_models_of(outer_entries@);
            assert(entry_models_of(outer_entries@) =~= seq![(self.query_type@, middle_model)]);
        }
        r
    }

    /// Render the full nested envelope of this query.
    pub fn to_json(&self) -> (r: JsonValue)
        ensures
            r@ == self.json_model(),
    {
        let inner = self.inner_json();
        self.wrap_inner(inner)
    }
}

} // verus!
