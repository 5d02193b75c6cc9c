//! A typed builder library for the JSON query language of a document-search
//! engine: match-all, match-none, full-text match and simple-query-string
//! queries, each rendered deterministically into the engine's wire-format
//! request bodies.

use vstd::prelude::*;

pub mod json_value;
pub mod json_text;
pub mod common;
pub mod mono_field_query;
pub mod match_all_query;
pub mod match_none_query;
pub mod match_query;
pub mod simple_query_string_query;

pub use json_value::JsonValue;
pub use json_value::JsonModel;

use crate::json_value::entry_models_of;
use crate::json_text::text_of;
use crate::json_text::render_json;

verus! {

/// The capability every concrete query type implements: report its
/// wire-level type tag, and be consumed, by value, into its JSON fragment.
pub trait Query: Sized {
    /// The wire-level type tag of this query.
    spec fn spec_type(&self) -> Seq<char>;

    /// The JSON fragment this query renders to.
    spec fn json_model(self) -> JsonModel;

    /// Report the wire-level type tag.
    fn get_type(&self) -> (r: &'static str)
        ensures
            r@ == self.spec_type(),
    ;

    /// Consume the query and render its JSON fragment.
    fn to_json(self) -> (r: JsonValue)
        ensures
            r@ == self.json_model(),
    ;
}

/// Why rendering a request body to text could fail. Text serialization of a
/// well-formed value never does, and `RequestBody::to_json` promises `Ok`.
#[derive(Clone, Copy, PartialEq, Eq, Structural, Debug)]
pub enum SerializationError {
    Unwritable,
}

/// The outermost request envelope: exactly one query, serialized under the
/// top-level `"query"` key.
pub struct RequestBody<Q: Query> {
    pub query: Q,
}

impl<Q: Query> RequestBody<Q> {
    /// Wrap one query for sending.
    pub fn from_query(query: Q) -> (r: RequestBody<Q>)
        ensures
            r.query == query,
    {
        RequestBody { query }
    }

    /// The rendered envelope: the query's fragment under the `"query"` key.
    pub open spec fn json_model(self) -> JsonModel {
        JsonModel::Obj(seq![("query"@, self.query.json_model())])
    }

    /// Render the whole request body to its JSON text, consuming the query.
    pub fn to_json(self) -> (r: Result<String, SerializationError>)
        ensures
            r matches Ok(s) && s@ == text_of(self.json_model()),
    {
        let ghost me = self;
        let value = self.query.to_json();
        let ghost value_model = value@;
        let mut entries: Vec<(String, JsonValue)> = Vec::new();
        entries.push(("query".to_owned(), value));
        let wrapped = JsonValue::Obj(entries);
        proof {
            crate::json_value::lemma_entry_models_of(entries@);
            assert(entry_models_of(entries@) =~= seq![("query"@, value_model)]);
            assert(wrapped@ == me.json_model());
        }
        Ok(render_json(&wrapped))
    }
}

} // verus!
