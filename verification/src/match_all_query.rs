//! The `match_all` query: matches every document.

use vstd::prelude::*;
use crate::Query;
use crate::json_value::JsonValue;
use crate::json_value::JsonModel;
use crate::json_value::entry_models_of;
use crate::json_value::lemma_entry_models_of;

verus! {

/// The most simple query, which matches all documents.
#[derive(Clone, Copy, PartialEq, Eq, Structural, Debug)]
pub struct MatchAllQuery {}

impl MatchAllQuery {
    /// A `match_all` query; it has no parameters.
    pub fn new() -> (r: MatchAllQuery)
        ensures
            r == (MatchAllQuery {  }),
    {
        MatchAllQuery {  }
    }
}

impl Query for MatchAllQuery {
    open spec fn spec_type(&self) -> Seq<char> {
        "match_all"@
    }

    open spec fn json_model(self) -> JsonModel {
        JsonModel::Obj(
            seq![("match_all"@, JsonModel::Obj(Seq::<(Seq<char>, JsonModel)>::empty()))],
        )
    }

    fn get_type(&self) -> (r: &'static str) {
        "match_all"
    }

    fn to_json(self) -> (r: JsonValue) {
        let empty_entries: Vec<(String, JsonValue)> = Vec::new();
        let inner = JsonValue::Obj(empty_entries);
        let mut entries: Vec<(String, JsonValue)> = Vec::new();
        entries.push(("match_all".to_owned(), inner));
        let r = JsonValue::Obj(entries);
        proof {
            lemma_entry_models_of(entries@);
            assert(entry_models_of(entries@) =~= seq![
                ("match_all"@, JsonModel::Obj(Seq::<(Seq<char>, JsonModel)>::empty())),
            ]);
        }
        r
    }
}

} // verus!
