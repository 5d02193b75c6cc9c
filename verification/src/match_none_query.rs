//! The `match_none` query: the inverse of `match_all`, matches no document.

use vstd::prelude::*;
use crate::Query;
use crate::json_value::JsonValue;
use crate::json_value::JsonModel;
use crate::json_value::entry_models_of;
use crate::json_value::lemma_entry_models_of;

verus! {

/// The inverse of the `match_all` query, which matches no documents.
#[derive(Clone, Copy, PartialEq, Eq, Structural, Debug)]
pub struct MatchNoneQuery;

impl Query for MatchNoneQuery {
    open spec fn spec_type(&self) -> Seq<char> {
        "match_none"@
    }

    open spec fn json_model(self) -> JsonModel {
        JsonModel::Obj(
            seq![("match_none"@, JsonModel::Obj(Seq::<(Seq<char>, JsonModel)>::empty()))],
        )
    }

    fn get_type(&self) -> (r: &'static str) {
        "match_none"
    }

    fn to_json(self) -> (r: JsonValue) {
        let empty_entries: Vec<(String, JsonValue)> = Vec::new();
        let inner = JsonValue::Obj(empty_entries);
        let mut entries: Vec<(String, JsonValue)> = Vec::new();
        entries.push(("match_none".to_owned(), inner));
        let r = JsonValue::Obj(entries);
        proof {
            lemma_entry_models_of(entries@);
            assert(entry_models_of(entries@) =~= seq![
                ("match_none"@, JsonModel::Obj(Seq::<(Seq<char>, JsonModel)>::empty())),
            ]);
        }
        r
    }
}

} // verus!
