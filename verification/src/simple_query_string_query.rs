//! The `simple_query_string` query: full-text search with a simple syntax,
//! optionally restricted to a list of fields.

use vstd::prelude::*;
use crate::Query;
use crate::common::Operator;
use crate::json_value::JsonValue;
use crate::json_value::JsonModel;
use crate::json_value::entry_models_of;
use crate::json_value::lemma_entry_models_of;
use crate::json_value::opt_entry;
use crate::json_value::lemma_patch_fresh;
use crate::json_value::has_key;
use crate::json_value::ToJsonValue;
use crate::json_value::lemma_opt_entry_unique;

verus! {

/// The fixed `"query"` key and the four optional parameter keys of the
/// `simple_query_string` object are pairwise distinct.
pub proof fn lemma_simple_query_string_keys_distinct()
    ensures
        "query"@ != "fields"@,
        "query"@ != "flags"@,
        "fields"@ != "flags"@,
        "query"@ != "analyzer"@,
        "fields"@ != "analyzer"@,
        "flags"@ != "analyzer"@,
        "query"@ != "default_operator"@,
        "fields"@ != "default_operator"@,
        "flags"@ != "default_operator"@,
        "analyzer"@ != "default_operator"@,
{
    reveal_strlit("query");
    reveal_strlit("fields");
    reveal_strlit("flags");
    reveal_strlit("analyzer");
    reveal_strlit("default_operator");
    assert("query"@.len() == 5);
    assert("fields"@.len() == 6);
    assert("flags"@.len() == 5);
    assert("analyzer"@.len() == 8);
    assert("default_operator"@.len() == 16);
    assert("query"@[0] == 'q');
    assert("flags"@[0] == 'f');
}

/// A full-text query in the engine's simple query syntax. The query text is
/// required but may be any string, the empty one included; the engine
/// tolerates it. Each optional parameter is rendered only if it was set.
pub struct SimpleQueryStringQuery {
    pub query: String,
    pub flags: Option<String>,
    pub fields: Option<Vec<String>>,
    pub analyzer: Option<String>,
    pub default_operator: Option<Operator>,
}

impl SimpleQueryStringQuery {
    /// The entries of the query object: the fixed `"query"` key first, then
    /// one entry for each optional parameter that was set, in a fixed order.
    pub open spec fn inner_entries(self) -> Seq<(Seq<char>, JsonModel)> {
        seq![("query"@, JsonModel::Str(self.query@))] + opt_entry("fields"@, self.fields)
            + opt_entry("flags"@, self.flags) + opt_entry("analyzer"@, self.analyzer) + opt_entry(
            "default_operator"@,
            self.default_operator,
        )
    }

    /// A `simple_query_string` query on the given text; no optional
    /// parameter is set. Any text is accepted, the empty one included.
    pub fn new(query: String) -> (r: SimpleQueryStringQuery)
        ensures
            r.query == query,
            r.flags is None,
            r.fields is None,
            r.analyzer is None,
            r.default_operator is None,
    {
        SimpleQueryStringQuery {
            query,
            flags: None,
            fields: None,
            analyzer: None,
            default_operator: None,
        }
    }

    /// Set the `flags` parameter; rendering keeps only the last value set.
    pub fn set_flags(&mut self, flag: String)
        ensures
            *final(self) == (SimpleQueryStringQuery { flags: Some(flag), ..*old(self) }),
    {
        self.flags = Some(flag);
    }

    /// Set the `fields` parameter; rendering keeps only the last value set.
    pub fn set_fields(&mut self, fields: Vec<String>)
        ensures
            *final(self) == (SimpleQueryStringQuery { fields: Some(fields), ..*old(self) }),
    {
        self.fields = Some(fields);
    }

    /// Set the `analyzer` parameter; rendering keeps only the last value
    /// set.
    pub fn set_analyzer(&mut self, analyzer: String)
        ensures
            *final(self) == (SimpleQueryStringQuery { analyzer: Some(analyzer), ..*old(self) }),
    {
        self.analyzer = Some(analyzer);
    }

    /// Set the `default_operator` parameter; rendering keeps only the last
    /// value set.
    pub fn set_default_operator(&mut self, operator: Operator)
        ensures
            *final(self) == (SimpleQueryStringQuery {
                default_operator: Some(operator),
                ..*old(self)
            }),
    {
        self.default_operator = Some(operator);
    }
}

/// The rendered `simple_query_string` object always opens with the fixed
/// `"query"` key holding the query text, and no key appears twice,
/// whichever optional parameters were set.
#[verifier::rlimit(100)]
#[verifier::spinoff_prover]
pub proof fn lemma_simple_query_string_inner_shape(q: SimpleQueryStringQuery)
    ensures
        q.inner_entries().len() >= 1,
        q.inner_entries()[0] == (("query"@, JsonModel::Str(q.query@))),
        has_key(q.inner_entries(), "query"@),
        forall|l1: int, l2: int|
            0 <= l1 < l2 < q.inner_entries().len() ==> q.inner_entries()[l1].0
                != q.inner_entries()[l2].0,
{
    lemma_simple_query_string_keys_distinct();
    let ghost p0 = seq![("query"@, JsonModel::Str(q.query@))];
    let ghost p1 = p0 + opt_entry("fields"@, q.fields);
    let ghost p2 = p1 + opt_entry("flags"@, q.flags);
    let ghost p3 = p2 + opt_entry("analyzer"@, q.analyzer);
    let ghost p4 = p3 + opt_entry("default_operator"@, q.default_operator);
    assert(p0.len() == 1);
    assert(forall|l: int| 0 <= l < p0.len() ==> p0[l].0 == "query"@);
    assert(forall|l: int| 0 <= l < p0.len() ==> p0[l].0 != "fields"@);
    lemma_opt_entry_unique(p0, "fields"@, q.fields);
    assert(forall|l: int| 0 <= l < p0.len() ==> p1[l] == p0[l]);
    assert(q.fields is Some ==> p1.len() == p0.len() + 1 && p1[p0.len() as int] == (("fields"@, (q.fields->0).json_model())));
    assert(q.fields is None ==> p1 =~= p0);
    assert(p0.len() <= p1.len() <= p0.len() + 1);
    assert(forall|l: int| 0 <= l < p1.len() ==> p1[l].0 == "query"@ || (q.fields is Some && p1[l].0 == "fields"@));
    assert(forall|l: int| 0 <= l < p1.len() ==> p1[l].0 != "flags"@);
    lemma_opt_entry_unique(p1, "flags"@, q.flags);
    assert(forall|l: int| 0 <= l < p1.len() ==> p2[l] == p1[l]);
    assert(q.flags is Some ==> p2.len() == p1.len() + 1 && p2[p1.len() as int] == (("flags"@, (q.flags->0).json_model())));
    assert(q.flags is None ==> p2 =~= p1);
    assert(p1.len() <= p2.len() <= p1.len() + 1);
    assert(forall|l: int| 0 <= l < p2.len() ==> p2[l].0 == "query"@ || (q.fields is Some && p2[l].0 == "fields"@) || (q.flags is Some && p2[l].0 == "flags"@));
    assert(forall|l: int| 0 <= l < p2.len() ==> p2[l].0 != "analyzer"@);
    lemma_opt_entry_unique(p2, "analyzer"@, q.analyzer);
    assert(forall|l: int| 0 <= l < p2.len() ==> p3[l] == p2[l]);
    assert(q.analyzer is Some ==> p3.len() == p2.len() + 1 && p3[p2.len() as int] == (("analyzer"@, (q.analyzer->0).json_model())));
    assert(q.analyzer is None ==> p3 =~= p2);
    assert(p2.len() <= p3.len() <= p2.len() + 1);
    assert(forall|l: int| 0 <= l < p3.len() ==> p3[l].0 == "query"@ || (q.fields is Some && p3[l].0 == "fields"@) || (q.flags is Some && p3[l].0 == "flags"@) || (q.analyzer is Some && p3[l].0 == "analyzer"@));
    assert(forall|l: int| 0 <= l < p3.len() ==> p3[l].0 != "default_operator"@);
    lemma_opt_entry_unique(p3, "default_operator"@, q.default_operator);
    assert(forall|l: int| 0 <= l < p3.len() ==> p4[l] == p3[l]);
    assert(q.default_operator is Some ==> p4.len() == p3.len() + 1 && p4[p3.len() as int] == (("default_operator"@, (q.default_operator->0).json_model())));
    assert(q.default_operator is None ==> p4 =~= p3);
    assert(p3.len() <= p4.len() <= p3.len() + 1);
    assert(forall|l: int| 0 <= l < p4.len() ==> p4[l].0 == "query"@ || (q.fields is Some && p4[l].0 == "fields"@) || (q.flags is Some && p4[l].0 == "flags"@) || (q.analyzer is Some && p4[l].0 == "analyzer"@) || (q.default_operator is Some && p4[l].0 == "default_operator"@));
    assert(q.inner_entries() == p4);
    assert(forall|l1: int, l2: int| 0 <= l1 < l2 < p4.len() ==> p4[l1].0 != p4[l2].0);
    assert(p4[0] == p0[0]);
    assert(has_key(p4, "query"@));
}

/// An optional parameter is rendered if and only if it was set: an unset
/// `fields` leaves no `"fields"` key in the rendered
/// `simple_query_string` object, and a set one puts exactly the value that
/// was set under that key, whatever the other parameters hold.
#[verifier::rlimit(100)]
#[verifier::spinoff_prover]
pub proof fn lemma_simple_query_string_fields_rendered(q: SimpleQueryStringQuery)
    ensures
        has_key(q.inner_entries(), "fields"@) <==> q.fields is Some,
        forall|l: int|
            0 <= l < q.inner_entries().len() && q.inner_entries()[l].0 == "fields"@
                ==> (q.fields matches Some(v) && q.inner_entries()[l].1 == v.json_model()),
{
    lemma_simple_query_string_keys_distinct();
    let ghost p0 = seq![("query"@, JsonModel::Str(q.query@))];
    let ghost p1 = p0 + opt_entry("fields"@, q.fields);
    let ghost p2 = p1 + opt_entry("flags"@, q.flags);
    let ghost p3 = p2 + opt_entry("analyzer"@, q.analyzer);
    let ghost p4 = p3 + opt_entry("default_operator"@, q.default_operator);
    assert(p0.len() == 1);
    assert(forall|l: int| 0 <= l < p0.len() ==> p0[l].0 != "fields"@);
    assert(forall|l: int| 0 <= l < p0.len() ==> p1[l] == p0[l]);
    assert(q.fields is Some ==> p1.len() == p0.len() + 1 && p1[p0.len() as int] == (("fields"@, (q.fields->0).json_model())));
    assert(q.fields is None ==> p1 =~= p0);
    assert(p0.len() <= p1.len() <= p0.len() + 1);
    assert(q.fields is None ==> (forall|l: int| 0 <= l < p1.len() ==> p1[l].0 != "fields"@));
    assert(q.fields is Some ==> (forall|l: int| 0 <= l < p1.len() && p1[l].0 == "fields"@ ==> p1[l] == (("fields"@, (q.fields->0).json_model()))));
    assert(forall|l: int| 0 <= l < p1.len() ==> p2[l] == p1[l]);
    assert(q.flags is Some ==> p2.len() == p1.len() + 1 && p2[p1.len() as int] == (("flags"@, (q.flags->0).json_model())));
    assert(q.flags is None ==> p2 =~= p1);
    assert(p1.len() <= p2.len() <= p1.len() + 1);
    assert(q.fields is None ==> (forall|l: int| 0 <= l < p2.len() ==> p2[l].0 != "fields"@));
    assert(q.fields is Some ==> (forall|l: int| 0 <= l < p2.len() && p2[l].0 == "fields"@ ==> p2[l] == (("fields"@, (q.fields->0).json_model()))));
    assert(forall|l: int| 0 <= l < p2.len() ==> p3[l] == p2[l]);
    assert(q.analyzer is Some ==> p3.len() == p2.len() + 1 && p3[p2.len() as int] == (("analyzer"@, (q.analyzer->0).json_model())));
    assert(q.analyzer is None ==> p3 =~= p2);
    assert(p2.len() <= p3.len() <= p2.len() + 1);
    assert(q.fields is None ==> (forall|l: int| 0 <= l < p3.len() ==> p3[l].0 != "fields"@));
    assert(q.fields is Some ==> (forall|l: int| 0 <= l < p3.len() && p3[l].0 == "fields"@ ==> p3[l] == (("fields"@, (q.fields->0).json_model()))));
    assert(forall|l: int| 0 <= l < p3.len() ==> p4[l] == p3[l]);
    assert(q.default_operator is Some ==> p4.len() == p3.len() + 1 && p4[p3.len() as int] == (("default_operator"@, (q.default_operator->0).json_model())));
    assert(q.default_operator is None ==> p4 =~= p3);
    assert(p3.len() <= p4.len() <= p3.len() + 1);
    assert(q.fields is None ==> (forall|l: int| 0 <= l < p4.len() ==> p4[l].0 != "fields"@));
    assert(q.fields is Some ==> (forall|l: int| 0 <= l < p4.len() && p4[l].0 == "fields"@ ==> p4[l] == (("fields"@, (q.fields->0).json_model()))));
    assert(q.inner_entries() == p4);
    if q.fields is Some {
        assert(p1[p0.len() as int] == (("fields"@, (q.fields->0).json_model())));
        assert(p2[p0.len() as int] == p1[p0.len() as int]);
        assert(p3[p0.len() as int] == p2[p0.len() as int]);
        assert(p4[p0.len() as int] == p3[p0.len() as int]);
        assert(p4[p0.len() as int] == (("fields"@, (q.fields->0).json_model())));
        assert(has_key(p4, "fields"@));
    } else {
        assert(!has_key(p4, "fields"@));
    }
}

/// An optional parameter is rendered if and only if it was set: an unset
/// `flags` leaves no `"flags"` key in the rendered
/// `simple_query_string` object, and a set one puts exactly the value that
/// was set under that key, whatever the other parameters hold.
#[verifier::rlimit(100)]
#[verifier::spinoff_prover]
pub proof fn lemma_simple_query_string_flags_rendered(q: SimpleQueryStringQuery)
    ensures
        has_key(q.inner_entries(), "flags"@) <==> q.flags is Some,
        forall|l: int|
            0 <= l < q.inner_entries().len() && q.inner_entries()[l].0 == "flags"@
                ==> (q.flags matches Some(v) && q.inner_entries()[l].1 == v.json_model()),
{
    lemma_simple_query_string_keys_distinct();
    let ghost p0 = seq![("query"@, JsonModel::Str(q.query@))];
    let ghost p1 = p0 + opt_entry("fields"@, q.fields);
    let ghost p2 = p1 + opt_entry("flags"@, q.flags);
    let ghost p3 = p2 + opt_entry("analyzer"@, q.analyzer);
    let ghost p4 = p3 + opt_entry("default_operator"@, q.default_operator);
    assert(p0.len() == 1);
    assert(forall|l: int| 0 <= l < p0.len() ==> p0[l].0 != "flags"@);
    assert(forall|l: int| 0 <= l < p0.len() ==> p1[l] == p0[l]);
    assert(q.fields is Some ==> p1.len() == p0.len() + 1 && p1[p0.len() as int] == (("fields"@, (q.fields->0).json_model())));
    assert(q.fields is None ==> p1 =~= p0);
    assert(p0.len() <= p1.len() <= p0.len() + 1);
    assert(q.flags is None ==> (forall|l: int| 0 <= l < p1.len() ==> p1[l].0 != "flags"@));
    assert(q.flags is Some ==> (forall|l: int| 0 <= l < p1.len() && p1[l].0 == "flags"@ ==> p1[l] == (("flags"@, (q.flags->0).json_model()))));
    assert(forall|l: int| 0 <= l < p1.len() ==> p2[l] == p1[l]);
    assert(q.flags is Some ==> p2.len() == p1.len() + 1 && p2[p1.len() as int] == (("flags"@, (q.flags->0).json_model())));
    assert(q.flags is None ==> p2 =~= p1);
    assert(p1.len() <= p2.len() <= p1.len() + 1);
    assert(q.flags is None ==> (forall|l: int| 0 <= l < p2.len() ==> p2[l].0 != "flags"@));
    assert(q.flags is Some ==> (forall|l: int| 0 <= l < p2.len() && p2[l].0 == "flags"@ ==> p2[l] == (("flags"@, (q.flags->0).json_model()))));
    assert(forall|l: int| 0 <= l < p2.len() ==> p3[l] == p2[l]);
    assert(q.analyzer is Some ==> p3.len() == p2.len() + 1 && p3[p2.len() as int] == (("analyzer"@, (q.analyzer->0).json_model())));
    assert(q.analyzer is None ==> p3 =~= p2);
    assert(p2.len() <= p3.len() <= p2.len() + 1);
    assert(q.flags is None ==> (forall|l: int| 0 <= l < p3.len() ==> p3[l].0 != "flags"@));
    assert(q.flags is Some ==> (forall|l: int| 0 <= l < p3.len() && p3[l].0 == "flags"@ ==> p3[l] == (("flags"@, (q.flags->0).json_model()))));
    assert(forall|l: int| 0 <= l < p3.len() ==> p4[l] == p3[l]);
    assert(q.default_operator is Some ==> p4.len() == p3.len() + 1 && p4[p3.len() as int] == (("default_operator"@, (q.default_operator->0).json_model())));
    assert(q.default_operator is None ==> p4 =~= p3);
    assert(p3.len() <= p4.len() <= p3.len() + 1);
    assert(q.flags is None ==> (forall|l: int| 0 <= l < p4.len() ==> p4[l].0 != "flags"@));
    assert(q.flags is Some ==> (forall|l: int| 0 <= l < p4.len() && p4[l].0 == "flags"@ ==> p4[l] == (("flags"@, (q.flags->0).json_model()))));
    assert(q.inner_entries() == p4);
    if q.flags is Some {
        assert(p2[p1.len() as int] == (("flags"@, (q.flags->0).json_model())));
        assert(p3[p1.len() as int] == p2[p1.len() as int]);
        assert(p4[p1.len() as int] == p3[p1.len() as int]);
        assert(p4[p1.len() as int] == (("flags"@, (q.flags->0).json_model())));
        assert(has_key(p4, "flags"@));
    } else {
        assert(!has_key(p4, "flags"@));
    }
}

/// An optional parameter is rendered if and only if it was set: an unset
/// `analyzer` leaves no `"analyzer"` key in the rendered
/// `simple_query_string` object, and a set one puts exactly the value that
/// was set under that key, whatever the other parameters hold.
#[verifier::rlimit(100)]
#[verifier::spinoff_prover]
pub proof fn lemma_simple_query_string_analyzer_rendered(q: SimpleQueryStringQuery)
    ensures
        has_key(q.inner_entries(), "analyzer"@) <==> q.analyzer is Some,
        forall|l: int|
            0 <= l < q.inner_entries().len() && q.inner_entries()[l].0 == "analyzer"@
                ==> (q.analyzer matches Some(v) && q.inner_entries()[l].1 == v.json_model()),
{
    lemma_simple_query_string_keys_distinct();
    let ghost p0 = seq![("query"@, JsonModel::Str(q.query@))];
    let ghost p1 = p0 + opt_entry("fields"@, q.fields);
    let ghost p2 = p1 + opt_entry("flags"@, q.flags);
    let ghost p3 = p2 + opt_entry("analyzer"@, q.analyzer);
    let ghost p4 = p3 + opt_entry("default_operator"@, q.default_operator);
    assert(p0.len() == 1);
    assert(forall|l: int| 0 <= l < p0.len() ==> p0[l].0 != "analyzer"@);
    assert(forall|l: int| 0 <= l < p0.len() ==> p1[l] == p0[l]);
    assert(q.fields is Some ==> p1.len() == p0.len() + 1 && p1[p0.len() as int] == (("fields"@, (q.fields->0).json_model())));
    assert(q.fields is None ==> p1 =~= p0);
    assert(p0.len() <= p1.len() <= p0.len() + 1);
    assert(q.analyzer is None ==> (forall|l: int| 0 <= l < p1.len() ==> p1[l].0 != "analyzer"@));
    assert(q.analyzer is Some ==> (forall|l: int| 0 <= l < p1.len() && p1[l].0 == "analyzer"@ ==> p1[l] == (("analyzer"@, (q.analyzer->0).json_model()))));
    assert(forall|l: int| 0 <= l < p1.len() ==> p2[l] == p1[l]);
    assert(q.flags is Some ==> p2.len() == p1.len() + 1 && p2[p1.len() as int] == (("flags"@, (q.flags->0).json_model())));
    assert(q.flags is None ==> p2 =~= p1);
    assert(p1.len() <= p2.len() <= p1.len() + 1);
    assert(q.analyzer is None ==> (forall|l: int| 0 <= l < p2.len() ==> p2[l].0 != "analyzer"@));
    assert(q.analyzer is Some ==> (forall|l: int| 0 <= l < p2.len() && p2[l].0 == "analyzer"@ ==> p2[l] == (("analyzer"@, (q.analyzer->0).json_model()))));
    assert(forall|l: int| 0 <= l < p2.len() ==> p3[l] == p2[l]);
    assert(q.analyzer is Some ==> p3.len() == p2.len() + 1 && p3[p2.len() as int] == (("analyzer"@, (q.analyzer->0).json_model())));
    assert(q.analyzer is None ==> p3 =~= p2);
    assert(p2.len() <= p3.len() <= p2.len() + 1);
    assert(q.analyzer is None ==> (forall|l: int| 0 <= l < p3.len() ==> p3[l].0 != "analyzer"@));
    assert(q.analyzer is Some ==> (forall|l: int| 0 <= l < p3.len() && p3[l].0 == "analyzer"@ ==> p3[l] == (("analyzer"@, (q.analyzer->0).json_model()))));
    assert(forall|l: int| 0 <= l < p3.len() ==> p4[l] == p3[l]);
    assert(q.default_operator is Some ==> p4.len() == p3.len() + 1 && p4[p3.len() as int] == (("default_operator"@, (q.default_operator->0).json_model())));
    assert(q.default_operator is None ==> p4 =~= p3);
    assert(p3.len() <= p4.len() <= p3.len() + 1);
    assert(q.analyzer is None ==> (forall|l: int| 0 <= l < p4.len() ==> p4[l].0 != "analyzer"@));
    assert(q.analyzer is Some ==> (forall|l: int| 0 <= l < p4.len() && p4[l].0 == "analyzer"@ ==> p4[l] == (("analyzer"@, (q.analyzer->0).json_model()))));
    assert(q.inner_entries() == p4);
    if q.analyzer is Some {
        assert(p3[p2.len() as int] == (("analyzer"@, (q.analyzer->0).json_model())));
        assert(p4[p2.len() as int] == p3[p2.len() as int]);
        assert(p4[p2.len() as int] == (("analyzer"@, (q.analyzer->0).json_model())));
        assert(has_key(p4, "analyzer"@));
    } else {
        assert(!has_key(p4, "analyzer"@));
    }
}

/// An optional parameter is rendered if and only if it was set: an unset
/// `default_operator` leaves no `"default_operator"` key in the rendered
/// `simple_query_string` object, and a set one puts exactly the value that
/// was set under that key, whatever the other parameters hold.
#[verifier::rlimit(100)]
#[verifier::spinoff_prover]
pub proof fn lemma_simple_query_string_default_operator_rendered(q: SimpleQueryStringQuery)
    ensures
        has_key(q.inner_entries(), "default_operator"@) <==> q.default_operator is Some,
        forall|l: int|
            0 <= l < q.inner_entries().len() && q.inner_entries()[l].0 == "default_operator"@
                ==> (q.default_operator matches Some(v) && q.inner_entries()[l].1 == v.json_model()),
{
    lemma_simple_query_string_keys_distinct();
    let ghost p0 = seq![("query"@, JsonModel::Str(q.query@))];
    let ghost p1 = p0 + opt_entry("fields"@, q.fields);
    let ghost p2 = p1 + opt_entry("flags"@, q.flags);
    let ghost p3 = p2 + opt_entry("analyzer"@, q.analyzer);
    let ghost p4 = p3 + opt_entry("default_operator"@, q.default_operator);
    assert(p0.len() == 1);
    assert(forall|l: int| 0 <= l < p0.len() ==> p0[l].0 != "default_operator"@);
    assert(forall|l: int| 0 <= l < p0.len() ==> p1[l] == p0[l]);
    assert(q.fields is Some ==> p1.len() == p0.len() + 1 && p1[p0.len() as int] == (("fields"@, (q.fields->0).json_model())));
    assert(q.fields is None ==> p1 =~= p0);
    assert(p0.len() <= p1.len() <= p0.len() + 1);
    assert(q.default_operator is None ==> (forall|l: int| 0 <= l < p1.len() ==> p1[l].0 != "default_operator"@));
    assert(q.default_operator is Some ==> (forall|l: int| 0 <= l < p1.len() && p1[l].0 == "default_operator"@ ==> p1[l] == (("default_operator"@, (q.default_operator->0).json_model()))));
    assert(forall|l: int| 0 <= l < p1.len() ==> p2[l] == p1[l]);
    assert(q.flags is Some ==> p2.len() == p1.len() + 1 && p2[p1.len() as int] == (("flags"@, (q.flags->0).json_model())));
    assert(q.flags is None ==> p2 =~= p1);
    assert(p1.len() <= p2.len() <= p1.len() + 1);
    assert(q.default_operator is None ==> (forall|l: int| 0 <= l < p2.len() ==> p2[l].0 != "default_operator"@));
    assert(q.default_operator is Some ==> (forall|l: int| 0 <= l < p2.len() && p2[l].0 == "default_operator"@ ==> p2[l] == (("default_operator"@, (q.default_operator->0).json_model()))));
    assert(forall|l: int| 0 <= l < p2.len() ==> p3[l] == p2[l]);
    assert(q.analyzer is Some ==> p3.len() == p2.len() + 1 && p3[p2.len() as int] == (("analyzer"@, (q.analyzer->0).json_model())));
    assert(q.analyzer is None ==> p3 =~= p2);
    assert(p2.len() <= p3.len() <= p2.len() + 1);
    assert(q.default_operator is None ==> (forall|l: int| 0 <= l < p3.len() ==> p3[l].0 != "default_operator"@));
    assert(q.default_operator is Some ==> (forall|l: int| 0 <= l < p3.len() && p3[l].0 == "default_operator"@ ==> p3[l] == (("default_operator"@, (q.default_operator->0).json_model()))));
    assert(forall|l: int| 0 <= l < p3.len() ==> p4[l] == p3[l]);
    assert(q.default_operator is Some ==> p4.len() == p3.len() + 1 && p4[p3.len() as int] == (("default_operator"@, (q.default_operator->0).json_model())));
    assert(q.default_operator is None ==> p4 =~= p3);
    assert(p3.len() <= p4.len() <= p3.len() + 1);
    assert(q.default_operator is None ==> (forall|l: int| 0 <= l < p4.len() ==> p4[l].0 != "default_operator"@));
    assert(q.default_operator is Some ==> (forall|l: int| 0 <= l < p4.len() && p4[l].0 == "default_operator"@ ==> p4[l] == (("default_operator"@, (q.default_operator->0).json_model()))));
    assert(q.inner_entries() == p4);
    if q.default_operator is Some {
        assert(p4[p3.len() as int] == (("default_operator"@, (q.default_operator->0).json_model())));
        assert(has_key(p4, "default_operator"@));
    } else {
        assert(!has_key(p4, "default_operator"@));
    }
}

impl Query for SimpleQueryStringQuery {
    open spec fn spec_type(&self) -> Seq<char> {
        "simple_query_string"@
    }

    open spec fn json_model(self) -> JsonModel {
        JsonModel::Obj(
            seq![("simple_query_string"@, JsonModel::Obj(self.inner_entries()))],
        )
    }

    fn get_type(&self) -> (r: &'static str) {
        "simple_query_string"
    }

    fn to_json(self) -> (r: JsonValue) {
        proof {
            lemma_simple_query_string_keys_distinct();
        }
        let ghost me = self;
        let mut query_entries: Vec<(String, JsonValue)> = Vec::new();
        query_entries.push(("query".to_owned(), JsonValue::Str(self.query.clone())));
        let mut query_options = JsonValue::Obj(query_entries);
        let ghost e0 = seq![("query"@, JsonModel::Str(self.query@))];
        proof {
            lemma_entry_models_of(query_entries@);
            assert(entry_models_of(query_entries@) =~= e0);
        }
        query_options.add_if_it_was_set("fields", &self.fields);
        let ghost e1 = e0 + opt_entry("fields"@, self.fields);
        proof {
            assert(forall|l: int| 0 <= l < e0.len() ==> e0[l].0 != "fields"@);
            lemma_patch_fresh(e0, "fields"@, self.fields);
            assert(query_options@ == JsonModel::Obj(e1));
            assert(forall|l: int|
                0 <= l < e1.len() ==> e1[l].0 == "query"@ || e1[l].0 == "fields"@);
        }
        query_options.add_if_it_was_set("flags", &self.flags);
        let ghost e2 = e1 + opt_entry("flags"@, self.flags);
        proof {
            assert(forall|l: int| 0 <= l < e1.len() ==> e1[l].0 != "flags"@);
            lemma_patch_fresh(e1, "flags"@, self.flags);
            assert(query_options@ == JsonModel::Obj(e2));
            assert(forall|l: int|
                0 <= l < e2.len() ==> e2[l].0 == "query"@ || e2[l].0 == "fields"@ || e2[l].0
                    == "flags"@);
        }
        query_options.add_if_it_was_set("analyzer", &self.analyzer);
        let ghost e3 = e2 + opt_entry("analyzer"@, self.analyzer);
        proof {
            assert(forall|l: int| 0 <= l < e2.len() ==> e2[l].0 != "analyzer"@);
            lemma_patch_fresh(e2, "analyzer"@, self.analyzer);
            assert(query_options@ == JsonModel::Obj(e3));
            assert(forall|l: int|
                0 <= l < e3.len() ==> e3[l].0 == "query"@ || e3[l].0 == "fields"@ || e3[l].0
                    == "flags"@ || e3[l].0 == "analyzer"@);
        }
        query_options.add_if_it_was_set("default_operator", &self.default_operator);
        let ghost e4 = e3 + opt_entry("default_operator"@, self.default_operator);
        proof {
            assert(forall|l: int| 0 <= l < e3.len() ==> e3[l].0 != "default_operator"@);
            lemma_patch_fresh(e3, "default_operator"@, self.default_operator);
            assert(query_options@ == JsonModel::Obj(e4));
            assert(e4 == me.inner_entries());
        }
        let ghost options_model = query_options@;
        let mut outer_entries: Vec<(String, JsonValue)> = Vec::new();
        outer_entries.push(("simple_query_string".to_owned(), query_options));
        let r = JsonValue::Obj(outer_entries);
        proof {
            lemma_entry_models_of(outer_entries@);
            assert(entry_models_of(outer_entries@) =~= seq![
                ("simple_query_string"@, options_model),
            ]);
            assert(r@ == me.json_model());
        }
        r
    }
}

} // verus!
