//! The `match` query: full-text search on one field.

use vstd::prelude::*;
use crate::Query;
use crate::common::Operator;
use crate::common::ZeroTermsQuery;
use crate::common::RewriteType;
use crate::json_value::JsonValue;
use crate::json_value::JsonModel;
use crate::json_value::opt_entry;
use crate::json_value::lemma_patch_fresh;
use crate::json_value::has_key;
use crate::json_value::ToJsonValue;
use crate::json_value::lemma_opt_entry_unique;
use crate::mono_field_query::MonoFieldQuery;
use crate::mono_field_query::ValidationError;

verus! {

/// The fixed `"query"` key and the nine optional parameter keys of the inner
/// `match` object are pairwise distinct.
pub proof fn lemma_match_keys_distinct()
    ensures
        "query"@ != "operator"@,
        "query"@ != "zero_terms_query"@,
        "operator"@ != "zero_terms_query"@,
        "query"@ != "fuzzy_rewrite"@,
        "operator"@ != "fuzzy_rewrite"@,
        "zero_terms_query"@ != "fuzzy_rewrite"@,
        "query"@ != "lenient"@,
        "operator"@ != "lenient"@,
        "zero_terms_query"@ != "lenient"@,
        "fuzzy_rewrite"@ != "lenient"@,
        "query"@ != "fuzziness"@,
        "operator"@ != "fuzziness"@,
        "zero_terms_query"@ != "fuzziness"@,
        "fuzzy_rewrite"@ != "fuzziness"@,
        "lenient"@ != "fuzziness"@,
        "query"@ != "prefix_length"@,
        "operator"@ != "prefix_length"@,
        "zero_terms_query"@ != "prefix_length"@,
        "fuzzy_rewrite"@ != "prefix_length"@,
        "lenient"@ != "prefix_length"@,
        "fuzziness"@ != "prefix_length"@,
        "query"@ != "max_expansions"@,
        "operator"@ != "max_expansions"@,
        "zero_terms_query"@ != "max_expansions"@,
        "fuzzy_rewrite"@ != "max_expansions"@,
        "lenient"@ != "max_expansions"@,
        "fuzziness"@ != "max_expansions"@,
        "prefix_length"@ != "max_expansions"@,
        "query"@ != "fuzzy_transpositions"@,
        "operator"@ != "fuzzy_transpositions"@,
        "zero_terms_query"@ != "fuzzy_transpositions"@,
        "fuzzy_rewrite"@ != "fuzzy_transpositions"@,
        "lenient"@ != "fuzzy_transpositions"@,
        "fuzziness"@ != "fuzzy_transpositions"@,
        "prefix_length"@ != "fuzzy_transpositions"@,
        "max_expansions"@ != "fuzzy_transpositions"@,
        "query"@ != "analyzer"@,
        "operator"@ != "analyzer"@,
        "zero_terms_query"@ != "analyzer"@,
        "fuzzy_rewrite"@ != "analyzer"@,
        "lenient"@ != "analyzer"@,
        "fuzziness"@ != "analyzer"@,
        "prefix_length"@ != "analyzer"@,
        "max_expansions"@ != "analyzer"@,
        "fuzzy_transpositions"@ != "analyzer"@,
{
    reveal_strlit("query");
    reveal_strlit("operator");
    reveal_strlit("zero_terms_query");
    reveal_strlit("fuzzy_rewrite");
    reveal_strlit("lenient");
    reveal_strlit("fuzziness");
    reveal_strlit("prefix_length");
    reveal_strlit("max_expansions");
    reveal_strlit("fuzzy_transpositions");
    reveal_strlit("analyzer");
    assert("query"@.len() == 5);
    assert("operator"@.len() == 8);
    assert("zero_terms_query"@.len() == 16);
    assert("fuzzy_rewrite"@.len() == 13);
    assert("lenient"@.len() == 7);
    assert("fuzziness"@.len() == 9);
    assert("prefix_length"@.len() == 13);
    assert("max_expansions"@.len() == 14);
    assert("fuzzy_transpositions"@.len() == 20);
    assert("analyzer"@.len() == 8);
    assert("fuzzy_rewrite"@[0] == 'f');
    assert("prefix_length"@[0] == 'p');
    assert("operator"@[0] == 'o');
    assert("analyzer"@[0] == 'a');
}

/// A full-text query on one field: the analyzed query text plus the engine's
/// optional `match` parameters, each rendered only if it was set.
pub struct MatchQuery {
    pub query: MonoFieldQuery,
    pub operator: Option<Operator>,
    pub zero_terms_query: Option<ZeroTermsQuery>,
    pub fuzzy_rewrite: Option<RewriteType>,
    pub lenient: Option<bool>,
    pub fuzziness: Option<String>,
    pub prefix_length: Option<u32>,
    pub max_expansions: Option<u32>,
    pub fuzzy_transpositions: Option<bool>,
    pub analyzer: Option<String>,
}

impl MatchQuery {
    /// The entries of the inner field object: the fixed `"query"` key first,
    /// then one entry for each optional parameter that was set, in a fixed
    /// order.
    pub open spec fn inner_entries(self) -> Seq<(Seq<char>, JsonModel)> {
        seq![("query"@, JsonModel::Str(self.query.query_string@))] + opt_entry(
            "operator"@,
            self.operator,
        ) + opt_entry("zero_terms_query"@, self.zero_terms_query) + opt_entry(
            "fuzzy_rewrite"@,
            self.fuzzy_rewrite,
        ) + opt_entry("lenient"@, self.lenient) + opt_entry("fuzziness"@, self.fuzziness)
            + opt_entry("prefix_length"@, self.prefix_length) + opt_entry(
            "max_expansions"@,
            self.max_expansions,
        ) + opt_entry("fuzzy_transpositions"@, self.fuzzy_transpositions) + opt_entry(
            "analyzer"@,
            self.analyzer,
        )
    }

    /// Construct a `match` query on the given field and query text; fails
    /// with `EmptyField` exactly when the field is empty. No optional
    /// parameter is set.
    pub fn new(field: String, query_string: String) -> (r: Result<MatchQuery, ValidationError>)
        ensures
            r is Ok <==> field@.len() > 0,
            field@.len() == 0 ==> r == Err::<MatchQuery, ValidationError>(
                ValidationError::EmptyField,
            ),
            r matches Ok(q) ==> q.query.query_type@ == "match"@ && q.query.field == field
                && q.query.query_string == query_string && q.query.wf() && q.operator is None
                && q.zero_terms_query is None && q.fuzzy_rewrite is None && q.lenient is None
                && q.fuzziness is None && q.prefix_length is None && q.max_expansions is None
                && q.fuzzy_transpositions is None && q.analyzer is None,
    {
        proof {
            reveal_strlit("match");
            assert("match"@.len() == 5);
        }
        let query_result = MonoFieldQuery::new("match", field, query_string);
        match query_result {
            Err(err) => Err(err),
            Ok(query) => Ok(
                MatchQuery {
                    query,
                    operator: None,
                    zero_terms_query: None,
                    fuzzy_rewrite: None,
                    lenient: None,
                    fuzziness: None,
                    prefix_length: None,
                    max_expansions: None,
                    fuzzy_transpositions: None,
                    analyzer: None,
                },
            ),
        }
    }

    /// Set the `operator` parameter; rendering keeps only the last value set.
    pub fn set_operator(&mut self, operator: Operator)
        ensures
            *final(self) == (MatchQuery { operator: Some(operator), ..*old(self) }),
    {
        self.operator = Some(operator);
    }

    /// Set the `zero_terms_query` parameter; rendering keeps only the last
    /// value set.
    pub fn set_zero_terms_query(&mut self, zero_terms_query: ZeroTermsQuery)
        ensures
            *final(self) == (MatchQuery {
                zero_terms_query: Some(zero_terms_query),
                ..*old(self)
            }),
    {
        self.zero_terms_query = Some(zero_terms_query);
    }

    /// Set the `fuzzy_rewrite` parameter; rendering keeps only the last
    /// value set.
    pub fn set_fuzzy_rewrite(&mut self, rewrite: RewriteType)
        ensures
            *final(self) == (MatchQuery { fuzzy_rewrite: Some(rewrite), ..*old(self) }),
    {
        self.fuzzy_rewrite = Some(rewrite);
    }

    /// Set the `lenient` parameter; rendering keeps only the last value set.
    pub fn set_lenient(&mut self, lenient: bool)
        ensures
            *final(self) == (MatchQuery { lenient: Some(lenient), ..*old(self) }),
    {
        self.lenient = Some(lenient);
    }

    /// Set the `fuzziness` parameter; rendering keeps only the last value
    /// set.
    pub fn set_fuzziness(&mut self, fuzziness: String)
        ensures
            *final(self) == (MatchQuery { fuzziness: Some(fuzziness), ..*old(self) }),
    {
        self.fuzziness = Some(fuzziness);
    }

    /// Set the `prefix_length` parameter; rendering keeps only the last
    /// value set.
    pub fn set_prefix_length(&mut self, prefix_length: u32)
        ensures
            *final(self) == (MatchQuery { prefix_length: Some(prefix_length), ..*old(self) }),
    {
        self.prefix_length = Some(prefix_length);
    }

    /// Set the `max_expansions` parameter; rendering keeps only the last
    /// value set.
    pub fn set_max_expansions(&mut self, max_expansions: u32)
        ensures
            *final(self) == (MatchQuery { max_expansions: Some(max_expansions), ..*old(self) }),
    {
        self.max_expansions = Some(max_expansions);
    }

    /// Set the `fuzzy_transpositions` parameter; rendering keeps only the
    /// last value set.
    pub fn set_fuzzy_transpositions(&mut self, fuzzy_transpositions: bool)
        ensures
            *final(self) == (MatchQuery {
                fuzzy_transpositions: Some(fuzzy_transpositions),
                ..*old(self)
            }),
    {
        self.fuzzy_transpositions = Some(fuzzy_transpositions);
    }

    /// Set the `analyzer` parameter; rendering keeps only the last value
    /// set.
    pub fn set_analyzer(&mut self, analyzer: String)
        ensures
            *final(self) == (MatchQuery { analyzer: Some(analyzer), ..*old(self) }),
    {
        self.analyzer = Some(analyzer);
    }
}

/// The rendered inner object of a `match` query always opens with the
/// fixed `"query"` key holding the query text, and no key appears twice,
/// whichever optional parameters were set.
#[verifier::rlimit(100)]
#[verifier::spinoff_prover]
pub proof fn lemma_match_inner_shape(q: MatchQuery)
    ensures
        q.inner_entries().len() >= 1,
        q.inner_entries()[0] == (("query"@, JsonModel::Str(q.query.query_string@))),
        has_key(q.inner_entries(), "query"@),
        forall|l1: int, l2: int|
            0 <= l1 < l2 < q.inner_entries().len() ==> q.inner_entries()[l1].0
                != q.inner_entries()[l2].0,
{
    lemma_match_keys_distinct();
    let ghost p0 = seq![("query"@, JsonModel::Str(q.query.query_string@))];
    let ghost p1 = p0 + opt_entry("operator"@, q.operator);
    let ghost p2 = p1 + opt_entry("zero_terms_query"@, q.zero_terms_query);
    let ghost p3 = p2 + opt_entry("fuzzy_rewrite"@, q.fuzzy_rewrite);
    let ghost p4 = p3 + opt_entry("lenient"@, q.lenient);
    let ghost p5 = p4 + opt_entry("fuzziness"@, q.fuzziness);
    let ghost p6 = p5 + opt_entry("prefix_length"@, q.prefix_length);
    let ghost p7 = p6 + opt_entry("max_expansions"@, q.max_expansions);
    let ghost p8 = p7 + opt_entry("fuzzy_transpositions"@, q.fuzzy_transpositions);
    let ghost p9 = p8 + opt_entry("analyzer"@, q.analyzer);
    assert(p0.len() == 1);
    assert(p0[0] == (("query"@, JsonModel::Str(q.query.query_string@))));
    assert(forall|l: int| 0 <= l < p0.len() ==> p0[l].0 == "query"@);
    assert(forall|l: int| 0 <= l < p0.len() ==> p0[l].0 != "operator"@);
    lemma_opt_entry_unique(p0, "operator"@, q.operator);
    assert(forall|l: int| 0 <= l < p0.len() ==> p1[l] == p0[l]);
    assert(q.operator is Some ==> p1.len() == p0.len() + 1 && p1[p0.len() as int] == (("operator"@, (q.operator->0).json_model())));
    assert(q.operator is None ==> p1 =~= p0);
    assert(p0.len() <= p1.len() <= p0.len() + 1);
    assert(forall|l: int| 0 <= l < p1.len() ==> p1[l].0 == "query"@ || (q.operator is Some && p1[l].0 == "operator"@));
    assert(forall|l: int| 0 <= l < p1.len() ==> p1[l].0 != "zero_terms_query"@);
    lemma_opt_entry_unique(p1, "zero_terms_query"@, q.zero_terms_query);
    assert(forall|l: int| 0 <= l < p1.len() ==> p2[l] == p1[l]);
    assert(q.zero_terms_query is Some ==> p2.len() == p1.len() + 1 && p2[p1.len() as int] == (("zero_terms_query"@, (q.zero_terms_query->0).json_model())));
    assert(q.zero_terms_query is None ==> p2 =~= p1);
    assert(p1.len() <= p2.len() <= p1.len() + 1);
    assert(forall|l: int| 0 <= l < p2.len() ==> p2[l].0 == "query"@ || (q.operator is Some && p2[l].0 == "operator"@) || (q.zero_terms_query is Some && p2[l].0 == "zero_terms_query"@));
    assert(forall|l: int| 0 <= l < p2.len() ==> p2[l].0 != "fuzzy_rewrite"@);
    lemma_opt_entry_unique(p2, "fuzzy_rewrite"@, q.fuzzy_rewrite);
    assert(forall|l: int| 0 <= l < p2.len() ==> p3[l] == p2[l]);
    assert(q.fuzzy_rewrite is Some ==> p3.len() == p2.len() + 1 && p3[p2.len() as int] == (("fuzzy_rewrite"@, (q.fuzzy_rewrite->0).json_model())));
    assert(q.fuzzy_rewrite is None ==> p3 =~= p2);
    assert(p2.len() <= p3.len() <= p2.len() + 1);
    assert(forall|l: int| 0 <= l < p3.len() ==> p3[l].0 == "query"@ || (q.operator is Some && p3[l].0 == "operator"@) || (q.zero_terms_query is Some && p3[l].0 == "zero_terms_query"@) || (q.fuzzy_rewrite is Some && p3[l].0 == "fuzzy_rewrite"@));
    assert(forall|l: int| 0 <= l < p3.len() ==> p3[l].0 != "lenient"@);
    lemma_opt_entry_unique(p3, "lenient"@, q.lenient);
    assert(forall|l: int| 0 <= l < p3.len() ==> p4[l] == p3[l]);
    assert(q.lenient is Some ==> p4.len() == p3.len() + 1 && p4[p3.len() as int] == (("lenient"@, (q.lenient->0).json_model())));
    assert(q.lenient is None ==> p4 =~= p3);
    assert(p3.len() <= p4.len() <= p3.len() + 1);
    assert(forall|l: int| 0 <= l < p4.len() ==> p4[l].0 == "query"@ || (q.operator is Some && p4[l].0 == "operator"@) || (q.zero_terms_query is Some && p4[l].0 == "zero_terms_query"@) || (q.fuzzy_rewrite is Some && p4[l].0 == "fuzzy_rewrite"@) || (q.lenient is Some && p4[l].0 == "lenient"@));
    assert(forall|l: int| 0 <= l < p4.len() ==> p4[l].0 != "fuzziness"@);
    lemma_opt_entry_unique(p4, "fuzziness"@, q.fuzziness);
    assert(forall|l: int| 0 <= l < p4.len() ==> p5[l] == p4[l]);
    assert(q.fuzziness is Some ==> p5.len() == p4.len() + 1 && p5[p4.len() as int] == (("fuzziness"@, (q.fuzziness->0).json_model())));
    assert(q.fuzziness is None ==> p5 =~= p4);
    assert(p4.len() <= p5.len() <= p4.len() + 1);
    assert(forall|l: int| 0 <= l < p5.len() ==> p5[l].0 == "query"@ || (q.operator is Some && p5[l].0 == "operator"@) || (q.zero_terms_query is Some && p5[l].0 == "zero_terms_query"@) || (q.fuzzy_rewrite is Some && p5[l].0 == "fuzzy_rewrite"@) || (q.lenient is Some && p5[l].0 == "lenient"@) || (q.fuzziness is Some && p5[l].0 == "fuzziness"@));
    assert(forall|l: int| 0 <= l < p5.len() ==> p5[l].0 != "prefix_length"@);
    lemma_opt_entry_unique(p5, "prefix_length"@, q.prefix_length);
    assert(forall|l: int| 0 <= l < p5.len() ==> p6[l] == p5[l]);
    assert(q.prefix_length is Some ==> p6.len() == p5.len() + 1 && p6[p5.len() as int] == (("prefix_length"@, (q.prefix_length->0).json_model())));
    assert(q.prefix_length is None ==> p6 =~= p5);
    assert(p5.len() <= p6.len() <= p5.len() + 1);
    assert(forall|l: int| 0 <= l < p6.len() ==> p6[l].0 == "query"@ || (q.operator is Some && p6[l].0 == "operator"@) || (q.zero_terms_query is Some && p6[l].0 == "zero_terms_query"@) || (q.fuzzy_rewrite is Some && p6[l].0 == "fuzzy_rewrite"@) || (q.lenient is Some && p6[l].0 == "lenient"@) || (q.fuzziness is Some && p6[l].0 == "fuzziness"@) || (q.prefix_length is Some && p6[l].0 == "prefix_length"@));
    assert(forall|l: int| 0 <= l < p6.len() ==> p6[l].0 != "max_expansions"@);
    lemma_opt_entry_unique(p6, "max_expansions"@, q.max_expansions);
    assert(forall|l: int| 0 <= l < p6.len() ==> p7[l] == p6[l]);
    assert(q.max_expansions is Some ==> p7.len() == p6.len() + 1 && p7[p6.len() as int] == (("max_expansions"@, (q.max_expansions->0).json_model())));
    assert(q.max_expansions is None ==> p7 =~= p6);
    assert(p6.len() <= p7.len() <= p6.len() + 1);
    assert(forall|l: int| 0 <= l < p7.len() ==> p7[l].0 == "query"@ || (q.operator is Some && p7[l].0 == "operator"@) || (q.zero_terms_query is Some && p7[l].0 == "zero_terms_query"@) || (q.fuzzy_rewrite is Some && p7[l].0 == "fuzzy_rewrite"@) || (q.lenient is Some && p7[l].0 == "lenient"@) || (q.fuzziness is Some && p7[l].0 == "fuzziness"@) || (q.prefix_length is Some && p7[l].0 == "prefix_length"@) || (q.max_expansions is Some && p7[l].0 == "max_expansions"@));
    assert(forall|l: int| 0 <= l < p7.len() ==> p7[l].0 != "fuzzy_transpositions"@);
    lemma_opt_entry_unique(p7, "fuzzy_transpositions"@, q.fuzzy_transpositions);
    assert(forall|l: int| 0 <= l < p7.len() ==> p8[l] == p7[l]);
    assert(q.fuzzy_transpositions is Some ==> p8.len() == p7.len() + 1 && p8[p7.len() as int] == (("fuzzy_transpositions"@, (q.fuzzy_transpositions->0).json_model())));
    assert(q.fuzzy_transpositions is None ==> p8 =~= p7);
    assert(p7.len() <= p8.len() <= p7.len() + 1);
    assert(forall|l: int| 0 <= l < p8.len() ==> p8[l].0 == "query"@ || (q.operator is Some && p8[l].0 == "operator"@) || (q.zero_terms_query is Some && p8[l].0 == "zero_terms_query"@) || (q.fuzzy_rewrite is Some && p8[l].0 == "fuzzy_rewrite"@) || (q.lenient is Some && p8[l].0 == "lenient"@) || (q.fuzziness is Some && p8[l].0 == "fuzziness"@) || (q.prefix_length is Some && p8[l].0 == "prefix_length"@) || (q.max_expansions is Some && p8[l].0 == "max_expansions"@) || (q.fuzzy_transpositions is Some && p8[l].0 == "fuzzy_transpositions"@));
    assert(forall|l: int| 0 <= l < p8.len() ==> p8[l].0 != "analyzer"@);
    lemma_opt_entry_unique(p8, "analyzer"@, q.analyzer);
    assert(forall|l: int| 0 <= l < p8.len() ==> p9[l] == p8[l]);
    assert(q.analyzer is Some ==> p9.len() == p8.len() + 1 && p9[p8.len() as int] == (("analyzer"@, (q.analyzer->0).json_model())));
    assert(q.analyzer is None ==> p9 =~= p8);
    assert(p8.len() <= p9.len() <= p8.len() + 1);
    assert(forall|l: int| 0 <= l < p9.len() ==> p9[l].0 == "query"@ || (q.operator is Some && p9[l].0 == "operator"@) || (q.zero_terms_query is Some && p9[l].0 == "zero_terms_query"@) || (q.fuzzy_rewrite is Some && p9[l].0 == "fuzzy_rewrite"@) || (q.lenient is Some && p9[l].0 == "lenient"@) || (q.fuzziness is Some && p9[l].0 == "fuzziness"@) || (q.prefix_length is Some && p9[l].0 == "prefix_length"@) || (q.max_expansions is Some && p9[l].0 == "max_expansions"@) || (q.fuzzy_transpositions is Some && p9[l].0 == "fuzzy_transpositions"@) || (q.analyzer is Some && p9[l].0 == "analyzer"@));
    assert(q.inner_entries() == p9);
    assert(forall|l1: int, l2: int| 0 <= l1 < l2 < p9.len() ==> p9[l1].0 != p9[l2].0);
    assert(p9[0] == p0[0]);
    assert(has_key(p9, "query"@));
}

/// An optional parameter is rendered if and only if it was set: an unset
/// `operator` leaves no `"operator"` key in the inner object of a
/// `match` query, and a set one puts exactly the value that was set under
/// that key, whatever the other parameters hold.
#[verifier::rlimit(100)]
#[verifier::spinoff_prover]
pub proof fn lemma_match_operator_rendered(q: MatchQuery)
    ensures
        has_key(q.inner_entries(), "operator"@) <==> q.operator is Some,
        forall|l: int|
            0 <= l < q.inner_entries().len() && q.inner_entries()[l].0 == "operator"@
                ==> (q.operator matches Some(v) && q.inner_entries()[l].1 == v.json_model()),
{
    lemma_match_keys_distinct();
    let ghost p0 = seq![("query"@, JsonModel::Str(q.query.query_string@))];
    let ghost p1 = p0 + opt_entry("operator"@, q.operator);
    let ghost p2 = p1 + opt_entry("zero_terms_query"@, q.zero_terms_query);
    let ghost p3 = p2 + opt_entry("fuzzy_rewrite"@, q.fuzzy_rewrite);
    let ghost p4 = p3 + opt_entry("lenient"@, q.lenient);
    let ghost p5 = p4 + opt_entry("fuzziness"@, q.fuzziness);
    let ghost p6 = p5 + opt_entry("prefix_length"@, q.prefix_length);
    let ghost p7 = p6 + opt_entry("max_expansions"@, q.max_expansions);
    let ghost p8 = p7 + opt_entry("fuzzy_transpositions"@, q.fuzzy_transpositions);
    let ghost p9 = p8 + opt_entry("analyzer"@, q.analyzer);
    assert(p0.len() == 1);
    assert(forall|l: int| 0 <= l < p0.len() ==> p0[l].0 != "operator"@);
    assert(forall|l: int| 0 <= l < p0.len() ==> p1[l] == p0[l]);
    assert(q.operator is Some ==> p1.len() == p0.len() + 1 && p1[p0.len() as int] == (("operator"@, (q.operator->0).json_model())));
    assert(q.operator is None ==> p1 =~= p0);
    assert(p0.len() <= p1.len() <= p0.len() + 1);
    assert(q.operator is None ==> (forall|l: int| 0 <= l < p1.len() ==> p1[l].0 != "operator"@));
    assert(q.operator is Some ==> (forall|l: int| 0 <= l < p1.len() && p1[l].0 == "operator"@ ==> p1[l] == (("operator"@, (q.operator->0).json_model()))));
    assert(forall|l: int| 0 <= l < p1.len() ==> p2[l] == p1[l]);
    assert(q.zero_terms_query is Some ==> p2.len() == p1.len() + 1 && p2[p1.len() as int] == (("zero_terms_query"@, (q.zero_terms_query->0).json_model())));
    assert(q.zero_terms_query is None ==> p2 =~= p1);
    assert(p1.len() <= p2.len() <= p1.len() + 1);
    assert(q.operator is None ==> (forall|l: int| 0 <= l < p2.len() ==> p2[l].0 != "operator"@));
    assert(q.operator is Some ==> (forall|l: int| 0 <= l < p2.len() && p2[l].0 == "operator"@ ==> p2[l] == (("operator"@, (q.operator->0).json_model()))));
    assert(forall|l: int| 0 <= l < p2.len() ==> p3[l] == p2[l]);
    assert(q.fuzzy_rewrite is Some ==> p3.len() == p2.len() + 1 && p3[p2.len() as int] == (("fuzzy_rewrite"@, (q.fuzzy_rewrite->0).json_model())));
    assert(q.fuzzy_rewrite is None ==> p3 =~= p2);
    assert(p2.len() <= p3.len() <= p2.len() + 1);
    assert(q.operator is None ==> (forall|l: int| 0 <= l < p3.len() ==> p3[l].0 != "operator"@));
    assert(q.operator is Some ==> (forall|l: int| 0 <= l < p3.len() && p3[l].0 == "operator"@ ==> p3[l] == (("operator"@, (q.operator->0).json_model()))));
    assert(forall|l: int| 0 <= l < p3.len() ==> p4[l] == p3[l]);
    assert(q.lenient is Some ==> p4.len() == p3.len() + 1 && p4[p3.len() as int] == (("lenient"@, (q.lenient->0).json_model())));
    assert(q.lenient is None ==> p4 =~= p3);
    assert(p3.len() <= p4.len() <= p3.len() + 1);
    assert(q.operator is None ==> (forall|l: int| 0 <= l < p4.len() ==> p4[l].0 != "operator"@));
    assert(q.operator is Some ==> (forall|l: int| 0 <= l < p4.len() && p4[l].0 == "operator"@ ==> p4[l] == (("operator"@, (q.operator->0).json_model()))));
    assert(forall|l: int| 0 <= l < p4.len() ==> p5[l] == p4[l]);
    assert(q.fuzziness is Some ==> p5.len() == p4.len() + 1 && p5[p4.len() as int] == (("fuzziness"@, (q.fuzziness->0).json_model())));
    assert(q.fuzziness is None ==> p5 =~= p4);
    assert(p4.len() <= p5.len() <= p4.len() + 1);
    assert(q.operator is None ==> (forall|l: int| 0 <= l < p5.len() ==> p5[l].0 != "operator"@));
    assert(q.operator is Some ==> (forall|l: int| 0 <= l < p5.len() && p5[l].0 == "operator"@ ==> p5[l] == (("operator"@, (q.operator->0).json_model()))));
    assert(forall|l: int| 0 <= l < p5.len() ==> p6[l] == p5[l]);
    assert(q.prefix_length is Some ==> p6.len() == p5.len() + 1 && p6[p5.len() as int] == (("prefix_length"@, (q.prefix_length->0).json_model())));
    assert(q.prefix_length is None ==> p6 =~= p5);
    assert(p5.len() <= p6.len() <= p5.len() + 1);
    assert(q.operator is None ==> (forall|l: int| 0 <= l < p6.len() ==> p6[l].0 != "operator"@));
    assert(q.operator is Some ==> (forall|l: int| 0 <= l < p6.len() && p6[l].0 == "operator"@ ==> p6[l] == (("operator"@, (q.operator->0).json_model()))));
    assert(forall|l: int| 0 <= l < p6.len() ==> p7[l] == p6[l]);
    assert(q.max_expansions is Some ==> p7.len() == p6.len() + 1 && p7[p6.len() as int] == (("max_expansions"@, (q.max_expansions->0).json_model())));
    assert(q.max_expansions is None ==> p7 =~= p6);
    assert(p6.len() <= p7.len() <= p6.len() + 1);
    assert(q.operator is None ==> (forall|l: int| 0 <= l < p7.len() ==> p7[l].0 != "operator"@));
    assert(q.operator is Some ==> (forall|l: int| 0 <= l < p7.len() && p7[l].0 == "operator"@ ==> p7[l] == (("operator"@, (q.operator->0).json_model()))));
    assert(forall|l: int| 0 <= l < p7.len() ==> p8[l] == p7[l]);
    assert(q.fuzzy_transpositions is Some ==> p8.len() == p7.len() + 1 && p8[p7.len() as int] == (("fuzzy_transpositions"@, (q.fuzzy_transpositions->0).json_model())));
    assert(q.fuzzy_transpositions is None ==> p8 =~= p7);
    assert(p7.len() <= p8.len() <= p7.len() + 1);
    assert(q.operator is None ==> (forall|l: int| 0 <= l < p8.len() ==> p8[l].0 != "operator"@));
    assert(q.operator is Some ==> (forall|l: int| 0 <= l < p8.len() && p8[l].0 == "operator"@ ==> p8[l] == (("operator"@, (q.operator->0).json_model()))));
    assert(forall|l: int| 0 <= l < p8.len() ==> p9[l] == p8[l]);
    assert(q.analyzer is Some ==> p9.len() == p8.len() + 1 && p9[p8.len() as int] == (("analyzer"@, (q.analyzer->0).json_model())));
    assert(q.analyzer is None ==> p9 =~= p8);
    assert(p8.len() <= p9.len() <= p8.len() + 1);
    assert(q.operator is None ==> (forall|l: int| 0 <= l < p9.len() ==> p9[l].0 != "operator"@));
    assert(q.operator is Some ==> (forall|l: int| 0 <= l < p9.len() && p9[l].0 == "operator"@ ==> p9[l] == (("operator"@, (q.operator->0).json_model()))));
    assert(q.inner_entries() == p9);
    if q.operator is Some {
        assert(p1[p0.len() as int] == (("operator"@, (q.operator->0).json_model())));
        assert(p2[p0.len() as int] == p1[p0.len() as int]);
        assert(p3[p0.len() as int] == p2[p0.len() as int]);
        assert(p4[p0.len() as int] == p3[p0.len() as int]);
        assert(p5[p0.len() as int] == p4[p0.len() as int]);
        assert(p6[p0.len() as int] == p5[p0.len() as int]);
        assert(p7[p0.len() as int] == p6[p0.len() as int]);
        assert(p8[p0.len() as int] == p7[p0.len() as int]);
        assert(p9[p0.len() as int] == p8[p0.len() as int]);
        assert(p9[p0.len() as int] == (("operator"@, (q.operator->0).json_model())));
        assert(has_key(p9, "operator"@));
    } else {
        assert(!has_key(p9, "operator"@));
    }
}

/// An optional parameter is rendered if and only if it was set: an unset
/// `zero_terms_query` leaves no `"zero_terms_query"` key in the inner object of a
/// `match` query, and a set one puts exactly the value that was set under
/// that key, whatever the other parameters hold.
#[verifier::rlimit(100)]
#[verifier::spinoff_prover]
pub proof fn lemma_match_zero_terms_query_rendered(q: MatchQuery)
    ensures
        has_key(q.inner_entries(), "zero_terms_query"@) <==> q.zero_terms_query is Some,
        forall|l: int|
            0 <= l < q.inner_entries().len() && q.inner_entries()[l].0 == "zero_terms_query"@
                ==> (q.zero_terms_query matches Some(v) && q.inner_entries()[l].1 == v.json_model()),
{
    lemma_match_keys_distinct();
    let ghost p0 = seq![("query"@, JsonModel::Str(q.query.query_string@))];
    let ghost p1 = p0 + opt_entry("operator"@, q.operator);
    let ghost p2 = p1 + opt_entry("zero_terms_query"@, q.zero_terms_query);
    let ghost p3 = p2 + opt_entry("fuzzy_rewrite"@, q.fuzzy_rewrite);
    let ghost p4 = p3 + opt_entry("lenient"@, q.lenient);
    let ghost p5 = p4 + opt_entry("fuzziness"@, q.fuzziness);
    let ghost p6 = p5 + opt_entry("prefix_length"@, q.prefix_length);
    let ghost p7 = p6 + opt_entry("max_expansions"@, q.max_expansions);
    let ghost p8 = p7 + opt_entry("fuzzy_transpositions"@, q.fuzzy_transpositions);
    let ghost p9 = p8 + opt_entry("analyzer"@, q.analyzer);
    assert(p0.len() == 1);
    assert(forall|l: int| 0 <= l < p0.len() ==> p0[l].0 != "zero_terms_query"@);
    assert(forall|l: int| 0 <= l < p0.len() ==> p1[l] == p0[l]);
    assert(q.operator is Some ==> p1.len() == p0.len() + 1 && p1[p0.len() as int] == (("operator"@, (q.operator->0).json_model())));
    assert(q.operator is None ==> p1 =~= p0);
    assert(p0.len() <= p1.len() <= p0.len() + 1);
    assert(q.zero_terms_query is None ==> (forall|l: int| 0 <= l < p1.len() ==> p1[l].0 != "zero_terms_query"@));
    assert(q.zero_terms_query is Some ==> (forall|l: int| 0 <= l < p1.len() && p1[l].0 == "zero_terms_query"@ ==> p1[l] == (("zero_terms_query"@, (q.zero_terms_query->0).json_model()))));
    assert(forall|l: int| 0 <= l < p1.len() ==> p2[l] == p1[l]);
    assert(q.zero_terms_query is Some ==> p2.len() == p1.len() + 1 && p2[p1.len() as int] == (("zero_terms_query"@, (q.zero_terms_query->0).json_model())));
    assert(q.zero_terms_query is None ==> p2 =~= p1);
    assert(p1.len() <= p2.len() <= p1.len() + 1);
    assert(q.zero_terms_query is None ==> (forall|l: int| 0 <= l < p2.len() ==> p2[l].0 != "zero_terms_query"@));
    assert(q.zero_terms_query is Some ==> (forall|l: int| 0 <= l < p2.len() && p2[l].0 == "zero_terms_query"@ ==> p2[l] == (("zero_terms_query"@, (q.zero_terms_query->0).json_model()))));
    assert(forall|l: int| 0 <= l < p2.len() ==> p3[l] == p2[l]);
    assert(q.fuzzy_rewrite is Some ==> p3.len() == p2.len() + 1 && p3[p2.len() as int] == (("fuzzy_rewrite"@, (q.fuzzy_rewrite->0).json_model())));
    assert(q.fuzzy_rewrite is None ==> p3 =~= p2);
    assert(p2.len() <= p3.len() <= p2.len() + 1);
    assert(q.zero_terms_query is None ==> (forall|l: int| 0 <= l < p3.len() ==> p3[l].0 != "zero_terms_query"@));
    assert(q.zero_terms_query is Some ==> (forall|l: int| 0 <= l < p3.len() && p3[l].0 == "zero_terms_query"@ ==> p3[l] == (("zero_terms_query"@, (q.zero_terms_query->0).json_model()))));
    assert(forall|l: int| 0 <= l < p3.len() ==> p4[l] == p3[l]);
    assert(q.lenient is Some ==> p4.len() == p3.len() + 1 && p4[p3.len() as int] == (("lenient"@, (q.lenient->0).json_model())));
    assert(q.lenient is None ==> p4 =~= p3);
    assert(p3.len() <= p4.len() <= p3.len() + 1);
    assert(q.zero_terms_query is None ==> (forall|l: int| 0 <= l < p4.len() ==> p4[l].0 != "zero_terms_query"@));
    assert(q.zero_terms_query is Some ==> (forall|l: int| 0 <= l < p4.len() && p4[l].0 == "zero_terms_query"@ ==> p4[l] == (("zero_terms_query"@, (q.zero_terms_query->0).json_model()))));
    assert(forall|l: int| 0 <= l < p4.len() ==> p5[l] == p4[l]);
    assert(q.fuzziness is Some ==> p5.len() == p4.len() + 1 && p5[p4.len() as int] == (("fuzziness"@, (q.fuzziness->0).json_model())));
    assert(q.fuzziness is None ==> p5 =~= p4);
    assert(p4.len() <= p5.len() <= p4.len() + 1);
    assert(q.zero_terms_query is None ==> (forall|l: int| 0 <= l < p5.len() ==> p5[l].0 != "zero_terms_query"@));
    assert(q.zero_terms_query is Some ==> (forall|l: int| 0 <= l < p5.len() && p5[l].0 == "zero_terms_query"@ ==> p5[l] == (("zero_terms_query"@, (q.zero_terms_query->0).json_model()))));
    assert(forall|l: int| 0 <= l < p5.len() ==> p6[l] == p5[l]);
    assert(q.prefix_length is Some ==> p6.len() == p5.len() + 1 && p6[p5.len() as int] == (("prefix_length"@, (q.prefix_length->0).json_model())));
    assert(q.prefix_length is None ==> p6 =~= p5);
    assert(p5.len() <= p6.len() <= p5.len() + 1);
    assert(q.zero_terms_query is None ==> (forall|l: int| 0 <= l < p6.len() ==> p6[l].0 != "zero_terms_query"@));
    assert(q.zero_terms_query is Some ==> (forall|l: int| 0 <= l < p6.len() && p6[l].0 == "zero_terms_query"@ ==> p6[l] == (("zero_terms_query"@, (q.zero_terms_query->0).json_model()))));
    assert(forall|l: int| 0 <= l < p6.len() ==> p7[l] == p6[l]);
    assert(q.max_expansions is Some ==> p7.len() == p6.len() + 1 && p7[p6.len() as int] == (("max_expansions"@, (q.max_expansions->0).json_model())));
    assert(q.max_expansions is None ==> p7 =~= p6);
    assert(p6.len() <= p7.len() <= p6.len() + 1);
    assert(q.zero_terms_query is None ==> (forall|l: int| 0 <= l < p7.len() ==> p7[l].0 != "zero_terms_query"@));
    assert(q.zero_terms_query is Some ==> (forall|l: int| 0 <= l < p7.len() && p7[l].0 == "zero_terms_query"@ ==> p7[l] == (("zero_terms_query"@, (q.zero_terms_query->0).json_model()))));
    assert(forall|l: int| 0 <= l < p7.len() ==> p8[l] == p7[l]);
    assert(q.fuzzy_transpositions is Some ==> p8.len() == p7.len() + 1 && p8[p7.len() as int] == (("fuzzy_transpositions"@, (q.fuzzy_transpositions->0).json_model())));
    assert(q.fuzzy_transpositions is None ==> p8 =~= p7);
    assert(p7.len() <= p8.len() <= p7.len() + 1);
    assert(q.zero_terms_query is None ==> (forall|l: int| 0 <= l < p8.len() ==> p8[l].0 != "zero_terms_query"@));
    assert(q.zero_terms_query is Some ==> (forall|l: int| 0 <= l < p8.len() && p8[l].0 == "zero_terms_query"@ ==> p8[l] == (("zero_terms_query"@, (q.zero_terms_query->0).json_model()))));
    assert(forall|l: int| 0 <= l < p8.len() ==> p9[l] == p8[l]);
    assert(q.analyzer is Some ==> p9.len() == p8.len() + 1 && p9[p8.len() as int] == (("analyzer"@, (q.analyzer->0).json_model())));
    assert(q.analyzer is None ==> p9 =~= p8);
    assert(p8.len() <= p9.len() <= p8.len() + 1);
    assert(q.zero_terms_query is None ==> (forall|l: int| 0 <= l < p9.len() ==> p9[l].0 != "zero_terms_query"@));
    assert(q.zero_terms_query is Some ==> (forall|l: int| 0 <= l < p9.len() && p9[l].0 == "zero_terms_query"@ ==> p9[l] == (("zero_terms_query"@, (q.zero_terms_query->0).json_model()))));
    assert(q.inner_entries() == p9);
    if q.zero_terms_query is Some {
        assert(p2[p1.len() as int] == (("zero_terms_query"@, (q.zero_terms_query->0).json_model())));
        assert(p3[p1.len() as int] == p2[p1.len() as int]);
        assert(p4[p1.len() as int] == p3[p1.len() as int]);
        assert(p5[p1.len() as int] == p4[p1.len() as int]);
        assert(p6[p1.len() as int] == p5[p1.len() as int]);
        assert(p7[p1.len() as int] == p6[p1.len() as int]);
        assert(p8[p1.len() as int] == p7[p1.len() as int]);
        assert(p9[p1.len() as int] == p8[p1.len() as int]);
        assert(p9[p1.len() as int] == (("zero_terms_query"@, (q.zero_terms_query->0).json_model())));
        assert(has_key(p9, "zero_terms_query"@));
    } else {
        assert(!has_key(p9, "zero_terms_query"@));
    }
}

/// An optional parameter is rendered if and only if it was set: an unset
/// `fuzzy_rewrite` leaves no `"fuzzy_rewrite"` key in the inner object of a
/// `match` query, and a set one puts exactly the value that was set under
/// that key, whatever the other parameters hold.
#[verifier::rlimit(100)]
#[verifier::spinoff_prover]
pub proof fn lemma_match_fuzzy_rewrite_rendered(q: MatchQuery)
    ensures
        has_key(q.inner_entries(), "fuzzy_rewrite"@) <==> q.fuzzy_rewrite is Some,
        forall|l: int|
            0 <= l < q.inner_entries().len() && q.inner_entries()[l].0 == "fuzzy_rewrite"@
                ==> (q.fuzzy_rewrite matches Some(v) && q.inner_entries()[l].1 == v.json_model()),
{
    lemma_match_keys_distinct();
    let ghost p0 = seq![("query"@, JsonModel::Str(q.query.query_string@))];
    let ghost p1 = p0 + opt_entry("operator"@, q.operator);
    let ghost p2 = p1 + opt_entry("zero_terms_query"@, q.zero_terms_query);
    let ghost p3 = p2 + opt_entry("fuzzy_rewrite"@, q.fuzzy_rewrite);
    let ghost p4 = p3 + opt_entry("lenient"@, q.lenient);
    let ghost p5 = p4 + opt_entry("fuzziness"@, q.fuzziness);
    let ghost p6 = p5 + opt_entry("prefix_length"@, q.prefix_length);
    let ghost p7 = p6 + opt_entry("max_expansions"@, q.max_expansions);
    let ghost p8 = p7 + opt_entry("fuzzy_transpositions"@, q.fuzzy_transpositions);
    let ghost p9 = p8 + opt_entry("analyzer"@, q.analyzer);
    assert(p0.len() == 1);
    assert(forall|l: int| 0 <= l < p0.len() ==> p0[l].0 != "fuzzy_rewrite"@);
    assert(forall|l: int| 0 <= l < p0.len() ==> p1[l] == p0[l]);
    assert(q.operator is Some ==> p1.len() == p0.len() + 1 && p1[p0.len() as int] == (("operator"@, (q.operator->0).json_model())));
    assert(q.operator is None ==> p1 =~= p0);
    assert(p0.len() <= p1.len() <= p0.len() + 1);
    assert(q.fuzzy_rewrite is None ==> (forall|l: int| 0 <= l < p1.len() ==> p1[l].0 != "fuzzy_rewrite"@));
    assert(q.fuzzy_rewrite is Some ==> (forall|l: int| 0 <= l < p1.len() && p1[l].0 == "fuzzy_rewrite"@ ==> p1[l] == (("fuzzy_rewrite"@, (q.fuzzy_rewrite->0).json_model()))));
    assert(forall|l: int| 0 <= l < p1.len() ==> p2[l] == p1[l]);
    assert(q.zero_terms_query is Some ==> p2.len() == p1.len() + 1 && p2[p1.len() as int] == (("zero_terms_query"@, (q.zero_terms_query->0).json_model())));
    assert(q.zero_terms_query is None ==> p2 =~= p1);
    assert(p1.len() <= p2.len() <= p1.len() + 1);
    assert(q.fuzzy_rewrite is None ==> (forall|l: int| 0 <= l < p2.len() ==> p2[l].0 != "fuzzy_rewrite"@));
    assert(q.fuzzy_rewrite is Some ==> (forall|l: int| 0 <= l < p2.len() && p2[l].0 == "fuzzy_rewrite"@ ==> p2[l] == (("fuzzy_rewrite"@, (q.fuzzy_rewrite->0).json_model()))));
    assert(forall|l: int| 0 <= l < p2.len() ==> p3[l] == p2[l]);
    assert(q.fuzzy_rewrite is Some ==> p3.len() == p2.len() + 1 && p3[p2.len() as int] == (("fuzzy_rewrite"@, (q.fuzzy_rewrite->0).json_model())));
    assert(q.fuzzy_rewrite is None ==> p3 =~= p2);
    assert(p2.len() <= p3.len() <= p2.len() + 1);
    assert(q.fuzzy_rewrite is None ==> (forall|l: int| 0 <= l < p3.len() ==> p3[l].0 != "fuzzy_rewrite"@));
    assert(q.fuzzy_rewrite is Some ==> (forall|l: int| 0 <= l < p3.len() && p3[l].0 == "fuzzy_rewrite"@ ==> p3[l] == (("fuzzy_rewrite"@, (q.fuzzy_rewrite->0).json_model()))));
    assert(forall|l: int| 0 <= l < p3.len() ==> p4[l] == p3[l]);
    assert(q.lenient is Some ==> p4.len() == p3.len() + 1 && p4[p3.len() as int] == (("lenient"@, (q.lenient->0).json_model())));
    assert(q.lenient is None ==> p4 =~= p3);
    assert(p3.len() <= p4.len() <= p3.len() + 1);
    assert(q.fuzzy_rewrite is None ==> (forall|l: int| 0 <= l < p4.len() ==> p4[l].0 != "fuzzy_rewrite"@));
    assert(q.fuzzy_rewrite is Some ==> (forall|l: int| 0 <= l < p4.len() && p4[l].0 == "fuzzy_rewrite"@ ==> p4[l] == (("fuzzy_rewrite"@, (q.fuzzy_rewrite->0).json_model()))));
    assert(forall|l: int| 0 <= l < p4.len() ==> p5[l] == p4[l]);
    assert(q.fuzziness is Some ==> p5.len() == p4.len() + 1 && p5[p4.len() as int] == (("fuzziness"@, (q.fuzziness->0).json_model())));
    assert(q.fuzziness is None ==> p5 =~= p4);
    assert(p4.len() <= p5.len() <= p4.len() + 1);
    assert(q.fuzzy_rewrite is None ==> (forall|l: int| 0 <= l < p5.len() ==> p5[l].0 != "fuzzy_rewrite"@));
    assert(q.fuzzy_rewrite is Some ==> (forall|l: int| 0 <= l < p5.len() && p5[l].0 == "fuzzy_rewrite"@ ==> p5[l] == (("fuzzy_rewrite"@, (q.fuzzy_rewrite->0).json_model()))));
    assert(forall|l: int| 0 <= l < p5.len() ==> p6[l] == p5[l]);
    assert(q.prefix_length is Some ==> p6.len() == p5.len() + 1 && p6[p5.len() as int] == (("prefix_length"@, (q.prefix_length->0).json_model())));
    assert(q.prefix_length is None ==> p6 =~= p5);
    assert(p5.len() <= p6.len() <= p5.len() + 1);
    assert(q.fuzzy_rewrite is None ==> (forall|l: int| 0 <= l < p6.len() ==> p6[l].0 != "fuzzy_rewrite"@));
    assert(q.fuzzy_rewrite is Some ==> (forall|l: int| 0 <= l < p6.len() && p6[l].0 == "fuzzy_rewrite"@ ==> p6[l] == (("fuzzy_rewrite"@, (q.fuzzy_rewrite->0).json_model()))));
    assert(forall|l: int| 0 <= l < p6.len() ==> p7[l] == p6[l]);
    assert(q.max_expansions is Some ==> p7.len() == p6.len() + 1 && p7[p6.len() as int] == (("max_expansions"@, (q.max_expansions->0).json_model())));
    assert(q.max_expansions is None ==> p7 =~= p6);
    assert(p6.len() <= p7.len() <= p6.len() + 1);
    assert(q.fuzzy_rewrite is None ==> (forall|l: int| 0 <= l < p7.len() ==> p7[l].0 != "fuzzy_rewrite"@));
    assert(q.fuzzy_rewrite is Some ==> (forall|l: int| 0 <= l < p7.len() && p7[l].0 == "fuzzy_rewrite"@ ==> p7[l] == (("fuzzy_rewrite"@, (q.fuzzy_rewrite->0).json_model()))));
    assert(forall|l: int| 0 <= l < p7.len() ==> p8[l] == p7[l]);
    assert(q.fuzzy_transpositions is Some ==> p8.len() == p7.len() + 1 && p8[p7.len() as int] == (("fuzzy_transpositions"@, (q.fuzzy_transpositions->0).json_model())));
    assert(q.fuzzy_transpositions is None ==> p8 =~= p7);
    assert(p7.len() <= p8.len() <= p7.len() + 1);
    assert(q.fuzzy_rewrite is None ==> (forall|l: int| 0 <= l < p8.len() ==> p8[l].0 != "fuzzy_rewrite"@));
    assert(q.fuzzy_rewrite is Some ==> (forall|l: int| 0 <= l < p8.len() && p8[l].0 == "fuzzy_rewrite"@ ==> p8[l] == (("fuzzy_rewrite"@, (q.fuzzy_rewrite->0).json_model()))));
    assert(forall|l: int| 0 <= l < p8.len() ==> p9[l] == p8[l]);
    assert(q.analyzer is Some ==> p9.len() == p8.len() + 1 && p9[p8.len() as int] == (("analyzer"@, (q.analyzer->0).json_model())));
    assert(q.analyzer is None ==> p9 =~= p8);
    assert(p8.len() <= p9.len() <= p8.len() + 1);
    assert(q.fuzzy_rewrite is None ==> (forall|l: int| 0 <= l < p9.len() ==> p9[l].0 != "fuzzy_rewrite"@));
    assert(q.fuzzy_rewrite is Some ==> (forall|l: int| 0 <= l < p9.len() && p9[l].0 == "fuzzy_rewrite"@ ==> p9[l] == (("fuzzy_rewrite"@, (q.fuzzy_rewrite->0).json_model()))));
    assert(q.inner_entries() == p9);
    if q.fuzzy_rewrite is Some {
        assert(p3[p2.len() as int] == (("fuzzy_rewrite"@, (q.fuzzy_rewrite->0).json_model())));
        assert(p4[p2.len() as int] == p3[p2.len() as int]);
        assert(p5[p2.len() as int] == p4[p2.len() as int]);
        assert(p6[p2.len() as int] == p5[p2.len() as int]);
        assert(p7[p2.len() as int] == p6[p2.len() as int]);
        assert(p8[p2.len() as int] == p7[p2.len() as int]);
        assert(p9[p2.len() as int] == p8[p2.len() as int]);
        assert(p9[p2.len() as int] == (("fuzzy_rewrite"@, (q.fuzzy_rewrite->0).json_model())));
        assert(has_key(p9, "fuzzy_rewrite"@));
    } else {
        assert(!has_key(p9, "fuzzy_rewrite"@));
    }
}

/// An optional parameter is rendered if and only if it was set: an unset
/// `lenient` leaves no `"lenient"` key in the inner object of a
/// `match` query, and a set one puts exactly the value that was set under
/// that key, whatever the other parameters hold.
#[verifier::rlimit(100)]
#[verifier::spinoff_prover]
pub proof fn lemma_match_lenient_rendered(q: MatchQuery)
    ensures
        has_key(q.inner_entries(), "lenient"@) <==> q.lenient is Some,
        forall|l: int|
            0 <= l < q.inner_entries().len() && q.inner_entries()[l].0 == "lenient"@
                ==> (q.lenient matches Some(v) && q.inner_entries()[l].1 == v.json_model()),
{
    lemma_match_keys_distinct();
    let ghost p0 = seq![("query"@, JsonModel::Str(q.query.query_string@))];
    let ghost p1 = p0 + opt_entry("operator"@, q.operator);
    let ghost p2 = p1 + opt_entry("zero_terms_query"@, q.zero_terms_query);
    let ghost p3 = p2 + opt_entry("fuzzy_rewrite"@, q.fuzzy_rewrite);
    let ghost p4 = p3 + opt_entry("lenient"@, q.lenient);
    let ghost p5 = p4 + opt_entry("fuzziness"@, q.fuzziness);
    let ghost p6 = p5 + opt_entry("prefix_length"@, q.prefix_length);
    let ghost p7 = p6 + opt_entry("max_expansions"@, q.max_expansions);
    let ghost p8 = p7 + opt_entry("fuzzy_transpositions"@, q.fuzzy_transpositions);
    let ghost p9 = p8 + opt_entry("analyzer"@, q.analyzer);
    assert(p0.len() == 1);
    assert(forall|l: int| 0 <= l < p0.len() ==> p0[l].0 != "lenient"@);
    assert(forall|l: int| 0 <= l < p0.len() ==> p1[l] == p0[l]);
    assert(q.operator is Some ==> p1.len() == p0.len() + 1 && p1[p0.len() as int] == (("operator"@, (q.operator->0).json_model())));
    assert(q.operator is None ==> p1 =~= p0);
    assert(p0.len() <= p1.len() <= p0.len() + 1);
    assert(q.lenient is None ==> (forall|l: int| 0 <= l < p1.len() ==> p1[l].0 != "lenient"@));
    assert(q.lenient is Some ==> (forall|l: int| 0 <= l < p1.len() && p1[l].0 == "lenient"@ ==> p1[l] == (("lenient"@, (q.lenient->0).json_model()))));
    assert(forall|l: int| 0 <= l < p1.len() ==> p2[l] == p1[l]);
    assert(q.zero_terms_query is Some ==> p2.len() == p1.len() + 1 && p2[p1.len() as int] == (("zero_terms_query"@, (q.zero_terms_query->0).json_model())));
    assert(q.zero_terms_query is None ==> p2 =~= p1);
    assert(p1.len() <= p2.len() <= p1.len() + 1);
    assert(q.lenient is None ==> (forall|l: int| 0 <= l < p2.len() ==> p2[l].0 != "lenient"@));
    assert(q.lenient is Some ==> (forall|l: int| 0 <= l < p2.len() && p2[l].0 == "lenient"@ ==> p2[l] == (("lenient"@, (q.lenient->0).json_model()))));
    assert(forall|l: int| 0 <= l < p2.len() ==> p3[l] == p2[l]);
    assert(q.fuzzy_rewrite is Some ==> p3.len() == p2.len() + 1 && p3[p2.len() as int] == (("fuzzy_rewrite"@, (q.fuzzy_rewrite->0).json_model())));
    assert(q.fuzzy_rewrite is None ==> p3 =~= p2);
    assert(p2.len() <= p3.len() <= p2.len() + 1);
    assert(q.lenient is None ==> (forall|l: int| 0 <= l < p3.len() ==> p3[l].0 != "lenient"@));
    assert(q.lenient is Some ==> (forall|l: int| 0 <= l < p3.len() && p3[l].0 == "lenient"@ ==> p3[l] == (("lenient"@, (q.lenient->0).json_model()))));
    assert(forall|l: int| 0 <= l < p3.len() ==> p4[l] == p3[l]);
    assert(q.lenient is Some ==> p4.len() == p3.len() + 1 && p4[p3.len() as int] == (("lenient"@, (q.lenient->0).json_model())));
    assert(q.lenient is None ==> p4 =~= p3);
    assert(p3.len() <= p4.len() <= p3.len() + 1);
    assert(q.lenient is None ==> (forall|l: int| 0 <= l < p4.len() ==> p4[l].0 != "lenient"@));
    assert(q.lenient is Some ==> (forall|l: int| 0 <= l < p4.len() && p4[l].0 == "lenient"@ ==> p4[l] == (("lenient"@, (q.lenient->0).json_model()))));
    assert(forall|l: int| 0 <= l < p4.len() ==> p5[l] == p4[l]);
    assert(q.fuzziness is Some ==> p5.len() == p4.len() + 1 && p5[p4.len() as int] == (("fuzziness"@, (q.fuzziness->0).json_model())));
    assert(q.fuzziness is None ==> p5 =~= p4);
    assert(p4.len() <= p5.len() <= p4.len() + 1);
    assert(q.lenient is None ==> (forall|l: int| 0 <= l < p5.len() ==> p5[l].0 != "lenient"@));
    assert(q.lenient is Some ==> (forall|l: int| 0 <= l < p5.len() && p5[l].0 == "lenient"@ ==> p5[l] == (("lenient"@, (q.lenient->0).json_model()))));
    assert(forall|l: int| 0 <= l < p5.len() ==> p6[l] == p5[l]);
    assert(q.prefix_length is Some ==> p6.len() == p5.len() + 1 && p6[p5.len() as int] == (("prefix_length"@, (q.prefix_length->0).json_model())));
    assert(q.prefix_length is None ==> p6 =~= p5);
    assert(p5.len() <= p6.len() <= p5.len() + 1);
    assert(q.lenient is None ==> (forall|l: int| 0 <= l < p6.len() ==> p6[l].0 != "lenient"@));
    assert(q.lenient is Some ==> (forall|l: int| 0 <= l < p6.len() && p6[l].0 == "lenient"@ ==> p6[l] == (("lenient"@, (q.lenient->0).json_model()))));
    assert(forall|l: int| 0 <= l < p6.len() ==> p7[l] == p6[l]);
    assert(q.max_expansions is Some ==> p7.len() == p6.len() + 1 && p7[p6.len() as int] == (("max_expansions"@, (q.max_expansions->0).json_model())));
    assert(q.max_expansions is None ==> p7 =~= p6);
    assert(p6.len() <= p7.len() <= p6.len() + 1);
    assert(q.lenient is None ==> (forall|l: int| 0 <= l < p7.len() ==> p7[l].0 != "lenient"@));
    assert(q.lenient is Some ==> (forall|l: int| 0 <= l < p7.len() && p7[l].0 == "lenient"@ ==> p7[l] == (("lenient"@, (q.lenient->0).json_model()))));
    assert(forall|l: int| 0 <= l < p7.len() ==> p8[l] == p7[l]);
    assert(q.fuzzy_transpositions is Some ==> p8.len() == p7.len() + 1 && p8[p7.len() as int] == (("fuzzy_transpositions"@, (q.fuzzy_transpositions->0).json_model())));
    assert(q.fuzzy_transpositions is None ==> p8 =~= p7);
    assert(p7.len() <= p8.len() <= p7.len() + 1);
    assert(q.lenient is None ==> (forall|l: int| 0 <= l < p8.len() ==> p8[l].0 != "lenient"@));
    assert(q.lenient is Some ==> (forall|l: int| 0 <= l < p8.len() && p8[l].0 == "lenient"@ ==> p8[l] == (("lenient"@, (q.lenient->0).json_model()))));
    assert(forall|l: int| 0 <= l < p8.len() ==> p9[l] == p8[l]);
    assert(q.analyzer is Some ==> p9.len() == p8.len() + 1 && p9[p8.len() as int] == (("analyzer"@, (q.analyzer->0).json_model())));
    assert(q.analyzer is None ==> p9 =~= p8);
    assert(p8.len() <= p9.len() <= p8.len() + 1);
    assert(q.lenient is None ==> (forall|l: int| 0 <= l < p9.len() ==> p9[l].0 != "lenient"@));
    assert(q.lenient is Some ==> (forall|l: int| 0 <= l < p9.len() && p9[l].0 == "lenient"@ ==> p9[l] == (("lenient"@, (q.lenient->0).json_model()))));
    assert(q.inner_entries() == p9);
    if q.lenient is Some {
        assert(p4[p3.len() as int] == (("lenient"@, (q.lenient->0).json_model())));
        assert(p5[p3.len() as int] == p4[p3.len() as int]);
        assert(p6[p3.len() as int] == p5[p3.len() as int]);
        assert(p7[p3.len() as int] == p6[p3.len() as int]);
        assert(p8[p3.len() as int] == p7[p3.len() as int]);
        assert(p9[p3.len() as int] == p8[p3.len() as int]);
        assert(p9[p3.len() as int] == (("lenient"@, (q.lenient->0).json_model())));
        assert(has_key(p9, "lenient"@));
    } else {
        assert(!has_key(p9, "lenient"@));
    }
}

/// An optional parameter is rendered if and only if it was set: an unset
/// `fuzziness` leaves no `"fuzziness"` key in the inner object of a
/// `match` query, and a set one puts exactly the value that was set under
/// that key, whatever the other parameters hold.
#[verifier::rlimit(100)]
#[verifier::spinoff_prover]
pub proof fn lemma_match_fuzziness_rendered(q: MatchQuery)
    ensures
        has_key(q.inner_entries(), "fuzziness"@) <==> q.fuzziness is Some,
        forall|l: int|
            0 <= l < q.inner_entries().len() && q.inner_entries()[l].0 == "fuzziness"@
                ==> (q.fuzziness matches Some(v) && q.inner_entries()[l].1 == v.json_model()),
{
    lemma_match_keys_distinct();
    let ghost p0 = seq![("query"@, JsonModel::Str(q.query.query_string@))];
    let ghost p1 = p0 + opt_entry("operator"@, q.operator);
    let ghost p2 = p1 + opt_entry("zero_terms_query"@, q.zero_terms_query);
    let ghost p3 = p2 + opt_entry("fuzzy_rewrite"@, q.fuzzy_rewrite);
    let ghost p4 = p3 + opt_entry("lenient"@, q.lenient);
    let ghost p5 = p4 + opt_entry("fuzziness"@, q.fuzziness);
    let ghost p6 = p5 + opt_entry("prefix_length"@, q.prefix_length);
    let ghost p7 = p6 + opt_entry("max_expansions"@, q.max_expansions);
    let ghost p8 = p7 + opt_entry("fuzzy_transpositions"@, q.fuzzy_transpositions);
    let ghost p9 = p8 + opt_entry("analyzer"@, q.analyzer);
    assert(p0.len() == 1);
    assert(forall|l: int| 0 <= l < p0.len() ==> p0[l].0 != "fuzziness"@);
    assert(forall|l: int| 0 <= l < p0.len() ==> p1[l] == p0[l]);
    assert(q.operator is Some ==> p1.len() == p0.len() + 1 && p1[p0.len() as int] == (("operator"@, (q.operator->0).json_model())));
    assert(q.operator is None ==> p1 =~= p0);
    assert(p0.len() <= p1.len() <= p0.len() + 1);
    assert(q.fuzziness is None ==> (forall|l: int| 0 <= l < p1.len() ==> p1[l].0 != "fuzziness"@));
    assert(q.fuzziness is Some ==> (forall|l: int| 0 <= l < p1.len() && p1[l].0 == "fuzziness"@ ==> p1[l] == (("fuzziness"@, (q.fuzziness->0).json_model()))));
    assert(forall|l: int| 0 <= l < p1.len() ==> p2[l] == p1[l]);
    assert(q.zero_terms_query is Some ==> p2.len() == p1.len() + 1 && p2[p1.len() as int] == (("zero_terms_query"@, (q.zero_terms_query->0).json_model())));
    assert(q.zero_terms_query is None ==> p2 =~= p1);
    assert(p1.len() <= p2.len() <= p1.len() + 1);
    assert(q.fuzziness is None ==> (forall|l: int| 0 <= l < p2.len() ==> p2[l].0 != "fuzziness"@));
    assert(q.fuzziness is Some ==> (forall|l: int| 0 <= l < p2.len() && p2[l].0 == "fuzziness"@ ==> p2[l] == (("fuzziness"@, (q.fuzziness->0).json_model()))));
    assert(forall|l: int| 0 <= l < p2.len() ==> p3[l] == p2[l]);
    assert(q.fuzzy_rewrite is Some ==> p3.len() == p2.len() + 1 && p3[p2.len() as int] == (("fuzzy_rewrite"@, (q.fuzzy_rewrite->0).json_model())));
    assert(q.fuzzy_rewrite is None ==> p3 =~= p2);
    assert(p2.len() <= p3.len() <= p2.len() + 1);
    assert(q.fuzziness is None ==> (forall|l: int| 0 <= l < p3.len() ==> p3[l].0 != "fuzziness"@));
    assert(q.fuzziness is Some ==> (forall|l: int| 0 <= l < p3.len() && p3[l].0 == "fuzziness"@ ==> p3[l] == (("fuzziness"@, (q.fuzziness->0).json_model()))));
    assert(forall|l: int| 0 <= l < p3.len() ==> p4[l] == p3[l]);
    assert(q.lenient is Some ==> p4.len() == p3.len() + 1 && p4[p3.len() as int] == (("lenient"@, (q.lenient->0).json_model())));
    assert(q.lenient is None ==> p4 =~= p3);
    assert(p3.len() <= p4.len() <= p3.len() + 1);
    assert(q.fuzziness is None ==> (forall|l: int| 0 <= l < p4.len() ==> p4[l].0 != "fuzziness"@));
    assert(q.fuzziness is Some ==> (forall|l: int| 0 <= l < p4.len() && p4[l].0 == "fuzziness"@ ==> p4[l] == (("fuzziness"@, (q.fuzziness->0).json_model()))));
    assert(forall|l: int| 0 <= l < p4.len() ==> p5[l] == p4[l]);
    assert(q.fuzziness is Some ==> p5.len() == p4.len() + 1 && p5[p4.len() as int] == (("fuzziness"@, (q.fuzziness->0).json_model())));
    assert(q.fuzziness is None ==> p5 =~= p4);
    assert(p4.len() <= p5.len() <= p4.len() + 1);
    assert(q.fuzziness is None ==> (forall|l: int| 0 <= l < p5.len() ==> p5[l].0 != "fuzziness"@));
    assert(q.fuzziness is Some ==> (forall|l: int| 0 <= l < p5.len() && p5[l].0 == "fuzziness"@ ==> p5[l] == (("fuzziness"@, (q.fuzziness->0).json_model()))));
    assert(forall|l: int| 0 <= l < p5.len() ==> p6[l] == p5[l]);
    assert(q.prefix_length is Some ==> p6.len() == p5.len() + 1 && p6[p5.len() as int] == (("prefix_length"@, (q.prefix_length->0).json_model())));
    assert(q.prefix_length is None ==> p6 =~= p5);
    assert(p5.len() <= p6.len() <= p5.len() + 1);
    assert(q.fuzziness is None ==> (forall|l: int| 0 <= l < p6.len() ==> p6[l].0 != "fuzziness"@));
    assert(q.fuzziness is Some ==> (forall|l: int| 0 <= l < p6.len() && p6[l].0 == "fuzziness"@ ==> p6[l] == (("fuzziness"@, (q.fuzziness->0).json_model()))));
    assert(forall|l: int| 0 <= l < p6.len() ==> p7[l] == p6[l]);
    assert(q.max_expansions is Some ==> p7.len() == p6.len() + 1 && p7[p6.len() as int] == (("max_expansions"@, (q.max_expansions->0).json_model())));
    assert(q.max_expansions is None ==> p7 =~= p6);
    assert(p6.len() <= p7.len() <= p6.len() + 1);
    assert(q.fuzziness is None ==> (forall|l: int| 0 <= l < p7.len() ==> p7[l].0 != "fuzziness"@));
    assert(q.fuzziness is Some ==> (forall|l: int| 0 <= l < p7.len() && p7[l].0 == "fuzziness"@ ==> p7[l] == (("fuzziness"@, (q.fuzziness->0).json_model()))));
    assert(forall|l: int| 0 <= l < p7.len() ==> p8[l] == p7[l]);
    assert(q.fuzzy_transpositions is Some ==> p8.len() == p7.len() + 1 && p8[p7.len() as int] == (("fuzzy_transpositions"@, (q.fuzzy_transpositions->0).json_model())));
    assert(q.fuzzy_transpositions is None ==> p8 =~= p7);
    assert(p7.len() <= p8.len() <= p7.len() + 1);
    assert(q.fuzziness is None ==> (forall|l: int| 0 <= l < p8.len() ==> p8[l].0 != "fuzziness"@));
    assert(q.fuzziness is Some ==> (forall|l: int| 0 <= l < p8.len() && p8[l].0 == "fuzziness"@ ==> p8[l] == (("fuzziness"@, (q.fuzziness->0).json_model()))));
    assert(forall|l: int| 0 <= l < p8.len() ==> p9[l] == p8[l]);
    assert(q.analyzer is Some ==> p9.len() == p8.len() + 1 && p9[p8.len() as int] == (("analyzer"@, (q.analyzer->0).json_model())));
    assert(q.analyzer is None ==> p9 =~= p8);
    assert(p8.len() <= p9.len() <= p8.len() + 1);
    assert(q.fuzziness is None ==> (forall|l: int| 0 <= l < p9.len() ==> p9[l].0 != "fuzziness"@));
    assert(q.fuzziness is Some ==> (forall|l: int| 0 <= l < p9.len() && p9[l].0 == "fuzziness"@ ==> p9[l] == (("fuzziness"@, (q.fuzziness->0).json_model()))));
    assert(q.inner_entries() == p9);
    if q.fuzziness is Some {
        assert(p5[p4.len() as int] == (("fuzziness"@, (q.fuzziness->0).json_model())));
        assert(p6[p4.len() as int] == p5[p4.len() as int]);
        assert(p7[p4.len() as int] == p6[p4.len() as int]);
        assert(p8[p4.len() as int] == p7[p4.len() as int]);
        assert(p9[p4.len() as int] == p8[p4.len() as int]);
        assert(p9[p4.len() as int] == (("fuzziness"@, (q.fuzziness->0).json_model())));
        assert(has_key(p9, "fuzziness"@));
    } else {
        assert(!has_key(p9, "fuzziness"@));
    }
}

/// An optional parameter is rendered if and only if it was set: an unset
/// `prefix_length` leaves no `"prefix_length"` key in the inner object of a
/// `match` query, and a set one puts exactly the value that was set under
/// that key, whatever the other parameters hold.
#[verifier::rlimit(100)]
#[verifier::spinoff_prover]
pub proof fn lemma_match_prefix_length_rendered(q: MatchQuery)
    ensures
        has_key(q.inner_entries(), "prefix_length"@) <==> q.prefix_length is Some,
        forall|l: int|
            0 <= l < q.inner_entries().len() && q.inner_entries()[l].0 == "prefix_length"@
                ==> (q.prefix_length matches Some(v) && q.inner_entries()[l].1 == v.json_model()),
{
    lemma_match_keys_distinct();
    let ghost p0 = seq![("query"@, JsonModel::Str(q.query.query_string@))];
    let ghost p1 = p0 + opt_entry("operator"@, q.operator);
    let ghost p2 = p1 + opt_entry("zero_terms_query"@, q.zero_terms_query);
    let ghost p3 = p2 + opt_entry("fuzzy_rewrite"@, q.fuzzy_rewrite);
    let ghost p4 = p3 + opt_entry("lenient"@, q.lenient);
    let ghost p5 = p4 + opt_entry("fuzziness"@, q.fuzziness);
    let ghost p6 = p5 + opt_entry("prefix_length"@, q.prefix_length);
    let ghost p7 = p6 + opt_entry("max_expansions"@, q.max_expansions);
    let ghost p8 = p7 + opt_entry("fuzzy_transpositions"@, q.fuzzy_transpositions);
    let ghost p9 = p8 + opt_entry("analyzer"@, q.analyzer);
    assert(p0.len() == 1);
    assert(forall|l: int| 0 <= l < p0.len() ==> p0[l].0 != "prefix_length"@);
    assert(forall|l: int| 0 <= l < p0.len() ==> p1[l] == p0[l]);
    assert(q.operator is Some ==> p1.len() == p0.len() + 1 && p1[p0.len() as int] == (("operator"@, (q.operator->0).json_model())));
    assert(q.operator is None ==> p1 =~= p0);
    assert(p0.len() <= p1.len() <= p0.len() + 1);
    assert(q.prefix_length is None ==> (forall|l: int| 0 <= l < p1.len() ==> p1[l].0 != "prefix_length"@));
    assert(q.prefix_length is Some ==> (forall|l: int| 0 <= l < p1.len() && p1[l].0 == "prefix_length"@ ==> p1[l] == (("prefix_length"@, (q.prefix_length->0).json_model()))));
    assert(forall|l: int| 0 <= l < p1.len() ==> p2[l] == p1[l]);
    assert(q.zero_terms_query is Some ==> p2.len() == p1.len() + 1 && p2[p1.len() as int] == (("zero_terms_query"@, (q.zero_terms_query->0).json_model())));
    assert(q.zero_terms_query is None ==> p2 =~= p1);
    assert(p1.len() <= p2.len() <= p1.len() + 1);
    assert(q.prefix_length is None ==> (forall|l: int| 0 <= l < p2.len() ==> p2[l].0 != "prefix_length"@));
    assert(q.prefix_length is Some ==> (forall|l: int| 0 <= l < p2.len() && p2[l].0 == "prefix_length"@ ==> p2[l] == (("prefix_length"@, (q.prefix_length->0).json_model()))));
    assert(forall|l: int| 0 <= l < p2.len() ==> p3[l] == p2[l]);
    assert(q.fuzzy_rewrite is Some ==> p3.len() == p2.len() + 1 && p3[p2.len() as int] == (("fuzzy_rewrite"@, (q.fuzzy_rewrite->0).json_model())));
    assert(q.fuzzy_rewrite is None ==> p3 =~= p2);
    assert(p2.len() <= p3.len() <= p2.len() + 1);
    assert(q.prefix_length is None ==> (forall|l: int| 0 <= l < p3.len() ==> p3[l].0 != "prefix_length"@));
    assert(q.prefix_length is Some ==> (forall|l: int| 0 <= l < p3.len() && p3[l].0 == "prefix_length"@ ==> p3[l] == (("prefix_length"@, (q.prefix_length->0).json_model()))));
    assert(forall|l: int| 0 <= l < p3.len() ==> p4[l] == p3[l]);
    assert(q.lenient is Some ==> p4.len() == p3.len() + 1 && p4[p3.len() as int] == (("lenient"@, (q.lenient->0).json_model())));
    assert(q.lenient is None ==> p4 =~= p3);
    assert(p3.len() <= p4.len() <= p3.len() + 1);
    assert(q.prefix_length is None ==> (forall|l: int| 0 <= l < p4.len() ==> p4[l].0 != "prefix_length"@));
    assert(q.prefix_length is Some ==> (forall|l: int| 0 <= l < p4.len() && p4[l].0 == "prefix_length"@ ==> p4[l] == (("prefix_length"@, (q.prefix_length->0).json_model()))));
    assert(forall|l: int| 0 <= l < p4.len() ==> p5[l] == p4[l]);
    assert(q.fuzziness is Some ==> p5.len() == p4.len() + 1 && p5[p4.len() as int] == (("fuzziness"@, (q.fuzziness->0).json_model())));
    assert(q.fuzziness is None ==> p5 =~= p4);
    assert(p4.len() <= p5.len() <= p4.len() + 1);
    assert(q.prefix_length is None ==> (forall|l: int| 0 <= l < p5.len() ==> p5[l].0 != "prefix_length"@));
    assert(q.prefix_length is Some ==> (forall|l: int| 0 <= l < p5.len() && p5[l].0 == "prefix_length"@ ==> p5[l] == (("prefix_length"@, (q.prefix_length->0).json_model()))));
    assert(forall|l: int| 0 <= l < p5.len() ==> p6[l] == p5[l]);
    assert(q.prefix_length is Some ==> p6.len() == p5.len() + 1 && p6[p5.len() as int] == (("prefix_length"@, (q.prefix_length->0).json_model())));
    assert(q.prefix_length is None ==> p6 =~= p5);
    assert(p5.len() <= p6.len() <= p5.len() + 1);
    assert(q.prefix_length is None ==> (forall|l: int| 0 <= l < p6.len() ==> p6[l].0 != "prefix_length"@));
    assert(q.prefix_length is Some ==> (forall|l: int| 0 <= l < p6.len() && p6[l].0 == "prefix_length"@ ==> p6[l] == (("prefix_length"@, (q.prefix_length->0).json_model()))));
    assert(forall|l: int| 0 <= l < p6.len() ==> p7[l] == p6[l]);
    assert(q.max_expansions is Some ==> p7.len() == p6.len() + 1 && p7[p6.len() as int] == (("max_expansions"@, (q.max_expansions->0).json_model())));
    assert(q.max_expansions is None ==> p7 =~= p6);
    assert(p6.len() <= p7.len() <= p6.len() + 1);
    assert(q.prefix_length is None ==> (forall|l: int| 0 <= l < p7.len() ==> p7[l].0 != "prefix_length"@));
    assert(q.prefix_length is Some ==> (forall|l: int| 0 <= l < p7.len() && p7[l].0 == "prefix_length"@ ==> p7[l] == (("prefix_length"@, (q.prefix_length->0).json_model()))));
    assert(forall|l: int| 0 <= l < p7.len() ==> p8[l] == p7[l]);
    assert(q.fuzzy_transpositions is Some ==> p8.len() == p7.len() + 1 && p8[p7.len() as int] == (("fuzzy_transpositions"@, (q.fuzzy_transpositions->0).json_model())));
    assert(q.fuzzy_transpositions is None ==> p8 =~= p7);
    assert(p7.len() <= p8.len() <= p7.len() + 1);
    assert(q.prefix_length is None ==> (forall|l: int| 0 <= l < p8.len() ==> p8[l].0 != "prefix_length"@));
    assert(q.prefix_length is Some ==> (forall|l: int| 0 <= l < p8.len() && p8[l].0 == "prefix_length"@ ==> p8[l] == (("prefix_length"@, (q.prefix_length->0).json_model()))));
    assert(forall|l: int| 0 <= l < p8.len() ==> p9[l] == p8[l]);
    assert(q.analyzer is Some ==> p9.len() == p8.len() + 1 && p9[p8.len() as int] == (("analyzer"@, (q.analyzer->0).json_model())));
    assert(q.analyzer is None ==> p9 =~= p8);
    assert(p8.len() <= p9.len() <= p8.len() + 1);
    assert(q.prefix_length is None ==> (forall|l: int| 0 <= l < p9.len() ==> p9[l].0 != "prefix_length"@));
    assert(q.prefix_length is Some ==> (forall|l: int| 0 <= l < p9.len() && p9[l].0 == "prefix_length"@ ==> p9[l] == (("prefix_length"@, (q.prefix_length->0).json_model()))));
    assert(q.inner_entries() == p9);
    if q.prefix_length is Some {
        assert(p6[p5.len() as int] == (("prefix_length"@, (q.prefix_length->0).json_model())));
        assert(p7[p5.len() as int] == p6[p5.len() as int]);
        assert(p8[p5.len() as int] == p7[p5.len() as int]);
        assert(p9[p5.len() as int] == p8[p5.len() as int]);
        assert(p9[p5.len() as int] == (("prefix_length"@, (q.prefix_length->0).json_model())));
        assert(has_key(p9, "prefix_length"@));
    } else {
        assert(!has_key(p9, "prefix_length"@));
    }
}

/// An optional parameter is rendered if and only if it was set: an unset
/// `max_expansions` leaves no `"max_expansions"` key in the inner object of a
/// `match` query, and a set one puts exactly the value that was set under
/// that key, whatever the other parameters hold.
#[verifier::rlimit(100)]
#[verifier::spinoff_prover]
pub proof fn lemma_match_max_expansions_rendered(q: MatchQuery)
    ensures
        has_key(q.inner_entries(), "max_expansions"@) <==> q.max_expansions is Some,
        forall|l: int|
            0 <= l < q.inner_entries().len() && q.inner_entries()[l].0 == "max_expansions"@
                ==> (q.max_expansions matches Some(v) && q.inner_entries()[l].1 == v.json_model()),
{
    lemma_match_keys_distinct();
    let ghost p0 = seq![("query"@, JsonModel::Str(q.query.query_string@))];
    let ghost p1 = p0 + opt_entry("operator"@, q.operator);
    let ghost p2 = p1 + opt_entry("zero_terms_query"@, q.zero_terms_query);
    let ghost p3 = p2 + opt_entry("fuzzy_rewrite"@, q.fuzzy_rewrite);
    let ghost p4 = p3 + opt_entry("lenient"@, q.lenient);
    let ghost p5 = p4 + opt_entry("fuzziness"@, q.fuzziness);
    let ghost p6 = p5 + opt_entry("prefix_length"@, q.prefix_length);
    let ghost p7 = p6 + opt_entry("max_expansions"@, q.max_expansions);
    let ghost p8 = p7 + opt_entry("fuzzy_transpositions"@, q.fuzzy_transpositions);
    let ghost p9 = p8 + opt_entry("analyzer"@, q.analyzer);
    assert(p0.len() == 1);
    assert(forall|l: int| 0 <= l < p0.len() ==> p0[l].0 != "max_expansions"@);
    assert(forall|l: int| 0 <= l < p0.len() ==> p1[l] == p0[l]);
    assert(q.operator is Some ==> p1.len() == p0.len() + 1 && p1[p0.len() as int] == (("operator"@, (q.operator->0).json_model())));
    assert(q.operator is None ==> p1 =~= p0);
    assert(p0.len() <= p1.len() <= p0.len() + 1);
    assert(q.max_expansions is None ==> (forall|l: int| 0 <= l < p1.len() ==> p1[l].0 != "max_expansions"@));
    assert(q.max_expansions is Some ==> (forall|l: int| 0 <= l < p1.len() && p1[l].0 == "max_expansions"@ ==> p1[l] == (("max_expansions"@, (q.max_expansions->0).json_model()))));
    assert(forall|l: int| 0 <= l < p1.len() ==> p2[l] == p1[l]);
    assert(q.zero_terms_query is Some ==> p2.len() == p1.len() + 1 && p2[p1.len() as int] == (("zero_terms_query"@, (q.zero_terms_query->0).json_model())));
    assert(q.zero_terms_query is None ==> p2 =~= p1);
    assert(p1.len() <= p2.len() <= p1.len() + 1);
    assert(q.max_expansions is None ==> (forall|l: int| 0 <= l < p2.len() ==> p2[l].0 != "max_expansions"@));
    assert(q.max_expansions is Some ==> (forall|l: int| 0 <= l < p2.len() && p2[l].0 == "max_expansions"@ ==> p2[l] == (("max_expansions"@, (q.max_expansions->0).json_model()))));
    assert(forall|l: int| 0 <= l < p2.len() ==> p3[l] == p2[l]);
    assert(q.fuzzy_rewrite is Some ==> p3.len() == p2.len() + 1 && p3[p2.len() as int] == (("fuzzy_rewrite"@, (q.fuzzy_rewrite->0).json_model())));
    assert(q.fuzzy_rewrite is None ==> p3 =~= p2);
    assert(p2.len() <= p3.len() <= p2.len() + 1);
    assert(q.max_expansions is None ==> (forall|l: int| 0 <= l < p3.len() ==> p3[l].0 != "max_expansions"@));
    assert(q.max_expansions is Some ==> (forall|l: int| 0 <= l < p3.len() && p3[l].0 == "max_expansions"@ ==> p3[l] == (("max_expansions"@, (q.max_expansions->0).json_model()))));
    assert(forall|l: int| 0 <= l < p3.len() ==> p4[l] == p3[l]);
    assert(q.lenient is Some ==> p4.len() == p3.len() + 1 && p4[p3.len() as int] == (("lenient"@, (q.lenient->0).json_model())));
    assert(q.lenient is None ==> p4 =~= p3);
    assert(p3.len() <= p4.len() <= p3.len() + 1);
    assert(q.max_expansions is None ==> (forall|l: int| 0 <= l < p4.len() ==> p4[l].0 != "max_expansions"@));
    assert(q.max_expansions is Some ==> (forall|l: int| 0 <= l < p4.len() && p4[l].0 == "max_expansions"@ ==> p4[l] == (("max_expansions"@, (q.max_expansions->0).json_model()))));
    assert(forall|l: int| 0 <= l < p4.len() ==> p5[l] == p4[l]);
    assert(q.fuzziness is Some ==> p5.len() == p4.len() + 1 && p5[p4.len() as int] == (("fuzziness"@, (q.fuzziness->0).json_model())));
    assert(q.fuzziness is None ==> p5 =~= p4);
    assert(p4.len() <= p5.len() <= p4.len() + 1);
    assert(q.max_expansions is None ==> (forall|l: int| 0 <= l < p5.len() ==> p5[l].0 != "max_expansions"@));
    assert(q.max_expansions is Some ==> (forall|l: int| 0 <= l < p5.len() && p5[l].0 == "max_expansions"@ ==> p5[l] == (("max_expansions"@, (q.max_expansions->0).json_model()))));
    assert(forall|l: int| 0 <= l < p5.len() ==> p6[l] == p5[l]);
    assert(q.prefix_length is Some ==> p6.len() == p5.len() + 1 && p6[p5.len() as int] == (("prefix_length"@, (q.prefix_length->0).json_model())));
    assert(q.prefix_length is None ==> p6 =~= p5);
    assert(p5.len() <= p6.len() <= p5.len() + 1);
    assert(q.max_expansions is None ==> (forall|l: int| 0 <= l < p6.len() ==> p6[l].0 != "max_expansions"@));
    assert(q.max_expansions is Some ==> (forall|l: int| 0 <= l < p6.len() && p6[l].0 == "max_expansions"@ ==> p6[l] == (("max_expansions"@, (q.max_expansions->0).json_model()))));
    assert(forall|l: int| 0 <= l < p6.len() ==> p7[l] == p6[l]);
    assert(q.max_expansions is Some ==> p7.len() == p6.len() + 1 && p7[p6.len() as int] == (("max_expansions"@, (q.max_expansions->0).json_model())));
    assert(q.max_expansions is None ==> p7 =~= p6);
    assert(p6.len() <= p7.len() <= p6.len() + 1);
    assert(q.max_expansions is None ==> (forall|l: int| 0 <= l < p7.len() ==> p7[l].0 != "max_expansions"@));
    assert(q.max_expansions is Some ==> (forall|l: int| 0 <= l < p7.len() && p7[l].0 == "max_expansions"@ ==> p7[l] == (("max_expansions"@, (q.max_expansions->0).json_model()))));
    assert(forall|l: int| 0 <= l < p7.len() ==> p8[l] == p7[l]);
    assert(q.fuzzy_transpositions is Some ==> p8.len() == p7.len() + 1 && p8[p7.len() as int] == (("fuzzy_transpositions"@, (q.fuzzy_transpositions->0).json_model())));
    assert(q.fuzzy_transpositions is None ==> p8 =~= p7);
    assert(p7.len() <= p8.len() <= p7.len() + 1);
    assert(q.max_expansions is None ==> (forall|l: int| 0 <= l < p8.len() ==> p8[l].0 != "max_expansions"@));
    assert(q.max_expansions is Some ==> (forall|l: int| 0 <= l < p8.len() && p8[l].0 == "max_expansions"@ ==> p8[l] == (("max_expansions"@, (q.max_expansions->0).json_model()))));
    assert(forall|l: int| 0 <= l < p8.len() ==> p9[l] == p8[l]);
    assert(q.analyzer is Some ==> p9.len() == p8.len() + 1 && p9[p8.len() as int] == (("analyzer"@, (q.analyzer->0).json_model())));
    assert(q.analyzer is None ==> p9 =~= p8);
    assert(p8.len() <= p9.len() <= p8.len() + 1);
    assert(q.max_expansions is None ==> (forall|l: int| 0 <= l < p9.len() ==> p9[l].0 != "max_expansions"@));
    assert(q.max_expansions is Some ==> (forall|l: int| 0 <= l < p9.len() && p9[l].0 == "max_expansions"@ ==> p9[l] == (("max_expansions"@, (q.max_expansions->0).json_model()))));
    assert(q.inner_entries() == p9);
    if q.max_expansions is Some {
        assert(p7[p6.len() as int] == (("max_expansions"@, (q.max_expansions->0).json_model())));
        assert(p8[p6.len() as int] == p7[p6.len() as int]);
        assert(p9[p6.len() as int] == p8[p6.len() as int]);
        assert(p9[p6.len() as int] == (("max_expansions"@, (q.max_expansions->0).json_model())));
        assert(has_key(p9, "max_expansions"@));
    } else {
        assert(!has_key(p9, "max_expansions"@));
    }
}

/// An optional parameter is rendered if and only if it was set: an unset
/// `fuzzy_transpositions` leaves no `"fuzzy_transpositions"` key in the inner object of a
/// `match` query, and a set one puts exactly the value that was set under
/// that key, whatever the other parameters hold.
#[verifier::rlimit(100)]
#[verifier::spinoff_prover]
pub proof fn lemma_match_fuzzy_transpositions_rendered(q: MatchQuery)
    ensures
        has_key(q.inner_entries(), "fuzzy_transpositions"@) <==> q.fuzzy_transpositions is Some,
        forall|l: int|
            0 <= l < q.inner_entries().len() && q.inner_entries()[l].0 == "fuzzy_transpositions"@
                ==> (q.fuzzy_transpositions matches Some(v) && q.inner_entries()[l].1 == v.json_model()),
{
    lemma_match_keys_distinct();
    let ghost p0 = seq![("query"@, JsonModel::Str(q.query.query_string@))];
    let ghost p1 = p0 + opt_entry("operator"@, q.operator);
    let ghost p2 = p1 + opt_entry("zero_terms_query"@, q.zero_terms_query);
    let ghost p3 = p2 + opt_entry("fuzzy_rewrite"@, q.fuzzy_rewrite);
    let ghost p4 = p3 + opt_entry("lenient"@, q.lenient);
    let ghost p5 = p4 + opt_entry("fuzziness"@, q.fuzziness);
    let ghost p6 = p5 + opt_entry("prefix_length"@, q.prefix_length);
    let ghost p7 = p6 + opt_entry("max_expansions"@, q.max_expansions);
    let ghost p8 = p7 + opt_entry("fuzzy_transpositions"@, q.fuzzy_transpositions);
    let ghost p9 = p8 + opt_entry("analyzer"@, q.analyzer);
    assert(p0.len() == 1);
    assert(forall|l: int| 0 <= l < p0.len() ==> p0[l].0 != "fuzzy_transpositions"@);
    assert(forall|l: int| 0 <= l < p0.len() ==> p1[l] == p0[l]);
    assert(q.operator is Some ==> p1.len() == p0.len() + 1 && p1[p0.len() as int] == (("operator"@, (q.operator->0).json_model())));
    assert(q.operator is None ==> p1 =~= p0);
    assert(p0.len() <= p1.len() <= p0.len() + 1);
    assert(q.fuzzy_transpositions is None ==> (forall|l: int| 0 <= l < p1.len() ==> p1[l].0 != "fuzzy_transpositions"@));
    assert(q.fuzzy_transpositions is Some ==> (forall|l: int| 0 <= l < p1.len() && p1[l].0 == "fuzzy_transpositions"@ ==> p1[l] == (("fuzzy_transpositions"@, (q.fuzzy_transpositions->0).json_model()))));
    assert(forall|l: int| 0 <= l < p1.len() ==> p2[l] == p1[l]);
    assert(q.zero_terms_query is Some ==> p2.len() == p1.len() + 1 && p2[p1.len() as int] == (("zero_terms_query"@, (q.zero_terms_query->0).json_model())));
    assert(q.zero_terms_query is None ==> p2 =~= p1);
    assert(p1.len() <= p2.len() <= p1.len() + 1);
    assert(q.fuzzy_transpositions is None ==> (forall|l: int| 0 <= l < p2.len() ==> p2[l].0 != "fuzzy_transpositions"@));
    assert(q.fuzzy_transpositions is Some ==> (forall|l: int| 0 <= l < p2.len() && p2[l].0 == "fuzzy_transpositions"@ ==> p2[l] == (("fuzzy_transpositions"@, (q.fuzzy_transpositions->0).json_model()))));
    assert(forall|l: int| 0 <= l < p2.len() ==> p3[l] == p2[l]);
    assert(q.fuzzy_rewrite is Some ==> p3.len() == p2.len() + 1 && p3[p2.len() as int] == (("fuzzy_rewrite"@, (q.fuzzy_rewrite->0).json_model())));
    assert(q.fuzzy_rewrite is None ==> p3 =~= p2);
    assert(p2.len() <= p3.len() <= p2.len() + 1);
    assert(q.fuzzy_transpositions is None ==> (forall|l: int| 0 <= l < p3.len() ==> p3[l].0 != "fuzzy_transpositions"@));
    assert(q.fuzzy_transpositions is Some ==> (forall|l: int| 0 <= l < p3.len() && p3[l].0 == "fuzzy_transpositions"@ ==> p3[l] == (("fuzzy_transpositions"@, (q.fuzzy_transpositions->0).json_model()))));
    assert(forall|l: int| 0 <= l < p3.len() ==> p4[l] == p3[l]);
    assert(q.lenient is Some ==> p4.len() == p3.len() + 1 && p4[p3.len() as int] == (("lenient"@, (q.lenient->0).json_model())));
    assert(q.lenient is None ==> p4 =~= p3);
    assert(p3.len() <= p4.len() <= p3.len() + 1);
    assert(q.fuzzy_transpositions is None ==> (forall|l: int| 0 <= l < p4.len() ==> p4[l].0 != "fuzzy_transpositions"@));
    assert(q.fuzzy_transpositions is Some ==> (forall|l: int| 0 <= l < p4.len() && p4[l].0 == "fuzzy_transpositions"@ ==> p4[l] == (("fuzzy_transpositions"@, (q.fuzzy_transpositions->0).json_model()))));
    assert(forall|l: int| 0 <= l < p4.len() ==> p5[l] == p4[l]);
    assert(q.fuzziness is Some ==> p5.len() == p4.len() + 1 && p5[p4.len() as int] == (("fuzziness"@, (q.fuzziness->0).json_model())));
    assert(q.fuzziness is None ==> p5 =~= p4);
    assert(p4.len() <= p5.len() <= p4.len() + 1);
    assert(q.fuzzy_transpositions is None ==> (forall|l: int| 0 <= l < p5.len() ==> p5[l].0 != "fuzzy_transpositions"@));
    assert(q.fuzzy_transpositions is Some ==> (forall|l: int| 0 <= l < p5.len() && p5[l].0 == "fuzzy_transpositions"@ ==> p5[l] == (("fuzzy_transpositions"@, (q.fuzzy_transpositions->0).json_model()))));
    assert(forall|l: int| 0 <= l < p5.len() ==> p6[l] == p5[l]);
    assert(q.prefix_length is Some ==> p6.len() == p5.len() + 1 && p6[p5.len() as int] == (("prefix_length"@, (q.prefix_length->0).json_model())));
    assert(q.prefix_length is None ==> p6 =~= p5);
    assert(p5.len() <= p6.len() <= p5.len() + 1);
    assert(q.fuzzy_transpositions is None ==> (forall|l: int| 0 <= l < p6.len() ==> p6[l].0 != "fuzzy_transpositions"@));
    assert(q.fuzzy_transpositions is Some ==> (forall|l: int| 0 <= l < p6.len() && p6[l].0 == "fuzzy_transpositions"@ ==> p6[l] == (("fuzzy_transpositions"@, (q.fuzzy_transpositions->0).json_model()))));
    assert(forall|l: int| 0 <= l < p6.len() ==> p7[l] == p6[l]);
    assert(q.max_expansions is Some ==> p7.len() == p6.len() + 1 && p7[p6.len() as int] == (("max_expansions"@, (q.max_expansions->0).json_model())));
    assert(q.max_expansions is None ==> p7 =~= p6);
    assert(p6.len() <= p7.len() <= p6.len() + 1);
    assert(q.fuzzy_transpositions is None ==> (forall|l: int| 0 <= l < p7.len() ==> p7[l].0 != "fuzzy_transpositions"@));
    assert(q.fuzzy_transpositions is Some ==> (forall|l: int| 0 <= l < p7.len() && p7[l].0 == "fuzzy_transpositions"@ ==> p7[l] == (("fuzzy_transpositions"@, (q.fuzzy_transpositions->0).json_model()))));
    assert(forall|l: int| 0 <= l < p7.len() ==> p8[l] == p7[l]);
    assert(q.fuzzy_transpositions is Some ==> p8.len() == p7.len() + 1 && p8[p7.len() as int] == (("fuzzy_transpositions"@, (q.fuzzy_transpositions->0).json_model())));
    assert(q.fuzzy_transpositions is None ==> p8 =~= p7);
    assert(p7.len() <= p8.len() <= p7.len() + 1);
    assert(q.fuzzy_transpositions is None ==> (forall|l: int| 0 <= l < p8.len() ==> p8[l].0 != "fuzzy_transpositions"@));
    assert(q.fuzzy_transpositions is Some ==> (forall|l: int| 0 <= l < p8.len() && p8[l].0 == "fuzzy_transpositions"@ ==> p8[l] == (("fuzzy_transpositions"@, (q.fuzzy_transpositions->0).json_model()))));
    assert(forall|l: int| 0 <= l < p8.len() ==> p9[l] == p8[l]);
    assert(q.analyzer is Some ==> p9.len() == p8.len() + 1 && p9[p8.len() as int] == (("analyzer"@, (q.analyzer->0).json_model())));
    assert(q.analyzer is None ==> p9 =~= p8);
    assert(p8.len() <= p9.len() <= p8.len() + 1);
    assert(q.fuzzy_transpositions is None ==> (forall|l: int| 0 <= l < p9.len() ==> p9[l].0 != "fuzzy_transpositions"@));
    assert(q.fuzzy_transpositions is Some ==> (forall|l: int| 0 <= l < p9.len() && p9[l].0 == "fuzzy_transpositions"@ ==> p9[l] == (("fuzzy_transpositions"@, (q.fuzzy_transpositions->0).json_model()))));
    assert(q.inner_entries() == p9);
    if q.fuzzy_transpositions is Some {
        assert(p8[p7.len() as int] == (("fuzzy_transpositions"@, (q.fuzzy_transpositions->0).json_model())));
        assert(p9[p7.len() as int] == p8[p7.len() as int]);
        assert(p9[p7.len() as int] == (("fuzzy_transpositions"@, (q.fuzzy_transpositions->0).json_model())));
        assert(has_key(p9, "fuzzy_transpositions"@));
    } else {
        assert(!has_key(p9, "fuzzy_transpositions"@));
    }
}

/// An optional parameter is rendered if and only if it was set: an unset
/// `analyzer` leaves no `"analyzer"` key in the inner object of a
/// `match` query, and a set one puts exactly the value that was set under
/// that key, whatever the other parameters hold.
#[verifier::rlimit(100)]
#[verifier::spinoff_prover]
pub proof fn lemma_match_analyzer_rendered(q: MatchQuery)
    ensures
        has_key(q.inner_entries(), "analyzer"@) <==> q.analyzer is Some,
        forall|l: int|
            0 <= l < q.inner_entries().len() && q.inner_entries()[l].0 == "analyzer"@
                ==> (q.analyzer matches Some(v) && q.inner_entries()[l].1 == v.json_model()),
{
    lemma_match_keys_distinct();
    let ghost p0 = seq![("query"@, JsonModel::Str(q.query.query_string@))];
    let ghost p1 = p0 + opt_entry("operator"@, q.operator);
    let ghost p2 = p1 + opt_entry("zero_terms_query"@, q.zero_terms_query);
    let ghost p3 = p2 + opt_entry("fuzzy_rewrite"@, q.fuzzy_rewrite);
    let ghost p4 = p3 + opt_entry("lenient"@, q.lenient);
    let ghost p5 = p4 + opt_entry("fuzziness"@, q.fuzziness);
    let ghost p6 = p5 + opt_entry("prefix_length"@, q.prefix_length);
    let ghost p7 = p6 + opt_entry("max_expansions"@, q.max_expansions);
    let ghost p8 = p7 + opt_entry("fuzzy_transpositions"@, q.fuzzy_transpositions);
    let ghost p9 = p8 + opt_entry("analyzer"@, q.analyzer);
    assert(p0.len() == 1);
    assert(forall|l: int| 0 <= l < p0.len() ==> p0[l].0 != "analyzer"@);
    assert(forall|l: int| 0 <= l < p0.len() ==> p1[l] == p0[l]);
    assert(q.operator is Some ==> p1.len() == p0.len() + 1 && p1[p0.len() as int] == (("operator"@, (q.operator->0).json_model())));
    assert(q.operator is None ==> p1 =~= p0);
    assert(p0.len() <= p1.len() <= p0.len() + 1);
    assert(q.analyzer is None ==> (forall|l: int| 0 <= l < p1.len() ==> p1[l].0 != "analyzer"@));
    assert(q.analyzer is Some ==> (forall|l: int| 0 <= l < p1.len() && p1[l].0 == "analyzer"@ ==> p1[l] == (("analyzer"@, (q.analyzer->0).json_model()))));
    assert(forall|l: int| 0 <= l < p1.len() ==> p2[l] == p1[l]);
    assert(q.zero_terms_query is Some ==> p2.len() == p1.len() + 1 && p2[p1.len() as int] == (("zero_terms_query"@, (q.zero_terms_query->0).json_model())));
    assert(q.zero_terms_query is None ==> p2 =~= p1);
    assert(p1.len() <= p2.len() <= p1.len() + 1);
    assert(q.analyzer is None ==> (forall|l: int| 0 <= l < p2.len() ==> p2[l].0 != "analyzer"@));
    assert(q.analyzer is Some ==> (forall|l: int| 0 <= l < p2.len() && p2[l].0 == "analyzer"@ ==> p2[l] == (("analyzer"@, (q.analyzer->0).json_model()))));
    assert(forall|l: int| 0 <= l < p2.len() ==> p3[l] == p2[l]);
    assert(q.fuzzy_rewrite is Some ==> p3.len() == p2.len() + 1 && p3[p2.len() as int] == (("fuzzy_rewrite"@, (q.fuzzy_rewrite->0).json_model())));
    assert(q.fuzzy_rewrite is None ==> p3 =~= p2);
    assert(p2.len() <= p3.len() <= p2.len() + 1);
    assert(q.analyzer is None ==> (forall|l: int| 0 <= l < p3.len() ==> p3[l].0 != "analyzer"@));
    assert(q.analyzer is Some ==> (forall|l: int| 0 <= l < p3.len() && p3[l].0 == "analyzer"@ ==> p3[l] == (("analyzer"@, (q.analyzer->0).json_model()))));
    assert(forall|l: int| 0 <= l < p3.len() ==> p4[l] == p3[l]);
    assert(q.lenient is Some ==> p4.len() == p3.len() + 1 && p4[p3.len() as int] == (("lenient"@, (q.lenient->0).json_model())));
    assert(q.lenient is None ==> p4 =~= p3);
    assert(p3.len() <= p4.len() <= p3.len() + 1);
    assert(q.analyzer is None ==> (forall|l: int| 0 <= l < p4.len() ==> p4[l].0 != "analyzer"@));
    assert(q.analyzer is Some ==> (forall|l: int| 0 <= l < p4.len() && p4[l].0 == "analyzer"@ ==> p4[l] == (("analyzer"@, (q.analyzer->0).json_model()))));
    assert(forall|l: int| 0 <= l < p4.len() ==> p5[l] == p4[l]);
    assert(q.fuzziness is Some ==> p5.len() == p4.len() + 1 && p5[p4.len() as int] == (("fuzziness"@, (q.fuzziness->0).json_model())));
    assert(q.fuzziness is None ==> p5 =~= p4);
    assert(p4.len() <= p5.len() <= p4.len() + 1);
    assert(q.analyzer is None ==> (forall|l: int| 0 <= l < p5.len() ==> p5[l].0 != "analyzer"@));
    assert(q.analyzer is Some ==> (forall|l: int| 0 <= l < p5.len() && p5[l].0 == "analyzer"@ ==> p5[l] == (("analyzer"@, (q.analyzer->0).json_model()))));
    assert(forall|l: int| 0 <= l < p5.len() ==> p6[l] == p5[l]);
    assert(q.prefix_length is Some ==> p6.len() == p5.len() + 1 && p6[p5.len() as int] == (("prefix_length"@, (q.prefix_length->0).json_model())));
    assert(q.prefix_length is None ==> p6 =~= p5);
    assert(p5.len() <= p6.len() <= p5.len() + 1);
    assert(q.analyzer is None ==> (forall|l: int| 0 <= l < p6.len() ==> p6[l].0 != "analyzer"@));
    assert(q.analyzer is Some ==> (forall|l: int| 0 <= l < p6.len() && p6[l].0 == "analyzer"@ ==> p6[l] == (("analyzer"@, (q.analyzer->0).json_model()))));
    assert(forall|l: int| 0 <= l < p6.len() ==> p7[l] == p6[l]);
    assert(q.max_expansions is Some ==> p7.len() == p6.len() + 1 && p7[p6.len() as int] == (("max_expansions"@, (q.max_expansions->0).json_model())));
    assert(q.max_expansions is None ==> p7 =~= p6);
    assert(p6.len() <= p7.len() <= p6.len() + 1);
    assert(q.analyzer is None ==> (forall|l: int| 0 <= l < p7.len() ==> p7[l].0 != "analyzer"@));
    assert(q.analyzer is Some ==> (forall|l: int| 0 <= l < p7.len() && p7[l].0 == "analyzer"@ ==> p7[l] == (("analyzer"@, (q.analyzer->0).json_model()))));
    assert(forall|l: int| 0 <= l < p7.len() ==> p8[l] == p7[l]);
    assert(q.fuzzy_transpositions is Some ==> p8.len() == p7.len() + 1 && p8[p7.len() as int] == (("fuzzy_transpositions"@, (q.fuzzy_transpositions->0).json_model())));
    assert(q.fuzzy_transpositions is None ==> p8 =~= p7);
    assert(p7.len() <= p8.len() <= p7.len() + 1);
    assert(q.analyzer is None ==> (forall|l: int| 0 <= l < p8.len() ==> p8[l].0 != "analyzer"@));
    assert(q.analyzer is Some ==> (forall|l: int| 0 <= l < p8.len() && p8[l].0 == "analyzer"@ ==> p8[l] == (("analyzer"@, (q.analyzer->0).json_model()))));
    assert(forall|l: int| 0 <= l < p8.len() ==> p9[l] == p8[l]);
    assert(q.analyzer is Some ==> p9.len() == p8.len() + 1 && p9[p8.len() as int] == (("analyzer"@, (q.analyzer->0).json_model())));
    assert(q.analyzer is None ==> p9 =~= p8);
    assert(p8.len() <= p9.len() <= p8.len() + 1);
    assert(q.analyzer is None ==> (forall|l: int| 0 <= l < p9.len() ==> p9[l].0 != "analyzer"@));
    assert(q.analyzer is Some ==> (forall|l: int| 0 <= l < p9.len() && p9[l].0 == "analyzer"@ ==> p9[l] == (("analyzer"@, (q.analyzer->0).json_model()))));
    assert(q.inner_entries() == p9);
    if q.analyzer is Some {
        assert(p9[p8.len() as int] == (("analyzer"@, (q.analyzer->0).json_model())));
        assert(has_key(p9, "analyzer"@));
    } else {
        assert(!has_key(p9, "analyzer"@));
    }
}

impl Query for MatchQuery {
    open spec fn spec_type(&self) -> Seq<char> {
        "match"@
    }

    open spec fn json_model(self) -> JsonModel {
        JsonModel::Obj(
            seq![
                (
                    self.query.query_type@,
                    JsonModel::Obj(
                        seq![(self.query.field@, JsonModel::Obj(self.inner_entries()))],
                    ),
                ),
            ],
        )
    }

    fn get_type(&self) -> (r: &'static str) {
        "match"
    }

    fn to_json(self) -> (r: JsonValue) {
        proof {
            lemma_match_keys_distinct();
        }
        let ghost me = self;
        let mut inner = self.query.inner_json();
        let ghost e0 = seq![("query"@, JsonModel::Str(self.query.query_string@))];
        proof {
            assert(inner@ == JsonModel::Obj(e0));
        }
        inner.add_if_it_was_set("operator", &self.operator);
        let ghost e1 = e0 + opt_entry("operator"@, self.operator);
        proof {
            assert(forall|l: int| 0 <= l < e0.len() ==> e0[l].0 != "operator"@);
            lemma_patch_fresh(e0, "operator"@, self.operator);
            assert(inner@ == JsonModel::Obj(e1));
            assert(forall|l: int|
                0 <= l < e1.len() ==> e1[l].0 == "query"@ || e1[l].0 == "operator"@);
        }
        inner.add_if_it_was_set("zero_terms_query", &self.zero_terms_query);
        let ghost e2 = e1 + opt_entry("zero_terms_query"@, self.zero_terms_query);
        proof {
            assert(forall|l: int| 0 <= l < e1.len() ==> e1[l].0 != "zero_terms_query"@);
            lemma_patch_fresh(e1, "zero_terms_query"@, self.zero_terms_query);
            assert(inner@ == JsonModel::Obj(e2));
            assert(forall|l: int|
                0 <= l < e2.len() ==> e2[l].0 == "query"@ || e2[l].0 == "operator"@ || e2[l].0
                    == "zero_terms_query"@);
        }
        inner.add_if_it_was_set("fuzzy_rewrite", &self.fuzzy_rewrite);
        let ghost e3 = e2 + opt_entry("fuzzy_rewrite"@, self.fuzzy_rewrite);
        proof {
            assert(forall|l: int| 0 <= l < e2.len() ==> e2[l].0 != "fuzzy_rewrite"@);
            lemma_patch_fresh(e2, "fuzzy_rewrite"@, self.fuzzy_rewrite);
            assert(inner@ == JsonModel::Obj(e3));
            assert(forall|l: int|
                0 <= l < e3.len() ==> e3[l].0 == "query"@ || e3[l].0 == "operator"@ || e3[l].0
                    == "zero_terms_query"@ || e3[l].0 == "fuzzy_rewrite"@);
        }
        inner.add_if_it_was_set("lenient", &self.lenient);
        let ghost e4 = e3 + opt_entry("lenient"@, self.lenient);
        proof {
            assert(forall|l: int| 0 <= l < e3.len() ==> e3[l].0 != "lenient"@);
            lemma_patch_fresh(e3, "lenient"@, self.lenient);
            assert(inner@ == JsonModel::Obj(e4));
            assert(forall|l: int|
                0 <= l < e4.len() ==> e4[l].0 == "query"@ || e4[l].0 == "operator"@ || e4[l].0
                    == "zero_terms_query"@ || e4[l].0 == "fuzzy_rewrite"@ || e4[l].0
                    == "lenient"@);
        }
        inner.add_if_it_was_set("fuzziness", &self.fuzziness);
        let ghost e5 = e4 + opt_entry("fuzziness"@, self.fuzziness);
        proof {
            assert(forall|l: int| 0 <= l < e4.len() ==> e4[l].0 != "fuzziness"@);
            lemma_patch_fresh(e4, "fuzziness"@, self.fuzziness);
            assert(inner@ == JsonModel::Obj(e5));
            assert(forall|l: int|
                0 <= l < e5.len() ==> e5[l].0 == "query"@ || e5[l].0 == "operator"@ || e5[l].0
                    == "zero_terms_query"@ || e5[l].0 == "fuzzy_rewrite"@ || e5[l].0 == "lenient"@
                    || e5[l].0 == "fuzziness"@);
        }
        inner.add_if_it_was_set("prefix_length", &self.prefix_length);
        let ghost e6 = e5 + opt_entry("prefix_length"@, self.prefix_length);
        proof {
            assert(forall|l: int| 0 <= l < e5.len() ==> e5[l].0 != "prefix_length"@);
            lemma_patch_fresh(e5, "prefix_length"@, self.prefix_length);
            assert(inner@ == JsonModel::Obj(e6));
            assert(forall|l: int|
                0 <= l < e6.len() ==> e6[l].0 == "query"@ || e6[l].0 == "operator"@ || e6[l].0
                    == "zero_terms_query"@ || e6[l].0 == "fuzzy_rewrite"@ || e6[l].0 == "lenient"@
                    || e6[l].0 == "fuzziness"@ || e6[l].0 == "prefix_length"@);
        }
        inner.add_if_it_was_set("max_expansions", &self.max_expansions);
        let ghost e7 = e6 + opt_entry("max_expansions"@, self.max_expansions);
        proof {
            assert(forall|l: int| 0 <= l < e6.len() ==> e6[l].0 != "max_expansions"@);
            lemma_patch_fresh(e6, "max_expansions"@, self.max_expansions);
            assert(inner@ == JsonModel::Obj(e7));
            assert(forall|l: int|
                0 <= l < e7.len() ==> e7[l].0 == "query"@ || e7[l].0 == "operator"@ || e7[l].0
                    == "zero_terms_query"@ || e7[l].0 == "fuzzy_rewrite"@ || e7[l].0 == "lenient"@
                    || e7[l].0 == "fuzziness"@ || e7[l].0 == "prefix_length"@ || e7[l].0
                    == "max_expansions"@);
        }
        inner.add_if_it_was_set("fuzzy_transpositions", &self.fuzzy_transpositions);
        let ghost e8 = e7 + opt_entry("fuzzy_transpositions"@, self.fuzzy_transpositions);
        proof {
            assert(forall|l: int| 0 <= l < e7.len() ==> e7[l].0 != "fuzzy_transpositions"@);
            lemma_patch_fresh(e7, "fuzzy_transpositions"@, self.fuzzy_transpositions);
            assert(inner@ == JsonModel::Obj(e8));
            assert(forall|l: int|
                0 <= l < e8.len() ==> e8[l].0 == "query"@ || e8[l].0 == "operator"@ || e8[l].0
                    == "zero_terms_query"@ || e8[l].0 == "fuzzy_rewrite"@ || e8[l].0 == "lenient"@
                    || e8[l].0 == "fuzziness"@ || e8[l].0 == "prefix_length"@ || e8[l].0
                    == "max_expansions"@ || e8[l].0 == "fuzzy_transpositions"@);
        }
        inner.add_if_it_was_set("analyzer", &self.analyzer);
        let ghost e9 = e8 + opt_entry("analyzer"@, self.analyzer);
        proof {
            assert(forall|l: int| 0 <= l < e8.len() ==> e8[l].0 != "analyzer"@);
            lemma_patch_fresh(e8, "analyzer"@, self.analyzer);
            assert(inner@ == JsonModel::Obj(e9));
            assert(e9 == me.inner_entries());
        }
        let r = self.query.wrap_inner(inner);
        proof {
            assert(r@ == me.json_model());
        }
        r
    }
}

} // verus!
