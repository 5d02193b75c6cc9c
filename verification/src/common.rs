//! Shared vocabulary enumerations of the query language.
//!
//! Each variant has one fixed wire spelling, defined by the search engine's
//! API and given here by an explicit lookup, never by variant position.

use vstd::prelude::*;
use crate::json_value::JsonModel;
use crate::json_value::JsonValue;
use crate::json_value::ToJsonValue;

verus! {

/// The boolean operator joining the analyzed terms of a query.
#[derive(Clone, Copy, PartialEq, Eq, Structural, Debug)]
pub enum Operator {
    And,
    Or,
}

impl Operator {
    /// The wire spelling of this operator.
    pub open spec fn spec_tag(self) -> Seq<char> {
        match self {
            Operator::And => "and"@,
            Operator::Or => "or"@,
        }
    }

    /// The wire spelling of this operator.
    pub fn tag(&self) -> (r: &'static str)
        ensures
            r@ == self.spec_tag(),
    {
        match self {
            Operator::And => "and",
            Operator::Or => "or",
        }
    }
}

impl ToJsonValue for Operator {
    open spec fn json_model(&self) -> JsonModel {
        JsonModel::Str(self.spec_tag())
    }

    fn to_json_value(&self) -> (r: JsonValue) {
        JsonValue::Str(self.tag().to_owned())
    }
}

/// What a query matches when the analyzer removes every term: no document,
/// or all of them.
#[derive(Clone, Copy, PartialEq, Eq, Structural, Debug)]
pub enum ZeroTermsQuery {
    NoDocuments,
    AllDocuments,
}

impl ZeroTermsQuery {
    /// The wire spelling of this choice.
    pub open spec fn spec_tag(self) -> Seq<char> {
        match self {
            ZeroTermsQuery::NoDocuments => "none"@,
            ZeroTermsQuery::AllDocuments => "all"@,
        }
    }

    /// The wire spelling of this choice.
    pub fn tag(&self) -> (r: &'static str)
        ensures
            r@ == self.spec_tag(),
    {
        match self {
            ZeroTermsQuery::NoDocuments => "none",
            ZeroTermsQuery::AllDocuments => "all",
        }
    }
}

impl ToJsonValue for ZeroTermsQuery {
    open spec fn json_model(&self) -> JsonModel {
        JsonModel::Str(self.spec_tag())
    }

    fn to_json_value(&self) -> (r: JsonValue) {
        JsonValue::Str(self.tag().to_owned())
    }
}

/// The strategy the engine uses to rewrite a multi-term query.
#[derive(Clone, Copy, PartialEq, Eq, Structural, Debug)]
pub enum RewriteType {
    ConstantScore,
    ScoringBoolean,
    ConstantScoreBoolean,
    ConstantScoreFilter,
    TopTermsBoost23,
    TopTerms15,
}

impl RewriteType {
    /// The wire spelling of this strategy.
    pub open spec fn spec_tag(self) -> Seq<char> {
        match self {
            RewriteType::ConstantScore => "constant_score"@,
            RewriteType::ScoringBoolean => "scoring_boolean"@,
            RewriteType::ConstantScoreBoolean => "constant_score_boolean"@,
            RewriteType::ConstantScoreFilter => "constant_score_filter"@,
            RewriteType::TopTermsBoost23 => "top_terms_boost_23"@,
            RewriteType::TopTerms15 => "top_terms_15"@,
        }
    }

    /// The wire spelling of this strategy.
    pub fn tag(&self) -> (r: &'static str)
        ensures
            r@ == self.spec_tag(),
    {
        match self {
            RewriteType::ConstantScore => "constant_score",
            RewriteType::ScoringBoolean => "scoring_boolean",
            RewriteType::ConstantScoreBoolean => "constant_score_boolean",
            RewriteType::ConstantScoreFilter => "constant_score_filter",
            RewriteType::TopTermsBoost23 => "top_terms_boost_23",
            RewriteType::TopTerms15 => "top_terms_15",
        }
    }
}

impl ToJsonValue for RewriteType {
    open spec fn json_model(&self) -> JsonModel {
        JsonModel::Str(self.spec_tag())
    }

    fn to_json_value(&self) -> (r: JsonValue) {
        JsonValue::Str(self.tag().to_owned())
    }
}

} // verus!
