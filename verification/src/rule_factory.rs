//! Construction of optimizer rules by id.
use vstd::prelude::*;

use crate::error::ErrorCode;

verus! {

/// The optimizer rules.
#[derive(Debug, Clone, Copy, PartialEq, Eq, Structural)]
pub enum RuleID {
    EliminateEvalScalar,
    PushDownFilterUnion,
    PushDownFilterEvalScalar,
    PushDownFilterJoin,
    PushDownFilterScan,
    PushDownFilterSort,
    PushDownFilterProjectSet,
    PushDownLimitUnion,
    PushDownLimitScan,
    PushDownSortScan,
    PushDownLimitOuterJoin,
    PushDownLimitExpression,
    PushDownLimitSort,
    PushDownLimitAggregate,
    PushDownFilterAggregate,
    EliminateFilter,
    MergeEvalScalar,
    MergeFilter,
    NormalizeScalarFilter,
    SplitAggregate,
    FoldCountAggregate,
    NormalizeDisjunctiveFilter,
    InferFilter,
    CommuteJoin,
    CommuteJoinBaseTable,
    LeftExchangeJoin,
    EagerAggregation,
    PushDownPrewhere,
    TryApplyAggIndex,
}

/// A rule: its id and, for the rules that read the query's metadata, that
/// metadata.
#[derive(Debug, Clone)]
pub struct Rule<M> {
    pub id: RuleID,
    pub metadata: Option<M>,
}

/// The rules that are built with the query's metadata.
pub open spec fn rule_uses_metadata(id: RuleID) -> bool {
    match id {
        RuleID::PushDownFilterEvalScalar
        | RuleID::PushDownFilterJoin
        | RuleID::PushDownFilterScan
        | RuleID::EagerAggregation
        | RuleID::PushDownPrewhere
        | RuleID::TryApplyAggIndex => true,
        _ => false,
    }
}

impl<M> Rule<M> {
    /// A rule that does not read the metadata.
    pub fn new(id: RuleID) -> (r: Rule<M>)
        ensures
            r.id == id,
            r.metadata is None,
    {
        Rule { id, metadata: None }
    }

    /// A rule that reads the metadata.
    pub fn with_metadata(id: RuleID, metadata: M) -> (r: Rule<M>)
        ensures
            r.id == id,
            r.metadata == Some(metadata),
    {
        Rule { id, metadata: Some(metadata) }
    }
}

/// Builds optimizer rules.
#[derive(Debug)]
pub struct RuleFactory;

impl RuleFactory {
    /// The rule of the given id; the rules that read the metadata get it.
    pub fn create_rule<M, F>(id: RuleID, metadata: M, _func_ctx: F) -> (r: Result<
        Box<Rule<M>>,
        ErrorCode,
    >)
        ensures
            r matches Ok(rule) && rule.id == id && if rule_uses_metadata(id) {
                rule.metadata == Some(metadata)
            } else {
                rule.metadata is None
            },
    {
        match id {
            RuleID::EliminateEvalScalar => Ok(Box::new(Rule::new(RuleID::EliminateEvalScalar))),
            RuleID::PushDownFilterUnion => Ok(Box::new(Rule::new(RuleID::PushDownFilterUnion))),
            RuleID::PushDownFilterEvalScalar => {
                Ok(Box::new(Rule::with_metadata(RuleID::PushDownFilterEvalScalar, metadata)))
            },
            RuleID::PushDownFilterJoin => Ok(
                Box::new(Rule::with_metadata(RuleID::PushDownFilterJoin, metadata)),
            ),
            RuleID::PushDownFilterScan => Ok(
                Box::new(Rule::with_metadata(RuleID::PushDownFilterScan, metadata)),
            ),
            RuleID::PushDownFilterSort => Ok(Box::new(Rule::new(RuleID::PushDownFilterSort))),
            RuleID::PushDownFilterProjectSet => Ok(
                Box::new(Rule::new(RuleID::PushDownFilterProjectSet)),
            ),
            RuleID::PushDownLimitUnion => Ok(Box::new(Rule::new(RuleID::PushDownLimitUnion))),
            RuleID::PushDownLimitScan => Ok(Box::new(Rule::new(RuleID::PushDownLimitScan))),
            RuleID::PushDownSortScan => Ok(Box::new(Rule::new(RuleID::PushDownSortScan))),
            RuleID::PushDownLimitOuterJoin => Ok(Box::new(Rule::new(RuleID::PushDownLimitOuterJoin))),
            RuleID::PushDownLimitExpression => Ok(
                Box::new(Rule::new(RuleID::PushDownLimitExpression)),
            ),
            RuleID::PushDownLimitSort => Ok(Box::new(Rule::new(RuleID::PushDownLimitSort))),
            RuleID::PushDownLimitAggregate => Ok(Box::new(Rule::new(RuleID::PushDownLimitAggregate))),
            RuleID::PushDownFilterAggregate => Ok(
                Box::new(Rule::new(RuleID::PushDownFilterAggregate)),
            ),
            RuleID::EliminateFilter => Ok(Box::new(Rule::new(RuleID::EliminateFilter))),
            RuleID::MergeEvalScalar => Ok(Box::new(Rule::new(RuleID::MergeEvalScalar))),
            RuleID::MergeFilter => Ok(Box::new(Rule::new(RuleID::MergeFilter))),
            RuleID::NormalizeScalarFilter => Ok(Box::new(Rule::new(RuleID::NormalizeScalarFilter))),
            RuleID::SplitAggregate => Ok(Box::new(Rule::new(RuleID::SplitAggregate))),
            RuleID::FoldCountAggregate => Ok(Box::new(Rule::new(RuleID::FoldCountAggregate))),
            RuleID::NormalizeDisjunctiveFilter => {
                Ok(Box::new(Rule::new(RuleID::NormalizeDisjunctiveFilter)))
            },
            RuleID::InferFilter => Ok(Box::new(Rule::new(RuleID::InferFilter))),
            RuleID::CommuteJoin => Ok(Box::new(Rule::new(RuleID::CommuteJoin))),
            RuleID::CommuteJoinBaseTable => Ok(Box::new(Rule::new(RuleID::CommuteJoinBaseTable))),
            RuleID::LeftExchangeJoin => Ok(Box::new(Rule::new(RuleID::LeftExchangeJoin))),
            RuleID::EagerAggregation => Ok(
                Box::new(Rule::with_metadata(RuleID::EagerAggregation, metadata)),
            ),
            RuleID::PushDownPrewhere => Ok(
                Box::new(Rule::with_metadata(RuleID::PushDownPrewhere, metadata)),
            ),
            RuleID::TryApplyAggIndex => Ok(
                Box::new(Rule::with_metadata(RuleID::TryApplyAggIndex, metadata)),
            ),
        }
    }
}

} // verus!
