//! The plan of a `MERGE INTO` statement.
use vstd::prelude::*;
use std::collections::HashMap;
use std::collections::HashSet;

verus! {

/// For an unmatched clause: the source schema, the optional condition and
/// the values to insert.
#[derive(Debug, Clone)]
pub struct UnmatchedEvaluator<S, E> {
    pub source_schema: S,
    pub condition: Option<E>,
    pub values: Vec<E>,
}

/// For a matched clause: the optional condition and, for an update, the
/// update expression of each updated field (`None` for a delete).
#[derive(Debug, Clone)]
pub struct MatchedEvaluator<E> {
    pub condition: Option<E>,
    pub update: Option<HashMap<usize, E>>,
}

/// A `MERGE INTO` plan over source plans `P`, bind contexts `B`, metadata
/// `M`, schemas `S` and scalar expressions `E`.
#[derive(Debug, Clone)]
pub struct MergeInto<P, B, M, S, E> {
    pub catalog: String,
    pub database: String,
    pub table: String,
    pub table_id: u64,
    pub input: Box<P>,
    pub bind_context: Box<B>,
    pub columns_set: Box<HashSet<usize>>,
    pub meta_data: M,
    pub matched_evaluators: Vec<MatchedEvaluator<E>>,
    pub unmatched_evaluators: Vec<UnmatchedEvaluator<S, E>>,
    pub target_table_idx: usize,
    pub field_index_map: HashMap<usize, String>,
}

} // verus!
