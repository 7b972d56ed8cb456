//! Deleting the rows of a block that a predicate selects.
use vstd::prelude::*;

use crate::block::{count_of, filter_by_mask, DataBlock};
use crate::error::{error_message, same_kind, ErrorCode};
use crate::types::Scalar;

verus! {

/// The outcome of evaluating a filter expression on a block, as the caller's
/// evaluator reports it.
#[derive(Debug)]
pub enum PredicateEvaluation {
    /// One flag per row, `true` for a row the filter selects.
    Predicates(Vec<bool>),
    /// The expression could not be cast to a non-null boolean.
    CastFailed(ErrorCode),
    /// Evaluating the filter on the block failed.
    EvalFailed(ErrorCode),
}

/// Deletes the rows of blocks that a filter expression selects, reporting
/// the row ids of the deleted rows.
///
/// The expression and the function context are carried for the evaluator
/// of the caller; the mutator decides from the evaluated predicate.
pub struct DeleteByExprMutator<E, F> {
    expr: Option<E>,
    row_id_idx: usize,
    func_ctx: F,
}

impl<E, F> DeleteByExprMutator<E, F> {
    pub closed spec fn spec_expr(&self) -> Option<E> {
        self.expr
    }

    pub closed spec fn spec_row_id_idx(&self) -> usize {
        self.row_id_idx
    }

    pub closed spec fn spec_func_ctx(&self) -> F {
        self.func_ctx
    }

    pub fn create(expr: Option<E>, func_ctx: F, row_id_idx: usize) -> (r: Self)
        ensures
            r.spec_expr() == expr,
            r.spec_func_ctx() == func_ctx,
            r.spec_row_id_idx() == row_id_idx,
    {
        Self { expr, row_id_idx, func_ctx }
    }

    /// The filter expression, if any.
    pub fn expr(&self) -> (r: &Option<E>)
        ensures
            *r == self.spec_expr(),
    {
        &self.expr
    }

    /// The function context to evaluate the expression with.
    pub fn func_ctx(&self) -> (r: &F)
        ensures
            *r == self.spec_func_ctx(),
    {
        &self.func_ctx
    }

    /// The position of the row-id column in the blocks.
    pub fn row_id_idx(&self) -> (r: usize)
        ensures
            r == self.spec_row_id_idx(),
    {
        self.row_id_idx
    }

    /// Returns the block after the delete, and a block of the row ids that
    /// were deleted.
    ///
    /// `evaluation` is the outcome of evaluating the filter expression on the
    /// block. It is read only when the mutator has an expression; without one
    /// every row is deleted. A failed cast is handed back as it is; a failed
    /// evaluation is handed back with "eval filter failed:" put in front of
    /// its message.
    pub fn delete_by_expr(
        &self,
        data_block: DataBlock,
        evaluation: PredicateEvaluation,
    ) -> (r: Result<(DataBlock, DataBlock), ErrorCode>)
        requires
            self.spec_row_id_idx() < data_block.spec_columns().len(),
            self.spec_expr() is Some && evaluation is Predicates ==> evaluation->Predicates_0@.len()
                == data_block.spec_num_rows(),
        ensures
            self.spec_expr() is None ==> (r matches Ok((remaining, deleted)) && {
                &&& remaining.spec_columns().len() == 0
                &&& remaining.spec_num_rows() == 0
                &&& deleted.spec_columns() == seq![
                    data_block.spec_columns()[self.spec_row_id_idx() as int],
                ]
                &&& deleted.spec_num_rows() == data_block.spec_num_rows()
            }),
            self.spec_expr() is Some && evaluation is CastFailed ==> r == Err::<
                (DataBlock, DataBlock),
                ErrorCode,
            >(evaluation->CastFailed_0),
            self.spec_expr() is Some && evaluation is EvalFailed ==> (r matches Err(e) && same_kind(
                e,
                evaluation->EvalFailed_0,
            ) && error_message(e) == "eval filter failed:"@ + "\n"@ + error_message(
                evaluation->EvalFailed_0,
            )),
            self.spec_expr() is Some && evaluation is Predicates ==> (r matches Ok((remaining, deleted))
                && {
                let m = evaluation->Predicates_0@;
                &&& remaining.spec_columns() == data_block.spec_columns().map_values(
                    |c: Seq<Scalar>| filter_by_mask(c, m, false),
                )
                &&& remaining.spec_num_rows() == count_of(m, false)
                &&& deleted.spec_columns() == seq![
                    filter_by_mask(data_block.spec_columns()[self.spec_row_id_idx() as int], m, true),
                ]
                &&& deleted.spec_num_rows() == count_of(m, true)
            }),
    {
        if self.expr.is_none() {
            let num_rows = data_block.num_rows();
            let row_ids = data_block.take_column(self.row_id_idx);
            let mut columns: Vec<Vec<Scalar>> = Vec::new();
            columns.push(row_ids);
            let deleted = DataBlock::new(columns, num_rows);
            assert(deleted.spec_columns() =~= seq![
                data_block.spec_columns()[self.spec_row_id_idx() as int],
            ]);
            Ok((DataBlock::empty(), deleted))
        } else {
            let filter = match evaluation {
                PredicateEvaluation::Predicates(filter) => filter,
                PredicateEvaluation::CastFailed(e) => {
                    return Err(e);
                },
                PredicateEvaluation::EvalFailed(e) => {
                    return Err(e.add_message("eval filter failed:"));
                },
            };
            let ghost cols = data_block.spec_columns();
            let (remaining, filtered_block) = data_block.partition_by_bitmap(&filter);
            let num_deleted = filtered_block.num_rows();
            assert(filtered_block.spec_columns()[self.spec_row_id_idx() as int] == filter_by_mask(
                cols[self.spec_row_id_idx() as int],
                filter@,
                true,
            ));
            let row_ids = filtered_block.take_column(self.row_id_idx);
            let mut columns: Vec<Vec<Scalar>> = Vec::new();
            columns.push(row_ids);
            let deleted = DataBlock::new(columns, num_deleted);
            assert(deleted.spec_columns() =~= seq![
                filter_by_mask(cols[self.spec_row_id_idx() as int], filter@, true),
            ]);
            Ok((remaining, deleted))
        }
    }
}

} // verus!
