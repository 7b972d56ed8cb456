use databend_core::block::DataBlock;
use databend_core::delete_by_expr::{DeleteByExprMutator, PredicateEvaluation};
use databend_core::error::ErrorCode;
use databend_core::types::{NumberScalar, Scalar};

fn int64(v: i64) -> Scalar {
    Scalar::Number(NumberScalar::Int64(v))
}

fn block() -> DataBlock {
    // column 0: values, column 1: row ids
    DataBlock::new(
        vec![
            vec![int64(10), int64(20), int64(30), int64(40)],
            vec![int64(100), int64(101), int64(102), int64(103)],
        ],
        4,
    )
}

#[test]
fn partition_splits_rows_by_mask() {
    let (unset, set) = block().partition_by_bitmap(&vec![true, false, false, true]);
    assert_eq!(unset.num_rows(), 2);
    assert_eq!(set.num_rows(), 2);
    assert_eq!(unset.get_by_offset(0), &vec![int64(20), int64(30)]);
    assert_eq!(set.get_by_offset(1), &vec![int64(100), int64(103)]);
}

#[test]
fn delete_without_expression_deletes_every_row() {
    let m: DeleteByExprMutator<String, ()> = DeleteByExprMutator::create(None, (), 1);
    let (remaining, deleted) = m.delete_by_expr(block(), PredicateEvaluation::Predicates(vec![])).unwrap();
    assert_eq!(remaining.num_rows(), 0);
    assert_eq!(remaining.num_columns(), 0);
    assert_eq!(deleted.num_rows(), 4);
    assert_eq!(deleted.num_columns(), 1);
    assert_eq!(deleted.get_by_offset(0), &vec![int64(100), int64(101), int64(102), int64(103)]);
}

#[test]
fn delete_by_predicate_keeps_the_other_rows_and_reports_deleted_row_ids() {
    let m = DeleteByExprMutator::create(Some("a > 15".to_string()), (), 1);
    let (remaining, deleted) =
        m.delete_by_expr(block(), PredicateEvaluation::Predicates(vec![false, true, true, false])).unwrap();
    assert_eq!(remaining.num_rows(), 2);
    assert_eq!(remaining.num_columns(), 2);
    assert_eq!(remaining.get_by_offset(0), &vec![int64(10), int64(40)]);
    assert_eq!(remaining.get_by_offset(1), &vec![int64(100), int64(103)]);
    assert_eq!(deleted.num_rows(), 2);
    assert_eq!(deleted.num_columns(), 1);
    assert_eq!(deleted.get_by_offset(0), &vec![int64(101), int64(102)]);
    assert_eq!(remaining.num_rows() + deleted.num_rows(), 4);
}

#[test]
fn delete_marks_a_failed_evaluation() {
    let m = DeleteByExprMutator::create(Some("bad".to_string()), (), 1);
    let r = m.delete_by_expr(
        block(),
        PredicateEvaluation::EvalFailed(ErrorCode::EvalFilterFailed("boom".to_string())),
    );
    match r {
        Err(ErrorCode::EvalFilterFailed(message)) => {
            assert_eq!(message, "eval filter failed:\nboom")
        }
        _ => panic!("expected the evaluation error"),
    }
}

#[test]
fn delete_hands_back_a_failed_cast() {
    let m = DeleteByExprMutator::create(Some("bad".to_string()), (), 1);
    let r = m.delete_by_expr(
        block(),
        PredicateEvaluation::CastFailed(ErrorCode::EvalFilterFailed("cast".to_string())),
    );
    match r {
        Err(ErrorCode::EvalFilterFailed(message)) => assert_eq!(message, "cast"),
        _ => panic!("expected the cast error"),
    }
}

#[test]
fn add_message_puts_the_message_in_front() {
    let e = ErrorCode::UnknownTable("t".to_string()).add_message("lookup:");
    assert_eq!(e.message(), "lookup:\nt");
}

#[test]
fn mutator_exposes_what_it_was_made_with() {
    let m = DeleteByExprMutator::create(Some(7u8), "ctx", 3);
    assert_eq!(m.expr(), &Some(7));
    assert_eq!(m.func_ctx(), &"ctx");
    assert_eq!(m.row_id_idx(), 3);
}
