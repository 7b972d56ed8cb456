use databend_core::pruning::{
    compute_pages_num_rows, PageLocation, ParquetMetaData, ParquetRSPruner, ParquetReadOptions,
    RowGroupMetaData,
};
use databend_core::row_selection::{merge_row_selectors, selectors_combine_fit, RowSelector};
use databend_core::types::{NumberDataType, TableDataType, TableField};
use parquet::arrow::arrow_reader::RowSelection;

fn loc(first_row_index: i64) -> PageLocation {
    PageLocation { offset: 0, compressed_page_size: 0, first_row_index }
}

fn field(name: &str) -> TableField {
    TableField { name: name.to_string(), data_type: TableDataType::Number(NumberDataType::Int64) }
}

fn runs(selection: RowSelection) -> Vec<(usize, bool)> {
    let v: Vec<parquet::arrow::arrow_reader::RowSelector> = selection.into();
    v.iter().map(|s| (s.row_count, s.skip)).collect()
}

fn both() -> ParquetReadOptions {
    ParquetReadOptions { prune_row_groups: true, prune_pages: true }
}

#[test]
fn pages_num_rows_are_distances_between_first_rows() {
    let counts = compute_pages_num_rows(&[loc(0), loc(10), loc(25)], 40);
    assert_eq!(counts, vec![10, 15, 15]);
}

#[test]
fn pages_num_rows_of_a_single_page() {
    assert_eq!(compute_pages_num_rows(&[loc(0)], 7), vec![7]);
    assert_eq!(compute_pages_num_rows(&[loc(0), loc(7)], 7), vec![7, 0]);
}

#[test]
fn merge_row_selectors_combines_adjacent_runs() {
    let merged = merge_row_selectors(vec![vec![RowSelector::select(3), RowSelector::select(2)]]);
    assert_eq!(merged, vec![RowSelector::select(5)]);
}

#[test]
fn merge_row_selectors_intersects_columns() {
    let merged = merge_row_selectors(vec![
        vec![RowSelector::select(2), RowSelector::skip(2)],
        vec![RowSelector::skip(1), RowSelector::select(3)],
    ]);
    assert_eq!(
        merged,
        vec![
            RowSelector::skip(1),
            RowSelector::select(1),
            RowSelector::skip(2),
            RowSelector::skip(0),
        ]
    );
}

#[test]
fn merge_row_selectors_keeps_the_tail_of_the_longer_selection() {
    let merged = merge_row_selectors(vec![
        vec![RowSelector::select(2)],
        vec![RowSelector::select(4)],
    ]);
    let total: usize = merged.iter().map(|s| s.row_count).sum();
    assert_eq!(total, 4);
    assert!(merged.iter().all(|s| !s.skip));
}

#[test]
fn try_create_finds_predicate_columns_ignoring_ascii_case_and_sorts_them() {
    let pruner = ParquetRSPruner::try_create(
        vec![field("a"), field("B"), field("c")],
        Some(vec!["C".to_string(), "b".to_string()]),
        both(),
    );
    assert!(pruner.has_range_pruner);
    assert_eq!(pruner.predicate_columns, vec![1, 2]);
}

#[test]
fn try_create_without_filter_builds_no_range_pruner() {
    let pruner = ParquetRSPruner::try_create(vec![field("a")], None, both());
    assert!(!pruner.has_range_pruner);
    assert!(pruner.predicate_columns.is_empty());
}

#[test]
fn try_create_without_pruning_options_builds_no_range_pruner() {
    let pruner = ParquetRSPruner::try_create(
        vec![field("a")],
        Some(vec!["a".to_string()]),
        ParquetReadOptions { prune_row_groups: false, prune_pages: false },
    );
    assert!(!pruner.has_range_pruner);
    assert!(pruner.predicate_columns.is_empty());
}

fn meta(rows: &[i64], offset_index: Option<Vec<Vec<Vec<PageLocation>>>>) -> ParquetMetaData {
    ParquetMetaData {
        row_groups: rows.iter().map(|r| RowGroupMetaData { num_rows: *r }).collect(),
        offset_index,
    }
}

#[test]
fn prune_row_groups_keeps_what_the_range_pruner_keeps() {
    let pruner =
        ParquetRSPruner::try_create(vec![field("a")], Some(vec!["a".to_string()]), both());
    let m = meta(&[10, 10, 10, 10], None);
    let kept = pruner.prune_row_groups(&m, Some(&vec![true, false, true, false])).unwrap();
    assert_eq!(kept, vec![0, 2]);
}

#[test]
fn prune_row_groups_keeps_all_without_statistics() {
    let pruner =
        ParquetRSPruner::try_create(vec![field("a")], Some(vec!["a".to_string()]), both());
    let m = meta(&[10, 10, 10], None);
    assert_eq!(pruner.prune_row_groups(&m, None).unwrap(), vec![0, 1, 2]);
}

#[test]
fn prune_row_groups_keeps_all_when_disabled() {
    let pruner = ParquetRSPruner::try_create(
        vec![field("a")],
        Some(vec!["a".to_string()]),
        ParquetReadOptions { prune_row_groups: false, prune_pages: true },
    );
    let m = meta(&[10, 10], None);
    assert_eq!(pruner.prune_row_groups(&m, Some(&vec![false, false])).unwrap(), vec![0, 1]);
}

#[test]
fn prune_pages_is_none_without_page_index() {
    let pruner =
        ParquetRSPruner::try_create(vec![field("a")], Some(vec!["a".to_string()]), both());
    let m = meta(&[10], None);
    let verdicts = vec![vec![vec![Some(true)]]];
    assert!(pruner.prune_pages(&m, &[0], Some(&verdicts)).unwrap().is_none());
    let m = meta(&[10], Some(vec![vec![vec![loc(0)]]]));
    assert!(pruner.prune_pages(&m, &[0], None).unwrap().is_none());
}

#[test]
fn prune_pages_is_none_when_disabled() {
    let pruner = ParquetRSPruner::try_create(
        vec![field("a")],
        Some(vec!["a".to_string()]),
        ParquetReadOptions { prune_row_groups: true, prune_pages: false },
    );
    let m = meta(&[10], Some(vec![vec![vec![loc(0)]]]));
    let verdicts = vec![vec![vec![Some(false)]]];
    assert!(pruner.prune_pages(&m, &[0], Some(&verdicts)).unwrap().is_none());
}

#[test]
fn prune_pages_reads_rows_that_every_predicate_column_keeps() {
    // Two predicate columns, two row groups of 10 rows.
    let pruner = ParquetRSPruner::try_create(
        vec![field("a"), field("b")],
        Some(vec!["a".to_string(), "b".to_string()]),
        both(),
    );
    let offset_index = vec![
        vec![vec![loc(0), loc(5)], vec![loc(0), loc(3), loc(8)]],
        vec![vec![loc(0)], vec![loc(0), loc(5)]],
    ];
    let m = meta(&[10, 10], Some(offset_index));
    let verdicts = vec![
        // row group 0: column a keeps rows 0..5, column b rejects rows 3..8
        vec![vec![Some(true), Some(false)], vec![None, Some(false), Some(true)]],
        // row group 1: column a keeps everything, column b rejects rows 5..10
        vec![vec![Some(true)], vec![Some(true), Some(false)]],
    ];
    let selection = pruner.prune_pages(&m, &[0, 1], Some(&verdicts)).unwrap().unwrap();
    // rows 0..3 read, 3..10 skipped, then 10..15 read, trailing 15..20 skipped.
    assert_eq!(runs(selection), vec![(3, false), (7, true), (5, false), (5, true)]);
}

#[test]
fn prune_pages_of_a_subset_of_row_groups() {
    let pruner =
        ParquetRSPruner::try_create(vec![field("a")], Some(vec!["a".to_string()]), both());
    let offset_index = vec![vec![vec![loc(0)]], vec![vec![loc(0), loc(4)]]];
    let m = meta(&[6, 8], Some(offset_index));
    let verdicts = vec![vec![vec![Some(false)]], vec![vec![Some(false), None]]];
    let selection = pruner.prune_pages(&m, &[1], Some(&verdicts)).unwrap().unwrap();
    assert_eq!(runs(selection), vec![(4, true), (4, false)]);
}

#[test]
fn prune_pages_trims_trailing_empty_runs() {
    let pruner =
        ParquetRSPruner::try_create(vec![field("a")], Some(vec!["a".to_string()]), both());
    let offset_index = vec![vec![vec![loc(0), loc(5)]]];
    let m = meta(&[5], Some(offset_index));
    let verdicts = vec![vec![vec![Some(true), Some(false)]]];
    let selection = pruner.prune_pages(&m, &[0], Some(&verdicts)).unwrap().unwrap();
    assert_eq!(runs(selection), vec![(5, false)]);
}

#[test]
fn pages_num_rows_wrap_like_usize_for_out_of_range_starts() {
    assert_eq!(compute_pages_num_rows(&[loc(-5), loc(-2)], 0), vec![3, 2]);
    assert_eq!(compute_pages_num_rows(&[loc(0), loc(12)], 10), vec![12, (-2i64) as usize]);
}

#[test]
fn selectors_combine_fit_detects_overflowing_runs() {
    assert!(selectors_combine_fit(&vec![RowSelector::select(usize::MAX)]));
    assert!(selectors_combine_fit(&vec![
        RowSelector::select(usize::MAX),
        RowSelector::skip(3),
        RowSelector::select(4),
    ]));
    assert!(!selectors_combine_fit(&vec![RowSelector::select(usize::MAX), RowSelector::select(1)]));
}

#[test]
fn prune_pages_checked_refuses_runs_that_overflow_when_merged() {
    let pruner =
        ParquetRSPruner::try_create(vec![field("a")], Some(vec!["a".to_string()]), both());
    let offset_index = vec![vec![vec![loc(0), loc(12)]], vec![vec![loc(0)]]];
    let m = meta(&[10, 5], Some(offset_index));
    let verdicts = vec![vec![vec![Some(false), None]], vec![vec![None]]];
    assert!(pruner.prune_pages_checked(&m, &[0, 1], Some(&verdicts)).is_none());
    let selection = pruner.prune_pages_checked(&m, &[1], Some(&verdicts)).unwrap().unwrap().unwrap();
    assert_eq!(runs(selection), vec![(5, false)]);
}

#[test]
fn page_runs_lists_runs_before_combining() {
    let pruner =
        ParquetRSPruner::try_create(vec![field("a")], Some(vec!["a".to_string()]), both());
    let offset_index = vec![vec![vec![loc(0), loc(2), loc(4)]]];
    let m = meta(&[6], Some(offset_index));
    let verdicts = vec![vec![vec![None, Some(true), Some(false)]]];
    let r = pruner.page_runs(&m, &[0], &verdicts);
    assert_eq!(r, vec![RowSelector::select(4), RowSelector::skip(2)]);
}
