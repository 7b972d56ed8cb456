//! Pruning of parquet row groups and pages.
//!
//! The range pruner, which judges a set of column statistics against the
//! pushed-down filter, lives outside this library: its verdicts are handed
//! in, one per row group (`prune_row_groups`) or one per page of each
//! predicate column (`prune_pages`). What this module decides is which rows
//! those verdicts leave to be read.
use vstd::prelude::*;

use crate::error::ErrorCode;
use crate::row_selection::{
    combine_fits, combine_selectors, intersect_masks, merge_row_selectors, merge_selections, RowSelector,
    selection_mask, selection_runs, total_rows,
};
use crate::types::TableField;

verus! {

/// Where a data page of a column chunk lives and the index of its first row
/// within the row group.
#[derive(Debug, Clone, Copy, PartialEq, Eq)]
pub struct PageLocation {
    pub offset: i64,
    pub compressed_page_size: i32,
    pub first_row_index: i64,
}

/// What pruning reads of a row group's metadata.
#[derive(Debug, Clone, Copy, PartialEq, Eq)]
pub struct RowGroupMetaData {
    pub num_rows: i64,
}

/// What pruning reads of a parquet file's metadata: its row groups and, when
/// the file has one, its offset index (`[row group][column][page]`).
#[derive(Debug, Clone)]
pub struct ParquetMetaData {
    pub row_groups: Vec<RowGroupMetaData>,
    pub offset_index: Option<Vec<Vec<Vec<PageLocation>>>>,
}

/// The options of a parquet read that pruning looks at.
#[derive(Debug, Clone, Copy, PartialEq, Eq)]
pub struct ParquetReadOptions {
    pub prune_row_groups: bool,
    pub prune_pages: bool,
}

impl ParquetReadOptions {
    pub fn prune_row_groups(&self) -> (r: bool)
        ensures
            r == self.prune_row_groups,
    {
        self.prune_row_groups
    }

    pub fn prune_pages(&self) -> (r: bool)
        ensures
            r == self.prune_pages,
    {
        self.prune_pages
    }
}

/// A pruner to prune row groups and pages of parquet files.
pub struct ParquetRSPruner {
    /// The leaf fields of the table schema.
    pub leaf_fields: Vec<TableField>,
    /// Whether a range pruner was built for the pushed-down filter.
    pub has_range_pruner: bool,
    pub prune_row_groups: bool,
    pub prune_pages: bool,
    /// Leaf ids of columns contained in filter predicates, ascending.
    pub predicate_columns: Vec<usize>,
}

/// ASCII lower case of a character; other characters are unchanged.
pub open spec fn ascii_lower(c: char) -> char {
    if 'A' <= c && c <= 'Z' {
        ((c as int) + 32) as char
    } else {
        c
    }
}

/// Two strings equal up to ASCII case.
pub open spec fn eq_ignore_ascii_case(a: Seq<char>, b: Seq<char>) -> bool {
    &&& a.len() == b.len()
    &&& forall|i: int| 0 <= i < a.len() ==> ascii_lower(#[trigger] a[i]) == ascii_lower(b[i])
}

/// The index of the first leaf field whose name matches `name` up to ASCII
/// case, or `fields.len()` when none does.
pub open spec fn field_position(fields: Seq<TableField>, name: Seq<char>) -> int
    decreases fields.len(),
{
    if fields.len() == 0 {
        0
    } else if eq_ignore_ascii_case(fields[0].name@, name) {
        0
    } else {
        1 + field_position(fields.drop_first(), name)
    }
}

/// Ascending order.
pub open spec fn sorted(s: Seq<usize>) -> bool {
    forall|i: int, j: int| 0 <= i <= j < s.len() ==> s[i] <= s[j]
}

/// The leaf positions of the filter's columns, in the order of the columns.
pub open spec fn column_positions(fields: Seq<TableField>, columns: Seq<String>) -> Seq<usize> {
    Seq::new(columns.len(), |k: int| field_position(fields, columns[k]@) as usize)
}

/// The indices `i` with `keep[i]`, ascending.
pub open spec fn kept_indices(keep: Seq<bool>) -> Seq<usize>
    decreases keep.len(),
{
    if keep.len() == 0 {
        Seq::empty()
    } else if keep.last() {
        kept_indices(keep.drop_last()).push((keep.len() - 1) as usize)
    } else {
        kept_indices(keep.drop_last())
    }
}

/// `0, 1, ..., n - 1`.
pub open spec fn all_indices(n: nat) -> Seq<usize> {
    Seq::new(n, |i: int| i as usize)
}

/// The page locations of a column chunk that row counts can be taken from:
/// at least one page, first rows that do not decrease when read as `usize`
/// (so the distance between neighbours does not underflow), and a last page
/// whose distance to the row group's end fits in `i64`.
pub open spec fn valid_page_locations(locs: Seq<PageLocation>, num_rows: i64) -> bool {
    &&& locs.len() > 0
    &&& forall|p: int, q: int|
        0 <= p <= q < locs.len() ==> (#[trigger] locs[p].first_row_index as usize)
            <= (#[trigger] locs[q].first_row_index as usize)
    &&& i64::MIN <= num_rows - locs.last().first_row_index <= i64::MAX
}

/// Page locations of a column chunk that lie within its row group: first
/// rows ascending from a non-negative start, the last not past the row
/// group's end, and a row count that fits in `usize`.
pub open spec fn page_locations_within(locs: Seq<PageLocation>, num_rows: i64) -> bool {
    &&& locs.len() > 0
    &&& 0 <= locs[0].first_row_index
    &&& forall|p: int, q: int|
        0 <= p <= q < locs.len() ==> #[trigger] locs[p].first_row_index
            <= #[trigger] locs[q].first_row_index
    &&& locs.last().first_row_index <= num_rows
    &&& num_rows <= usize::MAX
}

/// The number of rows of each page: the distance to the next page's first
/// row, and for the last page the distance to the end of the row group, each
/// taken as `usize`.
pub open spec fn pages_num_rows(locs: Seq<PageLocation>, num_rows: i64) -> Seq<usize> {
    Seq::new(
        locs.len(),
        |p: int|
            if p + 1 < locs.len() {
                ((locs[p + 1].first_row_index as usize) - (locs[p].first_row_index as usize)) as usize
            } else {
                (num_rows - locs[p].first_row_index) as usize
            },
    )
}

/// The runs one predicate column asks for: each page skipped where the range
/// pruner rejected its statistics, read otherwise (also where the page has no
/// statistics).
pub open spec fn column_page_runs(
    locs: Seq<PageLocation>,
    num_rows: i64,
    verdicts: Seq<Option<bool>>,
) -> Seq<RowSelector> {
    Seq::new(
        locs.len(),
        |p: int|
            RowSelector {
                row_count: pages_num_rows(locs, num_rows)[p],
                skip: verdicts[p] == Some(false),
            },
    )
}

/// The runs of every predicate column of row group `r`, in the order of the
/// predicate columns.
pub open spec fn row_group_column_runs(
    predicate_columns: Seq<usize>,
    meta: ParquetMetaData,
    verdicts: Seq<Vec<Vec<Option<bool>>>>,
    r: int,
) -> Seq<Seq<RowSelector>> {
    let oi = meta.offset_index->0;
    Seq::new(
        predicate_columns.len(),
        |k: int|
            column_page_runs(
                oi[r][predicate_columns[k] as int]@,
                meta.row_groups[r].num_rows,
                verdicts[r][predicate_columns[k] as int]@,
            ),
    )
}

/// The runs of the chosen row groups, one after the other.
pub open spec fn pruned_page_runs(
    predicate_columns: Seq<usize>,
    meta: ParquetMetaData,
    verdicts: Seq<Vec<Vec<Option<bool>>>>,
    row_groups: Seq<usize>,
) -> Seq<RowSelector>
    decreases row_groups.len(),
{
    if row_groups.len() == 0 {
        Seq::empty()
    } else {
        pruned_page_runs(predicate_columns, meta, verdicts, row_groups.drop_last())
            + merge_selections(
            row_group_column_runs(predicate_columns, meta, verdicts, row_groups.last() as int),
        )
    }
}

/// The rows of the chosen row groups that every predicate column reads, one
/// after the other.
pub open spec fn pruned_page_mask(
    predicate_columns: Seq<usize>,
    meta: ParquetMetaData,
    verdicts: Seq<Vec<Vec<Option<bool>>>>,
    row_groups: Seq<usize>,
) -> Seq<bool>
    decreases row_groups.len(),
{
    if row_groups.len() == 0 {
        Seq::empty()
    } else {
        pruned_page_mask(predicate_columns, meta, verdicts, row_groups.drop_last())
            + intersect_masks(
            row_group_column_runs(predicate_columns, meta, verdicts, row_groups.last() as int),
        )
    }
}

/// The runs with the trailing runs of no rows dropped.
pub open spec fn trim_empty_tail(s: Seq<RowSelector>) -> Seq<RowSelector>
    decreases s.len(),
{
    if s.len() > 0 && s.last().row_count == 0 {
        trim_empty_tail(s.drop_last())
    } else {
        s
    }
}

/// What page pruning reads of the metadata and the verdicts is there and
/// consistent: one entry per row group in both indexes, one per column in
/// each chosen row group, and for every predicate column valid page
/// locations, one verdict per page, and runs that combine without overflow.
pub open spec fn page_index_consistent(
    predicate_columns: Seq<usize>,
    meta: ParquetMetaData,
    verdicts: Seq<Vec<Vec<Option<bool>>>>,
    row_groups: Seq<usize>,
) -> bool {
    let oi = meta.offset_index->0;
    &&& meta.offset_index is Some
    &&& verdicts.len() == oi.len()
    &&& oi.len() == meta.row_groups.len()
    &&& row_groups.len() > 0 ==> predicate_columns.len() > 0
    &&& forall|i: int|
        0 <= i < row_groups.len() ==> {
            let r = #[trigger] row_groups[i] as int;
            &&& r < meta.row_groups.len()
            &&& verdicts[r].len() == oi[r].len()
            &&& forall|k: int|
                0 <= k < predicate_columns.len() ==> {
                    let c = #[trigger] predicate_columns[k] as int;
                    &&& c < oi[r].len()
                    &&& valid_page_locations(oi[r][c]@, meta.row_groups[r].num_rows)
                    &&& verdicts[r][c]@.len() == oi[r][c]@.len()
                    &&& combine_fits(
                        column_page_runs(oi[r][c]@, meta.row_groups[r].num_rows, verdicts[r][c]@),
                    )
                }
        }
}

/// The number of rows of each page of a column chunk.
pub fn compute_pages_num_rows(location: &[PageLocation], num_rows: i64) -> (counts: Vec<usize>)
    requires
        valid_page_locations(location@, num_rows),
    ensures
        counts@ == pages_num_rows(location@, num_rows),
{
    let n = location.len();
    let mut counts: Vec<usize> = Vec::with_capacity(n);
    let mut i: usize = 0;
    while i + 1 < n
        invariant
            n == location@.len(),
            n > 0,
            i + 1 <= n,
            valid_page_locations(location@, num_rows),
            counts@.len() == i,
            forall|p: int| 0 <= p < i ==> #[trigger] counts@[p] == pages_num_rows(location@, num_rows)[p],
        decreases n - i,
    {
        let start = location[i].first_row_index as usize;
        let end = location[i + 1].first_row_index as usize;
        assert(start <= end);
        counts.push(end - start);
        i = i + 1;
    }
    let last = location[n - 1].first_row_index;
    counts.push((num_rows - last) as usize);
    assert(counts@ == pages_num_rows(location@, num_rows));
    counts
}

/// The rows the runs of one predicate column cover: from the first page's
/// first row to the end of the row group.
proof fn lemma_column_runs_total(locs: Seq<PageLocation>, num_rows: i64, verdicts: Seq<Option<bool>>)
    requires
        page_locations_within(locs, num_rows),
    ensures
        total_rows(column_page_runs(locs, num_rows, verdicts)) == num_rows
            - locs[0].first_row_index,
{
    let runs = column_page_runs(locs, num_rows, verdicts);
    let n = locs.len();
    assert(locs[0].first_row_index <= locs[n - 1].first_row_index);
    lemma_prefix_runs_total(locs, num_rows, verdicts, (n - 1) as nat);
    assert(runs.take(n as int).drop_last() == runs.take(n - 1));
    assert(runs.take(n as int) == runs);
}

proof fn lemma_prefix_runs_total(
    locs: Seq<PageLocation>,
    num_rows: i64,
    verdicts: Seq<Option<bool>>,
    k: nat,
)
    requires
        page_locations_within(locs, num_rows),
        k < locs.len(),
    ensures
        total_rows(column_page_runs(locs, num_rows, verdicts).take(k as int))
            == locs[k as int].first_row_index - locs[0].first_row_index,
    decreases k,
{
    let runs = column_page_runs(locs, num_rows, verdicts);
    if k == 0 {
        assert(runs.take(0).len() == 0);
    } else {
        lemma_prefix_runs_total(locs, num_rows, verdicts, (k - 1) as nat);
        assert(runs.take(k as int).drop_last() == runs.take(k - 1));
        assert(locs[k - 1].first_row_index <= locs[k as int].first_row_index);
        assert(locs[k as int].first_row_index <= locs[locs.len() - 1].first_row_index);
    }
}

/// Dropping trailing runs of no rows keeps the rows.
proof fn lemma_trim_keeps_mask(s: Seq<RowSelector>)
    ensures
        selection_mask(trim_empty_tail(s)) == selection_mask(s),
        total_rows(trim_empty_tail(s)) == total_rows(s),
    decreases s.len(),
{
    if s.len() > 0 && s.last().row_count == 0 {
        lemma_trim_keeps_mask(s.drop_last());
        assert(crate::row_selection::selector_mask(s.last()) =~= Seq::<bool>::empty());
        assert(selection_mask(s) == selection_mask(s.drop_last()) + Seq::<bool>::empty());
    }
}

/// The row groups that row-group pruning keeps are exactly those the range
/// pruner kept, ascending.
pub proof fn lemma_kept_indices(keep: Seq<bool>)
    requires
        keep.len() <= usize::MAX,
    ensures
        forall|j: int|
            0 <= j < kept_indices(keep).len() ==> #[trigger] kept_indices(keep)[j] < keep.len()
                && keep[kept_indices(keep)[j] as int],
        forall|j: int, l: int|
            0 <= j < l < kept_indices(keep).len() ==> #[trigger] kept_indices(keep)[j]
                < #[trigger] kept_indices(keep)[l],
        forall|i: int| 0 <= i < keep.len() && #[trigger] keep[i] ==> kept_indices(keep).contains(i as usize),
    decreases keep.len(),
{
    if keep.len() > 0 {
        let p = keep.drop_last();
        lemma_kept_indices(p);
        let k = kept_indices(p);
        let r = kept_indices(keep);
        let last = (keep.len() - 1) as usize;
        assert(last == keep.len() - 1);
        if keep.last() {
            assert(r == k.push(last));
        } else {
            assert(r == k);
        }
        assert forall|j: int| 0 <= j < r.len() implies #[trigger] r[j] < keep.len() && keep[r[j] as int] by {
            if j < k.len() {
                assert(r[j] == k[j]);
                assert(p[k[j] as int] == keep[k[j] as int]);
            }
        }
        assert forall|j: int, l: int| 0 <= j < l < r.len() implies #[trigger] r[j] < #[trigger] r[l] by {
            if l < k.len() {
                assert(r[j] == k[j] && r[l] == k[l]);
            } else {
                assert(r[j] == k[j]);
                assert(k[j] < p.len());
            }
        }
        assert forall|i: int| 0 <= i < keep.len() && #[trigger] keep[i] implies r.contains(i as usize) by {
            if i < keep.len() - 1 {
                assert(p[i] == keep[i]);
                assert(k.contains(i as usize));
                let j = choose|j: int| 0 <= j < k.len() && k[j] == i as usize;
                assert(r[j] == i as usize);
            } else {
                assert(r[r.len() - 1] == i as usize);
            }
        }
    }
}

proof fn lemma_field_position_skip(fields: Seq<TableField>, name: Seq<char>, i: int)
    requires
        0 <= i <= fields.len(),
        forall|j: int| 0 <= j < i ==> !eq_ignore_ascii_case(#[trigger] fields[j].name@, name),
    ensures
        field_position(fields, name) == i + field_position(fields.skip(i), name),
    decreases i,
{
    if i == 0 {
        assert(fields.skip(0) == fields);
    } else {
        lemma_field_position_skip(fields, name, i - 1);
        let t = fields.skip(i - 1);
        assert(t[0] == fields[i - 1]);
        assert(t.drop_first() == fields.skip(i));
    }
}

/// The index of the first leaf field named `name` up to ASCII case.
fn find_field(leaf_fields: &Vec<TableField>, name: &String) -> (r: usize)
    requires
        field_position(leaf_fields@, name@) < leaf_fields@.len(),
    ensures
        r == field_position(leaf_fields@, name@),
{
    let mut i: usize = 0;
    while i < leaf_fields.len()
        invariant
            0 <= i <= leaf_fields@.len(),
            field_position(leaf_fields@, name@) < leaf_fields@.len(),
            forall|j: int|
                0 <= j < i ==> !eq_ignore_ascii_case(#[trigger] leaf_fields@[j].name@, name@),
        decreases leaf_fields.len() - i,
    {
        if str_eq_ignore_ascii_case(leaf_fields[i].name.as_str(), name.as_str()) {
            proof {
                lemma_field_position_skip(leaf_fields@, name@, i as int);
                assert(leaf_fields@.skip(i as int)[0] == leaf_fields@[i as int]);
            }
            return i;
        }
        i = i + 1;
    }
    proof {
        lemma_field_position_skip(leaf_fields@, name@, i as int);
    }
    0
}

/// The row after the last row of page `p`.
pub open spec fn page_end(locs: Seq<PageLocation>, num_rows: i64, p: int) -> int {
    if p + 1 < locs.len() {
        locs[p + 1].first_row_index as int
    } else {
        num_rows as int
    }
}

/// Page `p` holds row `i`.
pub open spec fn page_holds_row(locs: Seq<PageLocation>, num_rows: i64, p: int, i: int) -> bool {
    &&& 0 <= p < locs.len()
    &&& locs[p].first_row_index <= i < page_end(locs, num_rows, p)
}

proof fn lemma_column_mask_at(
    locs: Seq<PageLocation>,
    num_rows: i64,
    verdicts: Seq<Option<bool>>,
    p: int,
    i: int,
)
    requires
        page_locations_within(locs, num_rows),
        locs[0].first_row_index == 0,
        page_holds_row(locs, num_rows, p, i),
    ensures
        selection_mask(column_page_runs(locs, num_rows, verdicts)).len() == num_rows,
        selection_mask(column_page_runs(locs, num_rows, verdicts))[i] == (verdicts[p] != Some(
            false,
        )),
{
    let runs = column_page_runs(locs, num_rows, verdicts);
    lemma_column_runs_total(locs, num_rows, verdicts);
    crate::row_selection::lemma_mask_len(runs);
    lemma_prefix_runs_total(locs, num_rows, verdicts, p as nat);
    crate::row_selection::lemma_mask_len(runs.take(p));
    assert(runs.take(p + 1) == runs.take(p).push(runs[p]));
    crate::row_selection::lemma_mask_push(runs.take(p), runs[p]);
    assert(runs == runs.take(p + 1) + runs.skip(p + 1));
    crate::row_selection::lemma_mask_concat(runs.take(p + 1), runs.skip(p + 1));
    if p + 1 < locs.len() {
        assert(locs[p].first_row_index <= locs[p + 1].first_row_index);
        assert(locs[p + 1].first_row_index <= locs[locs.len() - 1].first_row_index);
    }
    let m = selection_mask(runs.take(p)) + crate::row_selection::selector_mask(runs[p]);
    assert(selection_mask(runs)[i] == m[i]);
    assert(m[i] == crate::row_selection::selector_mask(runs[p])[i - locs[p].first_row_index]);
}

proof fn lemma_containing_page_from(locs: Seq<PageLocation>, num_rows: i64, i: int, q: int) -> (p: int)
    requires
        page_locations_within(locs, num_rows),
        locs[0].first_row_index == 0,
        0 <= i,
        0 <= q < locs.len(),
        i < page_end(locs, num_rows, q),
    ensures
        page_holds_row(locs, num_rows, p, i),
    decreases q,
{
    if locs[q].first_row_index <= i {
        q
    } else {
        lemma_containing_page_from(locs, num_rows, i, q - 1)
    }
}

/// Merging selections that cover the same rows reads a row exactly when
/// every selection reads it.
pub proof fn lemma_intersect_masks_equal_len(sels: Seq<Seq<RowSelector>>, len: nat, i: int)
    requires
        sels.len() > 0,
        forall|k: int| 0 <= k < sels.len() ==> selection_mask(#[trigger] sels[k]).len() == len,
        0 <= i < len,
    ensures
        intersect_masks(sels).len() == len,
        intersect_masks(sels)[i] == forall|k: int|
            0 <= k < sels.len() ==> #[trigger] selection_mask(sels[k])[i],
    decreases sels.len(),
{
    if sels.len() > 1 {
        lemma_intersect_masks_equal_len(sels.drop_last(), len, i);
        let a = intersect_masks(sels.drop_last());
        let b = selection_mask(sels.last());
        assert(intersect_masks(sels)[i] == (a[i] && b[i]));
        if intersect_masks(sels)[i] {
            assert forall|k: int| 0 <= k < sels.len() implies #[trigger] selection_mask(sels[k])[i] by {
                if k < sels.len() - 1 {
                    assert(sels.drop_last()[k] == sels[k]);
                }
            }
        } else if !a[i] {
            let k = choose|k: int|
                0 <= k < sels.drop_last().len() && !#[trigger] selection_mask(sels.drop_last()[k])[i];
            assert(sels.drop_last()[k] == sels[k]);
        }
    }
}

/// Page pruning reads a row exactly when no predicate column has rejected
/// the page that holds it.
///
/// For a row group whose predicate columns' pages lie within it, the first
/// starting at its first row, and any row `i` of it: the merged selection of the row group reads
/// row `i` exactly when, for every predicate column, the page holding row `i`
/// was not rejected by the range pruner.
pub proof fn lemma_page_pruning_reads_row(
    predicate_columns: Seq<usize>,
    meta: ParquetMetaData,
    verdicts: Seq<Vec<Vec<Option<bool>>>>,
    row_groups: Seq<usize>,
    g: int,
    i: int,
)
    requires
        page_index_consistent(predicate_columns, meta, verdicts, row_groups),
        0 <= g < row_groups.len(),
        predicate_columns.len() > 0,
        forall|k: int|
            0 <= k < predicate_columns.len() ==> page_locations_within(
                (#[trigger] meta.offset_index->0[row_groups[g] as int][predicate_columns[k] as int])@,
                meta.row_groups[row_groups[g] as int].num_rows,
            ),
        forall|k: int|
            0 <= k < predicate_columns.len() ==> (#[trigger] meta.offset_index->0[row_groups[g] as int][predicate_columns[k] as int])@[0].first_row_index
                == 0,
        0 <= i < meta.row_groups[row_groups[g] as int].num_rows,
    ensures
        ({
            let r = row_groups[g] as int;
            let oi = meta.offset_index->0;
            let num_rows = meta.row_groups[r].num_rows;
            intersect_masks(row_group_column_runs(predicate_columns, meta, verdicts, r))[i]
                <==> forall|k: int, p: int|
                0 <= k < predicate_columns.len() && page_holds_row(
                    oi[r][predicate_columns[k] as int]@,
                    num_rows,
                    p,
                    i,
                ) ==> #[trigger] verdicts[r][predicate_columns[k] as int]@[p] != Some(false)
        }),
{
    let r = row_groups[g] as int;
    let oi = meta.offset_index->0;
    let num_rows = meta.row_groups[r].num_rows;
    let sels = row_group_column_runs(predicate_columns, meta, verdicts, r);
    assert(r == row_groups[g] as int);
    assert forall|k: int| 0 <= k < sels.len() implies selection_mask(#[trigger] sels[k]).len()
        == num_rows by {
        let c = predicate_columns[k] as int;
        assert(page_locations_within(oi[r][predicate_columns[k] as int]@, num_rows));
        lemma_column_runs_total(oi[r][c]@, num_rows, verdicts[r][c]@);
        crate::row_selection::lemma_mask_len(sels[k]);
    }
    lemma_intersect_masks_equal_len(sels, num_rows as nat, i);
    assert forall|k: int, p: int|
        0 <= k < predicate_columns.len() && page_holds_row(
            oi[r][predicate_columns[k] as int]@,
            num_rows,
            p,
            i,
        ) implies selection_mask(sels[k])[i] == (verdicts[r][predicate_columns[k] as int]@[p]
        != Some(false)) by {
        let c = predicate_columns[k] as int;
        lemma_column_mask_at(oi[r][c]@, num_rows, verdicts[r][c]@, p, i);
    }
    if !intersect_masks(sels)[i] {
        let k = choose|k: int| 0 <= k < sels.len() && !#[trigger] selection_mask(sels[k])[i];
        let c = predicate_columns[k] as int;
        let locs = oi[r][c]@;
        assert(page_locations_within(oi[r][predicate_columns[k] as int]@, num_rows));
        let p = lemma_containing_page_from(locs, num_rows, i, locs.len() - 1);
        assert(selection_mask(sels[k])[i] == (verdicts[r][c]@[p] != Some(false)));
    }
}

impl ParquetRSPruner {
    /// Builds a pruner for the pushed-down filter.
    ///
    /// `filter_columns` holds the names of the columns the filter refers to,
    /// or is `None` when no filter was pushed down. A range pruner is needed
    /// when there is a filter and row groups or pages are to be pruned; the
    /// predicate columns are then the leaf positions of the filter's columns,
    /// ascending.
    pub fn try_create(
        leaf_fields: Vec<TableField>,
        filter_columns: Option<Vec<String>>,
        options: ParquetReadOptions,
    ) -> (r: ParquetRSPruner)
        requires
            filter_columns is Some && (options.prune_row_groups || options.prune_pages) ==> forall|k: int|
                0 <= k < filter_columns->0@.len() ==> field_position(
                    leaf_fields@,
                    #[trigger] filter_columns->0@[k]@,
                ) < leaf_fields@.len(),
        ensures
            r.leaf_fields@ == leaf_fields@,
            r.prune_row_groups == options.prune_row_groups,
            r.prune_pages == options.prune_pages,
            r.has_range_pruner == (filter_columns is Some && (options.prune_row_groups
                || options.prune_pages)),
            r.has_range_pruner ==> {
                &&& sorted(r.predicate_columns@)
                &&& r.predicate_columns@.to_multiset() == column_positions(
                    leaf_fields@,
                    filter_columns->0@,
                ).to_multiset()
            },
            !r.has_range_pruner ==> r.predicate_columns@.len() == 0,
    {
        let mut predicate_columns: Vec<usize> = Vec::new();
        let has_range_pruner = filter_columns.is_some() && (options.prune_row_groups()
            || options.prune_pages());
        if has_range_pruner {
            let columns = filter_columns.as_ref().unwrap();
            let mut k: usize = 0;
            while k < columns.len()
                invariant
                    0 <= k <= columns@.len(),
                    forall|j: int|
                        0 <= j < columns@.len() ==> field_position(
                            leaf_fields@,
                            #[trigger] columns@[j]@,
                        ) < leaf_fields@.len(),
                    predicate_columns@ == column_positions(leaf_fields@, columns@).take(k as int),
                decreases columns.len() - k,
            {
                let position = find_field(&leaf_fields, &columns[k]);
                predicate_columns.push(position);
                assert(predicate_columns@ == column_positions(leaf_fields@, columns@).take(k + 1));
                k = k + 1;
            }
            assert(column_positions(leaf_fields@, columns@).take(columns@.len() as int)
                == column_positions(leaf_fields@, columns@));
            sort_ascending(&mut predicate_columns);
        }
        ParquetRSPruner {
            leaf_fields,
            has_range_pruner,
            prune_row_groups: options.prune_row_groups(),
            prune_pages: options.prune_pages(),
            predicate_columns,
        }
    }

    /// Prune row groups of a parquet file.
    ///
    /// `row_group_verdicts` holds, for each row group of the statistics that
    /// the caller has (or could collect from `meta`), whether the range
    /// pruner keeps it; it is `None` when no statistics could be collected.
    ///
    /// Returns the selected row groups' indices in the meta.
    pub fn prune_row_groups(
        &self,
        meta: &ParquetMetaData,
        row_group_verdicts: Option<&Vec<bool>>,
    ) -> (r: Result<Vec<usize>, ErrorCode>)
        ensures
            r is Ok,
            r->Ok_0@ == if self.prune_row_groups && self.has_range_pruner
                && row_group_verdicts is Some {
                kept_indices(row_group_verdicts->0@)
            } else {
                all_indices(meta.row_groups@.len())
            },
    {
        if !self.prune_row_groups || !self.has_range_pruner || row_group_verdicts.is_none() {
            let n = meta.row_groups.len();
            let mut all: Vec<usize> = Vec::with_capacity(n);
            let mut i: usize = 0;
            while i < n
                invariant
                    0 <= i <= n,
                    all@ == all_indices(i as nat),
                decreases n - i,
            {
                all.push(i);
                assert(all@ == all_indices((i + 1) as nat));
                i = i + 1;
            }
            return Ok(all);
        }
        let verdicts = row_group_verdicts.unwrap();
        let mut selection: Vec<usize> = Vec::with_capacity(verdicts.len());
        let mut i: usize = 0;
        while i < verdicts.len()
            invariant
                0 <= i <= verdicts@.len(),
                selection@ == kept_indices(verdicts@.take(i as int)),
            decreases verdicts.len() - i,
        {
            if verdicts[i] {
                selection.push(i);
            }
            assert(verdicts@.take(i + 1).drop_last() == verdicts@.take(i as int));
            i = i + 1;
        }
        assert(verdicts@.take(verdicts@.len() as int) == verdicts@);
        Ok(selection)
    }

    /// The runs that page pruning asks for, before trimming and combining:
    /// for each chosen row group in turn, the merge of its predicate columns'
    /// page runs.
    ///
    /// `column_index` stands for the file's column index as the range
    /// pruner judged it: for each row group, column and page, `Some(keep)`
    /// where the page has statistics.
    pub fn page_runs(
        &self,
        meta: &ParquetMetaData,
        row_groups: &[usize],
        column_index: &Vec<Vec<Vec<Option<bool>>>>,
    ) -> (r: Vec<RowSelector>)
        requires
            page_index_consistent(self.predicate_columns@, *meta, column_index@, row_groups@),
        ensures
            r@ == pruned_page_runs(self.predicate_columns@, *meta, column_index@, row_groups@),
            selection_mask(r@) == pruned_page_mask(
                self.predicate_columns@,
                *meta,
                column_index@,
                row_groups@,
            ),
    {
        let all_column_index = column_index;
        let all_offset_index = meta.offset_index.as_ref().unwrap();
        let ghost pcs = self.predicate_columns@;
        let ghost verdicts = all_column_index@;
        let ghost rgs = row_groups@;
        let mut selectors: Vec<RowSelector> = Vec::new();
        let mut ri: usize = 0;
        while ri < row_groups.len()
            invariant
                0 <= ri <= row_groups.len(),
                rgs == row_groups@,
                pcs == self.predicate_columns@,
                verdicts == all_column_index@,
                meta.offset_index == Some(*all_offset_index),
                page_index_consistent(pcs, *meta, verdicts, rgs),
                selectors@ == pruned_page_runs(pcs, *meta, verdicts, rgs.take(ri as int)),
                selection_mask(selectors@) == pruned_page_mask(pcs, *meta, verdicts, rgs.take(ri as int)),
            decreases row_groups.len() - ri,
        {
            let r = row_groups[ri];
            assert(rgs[ri as int] == r);
            let num_rows = meta.row_groups[r].num_rows;
            let column_index_rg = &all_column_index[r];
            let offset_index_rg = &all_offset_index[r];
            let ghost expected = row_group_column_runs(pcs, *meta, verdicts, r as int);
            let mut sel_of_different_cols: Vec<Vec<RowSelector>> = Vec::new();
            let mut k: usize = 0;
            while k < self.predicate_columns.len()
                invariant
                    0 <= k <= self.predicate_columns.len(),
                    pcs == self.predicate_columns@,
                    0 <= ri < rgs.len(),
                    r == rgs[ri as int],
                    meta.offset_index == Some(*all_offset_index),
                    *column_index_rg == verdicts[r as int],
                    *offset_index_rg == all_offset_index@[r as int],
                    num_rows == meta.row_groups[r as int].num_rows,
                    page_index_consistent(pcs, *meta, verdicts, rgs),
                    expected == row_group_column_runs(pcs, *meta, verdicts, r as int),
                    sel_of_different_cols@.len() == k,
                    forall|j: int|
                        0 <= j < k ==> #[trigger] sel_of_different_cols@[j]@ == expected[j],
                decreases self.predicate_columns.len() - k,
            {
                let col_idx = self.predicate_columns[k];
                assert(pcs[k as int] == col_idx);
                let page_locations = &offset_index_rg[col_idx];
                let page_rows = compute_pages_num_rows(page_locations.as_slice(), num_rows);
                let stats = &column_index_rg[col_idx];
                let ghost want = column_page_runs(page_locations@, num_rows, stats@);
                let mut sel_of_cur_col: Vec<RowSelector> = Vec::new();
                let mut page_idx: usize = 0;
                while page_idx < stats.len()
                    invariant
                        0 <= page_idx <= stats@.len(),
                        stats@.len() == page_locations@.len(),
                        page_rows@ == pages_num_rows(page_locations@, num_rows),
                        want == column_page_runs(page_locations@, num_rows, stats@),
                        sel_of_cur_col@ == want.take(page_idx as int),
                    decreases stats.len() - page_idx,
                {
                    let page_num_rows = page_rows[page_idx];
                    match stats[page_idx] {
                        Some(keep) => {
                            if !keep {
                                sel_of_cur_col.push(RowSelector::skip(page_num_rows));
                            } else {
                                sel_of_cur_col.push(RowSelector::select(page_num_rows));
                            }
                        },
                        None => {
                            sel_of_cur_col.push(RowSelector::select(page_num_rows));
                        },
                    }
                    assert(sel_of_cur_col@ == want.take(page_idx + 1));
                    page_idx = page_idx + 1;
                }
                assert(want.take(stats@.len() as int) == want);
                sel_of_different_cols.push(sel_of_cur_col);
                k = k + 1;
            }
            let ghost cols = sel_of_different_cols@.map_values(|v: Vec<RowSelector>| v@);
            assert(cols == expected);
            let mut sel_of_cur_rg = merge_row_selectors(sel_of_different_cols);
            proof {
                crate::row_selection::lemma_mask_concat(selectors@, sel_of_cur_rg@);
                let t = rgs.take(ri + 1);
                assert(t.drop_last() == rgs.take(ri as int));
                assert(t.last() == r);
            }
            selectors.append(&mut sel_of_cur_rg);
            ri = ri + 1;
        }
        proof {
            assert(rgs.take(rgs.len() as int) == rgs);
        }
        selectors
    }

    /// Prune pages of a parquet file.
    ///
    /// `column_index` stands for the file's column index as the range
    /// pruner judged it: for each row group, column and page, `Some(keep)`
    /// where the page has statistics. It is `None` when the file has no
    /// column index.
    ///
    /// Returns the rows to read: for each chosen row group in turn, the rows
    /// that every predicate column reads.
    pub fn prune_pages(
        &self,
        meta: &ParquetMetaData,
        row_groups: &[usize],
        column_index: Option<&Vec<Vec<Vec<Option<bool>>>>>,
    ) -> (r: Result<Option<parquet::arrow::arrow_reader::RowSelection>, ErrorCode>)
        requires
            self.prune_pages && self.has_range_pruner && column_index is Some
                && meta.offset_index is Some ==> {
                &&& page_index_consistent(
                    self.predicate_columns@,
                    *meta,
                    column_index->0@,
                    row_groups@,
                )
                &&& combine_fits(
                    trim_empty_tail(
                        pruned_page_runs(
                            self.predicate_columns@,
                            *meta,
                            column_index->0@,
                            row_groups@,
                        ),
                    ),
                )
            },
        ensures
            r is Ok,
            r->Ok_0 is Some <==> (self.prune_pages && self.has_range_pruner && column_index is Some
                && meta.offset_index is Some),
            r matches Ok(Some(sel)) ==> {
                &&& selection_runs(sel) == combine_selectors(
                    trim_empty_tail(
                        pruned_page_runs(
                            self.predicate_columns@,
                            *meta,
                            column_index->0@,
                            row_groups@,
                        ),
                    ),
                )
                &&& selection_mask(selection_runs(sel)) == pruned_page_mask(
                    self.predicate_columns@,
                    *meta,
                    column_index->0@,
                    row_groups@,
                )
            },
    {
        if !self.prune_pages {
            return Ok(None);
        }
        if !self.has_range_pruner {
            return Ok(None);
        }
        // Only if the file has page level statistics, we can use them to prune.
        if column_index.is_none() || meta.offset_index.is_none() {
            return Ok(None);
        }
        let mut selectors = self.page_runs(meta, row_groups, column_index.unwrap());
        let ghost untrimmed = selectors@;
        // Trim selectors.
        trim_empty_runs(&mut selectors);
        proof {
            lemma_trim_keeps_mask(untrimmed);
            crate::row_selection::lemma_combine_keeps_mask(selectors@);
        }
        Ok(Some(crate::row_selection::row_selection_from(&selectors)))
    }

    /// Prune pages of a parquet file, where merging the runs of the result
    /// does not overflow; `None` where it would (on those inputs
    /// `prune_pages` is not to be called).
    pub fn prune_pages_checked(
        &self,
        meta: &ParquetMetaData,
        row_groups: &[usize],
        column_index: Option<&Vec<Vec<Vec<Option<bool>>>>>,
    ) -> (r: Option<Result<Option<parquet::arrow::arrow_reader::RowSelection>, ErrorCode>>)
        requires
            self.prune_pages && self.has_range_pruner && column_index is Some
                && meta.offset_index is Some ==> page_index_consistent(
                self.predicate_columns@,
                *meta,
                column_index->0@,
                row_groups@,
            ),
        ensures
            r is None <==> (self.prune_pages && self.has_range_pruner && column_index is Some
                && meta.offset_index is Some && !combine_fits(
                trim_empty_tail(
                    pruned_page_runs(
                        self.predicate_columns@,
                        *meta,
                        column_index->0@,
                        row_groups@,
                    ),
                ),
            )),
            r matches Some(res) ==> {
                &&& res is Ok
                &&& res->Ok_0 is Some <==> (self.prune_pages && self.has_range_pruner
                    && column_index is Some && meta.offset_index is Some)
                &&& res matches Ok(Some(sel)) ==> {
                    &&& selection_runs(sel) == combine_selectors(
                        trim_empty_tail(
                            pruned_page_runs(
                                self.predicate_columns@,
                                *meta,
                                column_index->0@,
                                row_groups@,
                            ),
                        ),
                    )
                    &&& selection_mask(selection_runs(sel)) == pruned_page_mask(
                        self.predicate_columns@,
                        *meta,
                        column_index->0@,
                        row_groups@,
                    )
                }
            },
    {
        if self.prune_pages && self.has_range_pruner && column_index.is_some()
            && meta.offset_index.is_some() {
            let mut selectors = self.page_runs(meta, row_groups, column_index.unwrap());
            trim_empty_runs(&mut selectors);
            if !crate::row_selection::selectors_combine_fit(&selectors) {
                return None;
            }
        }
        Some(self.prune_pages(meta, row_groups, column_index))
    }
}

/// Drops the trailing runs of no rows.
fn trim_empty_runs(selectors: &mut Vec<RowSelector>)
    ensures
        final(selectors)@ == trim_empty_tail(old(selectors)@),
{
    while selectors.len() > 0 && selectors[selectors.len() - 1].row_count == 0
        invariant
            trim_empty_tail(selectors@) == trim_empty_tail(old(selectors)@),
        decreases selectors.len(),
    {
        selectors.pop();
    }
}

/// Calls `str::eq_ignore_ascii_case`, which std documents as the same as
/// comparing the ASCII-lowercased strings; the contract states that
/// comparison over characters.
#[verifier::external_body]
fn str_eq_ignore_ascii_case(a: &str, b: &str) -> (r: bool)
    ensures
        r == eq_ignore_ascii_case(a@, b@),
{
    a.eq_ignore_ascii_case(b)
}

/// Calls `slice::sort`, which std documents as sorting the slice in place
/// (ascending, keeping the elements).
#[verifier::external_body]
fn sort_ascending(v: &mut Vec<usize>)
    ensures
        sorted(final(v)@),
        final(v)@.to_multiset() == old(v)@.to_multiset(),
{
    v.sort();
}

} // verus!
