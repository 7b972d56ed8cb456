//! Row selections: run-length lists of "select n rows" / "skip n rows" that
//! tell a parquet reader which rows of a file to decode.
//!
//! The selection algebra (combining adjacent runs, intersecting two
//! selections) is the parquet crate's; it is reached through the calls at the
//! end of this file.
use vstd::prelude::*;

verus! {

/// One run of a row selection: `row_count` rows, skipped when `skip` holds.
#[derive(Debug, Clone, Copy, PartialEq, Eq)]
pub struct RowSelector {
    pub row_count: usize,
    pub skip: bool,
}

impl RowSelector {
    /// A run that selects `row_count` rows.
    pub fn select(row_count: usize) -> (r: RowSelector)
        ensures
            r == (RowSelector { row_count, skip: false }),
    {
        RowSelector { row_count, skip: false }
    }

    /// A run that skips `row_count` rows.
    pub fn skip(row_count: usize) -> (r: RowSelector)
        ensures
            r == (RowSelector { row_count, skip: true }),
    {
        RowSelector { row_count, skip: true }
    }
}

/// The parquet crate's row selection, carried through the library as it is.
#[verifier::external_type_specification]
#[verifier::external_body]
pub struct ExRowSelection(parquet::arrow::arrow_reader::RowSelection);

/// The runs a parquet row selection holds, in order.
pub uninterp spec fn selection_runs(s: parquet::arrow::arrow_reader::RowSelection) -> Seq<RowSelector>;

/// The rows one run stands for: `true` for a selected row.
pub open spec fn selector_mask(s: RowSelector) -> Seq<bool> {
    Seq::new(s.row_count as nat, |i: int| !s.skip)
}

/// The rows a list of runs stands for, one flag per row, `true` when selected.
pub open spec fn selection_mask(sels: Seq<RowSelector>) -> Seq<bool>
    decreases sels.len(),
{
    if sels.len() == 0 {
        Seq::empty()
    } else {
        selection_mask(sels.drop_last()) + selector_mask(sels.last())
    }
}

/// The number of rows a list of runs covers.
pub open spec fn total_rows(sels: Seq<RowSelector>) -> nat
    decreases sels.len(),
{
    if sels.len() == 0 {
        0
    } else {
        total_rows(sels.drop_last()) + sels.last().row_count as nat
    }
}

/// Row-wise intersection of two masks. Where one mask is longer than the
/// other, the longer one's rows are kept as they are.
pub open spec fn mask_intersection(a: Seq<bool>, b: Seq<bool>) -> Seq<bool> {
    Seq::new(
        if a.len() >= b.len() { a.len() } else { b.len() },
        |i: int|
            if i < a.len() && i < b.len() {
                a[i] && b[i]
            } else if i < a.len() {
                a[i]
            } else {
                b[i]
            },
    )
}

/// Adjacent runs of the same kind merged into one, left to right.
pub open spec fn combine_selectors(s: Seq<RowSelector>) -> Seq<RowSelector>
    decreases s.len(),
{
    if s.len() <= 1 {
        s
    } else {
        let c = combine_selectors(s.drop_last());
        let x = s.last();
        if c.len() > 0 && c.last().skip == x.skip {
            c.update(
                c.len() - 1,
                RowSelector { row_count: (c.last().row_count + x.row_count) as usize, skip: x.skip },
            )
        } else {
            c.push(x)
        }
    }
}

/// Merging adjacent runs of the same kind never sums past `usize::MAX`.
pub open spec fn combine_fits(s: Seq<RowSelector>) -> bool
    decreases s.len(),
{
    if s.len() <= 1 {
        true
    } else {
        let c = combine_selectors(s.drop_last());
        let x = s.last();
        &&& combine_fits(s.drop_last())
        &&& c.len() > 0 && c.last().skip == x.skip ==> c.last().row_count + x.row_count
            <= usize::MAX
    }
}

/// What `RowSelection::intersection` of the parquet crate returns for two
/// lists of runs.
pub uninterp spec fn intersection_runs(
    left: Seq<RowSelector>,
    right: Seq<RowSelector>,
) -> Seq<RowSelector>;

/// Left fold of the intersection over the combined forms of the selections.
pub open spec fn merge_selections(sels: Seq<Seq<RowSelector>>) -> Seq<RowSelector>
    decreases sels.len(),
{
    if sels.len() <= 1 {
        combine_selectors(sels[0])
    } else {
        intersection_runs(
            merge_selections(sels.drop_last()),
            combine_selectors(sels.last()),
        )
    }
}

/// Left fold of the mask intersection over the selections' masks.
pub open spec fn intersect_masks(sels: Seq<Seq<RowSelector>>) -> Seq<bool>
    decreases sels.len(),
{
    if sels.len() <= 1 {
        selection_mask(sels[0])
    } else {
        mask_intersection(intersect_masks(sels.drop_last()), selection_mask(sels.last()))
    }
}

pub proof fn lemma_mask_len(s: Seq<RowSelector>)
    ensures
        selection_mask(s).len() == total_rows(s),
    decreases s.len(),
{
    if s.len() > 0 {
        lemma_mask_len(s.drop_last());
    }
}

pub proof fn lemma_mask_push(s: Seq<RowSelector>, x: RowSelector)
    ensures
        selection_mask(s.push(x)) == selection_mask(s) + selector_mask(x),
        total_rows(s.push(x)) == total_rows(s) + x.row_count,
{
    assert(s.push(x).drop_last() == s);
}

pub proof fn lemma_mask_concat(s: Seq<RowSelector>, t: Seq<RowSelector>)
    ensures
        selection_mask(s + t) == selection_mask(s) + selection_mask(t),
        total_rows(s + t) == total_rows(s) + total_rows(t),
    decreases t.len(),
{
    if t.len() == 0 {
        assert(s + t == s);
        assert(selection_mask(s) + selection_mask(t) == selection_mask(s));
    } else {
        lemma_mask_concat(s, t.drop_last());
        assert((s + t).drop_last() == s + t.drop_last());
        assert((s + t).last() == t.last());
        assert(selection_mask(s + t) == selection_mask(s + t.drop_last()) + selector_mask(t.last()));
        assert(selection_mask(s) + selection_mask(t.drop_last()) + selector_mask(t.last())
            == selection_mask(s) + (selection_mask(t.drop_last()) + selector_mask(t.last())));
    }
}

/// Combining adjacent runs keeps the rows that a selection stands for.
pub proof fn lemma_combine_keeps_mask(s: Seq<RowSelector>)
    requires
        combine_fits(s),
    ensures
        selection_mask(combine_selectors(s)) == selection_mask(s),
        total_rows(combine_selectors(s)) == total_rows(s),
    decreases s.len(),
{
    if s.len() > 1 {
        let p = s.drop_last();
        let x = s.last();
        lemma_combine_keeps_mask(p);
        let c = combine_selectors(p);
        assert(s == p.push(x));
        lemma_mask_push(p, x);
        if c.len() > 0 && c.last().skip == x.skip {
            let q = c.drop_last();
            let m = RowSelector { row_count: (c.last().row_count + x.row_count) as usize, skip: x.skip };
            assert(c == q.push(c.last()));
            lemma_mask_push(q, c.last());
            assert(c.update(c.len() - 1, m) == q.push(m));
            lemma_mask_push(q, m);
            assert(selector_mask(c.last()) + selector_mask(x) == selector_mask(m));
            assert(selection_mask(q) + selector_mask(c.last()) + selector_mask(x)
                == selection_mask(q) + (selector_mask(c.last()) + selector_mask(x)));
        } else {
            lemma_mask_push(c, x);
        }
    }
}

/// A prefix of runs that combine without overflow combines without overflow.
pub proof fn lemma_combine_fits_prefix(s: Seq<RowSelector>, k: int)
    requires
        combine_fits(s),
        0 <= k <= s.len(),
    ensures
        combine_fits(s.take(k)),
    decreases s.len(),
{
    if k < s.len() {
        assert(s.len() > 1 || k == 0);
        if s.len() > 1 {
            lemma_combine_fits_prefix(s.drop_last(), k);
            assert(s.drop_last().take(k) == s.take(k));
        }
    } else {
        assert(s.take(k) == s);
    }
}

/// Whether the runs combine without a merged run passing `usize::MAX` rows.
pub fn selectors_combine_fit(selectors: &Vec<RowSelector>) -> (r: bool)
    ensures
        r == combine_fits(selectors@),
{
    let n = selectors.len();
    if n <= 1 {
        return true;
    }
    let ghost s = selectors@;
    let mut count = selectors[0].row_count;
    let mut skip = selectors[0].skip;
    assert(s.take(1) == seq![s[0]]);
    let mut i: usize = 1;
    while i < n
        invariant
            1 <= i <= n,
            n == s.len(),
            s == selectors@,
            combine_fits(s.take(i as int)),
            combine_selectors(s.take(i as int)).len() > 0,
            combine_selectors(s.take(i as int)).last() == (RowSelector { row_count: count, skip }),
        decreases n - i,
    {
        let x = selectors[i];
        let ghost t = s.take(i + 1);
        proof {
            assert(t.drop_last() == s.take(i as int));
            assert(t.last() == x);
        }
        if x.skip == skip {
            if count > usize::MAX - x.row_count {
                proof {
                    assert(!combine_fits(t));
                    if combine_fits(s) {
                        lemma_combine_fits_prefix(s, i + 1);
                    }
                }
                return false;
            }
            count = count + x.row_count;
        } else {
            count = x.row_count;
            skip = x.skip;
        }
        i = i + 1;
    }
    assert(s.take(n as int) == s);
    true
}

/// Merges the selections produced for several columns into the one selection
/// that reads a row only where every column selects it.
pub fn merge_row_selectors(row_selections: Vec<Vec<RowSelector>>) -> (r: Vec<RowSelector>)
    requires
        row_selections.len() > 0,
        forall|i: int|
            0 <= i < row_selections.len() ==> combine_fits(#[trigger] row_selections[i]@),
    ensures
        r@ == merge_selections(row_selections@.map_values(|v: Vec<RowSelector>| v@)),
        selection_mask(r@) == intersect_masks(
            row_selections@.map_values(|v: Vec<RowSelector>| v@),
        ),
{
    let ghost sels = row_selections@.map_values(|v: Vec<RowSelector>| v@);
    let mut acc = row_selection_from(&row_selections[0]);
    proof {
        lemma_combine_keeps_mask(row_selections[0]@);
        assert(sels.take(1).drop_last().len() == 0);
        assert(sels.take(1)[0] == sels[0]);
    }
    let n = row_selections.len();
    let mut i: usize = 1;
    while i < n
        invariant
            1 <= i <= n,
            n == row_selections.len(),
            sels == row_selections@.map_values(|v: Vec<RowSelector>| v@),
            forall|j: int|
                0 <= j < row_selections.len() ==> combine_fits(#[trigger] row_selections[j]@),
            selection_runs(acc) == merge_selections(sels.take(i as int)),
            selection_mask(selection_runs(acc)) == intersect_masks(sels.take(i as int)),
        decreases n - i,
    {
        let next = row_selection_from(&row_selections[i]);
        proof {
            lemma_combine_keeps_mask(row_selections[i as int]@);
        }
        acc = row_selection_intersection(&acc, &next);
        proof {
            let t = sels.take(i + 1);
            assert(t.drop_last() == sels.take(i as int));
            assert(t.last() == sels[i as int]);
            assert(t.len() > 1);
        }
        i = i + 1;
    }
    proof {
        assert(sels.take(n as int) == sels);
    }
    row_selection_into_runs(acc)
}

/// Calls `RowSelection::from` of the parquet crate on a list of runs. The
/// crate's source merges adjacent runs of the same kind, left to right,
/// summing their row counts; the contract states that merge. A merged run of
/// more than `usize::MAX` rows would overflow the sum, which `requires` rules
/// out.
#[verifier::external_body]
pub(crate) fn row_selection_from(
    selectors: &Vec<RowSelector>,
) -> (r: parquet::arrow::arrow_reader::RowSelection)
    requires
        combine_fits(selectors@),
    ensures
        selection_runs(r) == combine_selectors(selectors@),
{
    let runs: Vec<parquet::arrow::arrow_reader::RowSelector> = selectors
        .iter()
        .map(|s| parquet::arrow::arrow_reader::RowSelector { row_count: s.row_count, skip: s.skip })
        .collect();
    parquet::arrow::arrow_reader::RowSelection::from(runs)
}

/// Calls `RowSelection::intersection` of the parquet crate. Its runs are
/// named by `row_selection_intersection`; the crate's source walks both lists
/// together, selects a row only where both select it, and appends the rest of
/// the longer list as it is, which the mask clause states.
#[verifier::external_body]
pub(crate) fn row_selection_intersection(
    left: &parquet::arrow::arrow_reader::RowSelection,
    right: &parquet::arrow::arrow_reader::RowSelection,
) -> (r: parquet::arrow::arrow_reader::RowSelection)
    ensures
        selection_runs(r) == intersection_runs(selection_runs(*left), selection_runs(*right)),
        selection_mask(selection_runs(r)) == mask_intersection(
            selection_mask(selection_runs(*left)),
            selection_mask(selection_runs(*right)),
        ),
{
    left.intersection(right)
}

/// Hands out the runs of a parquet row selection (`Vec::from` of the crate).
#[verifier::external_body]
pub(crate) fn row_selection_into_runs(
    selection: parquet::arrow::arrow_reader::RowSelection,
) -> (r: Vec<RowSelector>)
    ensures
        r@ == selection_runs(selection),
{
    let runs: Vec<parquet::arrow::arrow_reader::RowSelector> = selection.into();
    runs.iter().map(|s| RowSelector { row_count: s.row_count, skip: s.skip }).collect()
}

} // verus!
