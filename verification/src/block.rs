//! Blocks of rows held column by column.
use vstd::prelude::*;

use crate::types::Scalar;

verus! {

/// The elements of `s` whose mask entry equals `want`, in order.
pub open spec fn filter_by_mask<A>(s: Seq<A>, mask: Seq<bool>, want: bool) -> Seq<A>
    decreases s.len(),
{
    if s.len() == 0 {
        Seq::empty()
    } else {
        let rest = filter_by_mask(s.drop_last(), mask, want);
        if mask[s.len() - 1] == want {
            rest.push(s.last())
        } else {
            rest
        }
    }
}

/// The number of entries of `mask` that equal `want`.
pub open spec fn count_of(mask: Seq<bool>, want: bool) -> nat {
    filter_by_mask(mask, mask, want).len()
}

/// A block of rows: columns of equal length.
#[derive(Debug)]
pub struct DataBlock {
    columns: Vec<Vec<Scalar>>,
    num_rows: usize,
}

impl DataBlock {
    #[verifier::type_invariant]
    spec fn columns_have_num_rows(self) -> bool {
        forall|i: int| 0 <= i < self.columns@.len() ==> #[trigger] self.columns@[i]@.len() == self.num_rows
    }

    /// The columns of the block, in order.
    pub closed spec fn spec_columns(&self) -> Seq<Seq<Scalar>> {
        self.columns@.map_values(|c: Vec<Scalar>| c@)
    }

    /// The number of rows of the block.
    pub closed spec fn spec_num_rows(&self) -> nat {
        self.num_rows as nat
    }

    /// A block of the given columns, each holding `num_rows` values.
    pub fn new(columns: Vec<Vec<Scalar>>, num_rows: usize) -> (r: DataBlock)
        requires
            forall|i: int| 0 <= i < columns@.len() ==> #[trigger] columns@[i]@.len() == num_rows,
        ensures
            r.spec_columns() == columns@.map_values(|c: Vec<Scalar>| c@),
            r.spec_num_rows() == num_rows,
    {
        DataBlock { columns, num_rows }
    }

    /// A block of no columns and no rows.
    pub fn empty() -> (r: DataBlock)
        ensures
            r.spec_columns().len() == 0,
            r.spec_num_rows() == 0,
    {
        DataBlock { columns: Vec::new(), num_rows: 0 }
    }

    pub fn num_rows(&self) -> (r: usize)
        ensures
            r == self.spec_num_rows(),
    {
        self.num_rows
    }

    pub fn num_columns(&self) -> (r: usize)
        ensures
            r == self.spec_columns().len(),
    {
        self.columns.len()
    }

    /// The column at `offset`.
    pub fn get_by_offset(&self, offset: usize) -> (r: &Vec<Scalar>)
        requires
            offset < self.spec_columns().len(),
        ensures
            r@ == self.spec_columns()[offset as int],
            r@.len() == self.spec_num_rows(),
    {
        proof {
            use_type_invariant(self);
        }
        &self.columns[offset]
    }

    /// The column at `offset`, taken out of the block.
    pub fn take_column(self, offset: usize) -> (r: Vec<Scalar>)
        requires
            offset < self.spec_columns().len(),
        ensures
            r@ == self.spec_columns()[offset as int],
            r@.len() == self.spec_num_rows(),
    {
        proof {
            use_type_invariant(&self);
        }
        let ghost cols = self.spec_columns();
        let mut columns = self.columns;
        assert(columns@[offset as int]@ == cols[offset as int]);
        columns.swap_remove(offset)
    }

    /// Splits the block by a mask of its rows: the rows whose mask entry is
    /// `false`, and those whose entry is `true`.
    pub fn partition_by_bitmap(self, bitmap: &Vec<bool>) -> (r: (DataBlock, DataBlock))
        requires
            bitmap@.len() == self.spec_num_rows(),
        ensures
            r.0.spec_columns() == self.spec_columns().map_values(
                |c: Seq<Scalar>| filter_by_mask(c, bitmap@, false),
            ),
            r.0.spec_num_rows() == count_of(bitmap@, false),
            r.1.spec_columns() == self.spec_columns().map_values(
                |c: Seq<Scalar>| filter_by_mask(c, bitmap@, true),
            ),
            r.1.spec_num_rows() == count_of(bitmap@, true),
    {
        proof {
            use_type_invariant(&self);
        }
        let ghost cols = self.spec_columns();
        let n = self.num_rows;
        let mut unset_cols: Vec<Vec<Scalar>> = Vec::new();
        let mut set_cols: Vec<Vec<Scalar>> = Vec::new();
        let mut unset_rows: usize = 0;
        let mut set_rows: usize = 0;
        let mut i: usize = 0;
        while i < n
            invariant
                0 <= i <= n,
                n == bitmap@.len(),
                unset_rows == count_of(bitmap@.take(i as int), false),
                set_rows == count_of(bitmap@.take(i as int), true),
                unset_rows + set_rows == i,
            decreases n - i,
        {
            proof {
                lemma_count_step(bitmap@, i as int);
            }
            if bitmap[i] {
                set_rows = set_rows + 1;
            } else {
                unset_rows = unset_rows + 1;
            }
            i = i + 1;
        }
        assert(bitmap@.take(n as int) == bitmap@);
        let ghost columns_seq = self.columns@;
        let mut k: usize = 0;
        for column in it: self.columns
            invariant
                columns_seq == it.seq(),
                cols == columns_seq.map_values(|c: Vec<Scalar>| c@),
                forall|j: int| 0 <= j < columns_seq.len() ==> #[trigger] columns_seq[j]@.len() == n,
                n == bitmap@.len(),
                unset_rows == count_of(bitmap@, false),
                set_rows == count_of(bitmap@, true),
                unset_cols@.len() == it.index(),
                set_cols@.len() == it.index(),
                forall|j: int| 0 <= j < it.index() ==> #[trigger] unset_cols@[j]@.len() == unset_rows,
                forall|j: int| 0 <= j < it.index() ==> #[trigger] set_cols@[j]@.len() == set_rows,
                forall|j: int|
                    0 <= j < it.index() ==> #[trigger] unset_cols@[j]@ == filter_by_mask(
                        cols[j],
                        bitmap@,
                        false,
                    ),
                forall|j: int|
                    0 <= j < it.index() ==> #[trigger] set_cols@[j]@ == filter_by_mask(
                        cols[j],
                        bitmap@,
                        true,
                    ),
        {
            let ghost j = it.index();
            let (unset, set) = partition_column(column, bitmap);
            proof {
                lemma_filter_len(cols[j], bitmap@, false);
                lemma_filter_len(cols[j], bitmap@, true);
            }
            unset_cols.push(unset);
            set_cols.push(set);
        }
        let unset_block = DataBlock { columns: unset_cols, num_rows: unset_rows };
        let set_block = DataBlock { columns: set_cols, num_rows: set_rows };
        assert(unset_block.spec_columns() =~= cols.map_values(
            |c: Seq<Scalar>| filter_by_mask(c, bitmap@, false),
        ));
        assert(set_block.spec_columns() =~= cols.map_values(
            |c: Seq<Scalar>| filter_by_mask(c, bitmap@, true),
        ));
        (unset_block, set_block)
    }
}

/// Every row lands in exactly one part of a partition by a mask.
pub proof fn lemma_partition_counts(mask: Seq<bool>)
    ensures
        count_of(mask, false) + count_of(mask, true) == mask.len(),
    decreases mask.len(),
{
    if mask.len() > 0 {
        lemma_partition_counts(mask.drop_last());
        lemma_filter_mask_ext(mask.drop_last(), mask, mask.drop_last(), true);
        lemma_filter_mask_ext(mask.drop_last(), mask, mask.drop_last(), false);
    }
}

proof fn lemma_count_step(mask: Seq<bool>, i: int)
    requires
        0 <= i < mask.len(),
    ensures
        count_of(mask.take(i + 1), true) == count_of(mask.take(i), true) + if mask[i] {
            1int
        } else {
            0int
        },
        count_of(mask.take(i + 1), false) == count_of(mask.take(i), false) + if mask[i] {
            0int
        } else {
            1int
        },
{
    let t = mask.take(i + 1);
    assert(t.drop_last() == mask.take(i));
    lemma_filter_prefix_mask(mask.take(i), t, true);
    lemma_filter_prefix_mask(mask.take(i), t, false);
}

/// Filtering depends only on the mask entries of the elements filtered.
proof fn lemma_filter_prefix_mask(s: Seq<bool>, mask: Seq<bool>, want: bool)
    requires
        s.len() <= mask.len(),
        forall|i: int| 0 <= i < s.len() ==> s[i] == mask[i],
    ensures
        filter_by_mask(s, s, want) == filter_by_mask(s, mask, want),
    decreases s.len(),
{
    if s.len() > 0 {
        lemma_filter_mask_ext(s.drop_last(), s, s.drop_last(), want);
        lemma_filter_prefix_mask(s.drop_last(), mask, want);
        lemma_filter_mask_ext(s.drop_last(), s.drop_last(), mask, want);
    }
}

/// Two masks that agree on the positions of `s` filter `s` alike.
proof fn lemma_filter_mask_ext<A>(s: Seq<A>, m1: Seq<bool>, m2: Seq<bool>, want: bool)
    requires
        s.len() <= m1.len(),
        s.len() <= m2.len(),
        forall|i: int| 0 <= i < s.len() ==> m1[i] == m2[i],
    ensures
        filter_by_mask(s, m1, want) == filter_by_mask(s, m2, want),
    decreases s.len(),
{
    if s.len() > 0 {
        lemma_filter_mask_ext(s.drop_last(), m1, m2, want);
    }
}

/// The lengths of the two parts of a filtered sequence are the counts of the
/// mask's entries.
proof fn lemma_filter_len<A>(s: Seq<A>, mask: Seq<bool>, want: bool)
    requires
        s.len() == mask.len(),
    ensures
        filter_by_mask(s, mask, want).len() == count_of(mask, want),
    decreases s.len(),
{
    if s.len() > 0 {
        lemma_filter_len(s.drop_last(), mask.drop_last(), want);
        lemma_filter_mask_ext(s.drop_last(), mask, mask.drop_last(), want);
        lemma_filter_mask_ext(mask.drop_last(), mask, mask.drop_last(), want);
    }
}

/// Splits a column by a mask of its rows, moving each value into one part.
fn partition_column(column: Vec<Scalar>, bitmap: &Vec<bool>) -> (r: (Vec<Scalar>, Vec<Scalar>))
    requires
        column@.len() == bitmap@.len(),
    ensures
        r.0@ == filter_by_mask(column@, bitmap@, false),
        r.1@ == filter_by_mask(column@, bitmap@, true),
{
    let ghost col = column@;
    let mut unset: Vec<Scalar> = Vec::new();
    let mut set: Vec<Scalar> = Vec::new();
    let n = bitmap.len();
    let mut i: usize = 0;
    for value in it: column
        invariant
            n == bitmap@.len(),
            col == it.seq(),
            col.len() == bitmap@.len(),
            i == it.index(),
            i <= col.len(),
            unset@ == filter_by_mask(col.take(i as int), bitmap@, false),
            set@ == filter_by_mask(col.take(i as int), bitmap@, true),
    {
        proof {
            let t = col.take(i + 1);
            assert(t.drop_last() == col.take(i as int));
            assert(t.last() == col[i as int]);
        }
        if bitmap[i] {
            set.push(value);
        } else {
            unset.push(value);
        }
        i = i + 1;
    }
    assert(col.take(col.len() as int) == col);
    (unset, set)
}

} // verus!
