//! Re-expression of a coordinate-form matrix in the two shapes that engines
//! ask for: grouped by row, and compressed by column. Neither touches the
//! matrix it reads. Entries that repeat a position are kept side by side,
//! in storage order, so that an engine adds them up.

use vstd::prelude::*;
use crate::models::ApiIntegerSparseMatrix;

verus! {

/// The `(column, value)` pairs of row `r` among the first `n` stored
/// entries, in storage order. An entry whose column lies outside
/// `0..ncols` is left out.
pub open spec fn row_entries(m: ApiIntegerSparseMatrix, r: int, n: int) -> Seq<(usize, i32)>
    decreases n,
{
    if n <= 0 {
        Seq::empty()
    } else {
        let rest = row_entries(m, r, n - 1);
        if m.rows@[n - 1] == r && 0 <= m.cols@[n - 1] < m.shape.ncols {
            rest.push((m.cols@[n - 1] as usize, m.vals@[n - 1]))
        } else {
            rest
        }
    }
}

/// All `(column, value)` pairs of row `r`.
pub open spec fn row_of(m: ApiIntegerSparseMatrix, r: int) -> Seq<(usize, i32)> {
    row_entries(m, r, m.rows@.len() as int)
}

/// Every pair that `row_entries` lists has its column within the declared
/// shape.
pub proof fn lemma_row_entries_within_shape(m: ApiIntegerSparseMatrix, r: int, n: int)
    ensures
        forall|k: int|
            0 <= k < row_entries(m, r, n).len() ==> (#[trigger] row_entries(m, r, n)[k]).0
                < m.shape.ncols,
    decreases n,
{
    if n > 0 {
        lemma_row_entries_within_shape(m, r, n - 1);
        let rest = row_entries(m, r, n - 1);
        assert forall|k: int| 0 <= k < row_entries(m, r, n).len() implies (#[trigger] row_entries(
            m,
            r,
            n,
        )[k]).0 < m.shape.ncols by {
            if k < rest.len() {
                assert(row_entries(m, r, n)[k] == rest[k]);
            }
        }
    }
}

/// The value of the linear form `sum of value * x[column]` at the point
/// `x`.
pub open spec fn dot(terms: Seq<(usize, i32)>, x: Seq<int>) -> int
    decreases terms.len(),
{
    if terms.len() == 0 {
        0
    } else {
        dot(terms.drop_last(), x) + terms.last().1 * x[terms.last().0 as int]
    }
}

/// What row `r` of `A x` is worth at the point `x`, counting the first
/// `n` stored entries: the sum of `value * x[column]` over the entries of
/// the row whose column lies within the declared shape. Entries that
/// repeat a position add up.
pub open spec fn row_value(m: ApiIntegerSparseMatrix, r: int, x: Seq<int>, n: int) -> int
    decreases n,
{
    if n <= 0 {
        0
    } else {
        row_value(m, r, x, n - 1) + (if m.rows@[n - 1] == r && 0 <= m.cols@[n - 1]
            < m.shape.ncols {
            m.vals@[n - 1] * x[m.cols@[n - 1] as int]
        } else {
            0
        })
    }
}

/// Grouping by row keeps the matrix: the pairs listed for a row are worth,
/// as a linear form, what the row is worth.
pub proof fn lemma_grouping_keeps_rows(m: ApiIntegerSparseMatrix, r: int, x: Seq<int>, n: int)
    ensures
        dot(row_entries(m, r, n), x) == row_value(m, r, x, n),
    decreases n,
{
    if n > 0 {
        lemma_grouping_keeps_rows(m, r, x, n - 1);
        let rest = row_entries(m, r, n - 1);
        if m.rows@[n - 1] == r && 0 <= m.cols@[n - 1] < m.shape.ncols {
            let pair = (m.cols@[n - 1] as usize, m.vals@[n - 1]);
            assert(rest.push(pair).drop_last() =~= rest);
            assert(rest.push(pair).last() == pair);
        }
    }
}

/// The share of row `r` in a column: the sum of `value * xc` over the
/// pairs of the column that lie in row `r`, where `xc` is the value of
/// the column's variable.
pub open spec fn column_share(pairs: Seq<(i32, i32)>, r: int, xc: int) -> int
    decreases pairs.len(),
{
    if pairs.len() == 0 {
        0
    } else {
        column_share(pairs.drop_last(), r, xc) + (if pairs.last().0 == r {
            pairs.last().1 * xc
        } else {
            0
        })
    }
}

/// What row `r` is worth at `x` when read off the columns `0..c_end`,
/// counting the first `n` stored entries.
pub open spec fn columns_value(
    m: ApiIntegerSparseMatrix,
    r: int,
    x: Seq<int>,
    c_end: int,
    n: int,
) -> int
    decreases c_end,
{
    if c_end <= 0 {
        0
    } else {
        columns_value(m, r, x, c_end - 1, n) + column_share(
            column_entries(m, c_end - 1, n),
            r,
            x[c_end - 1],
        )
    }
}

/// One more stored entry adds its product to the value read off the
/// columns, if its column is among them and its row is `r`, and nothing
/// otherwise.
proof fn lemma_columns_value_step(
    m: ApiIntegerSparseMatrix,
    r: int,
    x: Seq<int>,
    c_end: int,
    n: int,
)
    requires
        n > 0,
    ensures
        columns_value(m, r, x, c_end, n) == columns_value(m, r, x, c_end, n - 1) + (if m.rows@[n
            - 1] == r && 0 <= m.cols@[n - 1] < c_end {
            m.vals@[n - 1] * x[m.cols@[n - 1] as int]
        } else {
            0
        }),
    decreases c_end,
{
    if c_end > 0 {
        lemma_columns_value_step(m, r, x, c_end - 1, n);
        let c = c_end - 1;
        let before = column_entries(m, c, n - 1);
        if m.cols@[n - 1] == c {
            let pair = (m.rows@[n - 1], m.vals@[n - 1]);
            assert(before.push(pair).drop_last() =~= before);
            assert(before.push(pair).last() == pair);
        }
    }
}

/// Compressing by column keeps the matrix: every row is worth the same
/// whether it is read off the stored entries or off the columns.
pub proof fn lemma_compression_keeps_rows(m: ApiIntegerSparseMatrix, r: int, x: Seq<int>, n: int)
    ensures
        columns_value(m, r, x, m.shape.ncols as int, n) == row_value(m, r, x, n),
    decreases n,
{
    if n > 0 {
        lemma_compression_keeps_rows(m, r, x, n - 1);
        lemma_columns_value_step(m, r, x, m.shape.ncols as int, n);
    } else {
        lemma_columns_value_empty(m, r, x, m.shape.ncols as int, n);
    }
}

/// Without stored entries the columns are worth nothing.
proof fn lemma_columns_value_empty(
    m: ApiIntegerSparseMatrix,
    r: int,
    x: Seq<int>,
    c_end: int,
    n: int,
)
    requires
        n <= 0,
    ensures
        columns_value(m, r, x, c_end, n) == 0,
    decreases c_end,
{
    if c_end > 0 {
        lemma_columns_value_empty(m, r, x, c_end - 1, n);
    }
}

/// The `(row, value)` pairs of column `c` among the first `n` stored
/// entries, in storage order.
pub open spec fn column_entries(m: ApiIntegerSparseMatrix, c: int, n: int) -> Seq<(i32, i32)>
    decreases n,
{
    if n <= 0 {
        Seq::empty()
    } else {
        let rest = column_entries(m, c, n - 1);
        if m.cols@[n - 1] == c {
            rest.push((m.rows@[n - 1], m.vals@[n - 1]))
        } else {
            rest
        }
    }
}

/// All `(row, value)` pairs of column `c`.
pub open spec fn column_of(m: ApiIntegerSparseMatrix, c: int) -> Seq<(i32, i32)> {
    column_entries(m, c, m.rows@.len() as int)
}

/// The pairs of columns `0..c_end`, one column after the other.
pub open spec fn columns_before(m: ApiIntegerSparseMatrix, c_end: int) -> Seq<(i32, i32)>
    decreases c_end,
{
    if c_end <= 0 {
        Seq::empty()
    } else {
        columns_before(m, c_end - 1) + column_of(m, c_end - 1)
    }
}

/// A matrix compressed by column: the pairs of column `c` stand at the
/// positions `col_start[c]..col_start[c + 1]` of `col_index` (their rows)
/// and `col_value` (their values).
#[derive(Clone, Debug, PartialEq, Eq)]
pub struct ColumnCompressed {
    pub col_start: Vec<usize>,
    pub col_index: Vec<i32>,
    pub col_value: Vec<i32>,
}

impl ColumnCompressed {
    /// `self` holds exactly the entries of the first `n_cols` columns of
    /// `m`, column by column, each column in storage order.
    pub open spec fn represents(&self, m: ApiIntegerSparseMatrix, n_cols: int) -> bool {
        &&& self.col_start@.len() == n_cols + 1
        &&& forall|c: int|
            0 <= c <= n_cols ==> (#[trigger] self.col_start@[c]) == columns_before(m, c).len()
        &&& self.col_index@.len() == columns_before(m, n_cols).len()
        &&& self.col_value@.len() == columns_before(m, n_cols).len()
        &&& forall|k: int|
            0 <= k < columns_before(m, n_cols).len() ==> (
            #[trigger] self.col_index@[k],
            self.col_value@[k],
        ) == columns_before(m, n_cols)[k]
    }
}

/// Two compressions of the same columns of one matrix hold the same
/// arrays.
pub proof fn lemma_compression_determined(
    first: ColumnCompressed,
    second: ColumnCompressed,
    m: ApiIntegerSparseMatrix,
    n_cols: int,
)
    requires
        first.represents(m, n_cols),
        second.represents(m, n_cols),
    ensures
        first.col_start@ == second.col_start@,
        first.col_index@ == second.col_index@,
        first.col_value@ == second.col_value@,
{
    assert(first.col_start@ =~= second.col_start@);
    assert forall|k: int| 0 <= k < first.col_index@.len() implies first.col_index@[k]
        == second.col_index@[k] && first.col_value@[k] == second.col_value@[k] by {
        assert((first.col_index@[k], first.col_value@[k]) == columns_before(m, n_cols)[k]);
        assert((second.col_index@[k], second.col_value@[k]) == columns_before(m, n_cols)[k]);
    }
    assert(first.col_index@ =~= second.col_index@);
    assert(first.col_value@ =~= second.col_value@);
}

/// Groups the entries of `m` by row: element `r` of the result holds the
/// `(column, value)` pairs of row `r`, for each row of the declared shape.
/// Entries outside the shape are dropped.
pub fn group_by_row(m: &ApiIntegerSparseMatrix) -> (groups: Vec<Vec<(usize, i32)>>)
    requires
        m.readable(),
    ensures
        groups@.len() == m.shape.nrows,
        forall|r: int| 0 <= r < groups@.len() ==> (#[trigger] groups@[r])@ == row_of(*m, r),
{
    let n_rows = m.shape.nrows;
    let n_cols = m.shape.ncols;
    let mut groups: Vec<Vec<(usize, i32)>> = Vec::new();
    let mut r: usize = 0;
    while r < n_rows
        invariant
            r <= n_rows,
            groups@.len() == r,
            forall|q: int| 0 <= q < r ==> (#[trigger] groups@[q])@ == row_entries(*m, q, 0),
        decreases n_rows - r,
    {
        groups.push(Vec::new());
        r = r + 1;
    }
    let mut i: usize = 0;
    while i < m.rows.len()
        invariant
            m.readable(),
            n_rows == m.shape.nrows,
            n_cols == m.shape.ncols,
            i <= m.rows@.len(),
            groups@.len() == n_rows,
            forall|q: int|
                0 <= q < groups@.len() ==> (#[trigger] groups@[q])@ == row_entries(
                    *m,
                    q,
                    i as int,
                ),
        decreases m.rows@.len() - i,
    {
        let row = m.rows[i];
        let col = m.cols[i];
        let val = m.vals[i];
        if row >= 0 && col >= 0 && (row as usize) < n_rows && (col as usize) < n_cols {
            let ghost before = groups@;
            groups[row as usize].push((col as usize, val));
            proof {
                assert forall|q: int| 0 <= q < groups@.len() implies (#[trigger] groups@[q])@
                    == row_entries(*m, q, i + 1) by {
                    if q != row as int {
                        assert(groups@[q] == before[q]);
                    }
                }
            }
        }
        i = i + 1;
    }
    groups
}

/// Among the first `n` entries a column holds at most `n`, and what it
/// holds among the first `i` entries is the beginning of what it holds
/// among the first `n`, for `i <= n`.
pub proof fn lemma_column_entries_grow(m: ApiIntegerSparseMatrix, c: int, i: int, n: int)
    requires
        0 <= i <= n,
    ensures
        column_entries(m, c, i).len() <= i,
        column_entries(m, c, i).len() <= column_entries(m, c, n).len(),
        forall|j: int|
            0 <= j < column_entries(m, c, i).len() ==> column_entries(m, c, n)[j]
                == #[trigger] column_entries(m, c, i)[j],
    decreases n,
{
    if i < n {
        lemma_column_entries_grow(m, c, i, n - 1);
    } else if i > 0 {
        lemma_column_entries_grow(m, c, i - 1, i - 1);
    }
}

/// The number of pairs that the columns `0..c_end` hold among the first
/// `n` entries.
pub open spec fn held_before(m: ApiIntegerSparseMatrix, c_end: int, n: int) -> int
    decreases c_end,
{
    if c_end <= 0 {
        0
    } else {
        held_before(m, c_end - 1, n) + column_entries(m, c_end - 1, n).len()
    }
}

/// The columns together hold no more pairs than there are entries: every
/// entry is in one column at most.
pub proof fn lemma_held_at_most(m: ApiIntegerSparseMatrix, c_end: int, n: int)
    requires
        0 <= n,
    ensures
        0 <= held_before(m, c_end, n) <= n,
        held_before(m, c_end, n) <= held_before(m, c_end, n + 1) <= held_before(m, c_end, n) + 1,
        held_before(m, c_end, n + 1) == held_before(m, c_end, n) + (if 0 <= m.cols@[n] < c_end {
            1int
        } else {
            0int
        }),
    decreases n, c_end,
{
    if c_end > 0 {
        lemma_held_at_most(m, c_end - 1, n);
    }
    if n > 0 {
        lemma_held_at_most(m, c_end, n - 1);
    }
}

/// Position `k` of the columns laid end to end belongs to column `c`.
pub open spec fn position_in_column(m: ApiIntegerSparseMatrix, c: int, k: int) -> bool {
    columns_before(m, c).len() <= k < columns_before(m, c).len() + column_of(m, c).len()
}

/// Position `k` belongs to one of the columns `0..c_end`.
pub open spec fn position_covered(m: ApiIntegerSparseMatrix, c_end: int, k: int) -> bool {
    exists|c: int| 0 <= c < c_end && #[trigger] position_in_column(m, c, k)
}

/// The pairs of the columns before `c_end`, laid end to end, are as many
/// as those columns hold, and the pairs of column `c` stand in it from
/// the position where the columns before `c` end.
pub proof fn lemma_columns_before_layout(m: ApiIntegerSparseMatrix, c_end: int)
    requires
        0 <= c_end,
    ensures
        columns_before(m, c_end).len() == held_before(m, c_end, m.rows@.len() as int),
        forall|c: int|
            0 <= c <= c_end ==> (#[trigger] columns_before(m, c)).len() <= columns_before(
                m,
                c_end,
            ).len(),
        forall|c: int|
            0 <= c < c_end ==> (#[trigger] columns_before(m, c)).len() + column_of(m, c).len()
                <= columns_before(m, c_end).len(),
        forall|c: int, j: int|
            0 <= c < c_end && 0 <= j < column_of(m, c).len() ==> columns_before(m, c_end)[(
            #[trigger] columns_before(m, c)).len() + j] == #[trigger] column_of(m, c)[j],
        forall|k: int|
            0 <= k < columns_before(m, c_end).len() ==> #[trigger] position_covered(m, c_end, k),
    decreases c_end,
{
    if c_end > 0 {
        lemma_columns_before_layout(m, c_end - 1);
        let before = columns_before(m, c_end - 1);
        let all = columns_before(m, c_end);
        assert(all == before + column_of(m, c_end - 1));
        assert forall|c: int, j: int|
            0 <= c < c_end && 0 <= j < column_of(m, c).len() implies all[(
        #[trigger] columns_before(m, c)).len() + j] == #[trigger] column_of(m, c)[j] by {
            if c < c_end - 1 {
                assert(columns_before(m, c).len() + column_of(m, c).len() <= before.len());
                assert(before[columns_before(m, c).len() + j] == column_of(m, c)[j]);
            } else {
                assert(all[before.len() + j] == column_of(m, c_end - 1)[j]);
            }
        }
        assert forall|k: int| 0 <= k < all.len() implies #[trigger] position_covered(
            m,
            c_end,
            k,
        ) by {
            if k < before.len() {
                assert(position_covered(m, c_end - 1, k));
                let c = choose|c: int| 0 <= c < c_end - 1 && #[trigger] position_in_column(m, c, k);
                assert(0 <= c < c_end && position_in_column(m, c, k));
            } else {
                assert(position_in_column(m, c_end - 1, k));
            }
        }
    }
}

impl ColumnCompressed {
    /// The `(row, value)` pairs that the arrays hold, in order.
    pub open spec fn pairs(&self) -> Seq<(i32, i32)> {
        Seq::new(self.col_index@.len(), |k: int| (self.col_index@[k], self.col_value@[k]))
    }
}

/// In a compression of `m`, the stretch of the arrays that `col_start`
/// marks for a column holds exactly the pairs of that column.
pub proof fn lemma_column_stretch(
    csc: ColumnCompressed,
    m: ApiIntegerSparseMatrix,
    n_cols: int,
    c: int,
)
    requires
        csc.represents(m, n_cols),
        0 <= c < n_cols,
    ensures
        0 <= csc.col_start@[c] <= csc.col_start@[c + 1] <= csc.col_index@.len(),
        csc.pairs().subrange(csc.col_start@[c] as int, csc.col_start@[c + 1] as int) == column_of(
            m,
            c,
        ),
{
    lemma_columns_before_layout(m, n_cols);
    assert(columns_before(m, c + 1) == columns_before(m, c) + column_of(m, c));
    assert(csc.col_start@[c] == columns_before(m, c).len());
    assert(csc.col_start@[c + 1] == columns_before(m, c + 1).len());
    let stretch = csc.pairs().subrange(csc.col_start@[c] as int, csc.col_start@[c + 1] as int);
    assert forall|j: int| 0 <= j < stretch.len() implies stretch[j] == column_of(m, c)[j] by {
        let k = csc.col_start@[c] + j;
        assert((csc.col_index@[k], csc.col_value@[k]) == columns_before(m, n_cols)[k]);
        assert(columns_before(m, n_cols)[columns_before(m, c).len() + j] == column_of(m, c)[j]);
    }
    assert(stretch =~= column_of(m, c));
}

/// A vector of `n` zeros.
fn zeros(n: usize) -> (v: Vec<usize>)
    ensures
        v@.len() == n,
        forall|k: int| 0 <= k < n ==> v@[k] == 0,
{
    let mut v: Vec<usize> = Vec::new();
    let mut k: usize = 0;
    while k < n
        invariant
            k <= n,
            v@.len() == k,
            forall|i: int| 0 <= i < k ==> v@[i] == 0,
        decreases n - k,
    {
        v.push(0);
        k = k + 1;
    }
    v
}

/// Counts, for each of the first `n_cols` columns, the entries of `m` in
/// it.
fn count_columns(m: &ApiIntegerSparseMatrix, n_cols: usize) -> (counts: Vec<usize>)
    requires
        m.readable(),
    ensures
        counts@.len() == n_cols,
        forall|c: int| 0 <= c < n_cols ==> (#[trigger] counts@[c]) == column_of(*m, c).len(),
{
    let mut counts = zeros(n_cols);
    let mut i: usize = 0;
    while i < m.rows.len()
        invariant
            m.readable(),
            i <= m.rows@.len(),
            counts@.len() == n_cols,
            forall|c: int|
                0 <= c < n_cols ==> (#[trigger] counts@[c]) == column_entries(
                    *m,
                    c,
                    i as int,
                ).len(),
        decreases m.rows@.len() - i,
    {
        let col = m.cols[i];
        if col >= 0 && (col as usize) < n_cols {
            proof {
                lemma_column_entries_grow(*m, col as int, i as int, i as int);
            }
            let count = counts[col as usize];
            counts.set(col as usize, count + 1);
        }
        i = i + 1;
    }
    counts
}

/// Where each column begins when the columns are laid end to end, and,
/// last, where the last one ends.
fn column_starts(m: &ApiIntegerSparseMatrix, counts: &Vec<usize>) -> (col_start: Vec<usize>)
    requires
        m.readable(),
        forall|c: int|
            0 <= c < counts@.len() ==> (#[trigger] counts@[c]) == column_of(*m, c).len(),
    ensures
        col_start@.len() == counts@.len() + 1,
        forall|c: int|
            0 <= c <= counts@.len() ==> (#[trigger] col_start@[c]) == columns_before(*m, c).len(),
{
    let n_cols = counts.len();
    let nnz = m.rows.len();
    let mut col_start: Vec<usize> = Vec::new();
    let mut total: usize = 0;
    let mut c: usize = 0;
    while c < n_cols
        invariant
            m.readable(),
            nnz == m.rows@.len(),
            n_cols == counts@.len(),
            forall|d: int|
                0 <= d < counts@.len() ==> (#[trigger] counts@[d]) == column_of(*m, d).len(),
            c <= n_cols,
            col_start@.len() == c,
            total == columns_before(*m, c as int).len(),
            forall|d: int| 0 <= d < c ==> (#[trigger] col_start@[d]) == columns_before(*m, d).len(),
        decreases n_cols - c,
    {
        proof {
            lemma_columns_before_layout(*m, c + 1);
            lemma_held_at_most(*m, c + 1, m.rows@.len() as int);
            assert(columns_before(*m, c + 1) == columns_before(*m, c as int) + column_of(
                *m,
                c as int,
            ));
            assert(counts@[c as int] == column_of(*m, c as int).len());
            assert(total + counts@[c as int] <= nnz);
        }
        col_start.push(total);
        total = total + counts[c];
        c = c + 1;
    }
    col_start.push(total);
    col_start
}

/// Compresses the first `n_cols` columns of `m` by column, in one pass
/// over the entries once the columns have been counted. Entries whose
/// column lies outside `0..n_cols` are dropped; row indices are passed on
/// as they are.
pub fn compress_columns(m: &ApiIntegerSparseMatrix, n_cols: usize) -> (csc: ColumnCompressed)
    requires
        m.readable(),
    ensures
        csc.represents(*m, n_cols as int),
{
    let counts = count_columns(m, n_cols);
    let col_start = column_starts(m, &counts);
    let total = col_start[n_cols];
    let ghost all = columns_before(*m, n_cols as int);
    proof {
        lemma_columns_before_layout(*m, n_cols as int);
    }

    let mut col_index: Vec<i32> = Vec::new();
    let mut col_value: Vec<i32> = Vec::new();
    let mut next: Vec<usize> = Vec::new();
    let mut k: usize = 0;
    while k < total
        invariant
            k <= total,
            col_index@.len() == k,
            col_value@.len() == k,
        decreases total - k,
    {
        col_index.push(0);
        col_value.push(0);
        k = k + 1;
    }
    let mut c: usize = 0;
    while c < n_cols
        invariant
            c <= n_cols,
            col_start@.len() == n_cols + 1,
            next@.len() == c,
            forall|d: int| 0 <= d < c ==> (#[trigger] next@[d]) == col_start@[d],
        decreases n_cols - c,
    {
        next.push(col_start[c]);
        c = c + 1;
    }

    let mut i: usize = 0;
    while i < m.rows.len()
        invariant
            m.readable(),
            i <= m.rows@.len(),
            all == columns_before(*m, n_cols as int),
            total == all.len(),
            col_start@.len() == n_cols + 1,
            forall|d: int|
                0 <= d <= n_cols ==> (#[trigger] col_start@[d]) == columns_before(*m, d).len(),
            forall|d: int|
                0 <= d < n_cols ==> (#[trigger] columns_before(*m, d)).len() + column_of(
                    *m,
                    d,
                ).len() <= all.len(),
            forall|d: int, j: int|
                0 <= d < n_cols && 0 <= j < column_of(*m, d).len() ==> all[(
                #[trigger] columns_before(*m, d)).len() + j] == #[trigger] column_of(*m, d)[j],
            col_index@.len() == total,
            col_value@.len() == total,
            next@.len() == n_cols,
            forall|d: int|
                0 <= d < n_cols ==> (#[trigger] next@[d]) == col_start@[d] + column_entries(
                    *m,
                    d,
                    i as int,
                ).len(),
            forall|d: int, j: int|
                0 <= d < n_cols && 0 <= j < column_entries(*m, d, i as int).len() ==> (
                    col_index@[col_start@[d] + j],
                    col_value@[col_start@[d] + j],
                ) == #[trigger] column_entries(*m, d, i as int)[j],
        decreases m.rows@.len() - i,
    {
        let col = m.cols[i];
        if col >= 0 && (col as usize) < n_cols {
            let column = col as usize;
            let position = next[column];
            proof {
                let n = m.rows@.len() as int;
                lemma_column_entries_grow(*m, column as int, i + 1, n);
                let j = column_entries(*m, column as int, i as int).len() as int;
                assert(j < column_of(*m, column as int).len());
                assert(columns_before(*m, column + 1) == columns_before(*m, column as int)
                    + column_of(*m, column as int));
                assert(col_start@[column + 1] == columns_before(*m, column + 1).len());
                assert(position < total);
            }
            let ghost index_before = col_index@;
            let ghost value_before = col_value@;
            col_index.set(position, m.rows[i]);
            col_value.set(position, m.vals[i]);
            next.set(column, position + 1);
            proof {
                let n = m.rows@.len() as int;
                assert forall|d: int, j: int|
                    0 <= d < n_cols && 0 <= j < column_entries(*m, d, i + 1).len() implies (
                    col_index@[col_start@[d] + j],
                    col_value@[col_start@[d] + j],
                ) == #[trigger] column_entries(*m, d, i + 1)[j] by {
                    lemma_column_entries_grow(*m, d, i + 1, n);
                    assert(col_start@[d] == columns_before(*m, d).len());
                    assert(col_start@[d + 1] == columns_before(*m, d + 1).len());
                    assert(columns_before(*m, d + 1) == columns_before(*m, d) + column_of(*m, d));
                    assert(col_start@[column as int] == columns_before(*m, column as int).len());
                    assert(col_start@[column + 1] == columns_before(*m, column + 1).len());
                    assert(columns_before(*m, column + 1) == columns_before(*m, column as int)
                        + column_of(*m, column as int));
                    if d == column {
                        if j < column_entries(*m, d, i as int).len() {
                            assert(column_entries(*m, d, i + 1)[j] == column_entries(
                                *m,
                                d,
                                i as int,
                            )[j]);
                        }
                    } else {
                        assert(column_entries(*m, d, i + 1) == column_entries(*m, d, i as int));
                        lemma_starts_in_order(*m, d, column as int);
                        assert(col_start@[d] + j != position);
                        assert(column_entries(*m, d, i as int)[j] == (
                            index_before[col_start@[d] + j],
                            value_before[col_start@[d] + j],
                        ));
                    }
                }
            }
        } else {
            proof {
                assert forall|d: int, j: int|
                    0 <= d < n_cols && 0 <= j < column_entries(*m, d, i + 1).len() implies (
                    col_index@[col_start@[d] + j],
                    col_value@[col_start@[d] + j],
                ) == #[trigger] column_entries(*m, d, i + 1)[j] by {
                    assert(column_entries(*m, d, i + 1) == column_entries(*m, d, i as int));
                    assert(column_entries(*m, d, i as int)[j] == (
                        col_index@[col_start@[d] + j],
                        col_value@[col_start@[d] + j],
                    ));
                }
            }
        }
        i = i + 1;
    }

    proof {
        assert forall|k: int| 0 <= k < all.len() implies (#[trigger] col_index@[k], col_value@[k])
            == all[k] by {
            assert(position_covered(*m, n_cols as int, k));
            let d = choose|d: int| 0 <= d < n_cols && #[trigger] position_in_column(*m, d, k);
            let j = k - columns_before(*m, d).len();
            assert(col_start@[d] == columns_before(*m, d).len());
            assert(column_entries(*m, d, m.rows@.len() as int)[j] == (
                col_index@[col_start@[d] + j],
                col_value@[col_start@[d] + j],
            ));
            assert(all[columns_before(*m, d).len() + j] == column_of(*m, d)[j]);
        }
    }
    ColumnCompressed { col_start, col_index, col_value }
}

/// Of two different columns the earlier one ends before the later one
/// begins.
proof fn lemma_starts_in_order(m: ApiIntegerSparseMatrix, d: int, c: int)
    requires
        0 <= d,
        0 <= c,
        d != c,
    ensures
        d < c ==> columns_before(m, d).len() + column_of(m, d).len() <= columns_before(m, c).len(),
        c < d ==> columns_before(m, c).len() + column_of(m, c).len() <= columns_before(m, d).len(),
{
    if d < c {
        lemma_columns_before_layout(m, c);
        assert(columns_before(m, d + 1) == columns_before(m, d) + column_of(m, d));
        assert(columns_before(m, d + 1).len() <= columns_before(m, c).len());
    } else {
        lemma_columns_before_layout(m, d);
        assert(columns_before(m, c + 1) == columns_before(m, c) + column_of(m, c));
        assert(columns_before(m, c + 1).len() <= columns_before(m, d).len());
    }
}

} // verus!
