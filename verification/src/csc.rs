use vstd::prelude::*;

use crate::scalar::is_zero_bits;
use crate::scalar::zero_bits;

verus! {

use vstd::arithmetic::div_mod::lemma_fundamental_div_mod_converse;

/// A matrix in Compressed Sparse Column format.
///
/// Numeric entries are binary64 values carried as their bit patterns (see
/// the `scalar` module).  Validity is deliberately not a type invariant:
/// values of this type frequently originate from unchecked caller data, and
/// the `is_valid` check is the single place that establishes the invariants
/// dynamically.
#[derive(Debug)]
pub struct CscMatrix {
    /// The number of rows in the matrix.
    pub nrows: usize,
    /// The number of columns in the matrix.
    pub ncols: usize,
    /// The CSC column pointer array.
    ///
    /// It contains the offsets into the index and data arrays of the entries
    /// in each column.
    pub indptr: Vec<usize>,
    /// The CSC index array.
    ///
    /// It contains the row index of each stored entry.
    pub indices: Vec<usize>,
    /// The CSC data array.
    ///
    /// It contains the values of each stored entry, as binary64 bit patterns.
    pub data: Vec<u64>,
}

/// The mathematical abstraction of a `CscMatrix`: the same five components
/// as unbounded sequences.
#[verifier::ext_equal]
pub ghost struct CscModel {
    pub nrows: usize,
    pub ncols: usize,
    pub indptr: Seq<usize>,
    pub indices: Seq<usize>,
    pub data: Seq<u64>,
}

impl View for CscMatrix {
    type V = CscModel;

    open spec fn view(&self) -> CscModel {
        CscModel {
            nrows: self.nrows,
            ncols: self.ncols,
            indptr: self.indptr@,
            indices: self.indices@,
            data: self.data@,
        }
    }
}

impl CscModel {
    /// Offset of the first entry of column `c`.
    pub open spec fn col_start(self, c: int) -> usize {
        self.indptr[c]
    }

    /// Offset one past the last entry of column `c`.
    pub open spec fn col_end(self, c: int) -> usize {
        self.indptr[c + 1]
    }

    /// All CSC invariants: dimensions and offsets fit the foreign index
    /// width, the column pointer array has one entry per column plus one,
    /// starts at zero, ends at the entry count and is monotone, every row
    /// index is in range, and the row indices of each column are strictly
    /// increasing.
    pub open spec fn valid(self) -> bool {
        &&& self.nrows <= isize::MAX as usize
        &&& self.ncols <= isize::MAX as usize
        &&& self.indptr.len() <= isize::MAX as usize
        &&& self.indices.len() <= isize::MAX as usize
        &&& self.data.len() <= isize::MAX as usize
        &&& self.indptr.len() == self.ncols + 1
        &&& self.indptr[0] == 0
        &&& self.indptr[self.ncols as int] == self.data.len()
        &&& forall|i: int, j: int|
            #![trigger self.indptr[i], self.indptr[j]]
            0 <= i <= j <= self.ncols ==> self.indptr[i] <= self.indptr[j]
        &&& self.indices.len() == self.data.len()
        &&& forall|k: int| 0 <= k < self.indices.len() ==> #[trigger] self.indices[k] < self.nrows
        &&& forall|c: int, k1: int, k2: int|
            #![trigger self.col_start(c), self.indices[k1], self.indices[k2]]
            0 <= c < self.ncols && self.col_start(c) <= k1 < k2 < self.col_end(c)
                ==> self.indices[k1] < self.indices[k2]
    }

    /// Every stored entry lies on or above the diagonal.
    pub open spec fn upper_tri(self) -> bool {
        forall|c: int, k: int|
            #![trigger self.col_start(c), self.indices[k]]
            0 <= c < self.ncols && self.col_start(c) <= k < self.col_end(c)
                ==> self.indices[k] <= c
    }
}

impl CscMatrix {
    /// Re-checks all CSC invariants against the current, possibly
    /// caller-supplied, component arrays.  Returns a boolean instead of
    /// aborting so that a failure can be turned into a typed setup error.
    #[verifier::loop_isolation(false)]
    pub fn is_valid(&self) -> (r: bool)
        ensures
            r == self@.valid(),
    {
        let max_idx = isize::MAX as usize;
        if self.nrows > max_idx || self.ncols > max_idx {
            return false;
        }
        if self.indptr.len() > max_idx || self.indices.len() > max_idx
            || self.data.len() > max_idx {
            return false;
        }
        if self.indptr.len() != self.ncols + 1 {
            return false;
        }
        if self.indptr[0] != 0 {
            return false;
        }
        if self.indptr[self.ncols] != self.data.len() {
            return false;
        }
        // Column pointers must be monotonically non-decreasing.
        let mut c: usize = 0;
        while c < self.ncols
            invariant
                c <= self.ncols,
                forall|i: int, j: int|
                    #![trigger self.indptr@[i], self.indptr@[j]]
                    0 <= i <= j <= c ==> self.indptr@[i] <= self.indptr@[j],
            decreases self.ncols - c,
        {
            if self.indptr[c] > self.indptr[c + 1] {
                assert(!self@.valid());
                return false;
            }
            c += 1;
        }
        if self.indices.len() != self.data.len() {
            return false;
        }
        // Every row index must be in range.
        let mut k: usize = 0;
        while k < self.indices.len()
            invariant
                k <= self.indices@.len(),
                forall|i: int| 0 <= i < k ==> #[trigger] self.indices@[i] < self.nrows,
            decreases self.indices.len() - k,
        {
            if self.indices[k] >= self.nrows {
                return false;
            }
            k += 1;
        }
        // Row indices within each column must be strictly increasing.
        let mut c: usize = 0;
        while c < self.ncols
            invariant
                c <= self.ncols,
                forall|i: int, k1: int, k2: int|
                    #![trigger self@.col_start(i), self.indices@[k1], self.indices@[k2]]
                    0 <= i < c && self@.col_start(i) <= k1 < k2 < self@.col_end(i)
                        ==> self.indices@[k1] < self.indices@[k2],
            decreases self.ncols - c,
        {
            let start = self.indptr[c];
            let end = self.indptr[c + 1];
            assert(end <= self.indices@.len());
            if start < end {
                let mut j: usize = start + 1;
                while j < end
                    invariant
                        start < j <= end,
                        forall|k1: int, k2: int|
                            #![trigger self.indices@[k1], self.indices@[k2]]
                            start <= k1 < k2 < j ==> self.indices@[k1] < self.indices@[k2],
                    decreases end - j,
                {
                    if self.indices[j - 1] >= self.indices[j] {
                        assert(self@.col_start(c as int) <= j - 1 < j < self@.col_end(c as int));
                        assert(!self@.valid());
                        return false;
                    }
                    j += 1;
                }
            }
            c += 1;
        }
        true
    }

    /// Returns `true` if the matrix is structurally upper triangular.
    ///
    /// A matrix is structurally upper triangular if, for each column, all
    /// elements below the diagonal, i.e. with their row number greater than
    /// their column number, are empty.
    ///
    /// Note that an element with an explicit value of zero is not empty.  To
    /// be empty an element must not be present in the sparse encoding of the
    /// matrix.
    #[verifier::loop_isolation(false)]
    pub fn is_structurally_upper_tri(&self) -> (r: bool)
        requires
            self@.valid(),
        ensures
            r == self@.upper_tri(),
    {
        let mut c: usize = 0;
        while c < self.ncols
            invariant
                c <= self.ncols,
                forall|i: int, k: int|
                    #![trigger self@.col_start(i), self.indices@[k]]
                    0 <= i < c && self@.col_start(i) <= k < self@.col_end(i)
                        ==> self.indices@[k] <= i,
            decreases self.ncols - c,
        {
            let start = self.indptr[c];
            let end = self.indptr[c + 1];
            assert(end <= self.indices@.len());
            let mut k: usize = start;
            while k < end
                invariant
                    start <= k <= end,
                    forall|k2: int|
                        start <= k2 < k ==> #[trigger] self.indices@[k2] <= c,
                decreases end - k,
            {
                if self.indices[k] > c {
                    assert(self@.col_start(c as int) <= k < self@.col_end(c as int));
                    assert(!self@.upper_tri());
                    return false;
                }
                k += 1;
            }
            c += 1;
        }
        true
    }
}

/// The entries of column `c` among its first `j` positions that lie on or
/// above the diagonal, in order, as (row, value) pairs.
pub open spec fn col_kept(m: CscModel, c: int, j: int) -> Seq<(usize, u64)>
    decreases j,
{
    if j <= 0 {
        Seq::empty()
    } else {
        let k = m.col_start(c) + (j - 1);
        let prev = col_kept(m, c, j - 1);
        if m.indices[k] <= c {
            prev.push((m.indices[k], m.data[k]))
        } else {
            prev
        }
    }
}

/// The on-or-above-diagonal entries of the first `c` columns, in order.
pub open spec fn cols_kept(m: CscModel, c: int) -> Seq<(usize, u64)>
    decreases c,
{
    if c <= 0 {
        Seq::empty()
    } else {
        cols_kept(m, c - 1) + col_kept(m, c - 1, m.col_end(c - 1) - m.col_start(c - 1))
    }
}

/// The upper triangle of `m`: only the entries with row index at most the
/// column index are retained, column pointers are compacted accordingly.
pub open spec fn ut_model(m: CscModel) -> CscModel {
    CscModel {
        nrows: m.nrows,
        ncols: m.ncols,
        indptr: Seq::new((m.ncols + 1) as nat, |c: int| cols_kept(m, c).len() as usize),
        indices: cols_kept(m, m.ncols as int).map_values(|e: (usize, u64)| e.0),
        data: cols_kept(m, m.ncols as int).map_values(|e: (usize, u64)| e.1),
    }
}

/// At most `j` entries of a column's first `j` positions are kept.
pub proof fn lemma_col_kept_len(m: CscModel, c: int, j: int)
    requires
        j >= 0,
    ensures
        col_kept(m, c, j).len() <= j,
    decreases j,
{
    if j > 0 {
        lemma_col_kept_len(m, c, j - 1);
    }
}

/// The kept entries of one column have strictly increasing row indices, all
/// at most the column index and less than the row count, and the last kept
/// row is bounded by the most recently scanned row index.
pub proof fn lemma_col_kept_props(m: CscModel, c: int, j: int)
    requires
        m.valid(),
        0 <= c < m.ncols,
        0 <= j <= m.col_end(c) - m.col_start(c),
    ensures
        forall|i1: int, i2: int|
            0 <= i1 < i2 < col_kept(m, c, j).len()
                ==> #[trigger] col_kept(m, c, j)[i1].0 < #[trigger] col_kept(m, c, j)[i2].0,
        forall|i: int|
            0 <= i < col_kept(m, c, j).len()
                ==> #[trigger] col_kept(m, c, j)[i].0 <= c && col_kept(m, c, j)[i].0 < m.nrows,
        col_kept(m, c, j).len() > 0 ==> j > 0
            && col_kept(m, c, j).last().0 <= m.indices[m.col_start(c) + (j - 1)],
    decreases j,
{
    if j > 0 {
        lemma_col_kept_props(m, c, j - 1);
        let k = m.col_start(c) + (j - 1);
        assert(m.col_start(c) <= k < m.col_end(c) <= m.indices.len());
        if j - 1 > 0 {
            assert(m.col_start(c) <= k - 1 < k < m.col_end(c));
            assert(m.indices[k - 1] < m.indices[k]);
        }
    }
}

/// The kept entries of the first `c` columns are no more numerous than the
/// scanned positions before column `c`.
pub proof fn lemma_cols_kept_len(m: CscModel, c: int)
    requires
        m.valid(),
        0 <= c <= m.ncols,
    ensures
        cols_kept(m, c).len() <= m.indptr[c],
    decreases c,
{
    if c > 0 {
        lemma_cols_kept_len(m, c - 1);
        lemma_col_kept_len(m, c - 1, m.col_end(c - 1) - m.col_start(c - 1));
        assert(m.indptr[c - 1] <= m.indptr[c]);
    }
}

/// Earlier column prefixes of the kept entries are prefixes of later ones.
pub proof fn lemma_cols_kept_prefix(m: CscModel, c1: int, c2: int)
    requires
        0 <= c1 <= c2,
    ensures
        cols_kept(m, c1).len() <= cols_kept(m, c2).len(),
        forall|i: int|
            0 <= i < cols_kept(m, c1).len()
                ==> #[trigger] cols_kept(m, c2)[i] == cols_kept(m, c1)[i],
    decreases c2 - c1,
{
    if c1 < c2 {
        lemma_cols_kept_prefix(m, c1, c2 - 1);
    }
}

/// Every position among the kept entries of the first `c2` columns falls in
/// the range contributed by exactly one column.
pub proof fn lemma_cols_kept_pos(m: CscModel, c2: int, i: int)
    requires
        0 <= c2,
        0 <= i < cols_kept(m, c2).len(),
    ensures
        exists|c: int|
            0 <= c < c2 && #[trigger] cols_kept(m, c).len() <= i < cols_kept(m, c + 1).len(),
    decreases c2,
{
    if c2 > 0 {
        if i < cols_kept(m, c2 - 1).len() {
            lemma_cols_kept_pos(m, c2 - 1, i);
            let c = choose|c: int|
                0 <= c < c2 - 1 && #[trigger] cols_kept(m, c).len() <= i < cols_kept(
                    m,
                    c + 1,
                ).len();
            assert(0 <= c < c2 && cols_kept(m, c).len() <= i < cols_kept(m, c + 1).len());
        } else {
            assert(0 <= c2 - 1 < c2 && cols_kept(m, c2 - 1).len() <= i < cols_kept(m, c2).len());
        }
    }
}

/// Relates the columns of the extracted upper triangle to the kept entries
/// of the source matrix.
pub proof fn lemma_ut_cols(m: CscModel, c: int)
    requires
        m.valid(),
        0 <= c < m.ncols,
    ensures
        ut_model(m).col_start(c) == cols_kept(m, c).len(),
        ut_model(m).col_end(c) == cols_kept(m, c + 1).len(),
        cols_kept(m, c + 1).len() == cols_kept(m, c).len() + col_kept(
            m,
            c,
            m.col_end(c) - m.col_start(c),
        ).len(),
        forall|k: int|
            cols_kept(m, c).len() <= k < cols_kept(m, c + 1).len()
                ==> #[trigger] ut_model(m).indices[k] == col_kept(
                    m,
                    c,
                    m.col_end(c) - m.col_start(c),
                )[k - cols_kept(m, c).len()].0 && ut_model(m).data[k] == col_kept(
                    m,
                    c,
                    m.col_end(c) - m.col_start(c),
                )[k - cols_kept(m, c).len()].1,
{
    let u = ut_model(m);
    let w = m.col_end(c) - m.col_start(c);
    lemma_cols_kept_len(m, c);
    lemma_cols_kept_len(m, c + 1);
    assert(cols_kept(m, c + 1) == cols_kept(m, c) + col_kept(m, c, w));
    lemma_cols_kept_prefix(m, c + 1, m.ncols as int);
    assert forall|k: int|
        cols_kept(m, c).len() <= k < cols_kept(m, c + 1).len() implies #[trigger] u.indices[k]
        == col_kept(m, c, w)[k - cols_kept(m, c).len()].0 && u.data[k] == col_kept(m, c, w)[k
        - cols_kept(m, c).len()].1 by {
        assert(cols_kept(m, m.ncols as int)[k] == cols_kept(m, c + 1)[k]);
        assert(cols_kept(m, c + 1)[k] == col_kept(m, c, w)[k - cols_kept(m, c).len()]);
    };
}

/// The extracted upper triangle of a valid matrix is itself a valid matrix,
/// and it is structurally upper triangular.
pub proof fn lemma_ut_valid(m: CscModel)
    requires
        m.valid(),
    ensures
        ut_model(m).valid(),
        ut_model(m).upper_tri(),
{
    let u = ut_model(m);
    let n = m.ncols as int;
    lemma_cols_kept_len(m, n);
    assert(cols_kept(m, 0).len() == 0);
    assert(u.indptr[0] == 0);
    assert(u.indptr[n] == u.data.len());
    assert forall|i: int, j: int| 0 <= i <= j <= u.ncols implies u.indptr[i] <= u.indptr[j] by {
        lemma_cols_kept_prefix(m, i, j);
        lemma_cols_kept_len(m, i);
        lemma_cols_kept_len(m, j);
    };
    assert forall|k: int| 0 <= k < u.indices.len() implies #[trigger] u.indices[k] < u.nrows by {
        lemma_cols_kept_pos(m, n, k);
        let c = choose|c: int|
            0 <= c < n && #[trigger] cols_kept(m, c).len() <= k < cols_kept(m, c + 1).len();
        lemma_ut_cols(m, c);
        lemma_col_kept_props(m, c, m.col_end(c) - m.col_start(c));
    };
    assert forall|c: int, k1: int, k2: int|
        #![trigger u.col_start(c), u.indices[k1], u.indices[k2]]
        0 <= c < u.ncols && u.col_start(c) <= k1 < k2 < u.col_end(c) implies u.indices[k1]
        < u.indices[k2] by {
        lemma_cols_kept_len(m, c);
        lemma_cols_kept_len(m, c + 1);
        lemma_ut_cols(m, c);
        lemma_col_kept_props(m, c, m.col_end(c) - m.col_start(c));
    };
    assert forall|c: int, k: int|
        #![trigger u.col_start(c), u.indices[k]]
        0 <= c < u.ncols && u.col_start(c) <= k < u.col_end(c) implies u.indices[k] <= c by {
        lemma_cols_kept_len(m, c);
        lemma_cols_kept_len(m, c + 1);
        lemma_ut_cols(m, c);
        lemma_col_kept_props(m, c, m.col_end(c) - m.col_start(c));
    };
}

/// On a matrix that is already structurally upper triangular, every entry of
/// a column's prefix is kept unchanged.
proof fn lemma_col_kept_all(m: CscModel, c: int, j: int)
    requires
        m.valid(),
        m.upper_tri(),
        0 <= c < m.ncols,
        0 <= j <= m.col_end(c) - m.col_start(c),
    ensures
        col_kept(m, c, j).len() == j,
        forall|t: int|
            0 <= t < j ==> #[trigger] col_kept(m, c, j)[t] == (
                m.indices[m.col_start(c) + t],
                m.data[m.col_start(c) + t],
            ),
    decreases j,
{
    if j > 0 {
        lemma_col_kept_all(m, c, j - 1);
        assert(m.col_start(c) <= m.col_start(c) + (j - 1) < m.col_end(c));
        assert(m.indices[m.col_start(c) + (j - 1)] <= c);
    }
}

/// On a matrix that is already structurally upper triangular, the kept
/// entries of the first `c` columns are exactly the stored entries before
/// column `c`.
proof fn lemma_cols_kept_all(m: CscModel, c: int)
    requires
        m.valid(),
        m.upper_tri(),
        0 <= c <= m.ncols,
    ensures
        cols_kept(m, c).len() == m.indptr[c],
        forall|i: int|
            0 <= i < m.indptr[c] ==> #[trigger] cols_kept(m, c)[i] == (m.indices[i], m.data[i]),
    decreases c,
{
    if c > 0 {
        lemma_cols_kept_all(m, c - 1);
        lemma_col_kept_all(m, c - 1, m.col_end(c - 1) - m.col_start(c - 1));
        assert(m.indptr[c - 1] <= m.indptr[c]);
        assert forall|i: int| 0 <= i < m.indptr[c] implies #[trigger] cols_kept(m, c)[i] == (
            m.indices[i],
            m.data[i],
        ) by {
            if i >= m.indptr[c - 1] {
                assert(cols_kept(m, c)[i] == col_kept(
                    m,
                    c - 1,
                    m.col_end(c - 1) - m.col_start(c - 1),
                )[i - m.indptr[c - 1]]);
            }
        };
    }
}

/// Extracting the upper triangle of a matrix that is already structurally
/// upper triangular changes nothing.
pub proof fn lemma_ut_identity(m: CscModel)
    requires
        m.valid(),
        m.upper_tri(),
    ensures
        ut_model(m) == m,
{
    let u = ut_model(m);
    let n = m.ncols as int;
    lemma_cols_kept_all(m, n);
    assert forall|c: int| 0 <= c <= n implies u.indptr[c] == m.indptr[c] by {
        lemma_cols_kept_all(m, c);
    };
    assert(u.indptr =~= m.indptr);
    assert(u.indices =~= m.indices);
    assert(u.data =~= m.data);
    assert(u =~= m);
}

impl CscMatrix {
    /// Extracts the upper triangular elements of the matrix.
    ///
    /// When the matrix is already structurally upper triangular it is
    /// returned unchanged; otherwise row indices and values are compacted in
    /// a single left-to-right scan and the column pointers are adjusted to
    /// the compacted offsets.  Entries are never reordered within a column.
    ///
    /// The returned matrix is guaranteed to be structurally upper
    /// triangular.
    #[verifier::loop_isolation(false)]
    #[verifier::spinoff_prover]
    #[verifier::rlimit(30)]
    pub fn into_upper_tri(self) -> (res: CscMatrix)
        requires
            self@.valid(),
        ensures
            res@ == ut_model(self@),
            res@.valid(),
            res@.upper_tri(),
            self@.upper_tri() ==> res@ == self@,
    {
        let ghost m0 = self@;
        proof {
            lemma_ut_valid(m0);
        }
        if self.is_structurally_upper_tri() {
            proof {
                lemma_ut_identity(m0);
            }
            return self;
        }
        let nrows = self.nrows;
        let ncols = self.ncols;
        let mut indptr = self.indptr;
        let mut indices = self.indices;
        let mut data = self.data;

        let mut next: usize = 0;
        let mut col: usize = 0;
        while col < ncols
            invariant
                col <= ncols,
                indptr@.len() == ncols + 1,
                indices@.len() == m0.indices.len(),
                data@.len() == m0.data.len(),
                next == cols_kept(m0, col as int).len(),
                forall|i: int| 0 <= i < col ==> #[trigger] indptr@[i] == cols_kept(m0, i).len(),
                forall|i: int| col <= i <= ncols ==> #[trigger] indptr@[i] == m0.indptr[i],
                forall|t: int|
                    0 <= t < next ==> #[trigger] indices@[t] == cols_kept(m0, col as int)[t].0
                        && data@[t] == cols_kept(m0, col as int)[t].1,
                forall|t: int|
                    m0.indptr[col as int] <= t < m0.indices.len() ==> #[trigger] indices@[t]
                        == m0.indices[t] && data@[t] == m0.data[t],
            decreases ncols - col,
        {
            proof {
                lemma_cols_kept_len(m0, col as int);
                assert(m0.indptr[col as int] <= m0.indptr[col as int + 1]);
                assert(m0.indptr[col as int + 1] <= m0.indptr[m0.ncols as int]);
            }
            let start = indptr[col];
            let colend = indptr[col + 1];
            indptr.set(col, next);
            let mut k = start;
            while k < colend
                invariant
                    start <= k <= colend,
                    indices@.len() == m0.indices.len(),
                    data@.len() == m0.data.len(),
                    next == cols_kept(m0, col as int).len() + col_kept(
                        m0,
                        col as int,
                        k - start,
                    ).len(),
                    next <= k,
                    forall|t: int|
                        0 <= t < next ==> #[trigger] indices@[t] == (cols_kept(m0, col as int)
                            + col_kept(m0, col as int, k - start))[t].0 && data@[t] == (cols_kept(
                            m0,
                            col as int,
                        ) + col_kept(m0, col as int, k - start))[t].1,
                    forall|t: int|
                        k <= t < m0.indices.len() ==> #[trigger] indices@[t] == m0.indices[t]
                            && data@[t] == m0.data[t],
                decreases colend - k,
            {
                let row = indices[k];
                let ghost c = col as int;
                let ghost j = k - start;
                proof {
                    assert(indices@[k as int] == m0.indices[k as int]);
                    assert(m0.col_start(c) + j == k as int);
                }
                if row <= col {
                    let v = data[k];
                    indices.set(next, row);
                    data.set(next, v);
                    next += 1;
                    proof {
                        assert(col_kept(m0, c, j + 1) =~= col_kept(m0, c, j).push(
                            (m0.indices[k as int], m0.data[k as int]),
                        ));
                    }
                } else {
                    proof {
                        assert(col_kept(m0, c, j + 1) =~= col_kept(m0, c, j));
                    }
                }
                proof {
                    assert forall|t: int|
                        k + 1 <= t < m0.indices.len() implies indices@[t] == m0.indices[t]
                        && data@[t] == m0.data[t] by {
                        assert(indices@[t] == m0.indices[t]);
                        assert(data@[t] == m0.data[t]);
                    };
                    let combined = cols_kept(m0, c) + col_kept(m0, c, j + 1);
                    assert forall|t: int|
                        0 <= t < next implies indices@[t] == combined[t].0 && data@[t]
                        == combined[t].1 by {
                        assert(indices@[t] == combined[t].0);
                        assert(data@[t] == combined[t].1);
                    };
                }
                k += 1;
            }
            col += 1;
        }
        proof {
            lemma_cols_kept_len(m0, m0.ncols as int);
        }
        indptr.set(ncols, next);
        let ghost pre_indices = indices@;
        let ghost pre_data = data@;
        indices.truncate(next);
        data.truncate(next);
        proof {
            let kept = cols_kept(m0, m0.ncols as int);
            assert forall|i: int| 0 <= i < indptr@.len() implies indptr@[i] == ut_model(
                m0,
            ).indptr[i] by {
                lemma_cols_kept_len(m0, i);
            };
            assert(indptr@ =~= ut_model(m0).indptr);
            assert(indices@.len() == kept.len());
            assert(data@.len() == kept.len());
            assert forall|t: int| 0 <= t < kept.len() implies indices@[t] == ut_model(
                m0,
            ).indices[t] && data@[t] == ut_model(m0).data[t] by {
                assert(indices@[t] == pre_indices[t]);
                assert(data@[t] == pre_data[t]);
                assert(pre_indices[t] == kept[t].0);
                assert(pre_data[t] == kept[t].1);
                assert(ut_model(m0).indices[t] == kept[t].0);
                assert(ut_model(m0).data[t] == kept[t].1);
            };
            assert(indices@ =~= ut_model(m0).indices);
            assert(data@ =~= ut_model(m0).data);
        }
        let res = CscMatrix { nrows, ncols, indptr, indices, data };
        proof {
            assert(res@ =~= ut_model(m0));
        }
        res
    }
}

/// Extracting the upper triangle twice yields the same matrix as extracting
/// it once: the operation is idempotent on every valid matrix.
pub proof fn lemma_ut_idempotent(m: CscModel)
    requires
        m.valid(),
    ensures
        ut_model(ut_model(m)) == ut_model(m),
{
    lemma_ut_valid(m);
    lemma_ut_identity(ut_model(m));
}

/// Whether `r` is the row index of a stored entry of column `c`.
pub open spec fn has_entry(m: CscModel, r: int, c: int) -> bool {
    exists|k: int| m.col_start(c) <= k < m.col_end(c) && #[trigger] m.indices[k] == r
}

/// The value of the stored entry of column `c` with row index `r`.
pub open spec fn entry_at(m: CscModel, r: int, c: int) -> u64 {
    m.data[choose|k: int| m.col_start(c) <= k < m.col_end(c) && #[trigger] m.indices[k] == r]
}

/// The dense reading of position (`r`, `c`): the stored value, or an exact
/// zero when the position is not stored.
pub open spec fn dense_at(m: CscModel, r: int, c: int) -> u64 {
    if has_entry(m, r, c) {
        entry_at(m, r, c)
    } else {
        0
    }
}

/// In a valid matrix a row index occurs at most once per column, so a
/// witness position determines the stored value.
pub proof fn lemma_entry_at(m: CscModel, r: int, c: int, k: int)
    requires
        m.valid(),
        0 <= c < m.ncols,
        m.col_start(c) <= k < m.col_end(c),
        m.indices[k] == r,
    ensures
        has_entry(m, r, c),
        entry_at(m, r, c) == m.data[k],
{
    assert(has_entry(m, r, c));
    let k2 = choose|k2: int|
        m.col_start(c) <= k2 < m.col_end(c) && #[trigger] m.indices[k2] == r;
    if k2 < k {
        assert(m.indices[k2] < m.indices[k]);
    } else if k2 > k {
        assert(m.indices[k] < m.indices[k2]);
    }
}

/// Whether every row of the table has the same length as the first row.
pub open spec fn rect_rows(rows: Seq<Vec<u64>>) -> bool {
    forall|i: int| 0 <= i < rows.len() ==> #[trigger] rows[i]@.len() == rows[0]@.len()
}

/// Whether the table's dimensions fit the foreign index width.
pub open spec fn rows_in_bounds(rows: Seq<Vec<u64>>) -> bool {
    &&& rows.len() <= isize::MAX as usize
    &&& rows.len() > 0 ==> rows[0]@.len() < isize::MAX as usize && rows.len() * rows[0]@.len()
        <= isize::MAX as usize
}

/// The non-zero entries of column `c` among the first `r` rows of a dense
/// table, as (row, value) pairs in row order.
pub open spec fn col_nz(rows: Seq<Vec<u64>>, c: int, r: int) -> Seq<(usize, u64)>
    decreases r,
{
    if r <= 0 {
        Seq::empty()
    } else {
        let prev = col_nz(rows, c, r - 1);
        if !is_zero_bits(rows[r - 1]@[c]) {
            prev.push((((r - 1) as usize), rows[r - 1]@[c]))
        } else {
            prev
        }
    }
}

/// The non-zero entries of the first `c` columns of a dense table with
/// `nr` rows, in column-major order.
pub open spec fn cols_nz(rows: Seq<Vec<u64>>, nr: int, c: int) -> Seq<(usize, u64)>
    decreases c,
{
    if c <= 0 {
        Seq::empty()
    } else {
        cols_nz(rows, nr, c - 1) + col_nz(rows, c - 1, nr)
    }
}

/// The sparse matrix built from a dense table of rows: exact zeros omitted,
/// all other values stored in column-major order.
pub open spec fn from_rows_model(rows: Seq<Vec<u64>>) -> CscModel {
    let nr = rows.len() as int;
    let nc = if rows.len() > 0 {
        rows[0]@.len() as int
    } else {
        0
    };
    CscModel {
        nrows: rows.len() as usize,
        ncols: nc as usize,
        indptr: Seq::new((nc + 1) as nat, |c: int| cols_nz(rows, nr, c).len() as usize),
        indices: cols_nz(rows, nr, nc).map_values(|e: (usize, u64)| e.0),
        data: cols_nz(rows, nr, nc).map_values(|e: (usize, u64)| e.1),
    }
}

/// The per-column non-zero entries have strictly increasing in-range row
/// indices, carry exactly the non-zero source values, and cover every
/// non-zero source position.
pub proof fn lemma_col_nz_props(rows: Seq<Vec<u64>>, c: int, r: int)
    requires
        0 <= r <= usize::MAX,
    ensures
        col_nz(rows, c, r).len() <= r,
        forall|i: int|
            0 <= i < col_nz(rows, c, r).len() ==> (#[trigger] col_nz(rows, c, r)[i]).0 < r,
        forall|i1: int, i2: int|
            #![trigger col_nz(rows, c, r)[i1], col_nz(rows, c, r)[i2]]
            0 <= i1 < i2 < col_nz(rows, c, r).len()
                ==> col_nz(rows, c, r)[i1].0 < col_nz(rows, c, r)[i2].0,
        forall|i: int|
            0 <= i < col_nz(rows, c, r).len() ==> !is_zero_bits(
                rows[(#[trigger] col_nz(rows, c, r)[i]).0 as int]@[c],
            ) && col_nz(rows, c, r)[i].1 == rows[col_nz(rows, c, r)[i].0 as int]@[c],
        forall|rr: int|
            0 <= rr < r && !is_zero_bits(#[trigger] rows[rr]@[c]) ==> exists|i: int|
                0 <= i < col_nz(rows, c, r).len() && (#[trigger] col_nz(rows, c, r)[i]).0 == rr,
    decreases r,
{
    if r > 0 {
        lemma_col_nz_props(rows, c, r - 1);
        let prev = col_nz(rows, c, r - 1);
        let cur = col_nz(rows, c, r);
        assert forall|rr: int|
            0 <= rr < r && !is_zero_bits(#[trigger] rows[rr]@[c]) implies exists|i: int|
            0 <= i < cur.len() && (#[trigger] cur[i]).0 == rr by {
            if rr == r - 1 {
                assert(cur == prev.push((((r - 1) as usize), rows[r - 1]@[c])));
                assert(0 <= cur.len() - 1 < cur.len() && (cur[cur.len() - 1]).0 == rr);
            } else {
                let i = choose|i: int| 0 <= i < prev.len() && (#[trigger] prev[i]).0 == rr;
                assert(0 <= i < cur.len() && (cur[i]).0 == rr);
            }
        };
    }
}

/// The entry count of a column prefix is bounded by the table size.
pub proof fn lemma_cols_nz_len(rows: Seq<Vec<u64>>, nr: int, c: int)
    requires
        0 <= c,
        0 <= nr <= usize::MAX,
    ensures
        cols_nz(rows, nr, c).len() <= c * nr,
    decreases c,
{
    if c > 0 {
        lemma_cols_nz_len(rows, nr, c - 1);
        lemma_col_nz_props(rows, c - 1, nr);
        assert((c - 1) * nr + nr == c * nr) by (nonlinear_arith);
    }
}

/// Earlier column prefixes of the non-zero entries are prefixes of later
/// ones.
pub proof fn lemma_cols_nz_prefix(rows: Seq<Vec<u64>>, nr: int, c1: int, c2: int)
    requires
        0 <= c1 <= c2,
    ensures
        cols_nz(rows, nr, c1).len() <= cols_nz(rows, nr, c2).len(),
        forall|i: int|
            0 <= i < cols_nz(rows, nr, c1).len()
                ==> #[trigger] cols_nz(rows, nr, c2)[i] == cols_nz(rows, nr, c1)[i],
    decreases c2 - c1,
{
    if c1 < c2 {
        lemma_cols_nz_prefix(rows, nr, c1, c2 - 1);
    }
}

/// Every position among the non-zero entries of the first `c2` columns falls
/// in the range contributed by exactly one column.
pub proof fn lemma_cols_nz_pos(rows: Seq<Vec<u64>>, nr: int, c2: int, i: int)
    requires
        0 <= c2,
        0 <= i < cols_nz(rows, nr, c2).len(),
    ensures
        exists|c: int|
            0 <= c < c2 && #[trigger] cols_nz(rows, nr, c).len() <= i < cols_nz(
                rows,
                nr,
                c + 1,
            ).len(),
    decreases c2,
{
    if c2 > 0 {
        if i < cols_nz(rows, nr, c2 - 1).len() {
            lemma_cols_nz_pos(rows, nr, c2 - 1, i);
            let c = choose|c: int|
                0 <= c < c2 - 1 && #[trigger] cols_nz(rows, nr, c).len() <= i < cols_nz(
                    rows,
                    nr,
                    c + 1,
                ).len();
            assert(0 <= c < c2 && cols_nz(rows, nr, c).len() <= i < cols_nz(rows, nr, c + 1).len());
        } else {
            assert(0 <= c2 - 1 < c2 && cols_nz(rows, nr, c2 - 1).len() <= i < cols_nz(
                rows,
                nr,
                c2,
            ).len());
        }
    }
}

/// Relates the columns of the built sparse matrix to the per-column
/// non-zero entries of the source table.
pub proof fn lemma_from_rows_cols(rows: Seq<Vec<u64>>, c: int)
    requires
        rows_in_bounds(rows),
        0 <= c,
        rows.len() > 0,
        c < rows[0]@.len(),
    ensures
        from_rows_model(rows).col_start(c) == cols_nz(rows, rows.len() as int, c).len(),
        from_rows_model(rows).col_end(c) == cols_nz(rows, rows.len() as int, c + 1).len(),
        cols_nz(rows, rows.len() as int, c + 1).len() == cols_nz(rows, rows.len() as int, c).len()
            + col_nz(rows, c, rows.len() as int).len(),
        forall|k: int|
            cols_nz(rows, rows.len() as int, c).len() <= k < cols_nz(
                rows,
                rows.len() as int,
                c + 1,
            ).len() ==> #[trigger] from_rows_model(rows).indices[k] == col_nz(
                rows,
                c,
                rows.len() as int,
            )[k - cols_nz(rows, rows.len() as int, c).len()].0 && from_rows_model(rows).data[k]
                == col_nz(rows, c, rows.len() as int)[k - cols_nz(rows, rows.len() as int, c).len()].1,
{
    let u = from_rows_model(rows);
    let nr = rows.len() as int;
    let nc = rows[0]@.len() as int;
    let bound = isize::MAX as int;
    lemma_cols_nz_len(rows, nr, c);
    lemma_cols_nz_len(rows, nr, c + 1);
    assert(nr * nc <= bound);
    assert(c * nr <= bound && (c + 1) * nr <= bound) by (nonlinear_arith)
        requires 0 <= c < nc, 0 <= nr, nr * nc <= bound;
    assert(cols_nz(rows, nr, c + 1) == cols_nz(rows, nr, c) + col_nz(rows, c, nr));
    lemma_cols_nz_prefix(rows, nr, c + 1, nc);
    assert forall|k: int|
        cols_nz(rows, nr, c).len() <= k < cols_nz(rows, nr, c + 1).len() implies #[trigger] u.indices[k]
        == col_nz(rows, c, nr)[k - cols_nz(rows, nr, c).len()].0 && u.data[k] == col_nz(
        rows,
        c,
        nr,
    )[k - cols_nz(rows, nr, c).len()].1 by {
        assert(cols_nz(rows, nr, nc)[k] == cols_nz(rows, nr, c + 1)[k]);
        assert(cols_nz(rows, nr, c + 1)[k] == col_nz(rows, c, nr)[k - cols_nz(rows, nr, c).len()]);
    };
}

impl CscMatrix {
    /// Builds an owned matrix from a rectangular table of rows, omitting
    /// exact-zero entries; the result is valid by construction.
    #[verifier::loop_isolation(false)]
    #[verifier::spinoff_prover]
    #[verifier::rlimit(30)]
    pub fn from_rows(rows: &Vec<Vec<u64>>) -> (res: CscMatrix)
        requires
            rect_rows(rows@),
            rows_in_bounds(rows@),
        ensures
            res@ == from_rows_model(rows@),
            res@.valid(),
    {
        let ghost rs = rows@;
        let nrows = rows.len();
        let ncols = if nrows > 0 {
            rows[0].len()
        } else {
            0
        };
        let mut indptr: Vec<usize> = Vec::new();
        let mut indices: Vec<usize> = Vec::new();
        let mut data: Vec<u64> = Vec::new();
        indptr.push(0);
        let mut c: usize = 0;
        while c < ncols
            invariant
                c <= ncols,
                indptr@.len() == c + 1,
                forall|i: int|
                    0 <= i <= c ==> #[trigger] indptr@[i] == cols_nz(rs, nrows as int, i).len(),
                indices@.len() == cols_nz(rs, nrows as int, c as int).len(),
                data@.len() == indices@.len(),
                forall|t: int|
                    0 <= t < indices@.len() ==> #[trigger] indices@[t] == cols_nz(
                        rs,
                        nrows as int,
                        c as int,
                    )[t].0 && data@[t] == cols_nz(rs, nrows as int, c as int)[t].1,
            decreases ncols - c,
        {
            let mut r: usize = 0;
            while r < nrows
                invariant
                    r <= nrows,
                    indices@.len() == cols_nz(rs, nrows as int, c as int).len() + col_nz(
                        rs,
                        c as int,
                        r as int,
                    ).len(),
                    data@.len() == indices@.len(),
                    forall|t: int|
                        0 <= t < indices@.len() ==> #[trigger] indices@[t] == (cols_nz(
                            rs,
                            nrows as int,
                            c as int,
                        ) + col_nz(rs, c as int, r as int))[t].0 && data@[t] == (cols_nz(
                            rs,
                            nrows as int,
                            c as int,
                        ) + col_nz(rs, c as int, r as int))[t].1,
                decreases nrows - r,
            {
                proof {
                    assert(rs[r as int]@.len() == rs[0]@.len());
                }
                let v = rows[r][c];
                if !zero_bits(v) {
                    indices.push(r);
                    data.push(v);
                    proof {
                        assert(col_nz(rs, c as int, r as int + 1) =~= col_nz(
                            rs,
                            c as int,
                            r as int,
                        ).push(((r as usize), rs[r as int]@[c as int])));
                    }
                } else {
                    proof {
                        assert(col_nz(rs, c as int, r as int + 1) =~= col_nz(
                            rs,
                            c as int,
                            r as int,
                        ));
                    }
                }
                proof {
                    let combined = cols_nz(rs, nrows as int, c as int) + col_nz(
                        rs,
                        c as int,
                        r as int + 1,
                    );
                    assert forall|t: int|
                        0 <= t < indices@.len() implies indices@[t] == combined[t].0 && data@[t]
                        == combined[t].1 by {
                        assert(indices@[t] == combined[t].0);
                        assert(data@[t] == combined[t].1);
                    };
                }
                r += 1;
            }
            proof {
                assert(cols_nz(rs, nrows as int, c as int + 1) == cols_nz(rs, nrows as int, c as int)
                    + col_nz(rs, c as int, nrows as int));
            }
            indptr.push(data.len());
            c += 1;
        }
        proof {
            lemma_from_rows_valid(rs);
            let u = from_rows_model(rs);
            assert(indptr@ =~= u.indptr);
            let all = cols_nz(rs, nrows as int, ncols as int);
            assert(indices@.len() == all.len());
            assert forall|t: int| 0 <= t < all.len() implies indices@[t] == u.indices[t]
                && data@[t] == u.data[t] by {
                assert(indices@[t] == all[t].0);
                assert(data@[t] == all[t].1);
                assert(u.indices[t] == all[t].0);
                assert(u.data[t] == all[t].1);
            };
            assert(indices@ =~= u.indices);
            assert(data@ =~= u.data);
        }
        let res = CscMatrix { nrows, ncols, indptr, indices, data };
        proof {
            assert(res@ =~= from_rows_model(rs));
        }
        res
    }

    /// The value stored at position (`r`, `c`), or an exact zero when the
    /// position is not part of the sparse encoding.
    #[verifier::loop_isolation(false)]
    pub fn value_at(&self, r: usize, c: usize) -> (v: u64)
        requires
            self@.valid(),
            r < self.nrows,
            c < self.ncols,
        ensures
            v == dense_at(self@, r as int, c as int),
    {
        let start = self.indptr[c];
        let end = self.indptr[c + 1];
        assert(end <= self.indices@.len());
        let mut k: usize = start;
        while k < end
            invariant
                start <= k <= end,
                forall|t: int| start <= t < k ==> #[trigger] self.indices@[t] != r,
            decreases end - k,
        {
            if self.indices[k] == r {
                proof {
                    lemma_entry_at(self@, r as int, c as int, k as int);
                }
                return self.data[k];
            }
            k += 1;
        }
        assert(!has_entry(self@, r as int, c as int));
        0
    }
}

/// Structural equality of two sparse matrices: same shape, same stored
/// positions in the same order, and the same number of stored values.
pub open spec fn same_structure(a: CscModel, b: CscModel) -> bool {
    &&& a.nrows == b.nrows
    &&& a.ncols == b.ncols
    &&& a.indptr == b.indptr
    &&& a.indices == b.indices
    &&& a.data.len() == b.data.len()
}

/// Compares two `usize` vectors element by element.
#[verifier::loop_isolation(false)]
pub(crate) fn eq_usize_vecs(a: &Vec<usize>, b: &Vec<usize>) -> (r: bool)
    ensures
        r == (a@ == b@),
{
    if a.len() != b.len() {
        return false;
    }
    let mut i: usize = 0;
    while i < a.len()
        invariant
            i <= a.len(),
            forall|t: int| 0 <= t < i ==> a@[t] == b@[t],
        decreases a.len() - i,
    {
        if a[i] != b[i] {
            return false;
        }
        i += 1;
    }
    proof {
        assert(a@ =~= b@);
    }
    true
}

/// Compares two `u64` vectors element by element.
#[verifier::loop_isolation(false)]
fn eq_u64_vecs(a: &Vec<u64>, b: &Vec<u64>) -> (r: bool)
    ensures
        r == (a@ == b@),
{
    if a.len() != b.len() {
        return false;
    }
    let mut i: usize = 0;
    while i < a.len()
        invariant
            i <= a.len(),
            forall|t: int| 0 <= t < i ==> a@[t] == b@[t],
        decreases a.len() - i,
    {
        if a[i] != b[i] {
            return false;
        }
        i += 1;
    }
    proof {
        assert(a@ =~= b@);
    }
    true
}

/// Copies a vector of offsets or row indices.
#[verifier::loop_isolation(false)]
pub(crate) fn clone_vec_usize(v: &Vec<usize>) -> (r: Vec<usize>)
    ensures
        r@ == v@,
{
    let mut r: Vec<usize> = Vec::new();
    let mut i: usize = 0;
    while i < v.len()
        invariant
            i <= v.len(),
            r@ =~= v@.subrange(0, i as int),
        decreases v.len() - i,
    {
        r.push(v[i]);
        i += 1;
    }
    proof {
        assert(r@ =~= v@);
    }
    r
}

/// Copies a vector of bit patterns.
#[verifier::loop_isolation(false)]
pub(crate) fn clone_vec_u64(v: &Vec<u64>) -> (r: Vec<u64>)
    ensures
        r@ == v@,
{
    let mut r: Vec<u64> = Vec::new();
    let mut i: usize = 0;
    while i < v.len()
        invariant
            i <= v.len(),
            r@ =~= v@.subrange(0, i as int),
        decreases v.len() - i,
    {
        r.push(v[i]);
        i += 1;
    }
    proof {
        assert(r@ =~= v@);
    }
    r
}

impl Clone for CscMatrix {
    /// A copy that describes the same matrix.
    fn clone(&self) -> (r: CscMatrix)
        ensures
            r@ == self@,
    {
        let r = CscMatrix {
            nrows: self.nrows,
            ncols: self.ncols,
            indptr: clone_vec_usize(&self.indptr),
            indices: clone_vec_usize(&self.indices),
            data: clone_vec_u64(&self.data),
        };
        proof {
            assert(r@ =~= self@);
        }
        r
    }
}

impl PartialEq for CscMatrix {
    fn eq(&self, other: &CscMatrix) -> (r: bool) {
        self.nrows == other.nrows && self.ncols == other.ncols && eq_usize_vecs(
            &self.indptr,
            &other.indptr,
        ) && eq_usize_vecs(&self.indices, &other.indices) && eq_u64_vecs(&self.data, &other.data)
    }
}

impl vstd::std_specs::cmp::PartialEqSpecImpl for CscMatrix {
    open spec fn obeys_eq_spec() -> bool {
        true
    }

    open spec fn eq_spec(&self, other: &CscMatrix) -> bool {
        &&& self.nrows == other.nrows
        &&& self.ncols == other.ncols
        &&& self.indptr@ == other.indptr@
        &&& self.indices@ == other.indices@
        &&& self.data@ == other.data@
    }
}

impl CscMatrix {
    /// Whether `other` has exactly the sparsity structure of `self`: the
    /// set and order of stored positions must agree, because the foreign
    /// resource can only replace numeric values at fixed offsets.
    pub fn same_sparsity_structure(&self, other: &CscMatrix) -> (r: bool)
        ensures
            r == same_structure(self@, other@),
    {
        if self.nrows != other.nrows || self.ncols != other.ncols {
            return false;
        }
        if self.data.len() != other.data.len() {
            return false;
        }
        if !eq_usize_vecs(&self.indptr, &other.indptr) {
            return false;
        }
        if !eq_usize_vecs(&self.indices, &other.indices) {
            return false;
        }
        true
    }
}

/// The matrix built from a rectangular dense table is valid.
pub proof fn lemma_from_rows_valid(rows: Seq<Vec<u64>>)
    requires
        rect_rows(rows),
        rows_in_bounds(rows),
    ensures
        from_rows_model(rows).valid(),
{
    let u = from_rows_model(rows);
    let nr = rows.len() as int;
    let nc = if rows.len() > 0 {
        rows[0]@.len() as int
    } else {
        0
    };
    let bound = isize::MAX as int;
    lemma_cols_nz_len(rows, nr, nc);
    if rows.len() > 0 {
        assert(nr * nc <= bound);
    } else {
        assert(nr * nc == 0) by (nonlinear_arith)
            requires nc == 0;
    }
    assert(nc * nr <= bound) by (nonlinear_arith)
        requires 0 <= nc, 0 <= nr, nr * nc <= bound;
    assert(cols_nz(rows, nr, 0).len() == 0);
    assert(u.indptr[0] == 0);
    assert(u.indptr[nc] == u.data.len());
    assert forall|i: int, j: int| 0 <= i <= j <= u.ncols implies u.indptr[i] <= u.indptr[j] by {
        lemma_cols_nz_prefix(rows, nr, i, j);
        lemma_cols_nz_len(rows, nr, i);
        lemma_cols_nz_len(rows, nr, j);
        assert(i * nr <= bound && j * nr <= bound) by (nonlinear_arith)
            requires 0 <= i <= nc, 0 <= j <= nc, 0 <= nr, nc * nr <= bound;
    };
    assert forall|k: int| 0 <= k < u.indices.len() implies #[trigger] u.indices[k] < u.nrows by {
        lemma_cols_nz_pos(rows, nr, nc, k);
        let c = choose|c: int|
            0 <= c < nc && #[trigger] cols_nz(rows, nr, c).len() <= k < cols_nz(
                rows,
                nr,
                c + 1,
            ).len();
        lemma_from_rows_cols(rows, c);
        lemma_col_nz_props(rows, c, nr);
    };
    assert forall|c: int, k1: int, k2: int|
        #![trigger u.col_start(c), u.indices[k1], u.indices[k2]]
        0 <= c < u.ncols && u.col_start(c) <= k1 < k2 < u.col_end(c) implies u.indices[k1]
        < u.indices[k2] by {
        lemma_cols_nz_len(rows, nr, c);
        lemma_cols_nz_len(rows, nr, c + 1);
        assert(c * nr <= bound && (c + 1) * nr <= bound) by (nonlinear_arith)
            requires 0 <= c < nc, 0 <= nr, nc * nr <= bound;
        lemma_from_rows_cols(rows, c);
        lemma_col_nz_props(rows, c, nr);
    };
}

/// Whether a dense matrix of the given shape fits the foreign index width.
pub open spec fn dims_in_bounds(nrows: usize, ncols: usize) -> bool {
    &&& nrows <= isize::MAX as usize
    &&& ncols < isize::MAX as usize
    &&& nrows * ncols <= isize::MAX as usize
}

/// The dense matrix over `vals` in column-major order: every position is a
/// stored entry, including exact zeros.
pub open spec fn dense_model(nrows: usize, ncols: usize, vals: Seq<u64>) -> CscModel {
    CscModel {
        nrows,
        ncols,
        indptr: Seq::new((ncols + 1) as nat, |c: int| (c * nrows) as usize),
        indices: Seq::new((nrows * ncols) as nat, |k: int| (k % (nrows as int)) as usize),
        data: vals.subrange(0, (nrows * ncols) as int),
    }
}

/// A row-major table rewritten in column-major order: position `k` of the
/// result, which is row `k % nrows` of column `k / nrows`, reads the
/// row-major table at that row and column.
pub open spec fn row_major_reordered(nrows: usize, ncols: usize, vals: Seq<u64>) -> Seq<u64> {
    Seq::new(
        (nrows * ncols) as nat,
        |k: int| vals[(k % (nrows as int)) * (ncols as int) + k / (nrows as int)],
    )
}

/// Reading the reordered table at a (row, column) position yields the
/// row-major table's value for that position.
pub proof fn lemma_row_major_entry(nrows: usize, ncols: usize, vals: Seq<u64>, rr: int, cc: int)
    requires
        dims_in_bounds(nrows, ncols),
        vals.len() >= nrows * ncols,
        0 <= rr < nrows,
        0 <= cc < ncols,
    ensures
        has_entry(dense_model(nrows, ncols, row_major_reordered(nrows, ncols, vals)), rr, cc),
        entry_at(dense_model(nrows, ncols, row_major_reordered(nrows, ncols, vals)), rr, cc)
            == vals[rr * ncols + cc],
{
    let n = nrows as int;
    let w = ncols as int;
    let re = row_major_reordered(nrows, ncols, vals);
    lemma_dense_entry(nrows, ncols, re, rr, cc);
    let k = cc * n + rr;
    assert(cc * n >= 0 && cc * n + n == (cc + 1) * n && (cc + 1) * n <= n * w)
        by (nonlinear_arith)
        requires 0 <= cc < w, 0 <= n;
    lemma_fundamental_div_mod_converse(k, n, cc, rr);
    assert(re[k] == vals[rr * w + cc]);
}

/// The dense matrix is valid.
pub proof fn lemma_dense_model(nrows: usize, ncols: usize, vals: Seq<u64>)
    requires
        dims_in_bounds(nrows, ncols),
        vals.len() >= nrows * ncols,
    ensures
        dense_model(nrows, ncols, vals).valid(),
{
    let u = dense_model(nrows, ncols, vals);
    let n = nrows as int;
    let bound = isize::MAX as int;
    assert forall|i: int, j: int| 0 <= i <= j <= ncols implies u.indptr[i] <= u.indptr[j] by {
        assert(i * n <= j * n <= bound) by (nonlinear_arith)
            requires 0 <= i <= j <= ncols, 0 <= n, n * (ncols as int) <= bound;
    };
    assert(u.indptr[ncols as int] == u.data.len()) by {
        assert((ncols as int) * n == n * (ncols as int)) by (nonlinear_arith);
    };
    assert forall|k: int| 0 <= k < u.indices.len() implies #[trigger] u.indices[k] < u.nrows by {
        assert(nrows * ncols > 0);
        assert(n > 0) by (nonlinear_arith)
            requires n * (ncols as int) > 0, 0 <= n;
        assert(0 <= k % n < n) by (nonlinear_arith)
            requires n > 0;
    };
    assert forall|c: int, k1: int, k2: int|
        #![trigger u.col_start(c), u.indices[k1], u.indices[k2]]
        0 <= c < u.ncols && u.col_start(c) <= k1 < k2 < u.col_end(c) implies u.indices[k1]
        < u.indices[k2] by {
        assert((c + 1) * n == c * n + n) by (nonlinear_arith);
        assert(c * n <= bound && (c + 1) * n <= bound) by (nonlinear_arith)
            requires 0 <= c < ncols, 0 <= n, n * (ncols as int) <= bound;
        lemma_fundamental_div_mod_converse(k1, n, c, k1 - c * n);
        lemma_fundamental_div_mod_converse(k2, n, c, k2 - c * n);
    };
}

/// In the dense matrix every position is stored, and it carries the value
/// the column-major table holds for it.
pub proof fn lemma_dense_entry(nrows: usize, ncols: usize, vals: Seq<u64>, rr: int, cc: int)
    requires
        dims_in_bounds(nrows, ncols),
        vals.len() >= nrows * ncols,
        0 <= rr < nrows,
        0 <= cc < ncols,
    ensures
        has_entry(dense_model(nrows, ncols, vals), rr, cc),
        entry_at(dense_model(nrows, ncols, vals), rr, cc) == vals[cc * nrows + rr],
{
    lemma_dense_model(nrows, ncols, vals);
    let u = dense_model(nrows, ncols, vals);
    let n = nrows as int;
    let bound = isize::MAX as int;
    let k = cc * n + rr;
    assert((cc + 1) * n == cc * n + n) by (nonlinear_arith);
    assert(cc * n >= 0 && cc * n <= bound && (cc + 1) * n <= n * (ncols as int))
        by (nonlinear_arith)
        requires 0 <= cc < ncols, 0 <= n, n * (ncols as int) <= bound;
    assert(u.col_start(cc) <= k < u.col_end(cc));
    assert(k < u.indices.len());
    lemma_fundamental_div_mod_converse(k, n, cc, rr);
    assert(u.indices[k] == rr);
    lemma_entry_at(u, rr, cc, k);
    assert(u.data[k] == vals[k]);
}

impl CscMatrix {
    /// Creates a dense CSC matrix with its elements filled with the
    /// components provided in column-major order.  Only the first
    /// `nrows * ncols` components are used.
    #[verifier::loop_isolation(false)]
    pub fn from_column_iter_dense(nrows: usize, ncols: usize, vals: &Vec<u64>) -> (res: CscMatrix)
        requires
            dims_in_bounds(nrows, ncols),
            vals@.len() >= nrows * ncols,
        ensures
            res@ == dense_model(nrows, ncols, vals@),
            res@.valid(),
    {
        let ghost n = nrows as int;
        let ghost bound = isize::MAX as int;
        let mut indptr: Vec<usize> = Vec::new();
        let mut indices: Vec<usize> = Vec::new();
        let mut data: Vec<u64> = Vec::new();
        indptr.push(0);
        let mut c: usize = 0;
        while c < ncols
            invariant
                c <= ncols,
                indptr@.len() == c + 1,
                forall|i: int| 0 <= i <= c ==> #[trigger] indptr@[i] == i * n,
                indices@.len() == c * n,
                data@.len() == indices@.len(),
                forall|k: int| 0 <= k < indices@.len() ==> #[trigger] indices@[k] == k % n,
                forall|k: int| 0 <= k < data@.len() ==> #[trigger] data@[k] == vals@[k],
            decreases ncols - c,
        {
            proof {
                assert(c * n >= 0 && c * n + n == (c + 1) * n && (c + 1) * n <= n * (
                ncols as int)) by (nonlinear_arith)
                    requires 0 <= c < ncols, 0 <= n;
                assert(n * (ncols as int) <= bound);
            }
            let base = c * nrows;
            let mut r: usize = 0;
            while r < nrows
                invariant
                    r <= nrows,
                    indices@.len() == c * n + r,
                    data@.len() == indices@.len(),
                    forall|k: int| 0 <= k < indices@.len() ==> #[trigger] indices@[k] == k % n,
                    forall|k: int| 0 <= k < data@.len() ==> #[trigger] data@[k] == vals@[k],
                decreases nrows - r,
            {
                indices.push(r);
                data.push(vals[base + r]);
                proof {
                    lemma_fundamental_div_mod_converse(c * n + r, n, c as int, r as int);
                }
                r += 1;
            }
            indptr.push(data.len());
            c += 1;
        }
        proof {
            lemma_dense_model(nrows, ncols, vals@);
            assert(c * n == n * (ncols as int)) by (nonlinear_arith)
                requires c == ncols;
        }
        let res = CscMatrix { nrows, ncols, indptr, indices, data };
        proof {
            let u = dense_model(nrows, ncols, vals@);
            assert(res.indptr@ =~= u.indptr);
            assert(res.indices@ =~= u.indices);
            assert(res.data@ =~= u.data);
            assert(res@ =~= u);
        }
        res
    }

    /// Creates a dense CSC matrix with its elements filled with the
    /// components provided in row-major order, following the usual
    /// mathematical writing, i.e. row by row.  Only the first
    /// `nrows * ncols` components are used.
    #[verifier::loop_isolation(false)]
    pub fn from_row_iter_dense(nrows: usize, ncols: usize, vals: &Vec<u64>) -> (res: CscMatrix)
        requires
            dims_in_bounds(nrows, ncols),
            vals@.len() >= nrows * ncols,
        ensures
            res@ == dense_model(nrows, ncols, row_major_reordered(nrows, ncols, vals@)),
            res@.valid(),
    {
        let ghost n = nrows as int;
        let ghost w = ncols as int;
        let mut reordered: Vec<u64> = Vec::new();
        let mut c: usize = 0;
        while c < ncols
            invariant
                c <= ncols,
                reordered@.len() == c * n,
                forall|k: int|
                    0 <= k < reordered@.len() ==> #[trigger] reordered@[k] == vals@[(k % n) * w + k
                        / n],
            decreases ncols - c,
        {
            proof {
                assert(c * n >= 0 && c * n + n == (c + 1) * n && (c + 1) * n <= n * w)
                    by (nonlinear_arith)
                    requires 0 <= c < w, 0 <= n;
                assert(n * w <= isize::MAX as int);
            }
            let mut r: usize = 0;
            while r < nrows
                invariant
                    r <= nrows,
                    reordered@.len() == c * n + r,
                    forall|k: int|
                        0 <= k < reordered@.len() ==> #[trigger] reordered@[k] == vals@[(k % n) * w
                            + k / n],
                decreases nrows - r,
            {
                proof {
                    assert(r * w + c < n * w) by (nonlinear_arith)
                        requires 0 <= r < n, 0 <= c < w;
                    assert(r * w + w == (r + 1) * w) by (nonlinear_arith);
                }
                let v = vals[r * ncols + c];
                reordered.push(v);
                proof {
                    lemma_fundamental_div_mod_converse(c * n + r, n, c as int, r as int);
                }
                r += 1;
            }
            c += 1;
        }
        proof {
            assert(c * n == n * w) by (nonlinear_arith)
                requires c as int == w;
        }
        let res = CscMatrix::from_column_iter_dense(nrows, ncols, &reordered);
        proof {
            assert(reordered@ =~= row_major_reordered(nrows, ncols, vals@));
        }
        res
    }
}

/// Conversion from dense to sparse preserves every explicitly non-zero
/// value exactly, and every skipped position reads back as an exact zero.
pub proof fn lemma_from_rows_round_trip(rows: Seq<Vec<u64>>, r: int, c: int)
    requires
        rect_rows(rows),
        rows_in_bounds(rows),
        0 <= r < rows.len(),
        0 <= c < rows[0]@.len(),
    ensures
        !is_zero_bits(rows[r]@[c]) ==> has_entry(from_rows_model(rows), r, c) && dense_at(
            from_rows_model(rows),
            r,
            c,
        ) == rows[r]@[c],
        is_zero_bits(rows[r]@[c]) ==> !has_entry(from_rows_model(rows), r, c) && is_zero_bits(
            dense_at(from_rows_model(rows), r, c),
        ),
{
    let u = from_rows_model(rows);
    let nr = rows.len() as int;
    lemma_from_rows_valid(rows);
    lemma_from_rows_cols(rows, c);
    lemma_col_nz_props(rows, c, nr);
    let off = cols_nz(rows, nr, c).len() as int;
    let col = col_nz(rows, c, nr);
    if !is_zero_bits(rows[r]@[c]) {
        let i = choose|i: int| 0 <= i < col.len() && (#[trigger] col[i]).0 == r;
        assert(0 <= i < col.len() && col[i].0 == r);
        assert(u.indices[off + i] == col[i].0);
        assert(u.col_start(c) <= off + i < u.col_end(c));
        lemma_entry_at(u, r, c, off + i);
        assert(u.data[off + i] == col[i].1);
        assert(col[i].1 == rows[r]@[c]);
    } else {
        if has_entry(u, r, c) {
            let k = choose|k: int|
                u.col_start(c) <= k < u.col_end(c) && #[trigger] u.indices[k] == r;
            assert(u.indices[k] == col[k - off].0);
            assert(!is_zero_bits(rows[(col[k - off]).0 as int]@[c]));
            assert(false);
        }
        assert(0u64 & 0x7FFF_FFFF_FFFF_FFFFu64 == 0u64) by (bit_vector);
        assert(is_zero_bits(0u64));
    }
}

/// A column pointer array of the wrong length refutes validity.
pub proof fn lemma_invalid_indptr_len(m: CscModel)
    requires
        m.indptr.len() != m.ncols + 1,
    ensures
        !m.valid(),
{
}

/// A decreasing step in the column pointer array refutes validity.
pub proof fn lemma_invalid_indptr_order(m: CscModel, c: int)
    requires
        0 <= c < m.ncols,
        m.indptr.len() == m.ncols + 1,
        m.indptr[c] > m.indptr[c + 1],
    ensures
        !m.valid(),
{
    assert(!(m.indptr[c] <= m.indptr[c + 1]));
}

/// A row index at or beyond the row count refutes validity.
pub proof fn lemma_invalid_row_bound(m: CscModel, k: int)
    requires
        0 <= k < m.indices.len(),
        m.indices[k] >= m.nrows,
    ensures
        !m.valid(),
{
}

/// Two non-increasing row indices within one column refute validity.
pub proof fn lemma_invalid_row_order(m: CscModel, c: int, k1: int, k2: int)
    requires
        0 <= c < m.ncols,
        m.indptr.len() == m.ncols + 1,
        m.col_start(c) <= k1 < k2 < m.col_end(c),
        m.indices[k1] >= m.indices[k2],
    ensures
        !m.valid(),
{
    assert(!(m.indices[k1] < m.indices[k2]));
}

/// On one column, tables with the same zero pattern keep the same rows.
proof fn lemma_col_nz_same(r1: Seq<Vec<u64>>, r2: Seq<Vec<u64>>, c: int, r: int)
    requires
        0 <= r,
        forall|rr: int|
            0 <= rr < r ==> is_zero_bits(#[trigger] r1[rr]@[c]) == is_zero_bits(r2[rr]@[c]),
    ensures
        col_nz(r1, c, r).len() == col_nz(r2, c, r).len(),
        forall|i: int|
            0 <= i < col_nz(r1, c, r).len()
                ==> (#[trigger] col_nz(r1, c, r)[i]).0 == (#[trigger] col_nz(r2, c, r)[i]).0,
    decreases r,
{
    if r > 0 {
        lemma_col_nz_same(r1, r2, c, r - 1);
    }
}

/// Tables with the same zero pattern keep the same rows in every column
/// prefix.
proof fn lemma_cols_nz_same(r1: Seq<Vec<u64>>, r2: Seq<Vec<u64>>, nr: int, c: int)
    requires
        0 <= nr,
        0 <= c,
        forall|rr: int, cc: int|
            0 <= rr < nr && 0 <= cc < c ==> is_zero_bits(#[trigger] r1[rr]@[cc]) == is_zero_bits(
                r2[rr]@[cc],
            ),
    ensures
        cols_nz(r1, nr, c).len() == cols_nz(r2, nr, c).len(),
        forall|i: int|
            0 <= i < cols_nz(r1, nr, c).len()
                ==> (#[trigger] cols_nz(r1, nr, c)[i]).0 == (#[trigger] cols_nz(r2, nr, c)[i]).0,
    decreases c,
{
    if c > 0 {
        lemma_cols_nz_same(r1, r2, nr, c - 1);
        lemma_col_nz_same(r1, r2, c - 1, nr);
    }
}

/// Two dense tables of the same shape build matrices with the same sparsity
/// structure exactly when their zero patterns agree at every position.
pub proof fn lemma_from_rows_structure(r1: Seq<Vec<u64>>, r2: Seq<Vec<u64>>)
    requires
        rect_rows(r1),
        rect_rows(r2),
        rows_in_bounds(r1),
        rows_in_bounds(r2),
        r1.len() == r2.len(),
        r1.len() > 0 ==> r1[0]@.len() == r2[0]@.len(),
    ensures
        same_structure(from_rows_model(r1), from_rows_model(r2)) <==> (forall|r: int, c: int|
            0 <= r < r1.len() && 0 <= c < r1[0]@.len() ==> is_zero_bits(#[trigger] r1[r]@[c])
                == is_zero_bits(r2[r]@[c])),
{
    let u1 = from_rows_model(r1);
    let u2 = from_rows_model(r2);
    let nr = r1.len() as int;
    let nc = if r1.len() > 0 {
        r1[0]@.len() as int
    } else {
        0
    };
    if forall|r: int, c: int|
        0 <= r < r1.len() && 0 <= c < r1[0]@.len() ==> is_zero_bits(#[trigger] r1[r]@[c])
            == is_zero_bits(r2[r]@[c]) {
        assert forall|c: int| 0 <= c <= nc implies #[trigger] cols_nz(r1, nr, c).len() == cols_nz(
            r2,
            nr,
            c,
        ).len() by {
            lemma_cols_nz_same(r1, r2, nr, c);
        };
        lemma_cols_nz_same(r1, r2, nr, nc);
        assert(u1.indptr =~= u2.indptr);
        assert(u1.indices =~= u2.indices);
        assert(same_structure(u1, u2));
    } else {
        let (r, c) = choose|r: int, c: int|
            0 <= r < r1.len() && 0 <= c < r1[0]@.len() && is_zero_bits(#[trigger] r1[r]@[c])
                != is_zero_bits(r2[r]@[c]);
        lemma_from_rows_round_trip(r1, r, c);
        lemma_from_rows_round_trip(r2, r, c);
        assert(has_entry(u1, r, c) != has_entry(u2, r, c));
        if same_structure(u1, u2) {
            if has_entry(u1, r, c) {
                let k = choose|k: int|
                    u1.col_start(c) <= k < u1.col_end(c) && #[trigger] u1.indices[k] == r;
                assert(u2.indices[k] == r);
                assert(has_entry(u2, r, c));
            } else {
                let k = choose|k: int|
                    u2.col_start(c) <= k < u2.col_end(c) && #[trigger] u2.indices[k] == r;
                assert(u1.indices[k] == r);
                assert(has_entry(u1, r, c));
            }
            assert(false);
        }
    }
}

} // verus!
