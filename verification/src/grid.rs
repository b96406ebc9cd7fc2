//! A rectangular grid of counters, stored row-major.
//!
//! Out-of-range reads answer `None` and out-of-range writes answer
//! `Err`, so a caller walking dynamic-programming indices can rely on
//! the bounds check instead of repeating it.

use vstd::prelude::*;

verus! {

/// Rows and columns stay the same for the grid's whole life; only the
/// cells change.
pub struct Grid {
    rows: usize,
    cols: usize,
    data: Vec<usize>,
}

/// Row-major position of cell `(row, col)` in a grid `cols` wide.
pub open spec fn flat_index(row: int, col: int, cols: int) -> int {
    row * cols + col
}

/// An in-range cell's flat index is in range of the backing store.
proof fn lemma_flat_index_in_range(row: int, col: int, rows: int, cols: int)
    by (nonlinear_arith)
    requires
        0 <= row < rows,
        0 <= col < cols,
    ensures
        0 <= flat_index(row, col, cols) < rows * cols,
{
}

/// Distinct in-range cells live at distinct flat indices.
proof fn lemma_flat_index_injective(r1: int, c1: int, r2: int, c2: int, cols: int)
    by (nonlinear_arith)
    requires
        0 <= c1 < cols,
        0 <= c2 < cols,
        0 <= r1,
        0 <= r2,
        flat_index(r1, c1, cols) == flat_index(r2, c2, cols),
    ensures
        r1 == r2 && c1 == c2,
{
}

impl Grid {
    /// The backing store covers exactly the advertised rectangle.
    pub closed spec fn wf(&self) -> bool {
        &&& self.data@.len() == self.rows * self.cols
        &&& self.rows * self.cols <= usize::MAX
    }

    pub closed spec fn spec_rows(&self) -> usize {
        self.rows
    }

    pub closed spec fn spec_cols(&self) -> usize {
        self.cols
    }

    /// The value of cell `(row, col)`.
    pub closed spec fn spec_at(&self, row: int, col: int) -> usize {
        self.data@[flat_index(row, col, self.cols as int)]
    }

    /// A `rows` by `cols` grid with every cell zero.
    pub fn new(rows: usize, cols: usize) -> (r: Grid)
        requires
            rows * cols <= usize::MAX,
        ensures
            r.wf(),
            r.spec_rows() == rows,
            r.spec_cols() == cols,
            forall|i: int, j: int|
                0 <= i < rows && 0 <= j < cols ==> #[trigger] r.spec_at(i, j) == 0,
    {
        let n = rows * cols;
        let mut data: Vec<usize> = Vec::new();
        let mut k: usize = 0;
        while k < n
            invariant
                k <= n,
                data@.len() == k,
                forall|t: int| 0 <= t < k ==> #[trigger] data@[t] == 0,
            decreases n - k,
        {
            data.push(0);
            k += 1;
        }
        let r = Grid { rows, cols, data };
        proof {
            assert forall|i: int, j: int|
                0 <= i < rows && 0 <= j < cols implies #[trigger] r.spec_at(i, j) == 0 by {
                lemma_flat_index_in_range(i, j, rows as int, cols as int);
            }
        }
        r
    }

    /// The grid's dimensions, rows first.
    pub fn size(&self) -> (r: (usize, usize))
        ensures
            r.0 == self.spec_rows(),
            r.1 == self.spec_cols(),
    {
        (self.rows, self.cols)
    }

    /// The value at `(row, col)`, or `None` outside the rectangle.
    pub fn get(&self, row: usize, col: usize) -> (r: Option<usize>)
        requires
            self.wf(),
        ensures
            r == if row < self.spec_rows() && col < self.spec_cols() {
                Some(self.spec_at(row as int, col as int))
            } else {
                Option::<usize>::None
            },
    {
        if row < self.rows && col < self.cols {
            proof {
                lemma_flat_index_in_range(row as int, col as int, self.rows as int,
                    self.cols as int);
                assert(row * self.cols + col == flat_index(row as int, col as int,
                    self.cols as int)) by (nonlinear_arith);
            }
            Some(self.data[row * self.cols + col])
        } else {
            None
        }
    }

    /// Store `val` at `(row, col)`, leaving every other cell as it
    /// was; `Err` outside the rectangle, with nothing changed.
    pub fn set(&mut self, row: usize, col: usize, val: usize) -> (r: Result<(), ()>)
        requires
            old(self).wf(),
        ensures
            final(self).wf(),
            final(self).spec_rows() == old(self).spec_rows(),
            final(self).spec_cols() == old(self).spec_cols(),
            if row < old(self).spec_rows() && col < old(self).spec_cols() {
                &&& r is Ok
                &&& final(self).spec_at(row as int, col as int) == val
                &&& forall|i: int, j: int|
                    0 <= i < old(self).spec_rows() && 0 <= j < old(self).spec_cols() && !(i == row
                        && j == col) ==> #[trigger] final(self).spec_at(i, j) == old(self).spec_at(
                        i,
                        j,
                    )
            } else {
                r is Err && *final(self) == *old(self)
            },
    {
        if row < self.rows && col < self.cols {
            proof {
                lemma_flat_index_in_range(row as int, col as int, self.rows as int,
                    self.cols as int);
                assert(row * self.cols + col == flat_index(row as int, col as int,
                    self.cols as int)) by (nonlinear_arith);
            }
            let k = row * self.cols + col;
            self.data.set(k, val);
            proof {
                assert forall|i: int, j: int|
                    0 <= i < self.spec_rows() && 0 <= j < self.spec_cols() && !(i == row && j
                        == col) implies #[trigger] self.spec_at(i, j) == old(self).spec_at(i, j) by {
                    lemma_flat_index_in_range(i, j, self.rows as int, self.cols as int);
                    if flat_index(i, j, self.cols as int) == flat_index(row as int, col as int,
                        self.cols as int) {
                        lemma_flat_index_injective(i, j, row as int, col as int, self.cols as int);
                    }
                }
            }
            Ok(())
        } else {
            Err(())
        }
    }
}

} // verus!
