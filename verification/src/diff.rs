//! Line diffing via the longest-common-subsequence table.
//!
//! `lcs` fills a grid with the classic dynamic program; `diff` walks
//! the filled table back from the bottom-right corner and reconstructs
//! which lines the two files share and which belong to one side only.

use vstd::prelude::*;
use crate::grid::Grid;

verus! {

/// The length of the longest common subsequence of `a.take(i)` and
/// `b.take(j)`, comparing lines by their text.
pub open spec fn lcs_len(a: Seq<String>, b: Seq<String>, i: int, j: int) -> nat
    decreases i + j,
{
    if i <= 0 || j <= 0 {
        0
    } else if a[i - 1]@ == b[j - 1]@ {
        lcs_len(a, b, i - 1, j - 1) + 1
    } else if lcs_len(a, b, i - 1, j) >= lcs_len(a, b, i, j - 1) {
        lcs_len(a, b, i - 1, j)
    } else {
        lcs_len(a, b, i, j - 1)
    }
}

/// A common subsequence is never longer than either prefix.
proof fn lemma_lcs_len_bound(a: Seq<String>, b: Seq<String>, i: int, j: int)
    ensures
        lcs_len(a, b, i, j) <= i || lcs_len(a, b, i, j) == 0,
        lcs_len(a, b, i, j) <= j || lcs_len(a, b, i, j) == 0,
    decreases i + j,
{
    if i <= 0 || j <= 0 {
    } else {
        lemma_lcs_len_bound(a, b, i - 1, j - 1);
        lemma_lcs_len_bound(a, b, i - 1, j);
        lemma_lcs_len_bound(a, b, i, j - 1);
    }
}

/// Is `g` the LCS table of `a` against `b`, filled through every cell?
pub open spec fn is_lcs_table(g: Grid, a: Seq<String>, b: Seq<String>) -> bool {
    &&& g.wf()
    &&& g.spec_rows() == a.len() + 1
    &&& g.spec_cols() == b.len() + 1
    &&& forall|i: int, j: int|
        0 <= i <= a.len() && 0 <= j <= b.len() ==> #[trigger] g.spec_at(i, j) == lcs_len(a, b, i, j)
}

/// Fill the longest-common-subsequence table of the two line lists:
/// cell `(i, j)` holds the LCS length of the first `i` lines of `seq1`
/// against the first `j` lines of `seq2`.
pub fn lcs(seq1: &Vec<String>, seq2: &Vec<String>) -> (r: Grid)
    requires
        (seq1@.len() + 1) * (seq2@.len() + 1) <= usize::MAX,
    ensures
        is_lcs_table(r, seq1@, seq2@),
{
    let n_rows = seq1.len();
    let m_rows = seq2.len();
    proof {
        assert((n_rows + 1) * (m_rows + 1) >= n_rows + 1 && (n_rows + 1) * (m_rows + 1) >= m_rows
            + 1) by (nonlinear_arith);
    }
    let mut dp = Grid::new(n_rows + 1, m_rows + 1);
    let mut i: usize = 0;
    while i < n_rows
        invariant
            i <= n_rows,
            n_rows == seq1@.len(),
            m_rows == seq2@.len(),
            dp.wf(),
            dp.spec_rows() == n_rows + 1,
            dp.spec_cols() == m_rows + 1,
            forall|ii: int| 0 <= ii <= n_rows ==> #[trigger] dp.spec_at(ii, 0) == 0,
            forall|ii: int, jj: int|
                0 <= ii <= i && 0 <= jj <= m_rows ==> #[trigger] dp.spec_at(ii, jj) == lcs_len(
                    seq1@,
                    seq2@,
                    ii,
                    jj,
                ),
        decreases n_rows - i,
    {
        let mut j: usize = 0;
        while j < m_rows
            invariant
                i < n_rows,
                j <= m_rows,
                n_rows == seq1@.len(),
                m_rows == seq2@.len(),
                dp.wf(),
                dp.spec_rows() == n_rows + 1,
                dp.spec_cols() == m_rows + 1,
                forall|ii: int| 0 <= ii <= n_rows ==> #[trigger] dp.spec_at(ii, 0) == 0,
                forall|ii: int, jj: int|
                    0 <= ii <= i && 0 <= jj <= m_rows ==> #[trigger] dp.spec_at(ii, jj) == lcs_len(
                        seq1@,
                        seq2@,
                        ii,
                        jj,
                    ),
                forall|jj: int|
                    0 <= jj <= j ==> #[trigger] dp.spec_at(i + 1, jj) == lcs_len(
                        seq1@,
                        seq2@,
                        i + 1,
                        jj,
                    ),
            decreases m_rows - j,
        {
            let here: usize = if seq1[i].eq(&seq2[j]) {
                let diag = match dp.get(i, j) {
                    Some(x) => x,
                    None => 0,
                };
                proof {
                    lemma_lcs_len_bound(seq1@, seq2@, i as int, j as int);
                }
                diag + 1
            } else {
                let up = match dp.get(i, j + 1) {
                    Some(x) => x,
                    None => 0,
                };
                let left = match dp.get(i + 1, j) {
                    Some(x) => x,
                    None => 0,
                };
                if up >= left {
                    up
                } else {
                    left
                }
            };
            let ok = dp.set(i + 1, j + 1, here);
            assert(ok is Ok);
            j += 1;
        }
        i += 1;
    }
    dp
}

/// One line of a diff: shared by both files, only in the first, or
/// only in the second.
#[derive(Debug, PartialEq)]
pub enum DiffLine {
    Same(String),
    OnlyFirst(String),
    OnlySecond(String),
}

/// The diff that walking the LCS table back from `(i, j)` yields:
/// matching tails come out as `Same`; otherwise the table decides
/// which side's line goes first, second-file lines winning ties.
pub open spec fn diff_spec(l1: Seq<String>, l2: Seq<String>, i: int, j: int) -> Seq<DiffLine>
    decreases i + j,
{
    if i < 0 || j < 0 {
        Seq::empty()
    } else if i > 0 && j > 0 && l1[i - 1]@ == l2[j - 1]@ {
        diff_spec(l1, l2, i - 1, j - 1).push(DiffLine::Same(l1[i - 1]))
    } else if j > 0 && (i <= 0 || lcs_len(l1, l2, i, j - 1) >= lcs_len(l1, l2, i - 1, j)) {
        diff_spec(l1, l2, i, j - 1).push(DiffLine::OnlySecond(l2[j - 1]))
    } else if i > 0 && (j <= 0 || lcs_len(l1, l2, i, j - 1) < lcs_len(l1, l2, i - 1, j)) {
        diff_spec(l1, l2, i - 1, j).push(DiffLine::OnlyFirst(l1[i - 1]))
    } else {
        Seq::empty()
    }
}

/// Walk the filled LCS table back from `(i, j)` and report, in file
/// order, which lines the two files share and which stand in only one.
pub fn diff(lcs_table: &Grid, lines1: &Vec<String>, lines2: &Vec<String>, i: usize, j: usize) -> (r:
    Vec<DiffLine>)
    requires
        is_lcs_table(*lcs_table, lines1@, lines2@),
        i <= lines1@.len(),
        j <= lines2@.len(),
    ensures
        r@ == diff_spec(lines1@, lines2@, i as int, j as int),
    decreases i + j,
{
    if i > 0 && j > 0 && lines1[i - 1].eq(&lines2[j - 1]) {
        let mut r = diff(lcs_table, lines1, lines2, i - 1, j - 1);
        r.push(DiffLine::Same(lines1[i - 1].clone()));
        r
    } else {
        let skip_second = if j > 0 {
            if i == 0 {
                true
            } else {
                let left = match lcs_table.get(i, j - 1) {
                    Some(x) => x,
                    None => 0,
                };
                let up = match lcs_table.get(i - 1, j) {
                    Some(x) => x,
                    None => 0,
                };
                left >= up
            }
        } else {
            false
        };
        if skip_second {
            let mut r = diff(lcs_table, lines1, lines2, i, j - 1);
            r.push(DiffLine::OnlySecond(lines2[j - 1].clone()));
            r
        } else if i > 0 {
            let mut r = diff(lcs_table, lines1, lines2, i - 1, j);
            r.push(DiffLine::OnlyFirst(lines1[i - 1].clone()));
            r
        } else {
            Vec::new()
        }
    }
}

} // verus!
