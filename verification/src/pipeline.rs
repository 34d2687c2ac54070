//! Reordering of eigenvector matrices, the bookkeeping step of covariance
//! cleaning: after the eigenvalues are sorted, the eigenvector columns follow.
use vstd::prelude::*;
use vstd::arithmetic::div_mod::{lemma_fundamental_div_mod, lemma_fundamental_div_mod_converse};

verus! {

/// Position of entry `(r, j)` in a row-major matrix with `cols` columns.
pub open spec fn flat_index(r: int, j: int, cols: int) -> int {
    r * cols + j
}

/// Entry `(r, j)` of the column permutation of `m` by `idx`: column `j` of
/// the result is column `idx[j]` of `m`; columns past `idx` hold `fill`.
pub open spec fn spec_permuted_entry<T>(
    m: Seq<T>,
    cols: int,
    idx: Seq<usize>,
    fill: T,
    r: int,
    j: int,
) -> T {
    if j < idx.len() {
        m[flat_index(r, idx[j] as int, cols)]
    } else {
        fill
    }
}

/// The column permutation of a row-major `rows × cols` matrix `m` by `idx`,
/// as a whole.
pub open spec fn spec_permuted<T>(m: Seq<T>, rows: int, cols: int, idx: Seq<usize>, fill: T) -> Seq<T> {
    Seq::new(
        (rows * cols) as nat,
        |q: int| spec_permuted_entry(m, cols, idx, fill, q / cols, q % cols),
    )
}

/// Row and column of a position inside a `rows × cols` matrix.
proof fn lemma_row_col(q: int, rows: int, cols: int)
    requires
        0 <= rows,
        0 <= q < rows * cols,
    ensures
        cols > 0,
        0 <= q / cols < rows,
        0 <= q % cols < cols,
        flat_index(q / cols, q % cols, cols) == q,
{
    assert(cols > 0) by (nonlinear_arith)
        requires
            0 <= q < rows * cols,
            0 <= rows,
    ;
    lemma_fundamental_div_mod(q, cols);
    assert(q / cols * cols == cols * (q / cols)) by (nonlinear_arith);
    assert(0 <= q / cols < rows) by (nonlinear_arith)
        requires
            0 <= q < rows * cols,
            cols > 0,
            q == cols * (q / cols) + q % cols,
            0 <= q % cols < cols,
    ;
}

/// The position of entry `(a, b)` decomposes back into `a` and `b`.
proof fn lemma_flat_decomposes(a: int, b: int, cols: int)
    requires
        0 <= a,
        0 <= b < cols,
    ensures
        flat_index(a, b, cols) / cols == a,
        flat_index(a, b, cols) % cols == b,
{
    lemma_fundamental_div_mod_converse(flat_index(a, b, cols), cols, a, b);
}

proof fn lemma_flat_bounds(r: int, j: int, rows: int, cols: int)
    requires
        0 <= r < rows,
        0 <= j < cols,
    ensures
        0 <= flat_index(r, j, cols) < rows * cols,
        flat_index(r, j, cols) + 1 <= flat_index(r + 1, 0, cols),
        flat_index(r, cols, cols) == flat_index(r + 1, 0, cols),
{
    assert(0 <= r * cols) by (nonlinear_arith)
        requires
            0 <= r,
            0 <= j < cols,
    ;
    assert(r * cols + j < rows * cols) by (nonlinear_arith)
        requires
            0 <= r < rows,
            0 <= j < cols,
    ;
    assert((r + 1) * cols == r * cols + cols) by (nonlinear_arith);
}

/// Permute the columns of a row-major `rows × cols` matrix: column `j` of the
/// result is column `idx[j]` of `eigenvectors`, and the columns that `idx`
/// does not reach are filled with `fill`.
pub fn permute_eigenvectors<T: Copy>(
    eigenvectors: &Vec<T>,
    rows: usize,
    cols: usize,
    idx: &Vec<usize>,
    fill: T,
) -> (r: Vec<T>)
    requires
        eigenvectors@.len() == rows * cols,
        rows * cols <= usize::MAX,
        idx@.len() <= cols,
        forall|j: int| 0 <= j < idx@.len() ==> idx@[j] < cols,
    ensures
        r@ == spec_permuted(eigenvectors@, rows as int, cols as int, idx@, fill),
{
    let mut out: Vec<T> = Vec::new();
    let mut row: usize = 0;
    while row < rows
        invariant
            eigenvectors@.len() == rows * cols,
            rows * cols <= usize::MAX,
            idx@.len() <= cols,
            forall|j: int| 0 <= j < idx@.len() ==> idx@[j] < cols,
            row <= rows,
            out@.len() == flat_index(row as int, 0, cols as int),
            forall|a: int, b: int|
                0 <= a < row && 0 <= b < cols ==> #[trigger] out@[flat_index(a, b, cols as int)]
                    == spec_permuted_entry(eigenvectors@, cols as int, idx@, fill, a, b),
        decreases rows - row,
    {
        let mut col: usize = 0;
        while col < cols
            invariant
                eigenvectors@.len() == rows * cols,
                rows * cols <= usize::MAX,
                idx@.len() <= cols,
                forall|j: int| 0 <= j < idx@.len() ==> idx@[j] < cols,
                row < rows,
                col <= cols,
                out@.len() == flat_index(row as int, col as int, cols as int),
                forall|a: int, b: int|
                    0 <= a < row && 0 <= b < cols ==> #[trigger] out@[flat_index(
                        a,
                        b,
                        cols as int,
                    )] == spec_permuted_entry(eigenvectors@, cols as int, idx@, fill, a, b),
                forall|b: int|
                    0 <= b < col ==> #[trigger] out@[flat_index(row as int, b, cols as int)]
                        == spec_permuted_entry(eigenvectors@, cols as int, idx@, fill, row as int, b),
            decreases cols - col,
        {
            proof {
                lemma_flat_bounds(row as int, col as int, rows as int, cols as int);
            }
            let v = if col < idx.len() {
                let src = idx[col];
                proof {
                    lemma_flat_bounds(row as int, src as int, rows as int, cols as int);
                }
                eigenvectors[row * cols + src]
            } else {
                fill
            };
            let ghost before = out@;
            out.push(v);
            proof {
                assert forall|a: int, b: int|
                    0 <= a < row && 0 <= b < cols implies #[trigger] out@[flat_index(
                        a,
                        b,
                        cols as int,
                    )] == spec_permuted_entry(eigenvectors@, cols as int, idx@, fill, a, b) by {
                    lemma_flat_bounds(a, b, row as int, cols as int);
                    assert(before[flat_index(a, b, cols as int)] == out@[flat_index(a, b, cols as int)]);
                }
                assert forall|b: int|
                    0 <= b < col + 1 implies #[trigger] out@[flat_index(row as int, b, cols as int)]
                        == spec_permuted_entry(eigenvectors@, cols as int, idx@, fill, row as int, b) by {
                    if b < col {
                        assert(before[flat_index(row as int, b, cols as int)] == out@[flat_index(
                            row as int,
                            b,
                            cols as int,
                        )]);
                    }
                }
            }
            col = col + 1;
        }
        proof {
            assert((row as int + 1) * cols == row as int * cols + cols) by (nonlinear_arith);
            assert(flat_index(row as int, cols as int, cols as int) == flat_index(row as int + 1, 0, cols as int));
        }
        row = row + 1;
    }
    proof {
        assert(flat_index(rows as int, 0, cols as int) == rows * cols);
        assert forall|q: int| 0 <= q < rows * cols implies out@[q] == spec_permuted(
            eigenvectors@,
            rows as int,
            cols as int,
            idx@,
            fill,
        )[q] by {
            lemma_row_col(q, rows as int, cols as int);
            assert(out@[flat_index(q / cols as int, q % cols as int, cols as int)] == spec_permuted_entry(eigenvectors@, cols as int, idx@, fill, q / cols as int, q % cols as int));
        }
        assert(out@ =~= spec_permuted(eigenvectors@, rows as int, cols as int, idx@, fill));
    }
    out
}

/// Permuting the columns by `idx` and then by its inverse `inv` (the
/// permutation with `idx[inv[b]] == b`) gives the matrix back.
pub proof fn lemma_permute_roundtrip<T>(
    m: Seq<T>,
    rows: int,
    cols: int,
    idx: Seq<usize>,
    inv: Seq<usize>,
    fill: T,
)
    requires
        0 <= rows,
        m.len() == rows * cols,
        idx.len() == cols,
        inv.len() == cols,
        forall|b: int| 0 <= b < cols ==> #[trigger] inv[b] < cols,
        forall|b: int| 0 <= b < cols ==> idx[#[trigger] inv[b] as int] == b,
    ensures
        spec_permuted(spec_permuted(m, rows, cols, idx, fill), rows, cols, inv, fill) == m,
{
    let once = spec_permuted(m, rows, cols, idx, fill);
    let twice = spec_permuted(once, rows, cols, inv, fill);
    assert forall|q: int| 0 <= q < m.len() implies twice[q] == m[q] by {
        lemma_row_col(q, rows, cols);
        let a = q / cols;
        let b = q % cols;
        let c = inv[b] as int;
        lemma_flat_bounds(a, c, rows, cols);
        lemma_flat_decomposes(a, c, cols);
        assert(twice[q] == once[flat_index(a, c, cols)]);
        assert(idx[c] == b);
    }
    assert(twice =~= m);
}

} // verus!
