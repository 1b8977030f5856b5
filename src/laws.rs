//! Properties that relate several operations.
use vstd::prelude::*;
use crate::algebra::{lemma_grid_index, mat_elem, matmul_spec, mm_upto, transpose_spec};
use crate::tensor::Matrix;

verus! {

/// Transposing twice gives the matrix back: the transpose of a row-major
/// matrix of `columns` columns has `s.len() / columns` columns, and
/// transposing that with its own column count restores `s`.
pub proof fn law_transpose_involution<T>(s: Seq<T>, columns: int)
    requires
        columns > 0,
        s.len() as int % columns == 0,
    ensures
        transpose_spec(transpose_spec(s, columns), s.len() as int / columns) == s,
{
    let len = s.len() as int;
    let rows = len / columns;
    vstd::arithmetic::div_mod::lemma_fundamental_div_mod(len, columns);
    assert(len == rows * columns) by (nonlinear_arith)
        requires
            len == columns * rows + 0,
    ;
    let t = transpose_spec(s, columns);
    if rows > 0 {
        vstd::arithmetic::div_mod::lemma_fundamental_div_mod_converse(len, rows, columns, 0);
        let u = transpose_spec(t, rows);
        assert forall|i: int| 0 <= i < len implies u[i] == s[i] by {
            // i = a * rows + b
            let a = i / rows;
            let b = i % rows;
            vstd::arithmetic::div_mod::lemma_fundamental_div_mod(i, rows);
            assert(0 <= a < columns) by (nonlinear_arith)
                requires
                    i == rows * a + b,
                    0 <= b < rows,
                    0 <= i < rows * columns,
            ;
            assert(i == a * rows + b);
            lemma_grid_index(a, b, columns, rows);
            // u[i] = t[b * columns + a] = s[a * rows + b]
            lemma_grid_index(b, a, rows, columns);
        }
        assert(u =~= s);
    } else {
        assert(t =~= s);
    }
}

/// The lazily transposed view of a matrix has the swapped dimensions, and
/// its element at `(r, c)` is the element of the matrix at `(c, r)`.
pub proof fn law_transposed_view<'a, 'b, T: Copy, B, const LEN: usize>(
    m: Matrix<'a, T, B, LEN>,
    t: Matrix<'b, T, B, LEN>,
)
    requires
        m.wf(),
        t.elems() == m.elems(),
        t.dims() == m.dims(),
        t.trans_spec() == !m.trans_spec(),
    ensures
        t.rows_spec() == m.cols_spec(),
        t.cols_spec() == m.rows_spec(),
        forall|r: int, c: int|
            0 <= r < t.rows_spec() && 0 <= c < t.cols_spec() ==> #[trigger] t.elem(r, c) == m.elem(
                c,
                r,
            ),
{
}

/// Transposing a matrix twice gives the same logical element at every index.
pub proof fn law_transpose_twice<'a, 'b, T: Copy, B, const LEN: usize>(
    m: Matrix<'a, T, B, LEN>,
    t: Matrix<'b, T, B, LEN>,
    tt: Matrix<'b, T, B, LEN>,
)
    requires
        m.wf(),
        t.elems() == m.elems(),
        t.dims() == m.dims(),
        t.trans_spec() == !m.trans_spec(),
        tt.elems() == t.elems(),
        tt.dims() == t.dims(),
        tt.trans_spec() == !t.trans_spec(),
    ensures
        tt.rows_spec() == m.rows_spec(),
        tt.cols_spec() == m.cols_spec(),
        forall|r: int, c: int|
            0 <= r < m.rows_spec() && 0 <= c < m.cols_spec() ==> #[trigger] tt.elem(r, c) == m.elem(
                r,
                c,
            ),
{
}

} // verus!

verus! {

/// Σ_{q<p} a(i,q)·b(q,j) over the logical elements of two matrices.
pub open spec fn logical_product_upto<'a, 'b, B, const LEN: usize, const LEN2: usize>(
    a: Matrix<'a, i64, B, LEN>,
    b: Matrix<'b, i64, B, LEN2>,
    i: int,
    j: int,
    p: int,
) -> int
    decreases p,
{
    if p <= 0 {
        0
    } else {
        logical_product_upto(a, b, i, j, p - 1) + a.elem(i, p - 1) * b.elem(p - 1, j)
    }
}

/// The product computed from storage and transpose flags is the product of
/// the logical matrices: entry `(i, j)` is Σ_p a(i,p)·b(p,j), whether or not
/// either operand is lazily transposed.
pub proof fn law_matrix_mul_entry<'a, 'b, B, const LEN: usize, const LEN2: usize>(
    a: Matrix<'a, i64, B, LEN>,
    b: Matrix<'b, i64, B, LEN2>,
    i: int,
    j: int,
)
    requires
        a.wf(),
        b.wf(),
        a.cols_spec() == b.rows_spec(),
        0 <= i < a.rows_spec(),
        0 <= j < b.cols_spec(),
    ensures
        matmul_spec(
            a.elems(),
            b.elems(),
            a.rows_spec(),
            b.cols_spec(),
            a.cols_spec(),
            a.trans_spec(),
            b.trans_spec(),
        )[i * b.cols_spec() + j] == logical_product_upto(a, b, i, j, a.cols_spec()) as i64,
{
    let m = a.rows_spec();
    let n = b.cols_spec();
    let k = a.cols_spec();
    a.lemma_wf();
    b.lemma_wf();
    lemma_grid_index(i, j, m, n);
    lemma_product_agrees(a, b, i, j, k);
}

proof fn lemma_product_agrees<'a, 'b, B, const LEN: usize, const LEN2: usize>(
    a: Matrix<'a, i64, B, LEN>,
    b: Matrix<'b, i64, B, LEN2>,
    i: int,
    j: int,
    p: int,
)
    requires
        a.wf(),
        b.wf(),
        a.cols_spec() == b.rows_spec(),
        0 <= i < a.rows_spec(),
        0 <= j < b.cols_spec(),
        0 <= p <= a.cols_spec(),
    ensures
        mm_upto(
            a.elems(),
            b.elems(),
            a.rows_spec(),
            b.cols_spec(),
            a.cols_spec(),
            a.trans_spec(),
            b.trans_spec(),
            i,
            j,
            p,
        ) == logical_product_upto(a, b, i, j, p),
    decreases p,
{
    if p > 0 {
        lemma_product_agrees(a, b, i, j, p - 1);
        a.lemma_wf();
        b.lemma_wf();
        let q = p - 1;
        assert(mat_elem(a.elems(), a.rows_spec(), a.cols_spec(), a.trans_spec(), i, q) == a.elem(i, q)) by {
            assert(i * a.cols_spec() + q == q + i * a.cols_spec());
            assert(q * a.rows_spec() + i == i + q * a.rows_spec());
        }
        assert(mat_elem(b.elems(), b.rows_spec(), b.cols_spec(), b.trans_spec(), q, j) == b.elem(q, j)) by {
            assert(q * b.cols_spec() + j == j + q * b.cols_spec());
            assert(j * b.rows_spec() + q == q + j * b.rows_spec());
        }
    }
}

} // verus!
