//! The mathematical meaning of the operations: sums, products and index maps
//! over sequences, with the lemmas that the kernels' proofs rest on.
use vstd::prelude::*;

verus! {

pub open spec fn abs(x: int) -> int {
    if x < 0 {
        -x
    } else {
        x
    }
}

/// Σ_{i<n} a[i]·b[i].
pub open spec fn dot_upto(a: Seq<i64>, b: Seq<i64>, n: int) -> int
    decreases n,
{
    if n <= 0 {
        0
    } else {
        dot_upto(a, b, n - 1) + a[n - 1] * b[n - 1]
    }
}

/// Σ_{i<n} |a[i]·b[i]|: a bound on every partial sum of the products, in any order.
pub open spec fn abs_dot_upto(a: Seq<i64>, b: Seq<i64>, n: int) -> int
    decreases n,
{
    if n <= 0 {
        0
    } else {
        abs_dot_upto(a, b, n - 1) + abs(a[n - 1] * b[n - 1])
    }
}

/// The dot product of two real vectors.
pub open spec fn dot_spec(a: Seq<i64>, b: Seq<i64>) -> int {
    dot_upto(a, b, a.len() as int)
}

/// Σ |a[i]·b[i]|: the dot product can be computed in `i64`, in any order,
/// when this fits.
pub open spec fn abs_dot_spec(a: Seq<i64>, b: Seq<i64>) -> int {
    abs_dot_upto(a, b, a.len() as int)
}

/// Σ_{i<n} s[i].
pub open spec fn sum_upto(s: Seq<i64>, n: int) -> int
    decreases n,
{
    if n <= 0 {
        0
    } else {
        sum_upto(s, n - 1) + s[n - 1]
    }
}

/// Σ_{i<n} |s[i]|.
pub open spec fn abs_sum_upto(s: Seq<i64>, n: int) -> int
    decreases n,
{
    if n <= 0 {
        0
    } else {
        abs_sum_upto(s, n - 1) + abs(s[n - 1] as int)
    }
}

pub proof fn lemma_abs_dot_monotone(a: Seq<i64>, b: Seq<i64>, i: int, j: int)
    requires
        0 <= i <= j,
    ensures
        0 <= abs_dot_upto(a, b, i) <= abs_dot_upto(a, b, j),
    decreases j,
{
    if j > i {
        lemma_abs_dot_monotone(a, b, i, j - 1);
    } else if i > 0 {
        lemma_abs_dot_monotone(a, b, i - 1, i - 1);
    }
}

pub proof fn lemma_dot_bounded(a: Seq<i64>, b: Seq<i64>, n: int)
    ensures
        abs(dot_upto(a, b, n)) <= abs_dot_upto(a, b, n),
    decreases n,
{
    if n > 0 {
        lemma_dot_bounded(a, b, n - 1);
    }
}

pub proof fn lemma_abs_sum_monotone(s: Seq<i64>, i: int, j: int)
    requires
        0 <= i <= j,
    ensures
        0 <= abs_sum_upto(s, i) <= abs_sum_upto(s, j),
    decreases j,
{
    if j > i {
        lemma_abs_sum_monotone(s, i, j - 1);
    } else if i > 0 {
        lemma_abs_sum_monotone(s, i - 1, i - 1);
    }
}

pub proof fn lemma_sum_bounded(s: Seq<i64>, n: int)
    ensures
        abs(sum_upto(s, n)) <= abs_sum_upto(s, n),
    decreases n,
{
    if n > 0 {
        lemma_sum_bounded(s, n - 1);
    }
}

pub proof fn lemma_elem_le_abs_sum(s: Seq<i64>, n: int, j: int)
    requires
        0 <= j < n,
    ensures
        abs(s[j] as int) <= abs_sum_upto(s, n),
    decreases n,
{
    if j < n - 1 {
        lemma_elem_le_abs_sum(s, n - 1, j);
        lemma_abs_sum_monotone(s, n - 1, n - 1);
    } else {
        lemma_abs_sum_monotone(s, n - 1, n - 1);
    }
}

/// Changing one element changes a prefix sum by the difference.
pub proof fn lemma_sum_update(s: Seq<i64>, n: int, j: int, v: i64)
    requires
        0 <= j < n <= s.len(),
    ensures
        sum_upto(s.update(j, v), n) == sum_upto(s, n) - s[j] + v,
        abs_sum_upto(s.update(j, v), n) == abs_sum_upto(s, n) - abs(s[j] as int) + abs(
            v as int,
        ),
    decreases n,
{
    if j < n - 1 {
        lemma_sum_update(s, n - 1, j, v);
    } else {
        lemma_sum_unchanged(s, s.update(j, v), n - 1);
    }
}

/// Prefix sums depend on the prefix only.
pub proof fn lemma_sum_unchanged(s: Seq<i64>, t: Seq<i64>, n: int)
    requires
        n <= s.len(),
        n <= t.len(),
        forall|i: int| 0 <= i < n ==> s[i] == t[i],
    ensures
        sum_upto(s, n) == sum_upto(t, n),
        abs_sum_upto(s, n) == abs_sum_upto(t, n),
    decreases n,
{
    if n > 0 {
        lemma_sum_unchanged(s, t, n - 1);
    }
}

} // verus!

verus! {

pub proof fn lemma_sum_zeros(s: Seq<i64>, n: int)
    requires
        n <= s.len(),
        forall|i: int| 0 <= i < n ==> s[i] == 0,
    ensures
        sum_upto(s, n) == 0,
        abs_sum_upto(s, n) == 0,
    decreases n,
{
    if n > 0 {
        lemma_sum_zeros(s, n - 1);
    }
}

} // verus!

verus! {

/// Division that rounds toward zero, as integer division does on the machine.
pub open spec fn trunc_div(x: int, d: int) -> int {
    let q = abs(x) / abs(d);
    if (x < 0) != (d < 0) {
        -q
    } else {
        q
    }
}

/// A binary operator applied position by position.
#[derive(Clone, Copy, Debug, PartialEq, Eq, Structural)]
pub enum ElementOp {
    Add,
    Sub,
    Mul,
    Div,
}

/// The exact value of `x op y`.
pub open spec fn op_value(op: ElementOp, x: i64, y: i64) -> int {
    match op {
        ElementOp::Add => x + y,
        ElementOp::Sub => x - y,
        ElementOp::Mul => x * y,
        ElementOp::Div => trunc_div(x as int, y as int),
    }
}

/// `x op y` is defined and fits in an `i64`.
pub open spec fn op_defined(op: ElementOp, x: i64, y: i64) -> bool {
    &&& (op == ElementOp::Div ==> y != 0)
    &&& i64::MIN <= op_value(op, x, y) <= i64::MAX
}

/// `op` is defined at every position of `a` and `b`.
pub open spec fn elementwise_defined(op: ElementOp, a: Seq<i64>, b: Seq<i64>) -> bool {
    forall|i: int| 0 <= i < a.len() ==> op_defined(op, a[i], b[i])
}

/// The vector of `a[i] op b[i]`.
pub open spec fn elementwise_spec(op: ElementOp, a: Seq<i64>, b: Seq<i64>) -> Seq<i64> {
    Seq::new(a.len(), |i: int| op_value(op, a[i], b[i]) as i64)
}

} // verus!

verus! {

/// The transpose that has `columns` columns: `s` holds a row-major matrix of
/// `rows = s.len() / columns` columns, and position `row * columns + col` of
/// the result holds position `col * rows + row` of `s`.
pub open spec fn transpose_spec<T>(s: Seq<T>, columns: int) -> Seq<T> {
    let rows: int = s.len() as int / columns;
    Seq::new(s.len(), |i: int| s[(i % columns) * rows + i / columns])
}

/// Position `(r, c)` of a row-major grid of `cols` columns.
pub proof fn lemma_grid_index(r: int, c: int, rows: int, cols: int)
    requires
        0 <= r < rows,
        0 <= c < cols,
    ensures
        0 <= r * cols + c < rows * cols,
        (r * cols + c) / cols == r,
        (r * cols + c) % cols == c,
{
    assert(0 <= r * cols) by (nonlinear_arith)
        requires
            0 <= r,
            0 <= c < cols,
    ;
    assert(r * cols + c < rows * cols) by (nonlinear_arith)
        requires
            0 <= r < rows,
            0 <= c < cols,
    ;
    vstd::arithmetic::div_mod::lemma_fundamental_div_mod_converse(r * cols + c, cols, r, c);
}

/// Element `(i, j)` of a `rows × cols` matrix held in `s`: row-major, or, when
/// `trans`, as the row-major `cols × rows` matrix that is its transpose.
pub open spec fn mat_elem(s: Seq<i64>, rows: int, cols: int, trans: bool, i: int, j: int) -> i64 {
    if trans {
        s[j * rows + i]
    } else {
        s[i * cols + j]
    }
}

/// Σ_{q<p} A(i,q)·B(q,j), with A of `m × k` and B of `k × n`.
pub open spec fn mm_upto(
    a: Seq<i64>,
    b: Seq<i64>,
    m: int,
    n: int,
    k: int,
    at: bool,
    bt: bool,
    i: int,
    j: int,
    p: int,
) -> int
    decreases p,
{
    if p <= 0 {
        0
    } else {
        mm_upto(a, b, m, n, k, at, bt, i, j, p - 1) + mat_elem(a, m, k, at, i, p - 1) * mat_elem(
            b,
            k,
            n,
            bt,
            p - 1,
            j,
        )
    }
}

/// Σ_{q<p} |A(i,q)·B(q,j)|.
pub open spec fn mm_abs_upto(
    a: Seq<i64>,
    b: Seq<i64>,
    m: int,
    n: int,
    k: int,
    at: bool,
    bt: bool,
    i: int,
    j: int,
    p: int,
) -> int
    decreases p,
{
    if p <= 0 {
        0
    } else {
        mm_abs_upto(a, b, m, n, k, at, bt, i, j, p - 1) + abs(
            mat_elem(a, m, k, at, i, p - 1) * mat_elem(b, k, n, bt, p - 1, j),
        )
    }
}

/// Every entry of the product can be computed in `i64`.
pub open spec fn matmul_defined(
    a: Seq<i64>,
    b: Seq<i64>,
    m: int,
    n: int,
    k: int,
    at: bool,
    bt: bool,
) -> bool {
    forall|i: int, j: int|
        0 <= i < m && 0 <= j < n ==> #[trigger] mm_abs_upto(a, b, m, n, k, at, bt, i, j, k)
            <= i64::MAX
}

/// The row-major `m × n` product of the `m × k` matrix held in `a` and the
/// `k × n` matrix held in `b`.
pub open spec fn matmul_spec(
    a: Seq<i64>,
    b: Seq<i64>,
    m: int,
    n: int,
    k: int,
    at: bool,
    bt: bool,
) -> Seq<i64> {
    Seq::new((m * n) as nat, |x: int| mm_upto(a, b, m, n, k, at, bt, x / n, x % n, k) as i64)
}

pub proof fn lemma_mm_bounded(
    a: Seq<i64>,
    b: Seq<i64>,
    m: int,
    n: int,
    k: int,
    at: bool,
    bt: bool,
    i: int,
    j: int,
    p: int,
    q: int,
)
    requires
        0 <= p <= q,
    ensures
        abs(mm_upto(a, b, m, n, k, at, bt, i, j, p)) <= mm_abs_upto(a, b, m, n, k, at, bt, i, j, p),
        0 <= mm_abs_upto(a, b, m, n, k, at, bt, i, j, p) <= mm_abs_upto(
            a,
            b,
            m,
            n,
            k,
            at,
            bt,
            i,
            j,
            q,
        ),
    decreases q,
{
    if q > p {
        lemma_mm_bounded(a, b, m, n, k, at, bt, i, j, p, q - 1);
    } else if p > 0 {
        lemma_mm_bounded(a, b, m, n, k, at, bt, i, j, p - 1, p - 1);
    }
}

} // verus!
