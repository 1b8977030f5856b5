//! The native backend.
use vstd::prelude::*;
use super::{Addition, Divition, DotProduct, MatrixMul, Multiplication, Subtraction, Transpose};
use crate::algebra::{
    abs_dot_spec, abs_dot_upto, abs_sum_upto, dot_spec, dot_upto, elementwise_defined,
    elementwise_spec, lemma_abs_dot_monotone, lemma_abs_sum_monotone, lemma_dot_bounded,
    lemma_elem_le_abs_sum, lemma_grid_index, lemma_mm_bounded, lemma_sum_bounded, lemma_sum_update,
    lemma_sum_zeros, matmul_defined, matmul_spec, mm_abs_upto, mm_upto, op_defined, op_value,
    sum_upto, transpose_spec, ElementOp,
};
use crate::num::{
    cdot_abs_upto, cdot_im_upto, cdot_re_upto, cdot_spec, lemma_cdot_bounded, Complex,
};
use crate::traits::StaticVec;

verus! {

/// The native backend: portable kernels that process a vector in chunks of
/// SIMD width, then finish the remainder element by element.
#[derive(Clone, Copy, Debug, Default)]
pub struct Rust;

/// Lanes of a 64-bit element in one 256-bit register: what
/// `simd_lanes::max_for_type::<i64>()` gives.
pub const LANES_64: usize = 4;

impl DotProduct<i64> for Rust {
    open spec fn dot_defined(a: Seq<i64>, b: Seq<i64>) -> bool {
        abs_dot_spec(a, b) <= i64::MAX
    }

    open spec fn dot_result(a: Seq<i64>, b: Seq<i64>) -> i64 {
        dot_spec(a, b) as i64
    }

    /// Products accumulate lane by lane in one accumulator per lane; the lanes
    /// are then summed, and the last `LEN % LANES_64` products added one by one.
    fn dot<const LEN: usize, A: StaticVec<i64, LEN>, B: StaticVec<i64, LEN>>(&self, a: &A, b: &B) -> (r: i64) {
        proof {
            a.lemma_elems_len();
            b.lemma_elems_len();
        }
        let ghost sa = a.elems();
        let ghost sb = b.elems();
        let mut acc: [i64; 4] = [0i64, 0i64, 0i64, 0i64];
        proof {
            lemma_sum_zeros(acc@, 4);
        }
        let chunks: usize = LEN / LANES_64;
        let mut c: usize = 0;
        while c < chunks
            invariant
                chunks == LEN / LANES_64,
                c <= chunks,
                sa == a.elems(),
                sb == b.elems(),
                sa.len() == LEN,
                sb.len() == LEN,
                abs_dot_upto(sa, sb, LEN as int) <= i64::MAX,
                sum_upto(acc@, 4) == dot_upto(sa, sb, c * 4),
                abs_sum_upto(acc@, 4) <= abs_dot_upto(sa, sb, c * 4),
            decreases chunks - c,
        {
            let mut j: usize = 0;
            while j < LANES_64
                invariant
                    chunks == LEN / LANES_64,
                    c < chunks,
                    j <= 4,
                    sa == a.elems(),
                    sb == b.elems(),
                    sa.len() == LEN,
                    sb.len() == LEN,
                    abs_dot_upto(sa, sb, LEN as int) <= i64::MAX,
                    sum_upto(acc@, 4) == dot_upto(sa, sb, c * 4 + j),
                    abs_sum_upto(acc@, 4) <= abs_dot_upto(sa, sb, c * 4 + j),
                decreases 4 - j,
            {
                let idx: usize = c * LANES_64 + j;
                proof {
                    lemma_abs_dot_monotone(sa, sb, idx as int + 1, LEN as int);
                    lemma_abs_dot_monotone(sa, sb, idx as int, idx as int);
                }
                let p: i64 = *a.get_unchecked(idx) * *b.get_unchecked(idx);
                let old_lane: i64 = acc[j];
                proof {
                    lemma_elem_le_abs_sum(acc@, 4, j as int);
                }
                let new_lane: i64 = old_lane + p;
                proof {
                    lemma_sum_update(acc@, 4, j as int, new_lane);
                }
                acc[j] = new_lane;
                j += 1;
            }
            c += 1;
        }
        proof {
            lemma_abs_dot_monotone(sa, sb, chunks * 4, LEN as int);
        }
        let mut sum: i64 = 0;
        let mut j: usize = 0;
        while j < LANES_64
            invariant
                j <= 4,
                sum == sum_upto(acc@, j as int),
                abs_sum_upto(acc@, 4) <= i64::MAX,
            decreases 4 - j,
        {
            proof {
                lemma_sum_bounded(acc@, j as int + 1);
                lemma_abs_sum_monotone(acc@, j as int + 1, 4);
            }
            sum = sum + acc[j];
            j += 1;
        }
        let mut i: usize = LEN - LEN % LANES_64;
        assert(i == chunks * 4);
        while i < LEN
            invariant
                chunks * 4 <= i <= LEN,
                sa == a.elems(),
                sb == b.elems(),
                sa.len() == LEN,
                sb.len() == LEN,
                abs_dot_upto(sa, sb, LEN as int) <= i64::MAX,
                sum == dot_upto(sa, sb, i as int),
            decreases LEN - i,
        {
            proof {
                lemma_abs_dot_monotone(sa, sb, i as int + 1, LEN as int);
                lemma_abs_dot_monotone(sa, sb, i as int, i as int);
                lemma_dot_bounded(sa, sb, i as int + 1);
            }
            let p: i64 = *a.get_unchecked(i) * *b.get_unchecked(i);
            sum = sum + p;
            i += 1;
        }
        sum
    }
}

} // verus!

verus! {

/// `x op y` on machine integers.
fn apply_op(op: ElementOp, x: i64, y: i64) -> (r: i64)
    requires
        op_defined(op, x, y),
    ensures
        r == op_value(op, x, y),
{
    match op {
        ElementOp::Add => x + y,
        ElementOp::Sub => x - y,
        ElementOp::Mul => x * y,
        ElementOp::Div => {
            let q = x.checked_div(y);
            match q {
                Some(v) => v,
                None => vstd::pervasive::unreached(),
            }
        },
    }
}

impl Rust {
    /// Writes `a[i] op b[i]` into `c[i]`: full chunks of SIMD width first,
    /// then the remainder one position at a time.
    pub fn elementwise<const LEN: usize, A: StaticVec<i64, LEN>, B: StaticVec<i64, LEN>>(
        &self,
        op: ElementOp,
        a: &A,
        b: &B,
        c: &mut [i64; LEN],
    )
        requires
            elementwise_defined(op, a.elems(), b.elems()),
        ensures
            final(c)@ == elementwise_spec(op, a.elems(), b.elems()),
    {
        proof {
            a.lemma_elems_len();
            b.lemma_elems_len();
        }
        let chunks: usize = LEN / LANES_64;
        let mut n: usize = 0;
        while n < chunks
            invariant
                chunks == LEN / LANES_64,
                n <= chunks,
                a.elems().len() == LEN,
                b.elems().len() == LEN,
                elementwise_defined(op, a.elems(), b.elems()),
                forall|k: int| 0 <= k < n * 4 ==> c@[k] == op_value(op, a.elems()[k], b.elems()[k]) as i64,
            decreases chunks - n,
        {
            let mut j: usize = 0;
            while j < LANES_64
                invariant
                    chunks == LEN / LANES_64,
                    n < chunks,
                    j <= 4,
                    a.elems().len() == LEN,
                    b.elems().len() == LEN,
                    elementwise_defined(op, a.elems(), b.elems()),
                    forall|k: int|
                        0 <= k < n * 4 + j ==> c@[k] == op_value(op, a.elems()[k], b.elems()[k]) as i64,
                decreases 4 - j,
            {
                let idx: usize = n * LANES_64 + j;
                c[idx] = apply_op(op, *a.get_unchecked(idx), *b.get_unchecked(idx));
                j += 1;
            }
            n += 1;
        }
        let mut i: usize = LEN - LEN % LANES_64;
        while i < LEN
            invariant
                i <= LEN,
                a.elems().len() == LEN,
                b.elems().len() == LEN,
                elementwise_defined(op, a.elems(), b.elems()),
                forall|k: int| 0 <= k < i ==> c@[k] == op_value(op, a.elems()[k], b.elems()[k]) as i64,
            decreases LEN - i,
        {
            c[i] = apply_op(op, *a.get_unchecked(i), *b.get_unchecked(i));
            i += 1;
        }
        assert(c@ =~= elementwise_spec(op, a.elems(), b.elems()));
    }
}

} // verus!

verus! {

impl Addition for Rust {
    fn add<const LEN: usize, A: StaticVec<i64, LEN>, B: StaticVec<i64, LEN>>(
        &self,
        a: &A,
        b: &B,
        c: &mut [i64; LEN],
    ) {
        self.elementwise(ElementOp::Add, a, b, c);
    }
}

impl Subtraction for Rust {
    fn sub<const LEN: usize, A: StaticVec<i64, LEN>, B: StaticVec<i64, LEN>>(
        &self,
        a: &A,
        b: &B,
        c: &mut [i64; LEN],
    ) {
        self.elementwise(ElementOp::Sub, a, b, c);
    }
}

impl Multiplication for Rust {
    fn mul<const LEN: usize, A: StaticVec<i64, LEN>, B: StaticVec<i64, LEN>>(
        &self,
        a: &A,
        b: &B,
        c: &mut [i64; LEN],
    ) {
        self.elementwise(ElementOp::Mul, a, b, c);
    }
}

impl Divition for Rust {
    fn div<const LEN: usize, A: StaticVec<i64, LEN>, B: StaticVec<i64, LEN>>(
        &self,
        a: &A,
        b: &B,
        c: &mut [i64; LEN],
    ) {
        self.elementwise(ElementOp::Div, a, b, c);
    }
}

impl<T: Copy> Transpose<T> for Rust {
    /// Walks the result in storage order, row by row.
    fn transpose<const LEN: usize, A: StaticVec<T, LEN>>(&self, a: &A, buffer: &mut [T; LEN], columns: usize) {
        proof {
            a.lemma_elems_len();
            vstd::arithmetic::div_mod::lemma_fundamental_div_mod(LEN as int, columns as int);
        }
        let rows: usize = LEN / columns;
        assert(rows * columns == LEN) by (nonlinear_arith)
            requires
                LEN == columns * rows + 0,
        ;
        let ghost s = a.elems();
        let mut row: usize = 0;
        let mut o: usize = 0;
        while row < rows
            invariant
                s == a.elems(),
                s.len() == LEN,
                rows == LEN / columns,
                rows * columns == LEN,
                row <= rows,
                o == row * columns,
                forall|x: int| 0 <= x < o ==> buffer@[x] == transpose_spec(s, columns as int)[x],
            decreases rows - row,
        {
            let mut col: usize = 0;
            while col < columns
                invariant
                    s == a.elems(),
                    s.len() == LEN,
                    rows == LEN / columns,
                    rows * columns == LEN,
                    row < rows,
                    col <= columns,
                    o == row * columns + col,
                    forall|x: int| 0 <= x < o ==> buffer@[x] == transpose_spec(s, columns as int)[x],
                decreases columns - col,
            {
                proof {
                    lemma_grid_index(row as int, col as int, rows as int, columns as int);
                    lemma_grid_index(col as int, row as int, columns as int, rows as int);
                    assert(columns * rows == LEN) by (nonlinear_arith)
                        requires
                            rows * columns == LEN,
                    ;
                }
                buffer[o] = *a.get_unchecked(col * rows + row);
                col += 1;
                o += 1;
            }
            assert(o == (row + 1) * columns) by (nonlinear_arith)
                requires
                    o == row * columns + columns,
            ;
            row += 1;
        }
        assert(buffer@ =~= transpose_spec(s, columns as int));
    }

    /// Transposes through a scratch copy of the input.
    fn transpose_inplace<const LEN: usize>(&self, a: &mut [T; LEN], columns: usize) {
        let scratch: [T; LEN] = *a;
        self.transpose(&scratch, a, columns);
    }
}

impl MatrixMul for Rust {
    fn matrix_mul<
        const ALEN: usize,
        const BLEN: usize,
        const CLEN: usize,
        A: StaticVec<i64, ALEN>,
        B: StaticVec<i64, BLEN>,
    >(
        &self,
        a: &A,
        b: &B,
        buffer: &mut [i64; CLEN],
        m: usize,
        n: usize,
        k: usize,
        a_trans: bool,
        b_trans: bool,
    ) {
        proof {
            a.lemma_elems_len();
            b.lemma_elems_len();
        }
        let ghost sa = a.elems();
        let ghost sb = b.elems();
        let ghost spec_c = matmul_spec(sa, sb, m as int, n as int, k as int, a_trans, b_trans);
        let mut i: usize = 0;
        let mut o: usize = 0;
        while i < m
            invariant
                sa == a.elems(),
                sb == b.elems(),
                sa.len() == ALEN,
                sb.len() == BLEN,
                ALEN == m * k,
                BLEN == k * n,
                CLEN == m * n,
                spec_c == matmul_spec(sa, sb, m as int, n as int, k as int, a_trans, b_trans),
                matmul_defined(sa, sb, m as int, n as int, k as int, a_trans, b_trans),
                i <= m,
                o == i * n,
                forall|x: int| 0 <= x < o ==> buffer@[x] == spec_c[x],
            decreases m - i,
        {
            let mut j: usize = 0;
            while j < n
                invariant
                    sa == a.elems(),
                    sb == b.elems(),
                    sa.len() == ALEN,
                    sb.len() == BLEN,
                    ALEN == m * k,
                    BLEN == k * n,
                    CLEN == m * n,
                    spec_c == matmul_spec(sa, sb, m as int, n as int, k as int, a_trans, b_trans),
                    matmul_defined(sa, sb, m as int, n as int, k as int, a_trans, b_trans),
                    i < m,
                    j <= n,
                    o == i * n + j,
                    forall|x: int| 0 <= x < o ==> buffer@[x] == spec_c[x],
                decreases n - j,
            {
                proof {
                    lemma_grid_index(i as int, j as int, m as int, n as int);
                    assert(mm_abs_upto(sa, sb, m as int, n as int, k as int, a_trans, b_trans, i as int, j as int, k as int) <= i64::MAX);
                }
                let mut acc: i64 = 0;
                let mut p: usize = 0;
                while p < k
                    invariant
                        sa == a.elems(),
                        sb == b.elems(),
                        sa.len() == ALEN,
                        sb.len() == BLEN,
                        ALEN == m * k,
                        BLEN == k * n,
                        i < m,
                        j < n,
                        p <= k,
                        mm_abs_upto(sa, sb, m as int, n as int, k as int, a_trans, b_trans, i as int, j as int, k as int) <= i64::MAX,
                        acc == mm_upto(sa, sb, m as int, n as int, k as int, a_trans, b_trans, i as int, j as int, p as int),
                    decreases k - p,
                {
                    let x: i64 = if a_trans {
                        proof {
                            lemma_grid_index(p as int, i as int, k as int, m as int);
                            assert(k * m == m * k) by (nonlinear_arith);
                        }
                        *a.get_unchecked(p * m + i)
                    } else {
                        proof {
                            lemma_grid_index(i as int, p as int, m as int, k as int);
                        }
                        *a.get_unchecked(i * k + p)
                    };
                    let y: i64 = if b_trans {
                        proof {
                            lemma_grid_index(j as int, p as int, n as int, k as int);
                            assert(n * k == k * n) by (nonlinear_arith);
                        }
                        *b.get_unchecked(j * k + p)
                    } else {
                        proof {
                            lemma_grid_index(p as int, j as int, k as int, n as int);
                        }
                        *b.get_unchecked(p * n + j)
                    };
                    proof {
                        lemma_mm_bounded(sa, sb, m as int, n as int, k as int, a_trans, b_trans, i as int, j as int, p as int + 1, k as int);
                        lemma_mm_bounded(sa, sb, m as int, n as int, k as int, a_trans, b_trans, i as int, j as int, p as int, p as int);
                    }
                    acc = acc + x * y;
                    p += 1;
                }
                buffer[o] = acc;
                j += 1;
                o += 1;
            }
            assert(o == (i + 1) * n) by (nonlinear_arith)
                requires
                    o == i * n + n,
            ;
            i += 1;
        }
        assert(buffer@ =~= spec_c);
    }

    /// The product with a single column.
    fn matrix_vector_mul<
        const ALEN: usize,
        const XLEN: usize,
        const CLEN: usize,
        A: StaticVec<i64, ALEN>,
        X: StaticVec<i64, XLEN>,
    >(&self, a: &A, x: &X, buffer: &mut [i64; CLEN], m: usize, k: usize, a_trans: bool) {
        self.matrix_mul(a, x, buffer, m, 1, k, a_trans, false);
    }
}

} // verus!

verus! {

impl DotProduct<Complex> for Rust {
    open spec fn dot_defined(a: Seq<Complex>, b: Seq<Complex>) -> bool {
        cdot_abs_upto(a, b, a.len() as int) <= i64::MAX
    }

    open spec fn dot_result(a: Seq<Complex>, b: Seq<Complex>) -> Complex {
        cdot_spec(a, b)
    }

    /// The unconjugated complex dot product, accumulated element by element.
    fn dot<const LEN: usize, A: StaticVec<Complex, LEN>, B: StaticVec<Complex, LEN>>(&self, a: &A, b: &B) -> (r: Complex) {
        proof {
            a.lemma_elems_len();
            b.lemma_elems_len();
        }
        let ghost sa = a.elems();
        let ghost sb = b.elems();
        let mut re: i64 = 0;
        let mut im: i64 = 0;
        let mut i: usize = 0;
        while i < LEN
            invariant
                i <= LEN,
                sa == a.elems(),
                sb == b.elems(),
                sa.len() == LEN,
                sb.len() == LEN,
                cdot_abs_upto(sa, sb, LEN as int) <= i64::MAX,
                re == cdot_re_upto(sa, sb, i as int),
                im == cdot_im_upto(sa, sb, i as int),
            decreases LEN - i,
        {
            proof {
                lemma_cdot_bounded(sa, sb, i as int + 1, LEN as int);
                lemma_cdot_bounded(sa, sb, i as int, i as int);
            }
            let x = *a.get_unchecked(i);
            let y = *b.get_unchecked(i);
            let p = x.mul(y);
            re = re + p.re;
            im = im + p.im;
            i += 1;
        }
        Complex { re, im }
    }
}

} // verus!
