//! Shapes: the extent of each axis of a tensor, its volume, and the map from
//! a multi-dimensional index to a position in the flat storage.
use vstd::prelude::*;

verus! {

/// Π_{j<n} s[j].
pub open spec fn product(s: Seq<usize>, n: int) -> int
    decreases n,
{
    if n <= 0 {
        1
    } else {
        product(s, n - 1) * s[n - 1]
    }
}

/// The number of elements of a tensor of shape `s`.
pub open spec fn volume_spec(s: Seq<usize>) -> int {
    product(s, s.len() as int)
}

/// Σ_{j<n} o[j]·Π_{i<j} s[i].
pub open spec fn index_upto(s: Seq<usize>, o: Seq<usize>, n: int) -> int
    decreases n,
{
    if n <= 0 {
        0
    } else {
        index_upto(s, o, n - 1) + o[n - 1] * product(s, n - 1)
    }
}

/// The position of index `o` in the flat storage of a tensor of shape `s`:
/// axis 0 varies fastest.
pub open spec fn linear_index(s: Seq<usize>, o: Seq<usize>) -> int {
    index_upto(s, o, s.len() as int)
}

/// `o` names an element of a tensor of shape `s`.
pub open spec fn index_in_bounds(s: Seq<usize>, o: Seq<usize>) -> bool {
    &&& o.len() == s.len()
    &&& forall|n: int| 0 <= n < s.len() ==> o[n] < s[n]
}

pub proof fn lemma_product_nonneg(s: Seq<usize>, n: int)
    ensures
        product(s, n) >= 0,
    decreases n,
{
    if n > 0 {
        lemma_product_nonneg(s, n - 1);
        let p = product(s, n - 1);
        let d = s[n - 1] as int;
        assert(p * d >= 0) by (nonlinear_arith)
            requires
                p >= 0,
                d >= 0,
        ;
    }
}

/// With no zero axis, a prefix product never exceeds a longer one.
pub proof fn lemma_product_monotone(s: Seq<usize>, i: int, j: int)
    requires
        0 <= i <= j <= s.len(),
        forall|n: int| 0 <= n < s.len() ==> s[n] >= 1,
    ensures
        1 <= product(s, i) <= product(s, j),
    decreases j,
{
    if j > i {
        lemma_product_monotone(s, i, j - 1);
        let p = product(s, j - 1);
        let d = s[j - 1] as int;
        assert(p <= p * d) by (nonlinear_arith)
            requires
                p >= 1,
                d >= 1,
        ;
    } else if i > 0 {
        lemma_product_monotone(s, i - 1, i - 1);
        let p = product(s, i - 1);
        let d = s[i - 1] as int;
        assert(1 <= p * d) by (nonlinear_arith)
            requires
                p >= 1,
                d >= 1,
        ;
    }
}

/// An index in bounds lands below the volume of the axes it has walked.
pub proof fn lemma_index_below_product(s: Seq<usize>, o: Seq<usize>, n: int)
    requires
        index_in_bounds(s, o),
        0 <= n <= s.len(),
    ensures
        0 <= index_upto(s, o, n) < product(s, n),
    decreases n,
{
    if n > 0 {
        lemma_index_below_product(s, o, n - 1);
        lemma_product_nonneg(s, n - 1);
        let x = index_upto(s, o, n - 1);
        let p = product(s, n - 1);
        let on = o[n - 1] as int;
        let d = s[n - 1] as int;
        assert(x + on * p < p * d && 0 <= on * p) by (nonlinear_arith)
            requires
                0 <= x < p,
                0 <= on < d,
        ;
    }
}

/// The extent of each axis, axis 0 first.
pub struct Shape(pub Vec<usize>);

impl View for Shape {
    type V = Seq<usize>;

    open spec fn view(&self) -> Seq<usize> {
        self.0@
    }
}

impl Shape {
    /// Number of axes.
    pub fn ndim(&self) -> (r: usize)
        ensures
            r == self@.len(),
    {
        self.0.len()
    }

    /// Length of axis `n`.
    pub fn axis_len(&self, n: usize) -> (r: usize)
        requires
            n < self@.len(),
        ensures
            r == self@[n as int],
    {
        self.0[n]
    }

    /// The number of elements, or `None` when it does not fit in a `usize`.
    pub fn volume(&self) -> (r: Option<usize>)
        ensures
            r == (if volume_spec(self@) <= usize::MAX {
                Some(volume_spec(self@) as usize)
            } else {
                None::<usize>
            }),
    {
        let s = &self.0;
        let ghost d = self@;
        let mut z: usize = 0;
        while z < s.len()
            invariant
                z <= d.len(),
                d == s@,
                d == self@,
                forall|n: int| 0 <= n < z ==> d[n] >= 1,
            decreases d.len() - z,
        {
            if s[z] == 0 {
                proof {
                    lemma_product_zero(d, z as int + 1, d.len() as int);

                }
                return Some(0);
            }
            z += 1;
        }
        let mut acc: usize = 1;
        let mut i: usize = 0;
        while i < s.len()
            invariant
                i <= d.len(),
                d == s@,
                d == self@,
                forall|n: int| 0 <= n < d.len() ==> d[n] >= 1,
                acc == product(d, i as int),
            decreases d.len() - i,
        {
            match acc.checked_mul(s[i]) {
                Some(v) => {
                    acc = v;
                },
                None => {
                    proof {
                        lemma_product_monotone(d, i as int + 1, d.len() as int);
                    }
                    return None;
                },
            }
            i += 1;
        }
        proof {
            lemma_product_nonneg(d, d.len() as int);
        }
        Some(acc)
    }
}

/// A zero axis makes every longer product zero.
pub proof fn lemma_product_zero(s: Seq<usize>, i: int, j: int)
    requires
        0 < i <= j <= s.len(),
        s[i - 1] == 0,
    ensures
        product(s, j) == 0,
    decreases j,
{
    if j > i {
        lemma_product_zero(s, i, j - 1);
    }
}

/// The number of elements of a tensor of shape `i`.
pub fn area(i: &Shape) -> (r: usize)
    requires
        volume_spec(i@) <= usize::MAX,
    ensures
        r == volume_spec(i@),
{
    proof {
        lemma_product_nonneg(i@, i@.len() as int);
    }
    match i.volume() {
        Some(v) => v,
        None => vstd::pervasive::unreached(),
    }
}

/// The shape of a matrix of `M` rows and `K` columns, written width first.
pub fn matrix_shape<const K: usize, const M: usize>() -> (r: Shape)
    ensures
        r@ == seq![K, M],
{
    let r = Shape(vec![K, M]);
    assert(r@ =~= seq![K, M]);
    r
}

/// Position of the element at index `o` in the flat storage of a tensor of
/// shape `s`. Every component must lie inside its axis.
pub fn tensor_index(s: &Shape, o: &[usize]) -> (r: usize)
    requires
        index_in_bounds(s@, o@),
        volume_spec(s@) <= usize::MAX,
    ensures
        r == linear_index(s@, o@),
        r < volume_spec(s@),
{
    let ghost d = s@;
    proof {
        assert forall|n: int| 0 <= n < d.len() implies d[n] >= 1 by {
            assert(o@[n] < d[n]);
        }
        lemma_index_below_product(d, o@, d.len() as int);
    }
    let mut sum: usize = 0;
    let mut product_so_far: usize = 1;
    let mut n: usize = 0;
    while n < s.ndim()
        invariant
            d == s@,
            n <= d.len(),
            index_in_bounds(d, o@),
            volume_spec(d) <= usize::MAX,
            forall|k: int| 0 <= k < d.len() ==> d[k] >= 1,
            sum == index_upto(d, o@, n as int),
            product_so_far == product(d, n as int),
        decreases d.len() - n,
    {
        let i = o[n];
        let j = s.axis_len(n);
        proof {
            lemma_index_below_product(d, o@, n as int + 1);
            lemma_product_monotone(d, n as int + 1, d.len() as int);
        }
        sum = sum + i * product_so_far;
        product_so_far = product_so_far * j;
        n += 1;
    }
    sum
}

/// The shape of a matrix of `M` rows and `K` columns, fixed at compile time.
#[derive(Clone, Copy, Debug)]
pub struct MatrixShape<const M: usize, const K: usize>;

impl<const M: usize, const K: usize> MatrixShape<M, K> {
    /// Length of axis `n`: the width (`K`) first, then the height (`M`).
    pub fn axis_len(&self, n: usize) -> (r: usize)
        requires
            n < 2,
        ensures
            r == (if n == 0 {
                K
            } else {
                M
            }),
    {
        if n == 0 {
            K
        } else {
            M
        }
    }

    pub fn volume(&self) -> (r: usize)
        requires
            M * K <= usize::MAX,
        ensures
            r == M * K,
    {
        M * K
    }

    /// The same shape as a run-time list of axes.
    pub fn shape(&self) -> (r: Shape)
        ensures
            r@ == seq![K, M],
    {
        matrix_shape::<K, M>()
    }
}

} // verus!

verus! {

/// Prefix products depend on the prefix only.
pub proof fn lemma_product_prefix(s: Seq<usize>, t: Seq<usize>, n: int)
    requires
        0 <= n <= s.len(),
        n <= t.len(),
        forall|j: int| 0 <= j < n ==> s[j] == t[j],
    ensures
        product(s, n) == product(t, n),
    decreases n,
{
    if n > 0 {
        lemma_product_prefix(s, t, n - 1);
    }
}

} // verus!

verus! {

/// With no zero axis before `j`, a longer prefix product is at least as large.
pub proof fn lemma_product_nonzero_ge(s: Seq<usize>, i: int, j: int)
    requires
        0 <= i <= j <= s.len(),
        product(s, j) != 0,
    ensures
        product(s, i) <= product(s, j),
    decreases j,
{
    lemma_product_nonneg(s, j);
    if j > i {
        lemma_product_nonneg(s, j - 1);
        let p = product(s, j - 1);
        let d = s[j - 1] as int;
        assert(p != 0 && d >= 1 && p <= p * d) by (nonlinear_arith)
            requires
                p >= 0,
                d >= 0,
                p * d != 0,
        ;
        lemma_product_nonzero_ge(s, i, j - 1);
    }
}

/// Every term of the index sum is non-negative, so longer prefixes weigh more.
pub proof fn lemma_index_upto_monotone(s: Seq<usize>, o: Seq<usize>, i: int, j: int)
    requires
        0 <= i <= j,
    ensures
        0 <= index_upto(s, o, i) <= index_upto(s, o, j),
    decreases j,
{
    if j > i {
        lemma_index_upto_monotone(s, o, i, j - 1);
        lemma_product_nonneg(s, j - 1);
        let p = product(s, j - 1);
        let d = o[j - 1] as int;
        assert(0 <= d * p) by (nonlinear_arith)
            requires
                d >= 0,
                p >= 0,
        ;
    } else if i > 0 {
        lemma_index_upto_monotone(s, o, i - 1, i - 1);
        lemma_product_nonneg(s, i - 1);
        let p = product(s, i - 1);
        let d = o[i - 1] as int;
        assert(0 <= d * p) by (nonlinear_arith)
            requires
                d >= 0,
                p >= 0,
        ;
    }
}

/// Once a prefix product exceeds `usize::MAX`, an index sum that fits gets
/// nothing more from the axes after it.
pub proof fn lemma_index_rest_zero(s: Seq<usize>, o: Seq<usize>, k: int, n: int, len: int)
    requires
        0 < k <= n <= len <= s.len(),
        len <= o.len(),
        product(s, k) > usize::MAX,
        index_upto(s, o, len) <= usize::MAX,
    ensures
        index_upto(s, o, n) == index_upto(s, o, k),
    decreases n,
{
    if n > k {
        lemma_index_rest_zero(s, o, k, n - 1, len);
        let m = n - 1;
        let p = product(s, m);
        let d = o[m] as int;
        lemma_product_nonneg(s, m);
        lemma_index_upto_monotone(s, o, n, len);
        lemma_index_upto_monotone(s, o, m, m);
        if p != 0 {
            lemma_product_nonzero_ge(s, k, m);
            assert(d * p == 0) by (nonlinear_arith)
                requires
                    p > usize::MAX,
                    d >= 0,
                    d * p <= usize::MAX,
            ;
        } else {
            assert(d * p == 0) by (nonlinear_arith)
                requires
                    p == 0,
            ;
        }
    }
}

impl Shape {
    /// The position that the index `self` names in the flat storage of a
    /// tensor of shape `shape`: Σ self[n]·Π_{j<n} shape[j], axis 0 varying
    /// fastest. Unlike `tensor_index`, the components need not lie inside
    /// their axes; the two must have the same number of axes.
    pub fn relative(&self, shape: &Shape) -> (r: usize)
        requires
            self@.len() == shape@.len(),
            linear_index(shape@, self@) <= usize::MAX,
        ensures
            r == linear_index(shape@, self@),
    {
        let n_axes = self.ndim();
        let ghost s = shape@;
        let ghost o = self@;
        let mut sum: usize = 0;
        let mut p: usize = 1;
        let mut n: usize = 0;
        while n < n_axes
            invariant
                s == shape@,
                o == self@,
                n_axes == s.len(),
                n_axes == o.len(),
                n <= n_axes,
                index_upto(s, o, n_axes as int) <= usize::MAX,
                sum == index_upto(s, o, n as int),
                p == product(s, n as int),
            decreases n_axes - n,
        {
            proof {
                lemma_index_upto_monotone(s, o, n as int + 1, n_axes as int);
                lemma_index_upto_monotone(s, o, n as int, n as int);
                lemma_product_nonneg(s, n as int);
                let d = o[n as int] as int;
                let q = p as int;
                assert(0 <= d * q) by (nonlinear_arith)
                    requires
                        d >= 0,
                        q >= 0,
                ;
            }
            sum = sum + self.0[n] * p;
            match p.checked_mul(shape.0[n]) {
                Some(q) => {
                    p = q;
                },
                None => {
                    proof {
                        lemma_index_rest_zero(s, o, n as int + 1, n_axes as int, n_axes as int);
                    }
                    return sum;
                },
            }
            n += 1;
        }
        sum
    }
}

} // verus!
