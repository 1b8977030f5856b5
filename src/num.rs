//! Complex numbers with integer parts.
use vstd::prelude::*;
use crate::algebra::abs;

verus! {

/// A complex number `re + im·i`.
#[derive(Clone, Copy, Debug, PartialEq, Eq, Structural)]
pub struct Complex {
    pub re: i64,
    pub im: i64,
}

/// Real part of `x·y`.
pub open spec fn mul_re(x: Complex, y: Complex) -> int {
    x.re * y.re - x.im * y.im
}

/// Imaginary part of `x·y`.
pub open spec fn mul_im(x: Complex, y: Complex) -> int {
    x.re * y.im + x.im * y.re
}

/// Σ of the magnitudes of the four partial products of `x·y`: a bound on
/// both parts of the product.
pub open spec fn mul_abs(x: Complex, y: Complex) -> int {
    abs(x.re * y.re) + abs(x.im * y.im) + abs(x.re * y.im) + abs(x.im * y.re)
}

impl Complex {
    pub fn zero() -> (r: Complex)
        ensures
            r.re == 0 && r.im == 0,
    {
        Complex { re: 0, im: 0 }
    }

    /// The real number `n`.
    pub fn from_real(n: i64) -> (r: Complex)
        ensures
            r.re == n && r.im == 0,
    {
        Complex { re: n, im: 0 }
    }

    pub fn add(self, other: Complex) -> (r: Complex)
        requires
            i64::MIN <= self.re + other.re <= i64::MAX,
            i64::MIN <= self.im + other.im <= i64::MAX,
        ensures
            r.re == self.re + other.re,
            r.im == self.im + other.im,
    {
        Complex { re: self.re + other.re, im: self.im + other.im }
    }

    pub fn sub(self, other: Complex) -> (r: Complex)
        requires
            i64::MIN <= self.re - other.re <= i64::MAX,
            i64::MIN <= self.im - other.im <= i64::MAX,
        ensures
            r.re == self.re - other.re,
            r.im == self.im - other.im,
    {
        Complex { re: self.re - other.re, im: self.im - other.im }
    }

    /// The product `self · other`.
    pub fn mul(self, other: Complex) -> (r: Complex)
        requires
            mul_abs(self, other) <= i64::MAX,
        ensures
            r.re == mul_re(self, other),
            r.im == mul_im(self, other),
    {
        let re = self.re * other.re - self.im * other.im;
        let im = self.re * other.im + self.im * other.re;
        Complex { re, im }
    }

    /// `self` raised to the power `n`, by repeated multiplication.
    pub fn powi(self, n: u32) -> (r: Complex)
        requires
            forall|j: nat| j < n ==> mul_abs(#[trigger] pow_spec(self, j), self) <= i64::MAX,
        ensures
            r == pow_spec(self, n as nat),
    {
        let mut prod = Complex { re: 1, im: 0 };
        let mut i: u32 = 0;
        while i < n
            invariant
                i <= n,
                prod == pow_spec(self, i as nat),
                forall|j: nat| j < n ==> mul_abs(#[trigger] pow_spec(self, j), self) <= i64::MAX,
            decreases n - i,
        {
            prod = prod.mul(self);
            i += 1;
        }
        prod
    }
}

/// `x` to the power `n`, with parts kept in `i64`.
pub open spec fn pow_spec(x: Complex, n: nat) -> Complex
    decreases n,
{
    if n == 0 {
        Complex { re: 1, im: 0 }
    } else {
        let p = pow_spec(x, (n - 1) as nat);
        Complex { re: mul_re(p, x) as i64, im: mul_im(p, x) as i64 }
    }
}

} // verus!

verus! {

/// Σ_{i<n} a[i]·b[i], real part.
pub open spec fn cdot_re_upto(a: Seq<Complex>, b: Seq<Complex>, n: int) -> int
    decreases n,
{
    if n <= 0 {
        0
    } else {
        cdot_re_upto(a, b, n - 1) + mul_re(a[n - 1], b[n - 1])
    }
}

/// Σ_{i<n} a[i]·b[i], imaginary part.
pub open spec fn cdot_im_upto(a: Seq<Complex>, b: Seq<Complex>, n: int) -> int
    decreases n,
{
    if n <= 0 {
        0
    } else {
        cdot_im_upto(a, b, n - 1) + mul_im(a[n - 1], b[n - 1])
    }
}

/// Σ_{i<n} of the magnitudes of all partial products.
pub open spec fn cdot_abs_upto(a: Seq<Complex>, b: Seq<Complex>, n: int) -> int
    decreases n,
{
    if n <= 0 {
        0
    } else {
        cdot_abs_upto(a, b, n - 1) + mul_abs(a[n - 1], b[n - 1])
    }
}

/// The unconjugated dot product Σ a[i]·b[i].
pub open spec fn cdot_spec(a: Seq<Complex>, b: Seq<Complex>) -> Complex {
    Complex {
        re: cdot_re_upto(a, b, a.len() as int) as i64,
        im: cdot_im_upto(a, b, a.len() as int) as i64,
    }
}

pub proof fn lemma_cdot_bounded(a: Seq<Complex>, b: Seq<Complex>, i: int, j: int)
    requires
        0 <= i <= j,
    ensures
        abs(cdot_re_upto(a, b, i)) <= cdot_abs_upto(a, b, i),
        abs(cdot_im_upto(a, b, i)) <= cdot_abs_upto(a, b, i),
        0 <= cdot_abs_upto(a, b, i) <= cdot_abs_upto(a, b, j),
    decreases j,
{
    if j > i {
        lemma_cdot_bounded(a, b, i, j - 1);
    } else if i > 0 {
        lemma_cdot_bounded(a, b, i - 1, i - 1);
    }
}

} // verus!
