//! Backends: the operations that a vector or matrix can be asked for, and the
//! strategies that carry them out.
use vstd::prelude::*;
use crate::algebra::{
    abs_dot_spec, dot_spec, elementwise_defined, elementwise_spec, lemma_dot_bounded,
    matmul_defined, matmul_spec, transpose_spec, ElementOp,
};
use crate::cow::StaticCowVec;
use crate::num::{cdot_abs_upto, cdot_spec, Complex};
use crate::traits::StaticVec;

pub mod rust;

pub use rust::Rust;

verus! {

/// The external optimized numerical library (BLAS). It has no integer
/// routines, so no operation on the library's integer elements routes to it;
/// callers holding floating-point data use `dot_backend` to pick it.
#[derive(Clone, Copy, Debug, Default)]
pub struct Blas;

/// A strategy for executing the operations.
pub trait Backend {
    fn kind(&self) -> (r: BackendKind);
}

impl Backend for Blas {
    fn kind(&self) -> (r: BackendKind)
        ensures
            r == BackendKind::Library,
    {
        BackendKind::Library
    }
}

impl Backend for Rust {
    fn kind(&self) -> (r: BackendKind)
        ensures
            r == BackendKind::Native,
    {
        BackendKind::Native
    }
}

/// Which kind of backend runs an operation.
#[derive(Clone, Copy, Debug, PartialEq, Eq, Structural)]
pub enum BackendKind {
    /// The hand-written kernels of this library.
    Native,
    /// The external numerical library.
    Library,
}

/// From this length on, a dot product with no backend chosen runs on the
/// external library, whose fixed cost per call no longer dominates.
pub const BLAS_IN_DOT_IF_LEN_GE: usize = 750;

/// The backend that runs a dot product of vectors of length `len` when the
/// caller chose none.
pub fn dot_backend(len: usize) -> (r: BackendKind)
    ensures
        r == (if len >= BLAS_IN_DOT_IF_LEN_GE {
            BackendKind::Library
        } else {
            BackendKind::Native
        }),
{
    if len >= BLAS_IN_DOT_IF_LEN_GE {
        BackendKind::Library
    } else {
        BackendKind::Native
    }
}

/// The dot product of two vectors of equal length.
pub trait DotProduct<T> {
    /// The inputs on which the result can be computed.
    spec fn dot_defined(a: Seq<T>, b: Seq<T>) -> bool;

    /// The dot product.
    spec fn dot_result(a: Seq<T>, b: Seq<T>) -> T;

    fn dot<const LEN: usize, A: StaticVec<T, LEN>, B: StaticVec<T, LEN>>(&self, a: &A, b: &B) -> (r: T)
        requires
            Self::dot_defined(a.elems(), b.elems()),
        ensures
            r == Self::dot_result(a.elems(), b.elems()),
    ;
}

} // verus!

verus! {

/// Full, materializing transpose of a row-major matrix of `columns` columns.
pub trait Transpose<T> {
    /// Writes the transpose of `a` into `buffer`.
    fn transpose<const LEN: usize, A: StaticVec<T, LEN>>(&self, a: &A, buffer: &mut [T; LEN], columns: usize)
        requires
            columns > 0,
            LEN % columns == 0,
        ensures
            final(buffer)@ == transpose_spec(a.elems(), columns as int),
    ;

    /// Replaces `a` by its transpose.
    fn transpose_inplace<const LEN: usize>(&self, a: &mut [T; LEN], columns: usize)
        requires
            columns > 0,
            LEN % columns == 0,
        ensures
            final(a)@ == transpose_spec(old(a)@, columns as int),
    ;
}

/// Matrix-matrix and matrix-vector products.
pub trait MatrixMul {
    /// Writes into `buffer` the row-major `m × n` product of the `m × k` matrix
    /// `a` and the `k × n` matrix `b`. A flag that is set means that the operand
    /// is held as the row-major transpose of the matrix it stands for.
    fn matrix_mul<
        const ALEN: usize,
        const BLEN: usize,
        const CLEN: usize,
        A: StaticVec<i64, ALEN>,
        B: StaticVec<i64, BLEN>,
    >(
        &self,
        a: &A,
        b: &B,
        buffer: &mut [i64; CLEN],
        m: usize,
        n: usize,
        k: usize,
        a_trans: bool,
        b_trans: bool,
    )
        requires
            ALEN == m * k,
            BLEN == k * n,
            CLEN == m * n,
            matmul_defined(a.elems(), b.elems(), m as int, n as int, k as int, a_trans, b_trans),
        ensures
            final(buffer)@ == matmul_spec(
                a.elems(),
                b.elems(),
                m as int,
                n as int,
                k as int,
                a_trans,
                b_trans,
            ),
    ;

    /// Writes into `buffer` the product of the `m × k` matrix `a` and the
    /// vector `x` of length `k`.
    fn matrix_vector_mul<
        const ALEN: usize,
        const XLEN: usize,
        const CLEN: usize,
        A: StaticVec<i64, ALEN>,
        X: StaticVec<i64, XLEN>,
    >(&self, a: &A, x: &X, buffer: &mut [i64; CLEN], m: usize, k: usize, a_trans: bool)
        requires
            ALEN == m * k,
            XLEN == k,
            CLEN == m,
            matmul_defined(a.elems(), x.elems(), m as int, 1, k as int, a_trans, false),
        ensures
            final(buffer)@ == matmul_spec(a.elems(), x.elems(), m as int, 1, k as int, a_trans, false),
    ;
}

/// Position-wise `a[i] + b[i]`.
pub trait Addition {
    fn add<const LEN: usize, A: StaticVec<i64, LEN>, B: StaticVec<i64, LEN>>(
        &self,
        a: &A,
        b: &B,
        c: &mut [i64; LEN],
    )
        requires
            elementwise_defined(ElementOp::Add, a.elems(), b.elems()),
        ensures
            final(c)@ == elementwise_spec(ElementOp::Add, a.elems(), b.elems()),
    ;
}

/// Position-wise `a[i] - b[i]`.
pub trait Subtraction {
    fn sub<const LEN: usize, A: StaticVec<i64, LEN>, B: StaticVec<i64, LEN>>(
        &self,
        a: &A,
        b: &B,
        c: &mut [i64; LEN],
    )
        requires
            elementwise_defined(ElementOp::Sub, a.elems(), b.elems()),
        ensures
            final(c)@ == elementwise_spec(ElementOp::Sub, a.elems(), b.elems()),
    ;
}

/// Position-wise `a[i] * b[i]`.
pub trait Multiplication {
    fn mul<const LEN: usize, A: StaticVec<i64, LEN>, B: StaticVec<i64, LEN>>(
        &self,
        a: &A,
        b: &B,
        c: &mut [i64; LEN],
    )
        requires
            elementwise_defined(ElementOp::Mul, a.elems(), b.elems()),
        ensures
            final(c)@ == elementwise_spec(ElementOp::Mul, a.elems(), b.elems()),
    ;
}

/// Position-wise `a[i] / b[i]`, rounding toward zero.
pub trait Divition {
    fn div<const LEN: usize, A: StaticVec<i64, LEN>, B: StaticVec<i64, LEN>>(
        &self,
        a: &A,
        b: &B,
        c: &mut [i64; LEN],
    )
        requires
            elementwise_defined(ElementOp::Div, a.elems(), b.elems()),
        ensures
            final(c)@ == elementwise_spec(ElementOp::Div, a.elems(), b.elems()),
    ;
}

} // verus!

verus! {

/// A vector bound to the backend that runs every operation on it.
pub struct WithStaticBackend<U, B> {
    pub data: U,
    pub backend: B,
}

impl<U, B> WithStaticBackend<U, B> {
    pub fn from_static_vec(v: U, b: B) -> (r: Self)
        ensures
            r.data == v,
            r.backend == b,
    {
        WithStaticBackend { data: v, backend: b }
    }

    /// The dot product, on the bound backend.
    pub fn dot<T, const LEN: usize, U2: StaticVec<T, LEN>>(&self, other: &WithStaticBackend<U2, B>) -> (r: T)
        where
            U: StaticVec<T, LEN>,
            B: DotProduct<T>,
        requires
            B::dot_defined(self.data.elems(), other.data.elems()),
        ensures
            r == B::dot_result(self.data.elems(), other.data.elems()),
    {
        self.backend.dot(&self.data, &other.data)
    }
}

} // verus!

verus! {

impl<'a, const LEN: usize> StaticCowVec<'a, i64, LEN> {
    /// Dot product with no backend chosen. The external library has no
    /// integer routine, so this always runs on the native kernel.
    pub fn dot<U: StaticVec<i64, LEN>>(&self, other: &U) -> (r: i64)
        requires
            abs_dot_spec(self@, other.elems()) <= i64::MAX,
        ensures
            r == dot_spec(self@, other.elems()),
    {
        proof {
            self.lemma_view_len();
            lemma_dot_bounded(self@, other.elems(), LEN as int);
        }
        Rust.dot(self, other)
    }

    /// `self[i] + other[i]` at every position, in a new owned vector.
    pub fn add<U: StaticVec<i64, LEN>>(&self, other: &U) -> (r: StaticCowVec<'static, i64, LEN>)
        requires
            elementwise_defined(ElementOp::Add, self@, other.elems()),
        ensures
            r@ == elementwise_spec(ElementOp::Add, self@, other.elems()),
    {
        let mut c: [i64; LEN] = [0i64; LEN];
        Rust.elementwise(ElementOp::Add, self, other, &mut c);
        StaticCowVec::from_array(c)
    }

    /// `self[i] - other[i]` at every position, in a new owned vector.
    pub fn sub<U: StaticVec<i64, LEN>>(&self, other: &U) -> (r: StaticCowVec<'static, i64, LEN>)
        requires
            elementwise_defined(ElementOp::Sub, self@, other.elems()),
        ensures
            r@ == elementwise_spec(ElementOp::Sub, self@, other.elems()),
    {
        let mut c: [i64; LEN] = [0i64; LEN];
        Rust.elementwise(ElementOp::Sub, self, other, &mut c);
        StaticCowVec::from_array(c)
    }

    /// `self[i] * other[i]` at every position, in a new owned vector.
    pub fn mul<U: StaticVec<i64, LEN>>(&self, other: &U) -> (r: StaticCowVec<'static, i64, LEN>)
        requires
            elementwise_defined(ElementOp::Mul, self@, other.elems()),
        ensures
            r@ == elementwise_spec(ElementOp::Mul, self@, other.elems()),
    {
        let mut c: [i64; LEN] = [0i64; LEN];
        Rust.elementwise(ElementOp::Mul, self, other, &mut c);
        StaticCowVec::from_array(c)
    }

    /// `self[i] / other[i]` at every position, rounding toward zero, in a new
    /// owned vector.
    pub fn div<U: StaticVec<i64, LEN>>(&self, other: &U) -> (r: StaticCowVec<'static, i64, LEN>)
        requires
            elementwise_defined(ElementOp::Div, self@, other.elems()),
        ensures
            r@ == elementwise_spec(ElementOp::Div, self@, other.elems()),
    {
        let mut c: [i64; LEN] = [0i64; LEN];
        Rust.elementwise(ElementOp::Div, self, other, &mut c);
        StaticCowVec::from_array(c)
    }
}

impl<'a, const LEN: usize> StaticCowVec<'a, Complex, LEN> {
    /// The unconjugated complex dot product Σ self[i]·other[i].
    pub fn dot<U: StaticVec<Complex, LEN>>(&self, other: &U) -> (r: Complex)
        requires
            cdot_abs_upto(self@, other.elems(), LEN as int) <= i64::MAX,
        ensures
            r == cdot_spec(self@, other.elems()),
    {
        proof {
            self.lemma_view_len();
        }
        Rust.dot(self, other)
    }
}

impl<'a, T: Copy, const LEN: usize> StaticCowVec<'a, T, LEN> {
    /// Binds the vector to `backend`.
    pub fn static_backend<B>(self, backend: B) -> (r: WithStaticBackend<StaticCowVec<'a, T, LEN>, B>)
        ensures
            r.data == self,
            r.backend == backend,
    {
        WithStaticBackend::from_static_vec(self, backend)
    }
}

} // verus!
