//! Tensors and matrices over a copy-on-write vector, with shape-aware indexing
//! and a transpose that only flips a flag until the data must move.
use vstd::prelude::*;
use crate::algebra::{lemma_grid_index, matmul_defined, matmul_spec};
use crate::backends::{MatrixMul, Rust, Transpose, WithStaticBackend};
use crate::cow::StaticCowVec;
use crate::shape::{
    index_in_bounds, lemma_product_prefix, linear_index, matrix_shape, product, tensor_index,
    volume_spec, Shape,
};
use crate::traits::StaticVec;

verus! {

/// A tensor of `LEN` elements laid out by a shape whose volume is `LEN`.
pub struct Tensor<'a, T, B, const LEN: usize> {
    data: WithStaticBackend<StaticCowVec<'a, T, LEN>, B>,
    shape: Shape,
}

impl<'a, T, B, const LEN: usize> Tensor<'a, T, B, LEN> {
    /// The shape's volume is the vector's length.
    pub closed spec fn wf(&self) -> bool {
        volume_spec(self.shape@) == LEN
    }

    /// The elements in storage order.
    pub closed spec fn elems(&self) -> Seq<T> {
        self.data.data@
    }

    /// The extent of each axis.
    pub closed spec fn dims(&self) -> Seq<usize> {
        self.shape@
    }

    pub closed spec fn backend_spec(&self) -> B {
        self.data.backend
    }

    pub closed spec fn owned_spec(&self) -> bool {
        self.data.data.owned_spec()
    }
}

impl<'a, T: Copy, B, const LEN: usize> Tensor<'a, T, B, LEN> {
    pub proof fn lemma_wf(&self)
        requires
            self.wf(),
        ensures
            volume_spec(self.dims()) == LEN,
            self.elems().len() == LEN,
    {
        self.data.data.lemma_view_len();
    }

    /// A tensor of `shape` over `v`.
    pub fn new(v: StaticCowVec<'a, T, LEN>, shape: Shape, backend: B) -> (r: Self)
        requires
            volume_spec(shape@) == LEN,
        ensures
            r.wf(),
            r.elems() == v@,
            r.dims() == shape@,
            r.backend_spec() == backend,
            r.owned_spec() == v.owned_spec(),
    {
        Tensor { data: WithStaticBackend { data: v, backend }, shape }
    }

    /// A tensor of `shape` whose elements are all `T`'s default value (zero
    /// for numbers).
    pub fn zeros(shape: Shape, backend: B) -> (r: Self)
        where
            T: Default,
        requires
            volume_spec(shape@) == LEN,
        ensures
            r.wf(),
            r.dims() == shape@,
            r.backend_spec() == backend,
            r.owned_spec(),
            forall|i: int| 0 <= i < LEN ==> call_ensures(T::default, (), #[trigger] r.elems()[i]),
    {
        let z = T::default();
        let a: [T; LEN] = [z; LEN];
        Tensor { data: WithStaticBackend { data: StaticCowVec::from_array(a), backend }, shape }
    }

    /// The elements in storage order.
    pub fn slice(&self) -> (r: &[T])
        ensures
            r@ == self.elems(),
    {
        self.data.data.moo_ref().as_slice()
    }

    pub fn is_borrowed(&self) -> (r: bool)
        ensures
            r == !self.owned_spec(),
    {
        self.data.data.is_borrowed()
    }

    pub fn is_owned(&self) -> (r: bool)
        ensures
            r == self.owned_spec(),
    {
        self.data.data.is_owned()
    }

    pub fn backend(&self) -> (r: &B)
        ensures
            *r == self.backend_spec(),
    {
        &self.data.backend
    }

    pub fn vec_ref(&self) -> (r: &StaticCowVec<'a, T, LEN>)
        ensures
            r@ == self.elems(),
            r.owned_spec() == self.owned_spec(),
    {
        &self.data.data
    }

    /// Mutable access to the underlying vector; the shape stays as it is.
    pub fn mut_vec_ref(&mut self) -> (r: &mut StaticCowVec<'a, T, LEN>)
        requires
            old(self).wf(),
        ensures
            r@ == old(self).elems(),
            r.owned_spec() == old(self).owned_spec(),
            final(self).wf(),
            final(self).elems() == final(r)@,
            final(self).owned_spec() == final(r).owned_spec(),
            final(self).dims() == old(self).dims(),
            final(self).backend_spec() == old(self).backend_spec(),
    {
        &mut self.data.data
    }

    pub fn shape(&self) -> (r: &Shape)
        ensures
            r@ == self.dims(),
    {
        &self.shape
    }

    /// The element at index `i`; every component must lie inside its axis.
    pub fn get(&self, i: &[usize]) -> (r: T)
        requires
            self.wf(),
            index_in_bounds(self.dims(), i@),
        ensures
            r == self.elems()[linear_index(self.dims(), i@)],
    {
        let n = tensor_index(&self.shape, i);
        self.data.data.get(n)
    }

    /// Writes `v` at index `i`. Borrowed data is copied first.
    pub fn set(&mut self, i: &[usize], v: T)
        requires
            old(self).wf(),
            index_in_bounds(old(self).dims(), i@),
        ensures
            final(self).elems() == old(self).elems().update(linear_index(old(self).dims(), i@), v),
            final(self).wf(),
            final(self).dims() == old(self).dims(),
            final(self).backend_spec() == old(self).backend_spec(),
            final(self).owned_spec(),
    {
        let n = tensor_index(&self.shape, i);
        self.data.data.set(n, v);
    }

    /// The same tensor read as a matrix: axis 0 holds the columns and axis 1
    /// the rows.
    pub fn matrix(self) -> (r: Matrix<'a, T, B, LEN>)
        requires
            self.wf(),
            self.dims().len() == 2,
        ensures
            r.wf(),
            r.tensor_spec() == self,
            !r.trans_spec(),
    {
        Matrix { tensor: self, is_trans: false }
    }
}

/// A matrix over a two-axis tensor, with a flag that marks it as logically
/// transposed. Axis 0 of the tensor is the width of the stored data.
pub struct Matrix<'a, T, B, const LEN: usize> {
    tensor: Tensor<'a, T, B, LEN>,
    is_trans: bool,
}

impl<'a, T, B, const LEN: usize> Matrix<'a, T, B, LEN> {
    /// A two-axis tensor underneath.
    pub closed spec fn wf(&self) -> bool {
        self.tensor.wf() && self.tensor.dims().len() == 2
    }

    pub closed spec fn tensor_spec(&self) -> Tensor<'a, T, B, LEN> {
        self.tensor
    }

    pub closed spec fn trans_spec(&self) -> bool {
        self.is_trans
    }

    pub open spec fn elems(&self) -> Seq<T> {
        self.tensor_spec().elems()
    }

    pub open spec fn dims(&self) -> Seq<usize> {
        self.tensor_spec().dims()
    }

    /// Rows of the logical matrix.
    pub open spec fn rows_spec(&self) -> int {
        if self.trans_spec() {
            self.dims()[0] as int
        } else {
            self.dims()[1] as int
        }
    }

    /// Columns of the logical matrix.
    pub open spec fn cols_spec(&self) -> int {
        if self.trans_spec() {
            self.dims()[1] as int
        } else {
            self.dims()[0] as int
        }
    }

    /// Where element `(r, c)` of the logical matrix is stored.
    pub open spec fn elem_index(&self, r: int, c: int) -> int {
        if self.trans_spec() {
            r + c * self.dims()[0]
        } else {
            c + r * self.dims()[0]
        }
    }

    /// Element `(r, c)` of the logical matrix.
    pub open spec fn elem(&self, r: int, c: int) -> T {
        self.elems()[self.elem_index(r, c)]
    }

}

impl<'a, T: Copy, B, const LEN: usize> Matrix<'a, T, B, LEN> {
    pub proof fn lemma_wf(&self)
        requires
            self.wf(),
        ensures
            self.tensor_spec().wf(),
            self.dims().len() == 2,
            self.dims()[0] * self.dims()[1] == LEN,
            self.rows_spec() * self.cols_spec() == LEN,
            self.elems().len() == LEN,
    {
        self.tensor.lemma_wf();
        let d = self.dims();
        assert(product(d, 0) == 1);
        assert(product(d, 1) == d[0] as int);
        assert(product(d, 2) == d[0] * d[1]);
        assert(self.rows_spec() * self.cols_spec() == LEN) by (nonlinear_arith)
            requires
                self.rows_spec() * self.cols_spec() == d[0] * d[1] || self.rows_spec()
                    * self.cols_spec() == d[1] * d[0],
                d[0] * d[1] == LEN,
        ;
    }

    /// Element `(r, c)` is stored inside the vector.
    pub proof fn lemma_elem_index(&self, r: int, c: int)
        requires
            self.wf(),
            0 <= r < self.rows_spec(),
            0 <= c < self.cols_spec(),
        ensures
            0 <= self.elem_index(r, c) < LEN,
    {
        self.lemma_wf();
        if self.trans_spec() {
            lemma_grid_index(c, r, self.cols_spec(), self.rows_spec());
            assert(self.cols_spec() * self.rows_spec() == LEN) by (nonlinear_arith)
                requires
                    self.rows_spec() * self.cols_spec() == LEN,
            ;
        } else {
            lemma_grid_index(r, c, self.rows_spec(), self.cols_spec());
        }
    }

    pub fn rows(&self) -> (r: usize)
        requires
            self.wf(),
        ensures
            r == self.rows_spec(),
    {
        if self.is_trans {
            self.tensor.shape.axis_len(0)
        } else {
            self.tensor.shape.axis_len(1)
        }
    }

    pub fn columns(&self) -> (r: usize)
        requires
            self.wf(),
        ensures
            r == self.cols_spec(),
    {
        if self.is_trans {
            self.tensor.shape.axis_len(1)
        } else {
            self.tensor.shape.axis_len(0)
        }
    }

    /// Element `(r, c)` of the logical matrix.
    pub fn get(&self, r: usize, c: usize) -> (v: T)
        requires
            self.wf(),
            r < self.rows_spec(),
            c < self.cols_spec(),
        ensures
            v == self.elem(r as int, c as int),
    {
        proof {
            self.lemma_elem_index(r as int, c as int);
        }
        let d0 = self.tensor.shape.axis_len(0);
        let i = if self.is_trans {
            r + c * d0
        } else {
            c + r * d0
        };
        self.tensor.data.data.get(i)
    }

    /// Writes `v` at `(r, c)` of the logical matrix; borrowed data is copied first.
    pub fn set(&mut self, r: usize, c: usize, v: T)
        requires
            old(self).wf(),
            r < old(self).rows_spec(),
            c < old(self).cols_spec(),
        ensures
            final(self).wf(),
            final(self).elems() == old(self).elems().update(old(self).elem_index(r as int, c as int), v),
            final(self).dims() == old(self).dims(),
            final(self).trans_spec() == old(self).trans_spec(),
            final(self).tensor_spec().backend_spec() == old(self).tensor_spec().backend_spec(),
    {
        proof {
            self.lemma_elem_index(r as int, c as int);
        }
        let d0 = self.tensor.shape.axis_len(0);
        let i = if self.is_trans {
            r + c * d0
        } else {
            c + r * d0
        };
        self.tensor.data.data.set(i, v);
    }

    /// True when the matrix is lazily transposed: storage holds its transpose.
    pub fn is_transposed(&self) -> (r: bool)
        ensures
            r == self.trans_spec(),
    {
        self.is_trans
    }

    /// The transposed matrix, in O(1): only the flag changes.
    pub fn transpose(self) -> (r: Self)
        requires
            self.wf(),
        ensures
            r.wf(),
            r.elems() == self.elems(),
            r.dims() == self.dims(),
            r.trans_spec() == !self.trans_spec(),
            r.tensor_spec().backend_spec() == self.tensor_spec().backend_spec(),
    {
        Matrix { tensor: self.tensor, is_trans: !self.is_trans }
    }

    /// The elements in storage order, read in place.
    pub fn moo_ref(&self) -> (r: &[T; LEN])
        ensures
            r@ == self.elems(),
    {
        self.tensor.data.data.moo_ref()
    }

    /// A copy-on-write vector borrowing the elements.
    pub fn moo(&self) -> (r: StaticCowVec<'_, T, LEN>)
        ensures
            r@ == self.elems(),
            !r.owned_spec(),
    {
        StaticCowVec::from_ref(self.tensor.data.data.moo_ref())
    }

    /// Mutable access to the elements in storage order; borrowed data is
    /// copied first.
    pub fn mut_moo_ref(&mut self) -> (r: &mut [T; LEN])
        requires
            old(self).wf(),
        ensures
            final(self).wf(),
            r@ == old(self).elems(),
            final(self).elems() == final(r)@,
            final(self).dims() == old(self).dims(),
            final(self).trans_spec() == old(self).trans_spec(),
            final(self).tensor_spec().backend_spec() == old(self).tensor_spec().backend_spec(),
    {
        self.tensor.data.data.mut_moo_ref()
    }
}

} // verus!

verus! {

impl<'a, T: Copy, B: Copy, const LEN: usize> Matrix<'a, T, B, LEN> {
    /// The transposed matrix as a view that borrows this one's elements:
    /// nothing is copied until the view is written.
    pub fn as_transposed(&self) -> (r: Matrix<'_, T, B, LEN>)
        requires
            self.wf(),
        ensures
            r.wf(),
            r.elems() == self.elems(),
            r.dims() == self.dims(),
            r.trans_spec() == !self.trans_spec(),
            r.tensor_spec().backend_spec() == self.tensor_spec().backend_spec(),
            !r.tensor_spec().owned_spec(),
    {
        let dims = self.tensor.shape.0.clone();
        assert(dims@ =~= self.dims());
        let v = StaticCowVec::from_ref(self.tensor.data.data.moo_ref());
        let t = Tensor { data: WithStaticBackend { data: v, backend: self.tensor.data.backend }, shape: Shape(dims) };
        Matrix { tensor: t, is_trans: !self.is_trans }
    }
}

impl<'a, T: Copy, B, const LEN: usize> Matrix<'a, T, B, LEN> {
    /// Moves the data so that storage order matches the logical matrix, and
    /// clears the transpose flag. Every logical element stays where it was.
    pub fn materialize(&mut self)
        requires
            old(self).wf(),
        ensures
            final(self).wf(),
            !final(self).trans_spec(),
            final(self).tensor_spec().backend_spec() == old(self).tensor_spec().backend_spec(),
            final(self).rows_spec() == old(self).rows_spec(),
            final(self).cols_spec() == old(self).cols_spec(),
            forall|r: int, c: int|
                0 <= r < old(self).rows_spec() && 0 <= c < old(self).cols_spec()
                    ==> final(self).elem(r, c) == old(self).elem(r, c),
    {
        if self.is_trans {
            proof {
                self.lemma_wf();
            }
            let ghost old_m = *self;
            let k = self.tensor.shape.axis_len(0);
            let m = self.tensor.shape.axis_len(1);
            if m > 0 {
                proof {
                    vstd::arithmetic::div_mod::lemma_fundamental_div_mod_converse(LEN as int, m as int, k as int, 0);
                }
                Rust.transpose_inplace(self.tensor.data.data.mut_moo_ref(), m);
            }
            self.tensor.shape = Shape(vec![m, k]);
            self.is_trans = false;
            proof {
                let d = self.dims();
                assert(d =~= seq![m, k]);
                assert(product(d, 0) == 1);
                assert(product(d, 1) == m as int);
                assert(product(d, 2) == m * k);
                assert(m * k == k * m) by (nonlinear_arith);
                assert forall|r: int, c: int|
                    0 <= r < old_m.rows_spec() && 0 <= c < old_m.cols_spec() implies #[trigger] self.elem(r, c)
                        == old_m.elem(r, c) by {
                    lemma_grid_index(r, c, k as int, m as int);
                    lemma_grid_index(c, r, m as int, k as int);
                    assert(c + r * m == r * m + c);
                    assert(r + c * k == c * k + r);
                }
            }
        }
    }
}

impl<'a, B: MatrixMul, const LEN: usize> Matrix<'a, i64, B, LEN> {
    /// Writes the product `self · other` into `buffer`, row-major, with the
    /// sizes and transpose flags taken from the two matrices.
    pub fn matrix_mul_buffer<const LEN2: usize, const OLEN: usize>(
        &self,
        other: &Matrix<'_, i64, B, LEN2>,
        buffer: &mut [i64; OLEN],
    )
        requires
            self.wf(),
            other.wf(),
            self.cols_spec() == other.rows_spec(),
            OLEN == self.rows_spec() * other.cols_spec(),
            matmul_defined(
                self.elems(),
                other.elems(),
                self.rows_spec(),
                other.cols_spec(),
                self.cols_spec(),
                self.trans_spec(),
                other.trans_spec(),
            ),
        ensures
            final(buffer)@ == matmul_spec(
                self.elems(),
                other.elems(),
                self.rows_spec(),
                other.cols_spec(),
                self.cols_spec(),
                self.trans_spec(),
                other.trans_spec(),
            ),
    {
        proof {
            self.lemma_wf();
            other.lemma_wf();
        }
        let m = self.rows();
        let k = self.columns();
        let n = other.columns();
        assert(LEN2 == k * n);
        self.tensor.data.backend.matrix_mul(
            &self.tensor.data.data,
            &other.tensor.data.data,
            buffer,
            m,
            n,
            k,
            self.is_trans,
            other.is_trans,
        );
    }

    /// The product `self · x` of this matrix and the vector `x`.
    pub fn vector_mul<X: StaticVec<i64, XLEN>, const XLEN: usize, const OLEN: usize>(&self, x: &X) -> (r: [i64; OLEN])
        requires
            self.wf(),
            XLEN == self.cols_spec(),
            OLEN == self.rows_spec(),
            matmul_defined(self.elems(), x.elems(), self.rows_spec(), 1, self.cols_spec(), self.trans_spec(), false),
        ensures
            r@ == matmul_spec(self.elems(), x.elems(), self.rows_spec(), 1, self.cols_spec(), self.trans_spec(), false),
    {
        proof {
            self.lemma_wf();
        }
        let m = self.rows();
        let k = self.columns();
        let mut buffer: [i64; OLEN] = [0i64; OLEN];
        self.tensor.data.backend.matrix_vector_mul(&self.tensor.data.data, x, &mut buffer, m, k, self.is_trans);
        buffer
    }

    /// The product `self · other`, row-major.
    pub fn matrix_mul<const LEN2: usize, const OLEN: usize>(&self, other: &Matrix<'_, i64, B, LEN2>) -> (r: [i64; OLEN])
        requires
            self.wf(),
            other.wf(),
            self.cols_spec() == other.rows_spec(),
            OLEN == self.rows_spec() * other.cols_spec(),
            matmul_defined(
                self.elems(),
                other.elems(),
                self.rows_spec(),
                other.cols_spec(),
                self.cols_spec(),
                self.trans_spec(),
                other.trans_spec(),
            ),
        ensures
            r@ == matmul_spec(
                self.elems(),
                other.elems(),
                self.rows_spec(),
                other.cols_spec(),
                self.cols_spec(),
                self.trans_spec(),
                other.trans_spec(),
            ),
    {
        let mut buffer: [i64; OLEN] = [0i64; OLEN];
        self.matrix_mul_buffer(other, &mut buffer);
        buffer
    }
}

} // verus!

verus! {

impl<'a, T: Copy, B, const LEN: usize> WithStaticBackend<StaticCowVec<'a, T, LEN>, B> {
    /// The vector laid out as a tensor of `shape`, whose volume must be `LEN`.
    pub fn reshape(self, shape: Shape) -> (r: Tensor<'a, T, B, LEN>)
        requires
            volume_spec(shape@) == LEN,
        ensures
            r.wf(),
            r.elems() == self.data@,
            r.dims() == shape@,
            r.backend_spec() == self.backend,
            r.owned_spec() == self.data.owned_spec(),
    {
        Tensor::new(self.data, shape, self.backend)
    }

    /// The vector read as a row-major matrix of `M` rows and `K` columns.
    pub fn matrix<const M: usize, const K: usize>(self) -> (r: Matrix<'a, T, B, LEN>)
        requires
            M * K == LEN,
        ensures
            r.wf(),
            r.elems() == self.data@,
            r.dims() == seq![K, M],
            !r.trans_spec(),
            r.tensor_spec().backend_spec() == self.backend,
            r.rows_spec() == M,
            r.cols_spec() == K,
    {
        let shape = matrix_shape::<K, M>();
        proof {
            let d = shape@;
            assert(product(d, 0) == 1);
            assert(product(d, 1) == K as int);
            assert(product(d, 2) == K * M);
            assert(K * M == M * K) by (nonlinear_arith);
        }
        Tensor::new(self.data, shape, self.backend).matrix()
    }
}

impl<'a, T: Copy, const LEN: usize> StaticCowVec<'a, T, LEN> {
    /// The vector laid out as a tensor of `shape` on `backend`.
    pub fn reshape<B>(self, shape: Shape, backend: B) -> (r: Tensor<'a, T, B, LEN>)
        requires
            volume_spec(shape@) == LEN,
        ensures
            r.wf(),
            r.elems() == self@,
            r.dims() == shape@,
            r.backend_spec() == backend,
            r.owned_spec() == self.owned_spec(),
    {
        Tensor::new(self, shape, backend)
    }
}

/// A tensor of `shape` filled with `T`'s default value.
pub fn zeroooo<'a, T: Copy + Default, B, const LEN: usize>(shape: Shape, backend: B) -> (r: Tensor<'a, T, B, LEN>)
    requires
        volume_spec(shape@) == LEN,
    ensures
        r.wf(),
        r.dims() == shape@,
        r.owned_spec(),
        forall|i: int| 0 <= i < LEN ==> call_ensures(T::default, (), #[trigger] r.elems()[i]),
{
    Tensor::zeros(shape, backend)
}

/// The elements of a tensor in storage order.
pub fn sliceeee<'b, 'a, T: Copy, B, const LEN: usize>(this: &'b Tensor<'a, T, B, LEN>) -> (r: &'b [T])
    ensures
        r@ == this.elems(),
{
    this.slice()
}

} // verus!

verus! {

impl<'a, T: Copy, B: Copy, const LEN: usize> Tensor<'a, T, B, LEN> {
    /// The sub-tensor at position `i` of the outermost axis (the last one):
    /// it borrows its `SUB` elements from this tensor and has the remaining
    /// axes. Nothing is copied.
    pub fn index_slice<const SUB: usize>(&self, i: usize) -> (r: Tensor<'_, T, B, SUB>)
        requires
            self.wf(),
            self.dims().len() > 1,
            i < self.dims()[self.dims().len() - 1],
            SUB * self.dims()[self.dims().len() - 1] == LEN,
        ensures
            r.wf(),
            r.dims() == self.dims().subrange(0, self.dims().len() - 1),
            r.elems() == self.elems().subrange(i * SUB, i * SUB + SUB),
            r.backend_spec() == self.backend_spec(),
            !r.owned_spec(),
    {
        proof {
            self.lemma_wf();
        }
        let ghost d = self.dims();
        let last = self.shape.ndim() - 1;
        let outer = self.shape.axis_len(last);
        let mut sub_dims: Vec<usize> = Vec::new();
        let mut n: usize = 0;
        while n < last
            invariant
                d == self.dims(),
                last == d.len() - 1,
                n <= last,
                sub_dims@ == d.subrange(0, n as int),
            decreases last - n,
        {
            sub_dims.push(self.shape.axis_len(n));
            n += 1;
            assert(sub_dims@ =~= d.subrange(0, n as int));
        }
        proof {
            let p = product(d, last as int);
            lemma_product_prefix(d, sub_dims@, last as int);
            assert(p * outer == LEN);
            assert(SUB == p) by (nonlinear_arith)
                requires
                    p * outer == LEN,
                    SUB * outer == LEN,
                    outer > 0,
            ;
            assert(i * SUB + SUB <= LEN) by (nonlinear_arith)
                requires
                    i < outer,
                    SUB * outer == LEN,
                    SUB >= 0,
            ;
        }
        let start = i * SUB;
        let whole: &[T] = self.data.data.moo_ref().as_slice();
        let part = vstd::slice::slice_subrange(whole, start, start + SUB);
        let arr: &[T; SUB] = crate::traits::as_array_ref(part);
        Tensor::new(StaticCowVec::from_ref(arr), Shape(sub_dims), self.data.backend)
    }
}

impl<'a, T: Copy, B, const LEN: usize> Matrix<'a, T, B, LEN> {
    /// The tensor under a matrix that is not lazily transposed.
    pub fn as_tensor(&self) -> (r: &Tensor<'a, T, B, LEN>)
        requires
            self.wf(),
            !self.trans_spec(),
        ensures
            *r == self.tensor_spec(),
            r.wf(),
    {
        &self.tensor
    }
}

} // verus!

verus! {

/// A mutable view of a matrix as its transpose: element `(r, c)` of the view
/// is element `(c, r)` of the matrix, and writes go to the matrix.
pub struct TransposedMut<'m, 'a, T, B, const LEN: usize> {
    pub matrix: &'m mut Matrix<'a, T, B, LEN>,
}

impl<'a, T: Copy, B, const LEN: usize> Matrix<'a, T, B, LEN> {
    /// This matrix, viewed transposed for reading and writing.
    pub fn as_transposed_mut(&mut self) -> (r: TransposedMut<'_, 'a, T, B, LEN>)
        ensures
            *r.matrix == *old(self),
            *final(r.matrix) == *final(self),
    {
        TransposedMut { matrix: self }
    }
}

impl<'m, 'a, T: Copy, B, const LEN: usize> TransposedMut<'m, 'a, T, B, LEN> {
    pub fn rows(&self) -> (r: usize)
        requires
            self.matrix.wf(),
        ensures
            r == old(self.matrix).cols_spec(),
    {
        self.matrix.columns()
    }

    pub fn columns(&self) -> (r: usize)
        requires
            self.matrix.wf(),
        ensures
            r == old(self.matrix).rows_spec(),
    {
        self.matrix.rows()
    }

    /// Element `(r, c)` of the view: `(c, r)` of the matrix.
    pub fn get(&self, r: usize, c: usize) -> (v: T)
        requires
            self.matrix.wf(),
            r < self.matrix.cols_spec(),
            c < self.matrix.rows_spec(),
        ensures
            v == old(self.matrix).elem(c as int, r as int),
    {
        self.matrix.get(c, r)
    }

    /// Writes `v` at `(r, c)` of the view, that is at `(c, r)` of the matrix.
    pub fn set(&mut self, r: usize, c: usize, v: T)
        requires
            old(self).matrix.wf(),
            r < old(self).matrix.cols_spec(),
            c < old(self).matrix.rows_spec(),
        ensures
            final(self).matrix.wf(),
            final(self).matrix.elems() == old(self).matrix.elems().update(
                old(self).matrix.elem_index(c as int, r as int),
                v,
            ),
            final(self).matrix.dims() == old(self).matrix.dims(),
            final(self).matrix.trans_spec() == old(self).matrix.trans_spec(),
            final(self).matrix.tensor_spec().backend_spec() == old(self).matrix.tensor_spec().backend_spec(),
            *final(final(self).matrix) == *final(old(self).matrix),
    {
        self.matrix.set(c, r, v);
    }
}

} // verus!

verus! {

/// A tensor over elements that it borrows mutably: what is written through
/// it lands where the elements were borrowed from.
pub struct TensorMut<'m, T, B, const LEN: usize> {
    pub data: &'m mut [T; LEN],
    pub shape: Shape,
    pub backend: B,
}

impl<'m, T, B, const LEN: usize> TensorMut<'m, T, B, LEN> {
    /// The shape's volume is the vector's length.
    pub open spec fn wf(&self) -> bool {
        volume_spec(self.shape@) == LEN
    }

    pub open spec fn dims(&self) -> Seq<usize> {
        self.shape@
    }

    pub open spec fn backend_spec(&self) -> B {
        self.backend
    }
}

impl<'m, T: Copy, B, const LEN: usize> TensorMut<'m, T, B, LEN> {
    /// A tensor of `shape` over the borrowed elements `data`.
    pub fn new(data: &'m mut [T; LEN], shape: Shape, backend: B) -> (r: Self)
        requires
            volume_spec(shape@) == LEN,
        ensures
            r.wf(),
            r.dims() == shape@,
            r.backend_spec() == backend,
            *r.data == *old(data),
            *final(r.data) == *final(data),
    {
        TensorMut { data, shape, backend }
    }

    pub fn shape(&self) -> (r: &Shape)
        ensures
            r@ == self.dims(),
    {
        &self.shape
    }

    /// The element at index `i`; every component must lie inside its axis.
    pub fn get(&self, i: &[usize]) -> (r: T)
        requires
            self.wf(),
            index_in_bounds(self.dims(), i@),
        ensures
            r == old(self.data)@[linear_index(self.dims(), i@)],
    {
        let n = tensor_index(&self.shape, i);
        self.data[n]
    }

    /// Writes `v` at index `i`, in the borrowed elements.
    pub fn set(&mut self, i: &[usize], v: T)
        requires
            old(self).wf(),
            index_in_bounds(old(self).dims(), i@),
        ensures
            final(self).wf(),
            final(self).dims() == old(self).dims(),
            final(self).backend_spec() == old(self).backend_spec(),
            final(self).data@ == old(self).data@.update(linear_index(old(self).dims(), i@), v),
            *final(final(self).data) == *final(old(self).data),
    {
        let n = tensor_index(&self.shape, i);
        self.data[n] = v;
    }
}

impl<'a, T: Copy, const LEN: usize> StaticCowVec<'a, T, LEN> {
    /// A tensor of `shape` that writes into this vector. Borrowed data is
    /// copied into the vector's own buffer first, so its source is never
    /// written.
    pub fn reshape_mut_ref<B>(&mut self, shape: Shape, backend: B) -> (r: TensorMut<'_, T, B, LEN>)
        requires
            volume_spec(shape@) == LEN,
        ensures
            r.wf(),
            r.dims() == shape@,
            r.backend_spec() == backend,
            r.data@ == old(self)@,
            final(self)@ == final(r.data)@,
            final(self).owned_spec(),
    {
        let a = self.mut_moo_ref();
        TensorMut::new(a, shape, backend)
    }
}

impl<'a, T: Copy, B: Copy, const LEN: usize> Tensor<'a, T, B, LEN> {
    /// The sub-tensor at position `i` of the outermost axis (the last one),
    /// as a mutable view: writes through it land in this tensor. Borrowed
    /// data is copied into the tensor's own buffer first.
    pub fn index_slice_mut<const SUB: usize>(&mut self, i: usize) -> (r: TensorMut<'_, T, B, SUB>)
        requires
            old(self).wf(),
            old(self).dims().len() > 1,
            i < old(self).dims()[old(self).dims().len() - 1],
            SUB * old(self).dims()[old(self).dims().len() - 1] == LEN,
        ensures
            r.wf(),
            r.dims() == old(self).dims().subrange(0, old(self).dims().len() - 1),
            r.data@ == old(self).elems().subrange(i * SUB, i * SUB + SUB),
            r.backend_spec() == old(self).backend_spec(),
            final(self).wf(),
            final(self).dims() == old(self).dims(),
            final(self).backend_spec() == old(self).backend_spec(),
            final(self).owned_spec(),
            final(self).elems() == old(self).elems().subrange(0, i * SUB) + final(r.data)@
                + old(self).elems().subrange(i * SUB + SUB, LEN as int),
    {
        proof {
            self.lemma_wf();
        }
        let ghost d = self.dims();
        let ghost e = self.elems();
        let last = self.shape.ndim() - 1;
        let outer = self.shape.axis_len(last);
        let mut sub_dims: Vec<usize> = Vec::new();
        let mut n: usize = 0;
        while n < last
            invariant
                d == self.dims(),
                last == d.len() - 1,
                n <= last,
                sub_dims@ == d.subrange(0, n as int),
            decreases last - n,
        {
            sub_dims.push(self.shape.axis_len(n));
            n += 1;
            assert(sub_dims@ =~= d.subrange(0, n as int));
        }
        proof {
            let p = product(d, last as int);
            lemma_product_prefix(d, sub_dims@, last as int);
            assert(p * outer == LEN);
            assert(SUB == p) by (nonlinear_arith)
                requires
                    p * outer == LEN,
                    SUB * outer == LEN,
                    outer > 0,
            ;
            assert(i * SUB + SUB <= LEN) by (nonlinear_arith)
                requires
                    i < outer,
                    SUB * outer == LEN,
                    SUB >= 0,
            ;
        }
        let start = i * SUB;
        let backend = self.data.backend;
        let a: &mut [T; LEN] = self.data.data.mut_moo_ref();
        let whole: &mut [T] = a;
        let (left, rest) = whole.split_at_mut(start);
        let (mid, right) = rest.split_at_mut(SUB);
        let arr: &mut [T; SUB] = crate::traits::as_array_mut(mid);
        proof {
            assert(has_resolved(left));
            assert(has_resolved(right));
            assert(left@ =~= e.subrange(0, start as int));
            assert(right@ =~= e.subrange(start + SUB, LEN as int));
        }
        TensorMut::new(arr, Shape(sub_dims), backend)
    }
}

} // verus!
