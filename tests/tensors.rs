use slas::backends::{Blas, MatrixMul, Rust};
use slas::shape::{area, matrix_shape, tensor_index, MatrixShape, Shape};
use slas::tensor::{sliceeee, zeroooo, Matrix, Tensor, TensorMut};
use slas::StaticCowVec;

fn seq6() -> StaticCowVec<'static, i64, 6> {
    StaticCowVec::from_array([1, 2, 3, 4, 5, 6])
}

#[test]
fn matrix_zeros() {
    let m: Tensor<f32, Rust, 16> = Tensor::zeros(matrix_shape::<4, 4>(), Rust);
    assert!(*m.vec_ref().moo_ref() == [0.; 16]);
}

#[test]
fn zeros_2() {
    let m: Tensor<f32, Rust, 4> = Tensor::zeros(matrix_shape::<2, 2>(), Rust);
    assert!(*m.vec_ref().moo_ref() == [0.; 4]);
}

#[test]
fn maggots() {
    let m = StaticCowVec::from_array([1., 2., 3., 4.]).reshape(matrix_shape::<2, 2>(), Rust);
    assert!(m.get(&[0, 0]) == 1.)
}

#[test]
fn matrix_mutations() {
    let mut m = StaticCowVec::from_array([0.; 9]).reshape(matrix_shape::<3, 3>(), Rust);
    m.set(&[2, 2], 1.);
    let n = StaticCowVec::from_array([0., 0., 0., 0., 0., 0., 0., 0., 1.])
        .reshape(matrix_shape::<3, 3>(), Rust);
    assert!(*m.vec_ref().moo_ref() == [0., 0., 0., 0., 0., 0., 0., 0., 1.]);
    assert!(*n.vec_ref().moo_ref() == [0., 0., 0., 0., 0., 0., 0., 0., 1.]);
    assert!(m.slice() == n.slice());
}

#[test]
fn tensor_zeros() {
    let t: Tensor<f32, Rust, 4> = zeroooo(Shape(vec![2, 2]), Rust);
    assert!(sliceeee(&t) == &[0.; 4]);
    assert!(t.is_owned());
}

#[test]
fn tensor_mutations() {
    let src = [0.; 3];
    let mut t = StaticCowVec::from_ref(&src).reshape(Shape(vec![3]), Rust);
    assert!(t.is_borrowed());
    t.set(&[1], 2.);
    assert!(t.is_owned());
    t.mut_vec_ref().set(2, 1.);
    assert!(*t.vec_ref().moo_ref() == [0., 2., 1.])
}

#[test]
fn matrix_mul() {
    let a = seq6().static_backend(Rust).matrix::<2, 3>();
    let b = seq6().static_backend(Rust).matrix::<3, 2>();
    let c: [i64; 4] = a.matrix_mul(&b);
    assert_eq!(c, [22, 28, 49, 64]);
}

#[test]
fn matrix_mul_trans() {
    let a = seq6().static_backend(Rust).matrix::<2, 3>();
    let b = seq6().static_backend(Rust).matrix::<3, 2>();
    let c: [i64; 9] = a.transpose().matrix_mul(&b.transpose());
    assert_eq!(c, [9, 19, 29, 12, 26, 40, 15, 33, 51]);
}

#[test]
fn matrix_mul_trans_b() {
    let a = seq6().static_backend(Rust).matrix::<3, 2>();
    let b = seq6().static_backend(Rust).matrix::<3, 2>();
    let c: [i64; 9] = a.matrix_mul(&b.transpose());
    assert_eq!(c, [5, 11, 17, 11, 25, 39, 17, 39, 61]);
}

#[test]
fn matrix_mul_trans_a() {
    let a = seq6().static_backend(Rust).matrix::<2, 3>();
    let b = seq6().static_backend(Rust).matrix::<2, 3>();
    let c: [i64; 9] = a.transpose().matrix_mul(&b);
    assert_eq!(c, [17, 22, 27, 22, 29, 36, 27, 36, 45]);
}

#[test]
fn matrix_mul_trans_a2() {
    let a = seq6().static_backend(Rust).matrix::<2, 3>();
    let b = seq6().static_backend(Rust).matrix::<2, 3>();
    let c: [i64; 4] = a.matrix_mul(&b.transpose());
    assert_eq!(c, [14, 32, 32, 77]);
}

#[test]
fn matrix_mul_trans_b2() {
    let a = seq6().static_backend(Rust).matrix::<3, 2>();
    let b = seq6().static_backend(Rust).matrix::<3, 2>();
    let c: [i64; 4] = a.transpose().matrix_mul(&b);
    assert_eq!(c, [35, 44, 44, 56]);
}

#[test]
fn matrix_vector_mul() {
    let a = seq6().static_backend(Rust).matrix::<2, 3>();
    let b = StaticCowVec::from_array([1i64, 2, 3]).static_backend(Rust).matrix::<3, 1>();
    let c: [i64; 2] = a.matrix_mul(&b);
    let d: [i64; 2] = a.vector_mul(b.moo_ref());
    let mut e = [0i64; 2];
    Rust.matrix_vector_mul(a.moo_ref(), b.moo_ref(), &mut e, 2, 3, false);
    assert_eq!(c, d);
    assert_eq!(d, e);
    assert_eq!(c, [14, 32]);
}

#[test]
fn matrix_vector_mul_trans() {
    let a = seq6().static_backend(Rust).matrix::<3, 2>();
    let b = StaticCowVec::from_array([1i64, 2, 3]).static_backend(Rust).matrix::<3, 1>();
    let c: [i64; 2] = a.as_transposed().matrix_mul(&b);
    let d: [i64; 2] = a.as_transposed().vector_mul(b.moo_ref());
    let mut e = [0i64; 2];
    Rust.matrix_vector_mul(a.moo_ref(), b.moo_ref(), &mut e, 2, 3, true);
    assert_eq!(c, d);
    assert_eq!(d, e);
    assert_eq!(c, [22, 28]);
}

#[test]
fn matrix_vector_mul_trans_2() {
    let a = StaticCowVec::from_array([2i64, 3, 4, 5, 6, 7, 8, 9, 10, 11, 12, 13])
        .static_backend(Rust)
        .matrix::<4, 3>();
    let b = StaticCowVec::from_array([2i64, 3, 4, 5]).static_backend(Rust).matrix::<4, 1>();
    let c: [i64; 3] = a.as_transposed().matrix_mul(&b);
    let d: [i64; 3] = a.as_transposed().vector_mul(b.moo_ref());
    assert_eq!(c, d);
    assert_eq!(c, [4 + 15 + 32 + 55, 6 + 18 + 36 + 60, 8 + 21 + 40 + 65]);
}

#[test]
fn trans_matrix() {
    let mut m = seq6().static_backend(Rust).matrix::<2, 3>();
    assert_eq!(m.rows(), 2);
    assert_eq!(m.columns(), 3);
    assert_eq!(m.get(1, 0), m.as_transposed().get(0, 1));
    assert_eq!(m.get(0, 2), m.as_transposed().get(2, 0));

    m.as_transposed_mut().set(0, 1, 0);
    assert_eq!(m.get(1, 0), 0);
    assert_eq!(m.as_transposed().get(0, 1), 0);

    let n = m.transpose();
    assert_eq!(n.get(0, 1), 0);
    assert_eq!(n.rows(), 3);
    assert_eq!(n.columns(), 2);
}

#[test]
fn trans_fixed_deref() {
    let mut m = StaticCowVec::from_array([1i64, 2, 3, 4, 5, 6])
        .reshape(Shape(vec![3, 2]), Rust)
        .matrix()
        .transpose();
    assert_eq!(m.rows(), 3);
    assert_eq!(m.columns(), 2);
    assert_eq!([m.get(0, 0), m.get(0, 1)], [1, 4]);
    assert_eq!([m.get(1, 0), m.get(1, 1)], [2, 5]);
    assert_eq!([m.get(2, 0), m.get(2, 1)], [3, 6]);
    m.materialize();
    assert_eq!(*m.moo_ref(), [1, 4, 2, 5, 3, 6]);
    assert_eq!([m.get(1, 0), m.get(1, 1)], [2, 5]);
    assert_eq!(m.rows(), 3);
}

#[test]
fn transpose_involution_on_matrix() {
    let m = seq6().static_backend(Blas).matrix::<2, 3>();
    let t = m.transpose().transpose();
    assert_eq!(t.rows(), 2);
    for r in 0..2 {
        for c in 0..3 {
            assert_eq!(t.get(r, c), (r * 3 + c + 1) as i64);
        }
    }
}

#[test]
fn reshape() {
    let t = StaticCowVec::from_array([0f32; 4]).static_backend(Blas).reshape(Shape(vec![2, 2]));
    assert_eq!(t.shape().ndim(), 2);
    assert_eq!(t.shape().volume(), Some(4));
}

#[test]
fn tensor_2d_to_matrix() {
    let a = StaticCowVec::from_array([0i64, 1, 2, 3, 4, 5]).reshape(Shape(vec![2, 3]), Rust).matrix();
    let b = StaticCowVec::from_array([0i64, 1, 2, 3, 4, 5]).static_backend(Rust).matrix::<2, 3>();
    assert_eq!(a.moo_ref(), &[0, 1, 2, 3, 4, 5]);
    assert_eq!(b.moo_ref(), &[0, 1, 2, 3, 4, 5]);
    assert_eq!(a.rows(), 3);
    assert_eq!(b.rows(), 2);
}

#[test]
fn tensor_index_three_axes() {
    let v: Vec<i64> = (0..27).collect();
    let mut arr = [0i64; 27];
    arr.copy_from_slice(&v);
    let t = StaticCowVec::from_array(arr).reshape(Shape(vec![3, 3, 3]), Rust);
    assert_eq!(t.get(&[0, 0, 1]), 9);
    assert_eq!(t.get(&[2, 1, 0]), 5);
    assert_eq!(t.get(&[2, 2, 2]), 26);
    assert_eq!(tensor_index(&Shape(vec![3, 3, 3]), &[1, 2, 1]), 1 + 6 + 9);
}

#[test]
fn shape() {
    let s = Shape(vec![1, 2]);
    assert_eq!(s.ndim(), 2);
    assert_eq!(s.axis_len(0), 1);
    assert_eq!(s.axis_len(1), 2);

    let s = MatrixShape::<2, 1>;
    assert_eq!(s.shape().0, vec![1, 2]);
    assert_eq!(s.axis_len(0), 1);
    assert_eq!(s.axis_len(1), 2);
    assert_eq!(s.volume(), 2);
}

#[test]
fn volumes() {
    assert_eq!(area(&Shape(vec![3, 3, 3])), 27);
    assert_eq!(area(&Shape(vec![])), 1);
    assert_eq!(Shape(vec![4, 0, usize::MAX, 2]).volume(), Some(0));
    assert_eq!(Shape(vec![usize::MAX, 2]).volume(), None);
    assert_eq!(Shape(vec![2, 2]).volume(), Some(4));
    assert_ne!(Shape(vec![5]).volume(), Some(4));
}

#[test]
fn matrix_moo_views() {
    let mut m = seq6().static_backend(Rust).matrix::<3, 2>();
    assert!(m.moo().is_borrowed());
    assert_eq!(*m.moo().moo_ref(), [1, 2, 3, 4, 5, 6]);
    m.mut_moo_ref()[5] = 60;
    assert_eq!(m.get(2, 1), 60);
}

#[test]
fn tensor_accessors() {
    let src = [1i64, 2, 3, 4];
    let t = StaticCowVec::from_ref(&src).reshape(matrix_shape::<2, 2>(), Blas);
    assert!(t.is_borrowed());
    let _b: &Blas = t.backend();
    assert_eq!(t.slice(), &[1, 2, 3, 4]);
    let m: Matrix<i64, Blas, 4> = t.matrix();
    assert_eq!(m.get(1, 0), 3);
}

fn seq27() -> StaticCowVec<'static, i64, 27> {
    let mut arr = [0i64; 27];
    for (n, x) in arr.iter_mut().enumerate() {
        *x = n as i64;
    }
    StaticCowVec::from_array(arr)
}

#[test]
fn get_row_from_matrix() {
    let mut arr = [0i64; 9];
    for (n, x) in arr.iter_mut().enumerate() {
        *x = n as i64;
    }
    let t = StaticCowVec::from_array(arr).static_backend(Rust).matrix::<3, 3>();
    let t = t.as_tensor().index_slice::<3>(1);
    assert_eq!(t.get(&[0]), 3);
    assert!(t.is_borrowed());
}

#[test]
fn sub_tensors() {
    let t = seq27().moo_owned().reshape(Shape(vec![3, 3, 3]), Rust);
    let t = t.index_slice::<9>(1);
    assert_eq!(t.get(&[0, 0]), 9);
    assert_eq!(t.shape().0, vec![3, 3]);
    assert_eq!(t.slice(), &[9, 10, 11, 12, 13, 14, 15, 16, 17]);
}

#[test]
fn sub_tensors_copy_on_write() {
    let t = seq27().reshape(Shape(vec![3, 3, 3]), Rust);
    let mut s = t.index_slice::<9>(2);
    s.set(&[0, 0], 8);
    assert_eq!(s.get(&[0, 0]), 8);
    assert!(s.is_owned());
    assert_eq!(t.get(&[0, 0, 2]), 18);
}

#[test]
fn sub_tensors_mutation() {
    let mut t = seq27().moo_owned().reshape(Shape(vec![3, 3, 3]), Rust);
    {
        let mut s = t.index_slice_mut::<9>(1);
        s.set(&[0, 0], 8);
        assert_eq!(s.get(&[0, 0]), 8);
    }
    assert_eq!(t.get(&[0, 0, 1]), 8);
    assert_eq!(t.get(&[1, 0, 1]), 10);
    assert_eq!(t.get(&[0, 0, 0]), 0);
}

#[test]
fn sub_tensors_mutation_on_borrowed_data() {
    let src = [1i64, 2, 3, 4, 5, 6];
    let mut t = StaticCowVec::from_ref(&src).reshape(Shape(vec![3, 2]), Rust);
    {
        let mut row = t.index_slice_mut::<3>(1);
        row.set(&[2], 60);
    }
    assert!(t.is_owned());
    assert_eq!(t.slice(), &[1, 2, 3, 4, 5, 60]);
    assert_eq!(src, [1, 2, 3, 4, 5, 6]);
}

#[test]
fn make_matrix_ref_mutations() {
    let mut a = [0f32; 2];
    let mut b = TensorMut::new(&mut a, Shape(vec![2]), Blas);
    b.set(&[0], 1.);
    assert_eq!(a[0], 1.);

    let mut a = [0f32; 4];
    let mut b = TensorMut::new(&mut a, matrix_shape::<2, 2>(), Blas);
    b.set(&[1, 0], 1.);
    assert_eq!(a[1], 1.);

    let mut v = StaticCowVec::from_array([0i64; 4]);
    {
        let mut t = v.reshape_mut_ref(Shape(vec![2, 2]), Rust);
        t.set(&[0, 1], 7);
        assert_eq!(t.shape().0, vec![2, 2]);
    }
    assert_eq!(*v.moo_ref(), [0, 0, 7, 0]);
}

#[test]
fn shape_relative() {
    let s = Shape(vec![1, 2, 3]);
    assert_eq!(s.relative(&Shape(vec![10, 7, 7])), 231);
    assert_eq!(Shape(vec![0, 0, 1]).relative(&Shape(vec![2, 3, 4])), 6);
    assert_eq!(Shape(vec![3, 0, 0]).relative(&Shape(vec![2, usize::MAX, 2])), 3);
    assert_eq!(Shape(vec![]).relative(&Shape(vec![])), 0);
    assert_eq!(Shape(vec![5, 1]).relative(&Shape(vec![2, 9])), 7);
}

#[test]
fn transposed_mut_view() {
    let mut m = seq6().static_backend(Rust).matrix::<2, 3>();
    {
        let mut t = m.as_transposed_mut();
        assert_eq!(t.rows(), 3);
        assert_eq!(t.columns(), 2);
        assert_eq!(t.get(2, 1), 6);
        t.set(2, 0, 30);
    }
    assert_eq!(m.get(0, 2), 30);
    assert!(!m.is_transposed());
}
