use slas::backends::{
    dot_backend, Addition, BackendKind, Divition, DotProduct, Multiplication, Rust, Subtraction,
    Transpose, WithStaticBackend, BLAS_IN_DOT_IF_LEN_GE,
};
use slas::num::Complex;
use slas::simd_lanes::max_for_type;
use slas::traits::{DynamicVec, StaticVec};
use slas::StaticCowVec;

#[test]
fn cow_write_copies_and_leaves_source() {
    let mut source = [1i64, 2, 3];
    let frozen;
    {
        let mut v = StaticCowVec::from_ref(&source);
        assert!(v.is_borrowed());
        assert_eq!(v.get(1), 2);
        assert!(v.is_borrowed());
        v.set(0, 0);
        assert!(v.is_owned());
        assert_eq!(*v.moo_ref(), [0, 2, 3]);
        frozen = v.moo_owned();
    }
    assert_eq!(source, [1, 2, 3]);
    source[1] = 3;
    source[2] = 4;
    assert_eq!(*frozen.moo_ref(), [0, 2, 3]);
    assert_eq!(source, [1, 3, 4]);
}

#[test]
fn main_mutations() {
    let src = [3f32, 2., 3.];
    let mut t = StaticCowVec::<f32, 3>::from_ref(&src);
    assert!(t.is_borrowed());
    t.set(0, 1.);
    assert!(t.is_owned());
    assert_eq!(&t.moo_ref()[..], &[1., 2., 3.]);
    t.mut_moo_ref()[0] = 0.;
    assert_eq!(&t.moo_ref()[..], &[0., 2., 3.]);
}

#[test]
fn casting() {
    let a = [1f32, 2., 3.];
    let b: StaticCowVec<f32, 3> = StaticCowVec::from_ref(&a);
    let c: StaticCowVec<f32, 3> = StaticCowVec::from_array([1., 2., 3.]);
    assert_eq!(b.moo_ref(), c.moo_ref());
    assert!(b.is_borrowed() && c.is_owned());
}

#[test]
fn cow_len_and_empty() {
    let v = StaticCowVec::from_array([5i64, 6, 7]);
    assert_eq!(v.len(), 3);
    assert!(!v.is_empty());
    let e: StaticCowVec<i64, 0> = StaticCowVec::from_array([]);
    assert!(e.is_empty());
}

#[test]
fn dot_slas() {
    assert_eq!(Rust.dot(&[1i64, 2, 3, 4], &[1i64, 2, 3, 4]), 30);
    assert_eq!(Rust.dot(&[1i64, 2, 3, 4, 5], &[1i64, 2, 3, 4, 5]), 55);
}

#[test]
fn dot() {
    let a = StaticCowVec::from_array([0i64, 1, 2, 3]);
    let src = [0i64, -1, -2, 3];
    let b = StaticCowVec::from_ref(&src);
    assert_eq!(a.dot(&b), 4);
}

#[test]
fn vec_ref_dot() {
    let a = StaticCowVec::from_array([1i64, 2, 3]);
    assert_eq!(a.dot(&[1i64, 2, 3]), 14);
}

#[test]
fn dot_lengths_around_lanes() {
    let a: [i64; 9] = [1, -2, 3, -4, 5, -6, 7, -8, 9];
    let b: [i64; 9] = [9, 8, 7, 6, 5, 4, 3, 2, 1];
    assert_eq!(Rust.dot(&a, &b), 9 - 16 + 21 - 24 + 25 - 24 + 21 - 16 + 9);
    let e: [i64; 0] = [];
    assert_eq!(Rust.dot(&e, &e), 0);
    let big = [i64::MAX];
    assert_eq!(Rust.dot(&big, &[1i64]), i64::MAX);
}

#[test]
fn dot_complex() {
    let c = Complex { re: 1, im: 2 };
    let a = StaticCowVec::from_array([c; 5]);
    let b = StaticCowVec::from_array([c; 5]);
    assert_eq!(a.dot(&b), Complex { re: -15, im: 20 });
}

#[test]
fn complex_mul() {
    let a = Complex { re: 1, im: 4 };
    let b = Complex { re: 5, im: 1 };
    assert_eq!(a.mul(b), Complex { re: 1, im: 21 });
}

#[test]
fn complex_pow() {
    let a = Complex { re: 1, im: 4 };
    assert_eq!(a.powi(2), Complex { re: -15, im: 8 });
    assert_eq!(a.powi(0), Complex { re: 1, im: 0 });
    assert_eq!(a.powi(1), Complex { re: 1, im: 4 });
}

#[test]
fn complex_add_sub() {
    let a = Complex { re: 1, im: 4 };
    let b = Complex::from_real(5);
    assert_eq!(a.add(b), Complex { re: 6, im: 4 });
    assert_eq!(a.sub(b), Complex { re: -4, im: 4 });
    assert_eq!(Complex::zero(), Complex { re: 0, im: 0 });
}

#[test]
fn static_backend() {
    let a = StaticCowVec::from_array([0i64, 1, 2, 3]).static_backend(Rust);
    let b = WithStaticBackend::from_static_vec([1i64, 2, 3, 4], Rust);
    assert_eq!(a.dot(&b), 20);
}

#[test]
fn casting_and_dot() {
    let a = vec![0i64, 1, 2, 3];
    let b = StaticCowVec::from_array([0i64, -1, -2, 3]);
    assert_eq!(a.len(), 4);
    assert!(!DynamicVec::is_empty(&a));
    let p = a.pretend_static::<4>();
    assert_eq!(*p.get_unchecked(3), 3);
    assert_eq!(Rust.dot(&p, &b), 4);
}

#[test]
fn elementwise_ops() {
    let a: [i64; 13] = [1, 2, 3, 4, 5, 6, 7, 8, 9, 10, 11, 12, -13];
    let b: [i64; 13] = [2, 2, 2, 2, 2, 2, 2, 2, 2, 2, 2, 2, 2];
    let mut c = [0i64; 13];
    Rust.add(&a, &b, &mut c);
    assert_eq!(c, [3, 4, 5, 6, 7, 8, 9, 10, 11, 12, 13, 14, -11]);
    Rust.sub(&a, &b, &mut c);
    assert_eq!(c, [-1, 0, 1, 2, 3, 4, 5, 6, 7, 8, 9, 10, -15]);
    Rust.mul(&a, &b, &mut c);
    assert_eq!(c, [2, 4, 6, 8, 10, 12, 14, 16, 18, 20, 22, 24, -26]);
    Rust.div(&a, &b, &mut c);
    assert_eq!(c, [0, 1, 1, 2, 2, 3, 3, 4, 4, 5, 5, 6, -6]);
}

#[test]
fn elementwise_on_cow() {
    let a = StaticCowVec::from_array([1i64, 2, 3, 4, 5]);
    let b = [5i64, 4, 3, 2, 1];
    assert_eq!(*a.add(&b).moo_ref(), [6, 6, 6, 6, 6]);
    assert_eq!(*a.sub(&b).moo_ref(), [-4, -2, 0, 2, 4]);
    assert_eq!(*a.mul(&b).moo_ref(), [5, 8, 9, 8, 5]);
    assert_eq!(*a.div(&b).moo_ref(), [0, 0, 1, 2, 5]);
}

#[test]
fn rust_transpose() {
    let a = [1i64, 4, 2, 5, 3, 6];
    let mut b = [0i64; 6];
    Rust.transpose(&a, &mut b, 3);
    assert_eq!(b, [1, 2, 3, 4, 5, 6]);
}

#[test]
fn transpose_twice_restores() {
    let a = [1i64, 2, 3, 4, 5, 6];
    let mut b = [0i64; 6];
    Rust.transpose(&a, &mut b, 2);
    assert_eq!(b, [1, 4, 2, 5, 3, 6]);
    Rust.transpose_inplace(&mut b, 3);
    assert_eq!(b, a);
}

#[test]
fn dot_backend_threshold() {
    assert_eq!(BLAS_IN_DOT_IF_LEN_GE, 750);
    assert_eq!(dot_backend(749), BackendKind::Native);
    assert_eq!(dot_backend(750), BackendKind::Library);
    assert_eq!(dot_backend(0), BackendKind::Native);
}

#[test]
fn lanes() {
    assert_eq!(max_for_type::<f32>(), 8);
    assert_eq!(max_for_type::<i64>(), 4);
    assert_eq!(max_for_type::<u8>(), 8);
    assert_eq!(max_for_type::<[u64; 8]>(), 1);
}

#[test]
fn casting_and_dot_alt() {
    let a = vec![0i64, 1, 2, 3];
    let b = StaticCowVec::from_array([0i64, -1, -2, 3]);
    assert_eq!(a.moo::<4>().dot(&b), 4);
    assert!(a.moo::<4>().is_borrowed());
}

#[test]
fn static_slice_unchecked() {
    assert_eq!([1., 2., 3., 4.].static_slice_unchecked::<2>(1), &[2., 3.]);
}

#[test]
fn moo_borrows_any_static_vec() {
    let a = [1i64, 2, 3];
    let mut v = StaticVec::moo(&a);
    assert!(v.is_borrowed());
    assert_eq!(v.as_slice(), &[1, 2, 3]);
    v.set(2, 30);
    assert_eq!(*v.moo_ref(), [1, 2, 30]);
    assert_eq!(a, [1, 2, 3]);
}

#[test]
fn static_backend_macro() {
    let a = StaticCowVec::from_array([0i64, 1, 2, 3]).static_backend(Rust);
    let b = [1i64, 2, 3, 4];
    let b = StaticVec::moo(&b).static_backend(Rust);
    assert_eq!(a.dot(&b), 20);
    assert_eq!(b.dot(&a), 20);
}

#[test]
fn from_slice_borrows() {
    let data = vec![3f32, 2., 3.];
    let mut t = StaticCowVec::<f32, 3>::from_slice(&data[..]);
    assert!(t.is_borrowed());
    assert_eq!(t.get(1), 2.);
    t.set(0, 1.);
    assert!(t.is_owned());
    assert_eq!(*t.moo_ref(), [1., 2., 3.]);
    assert_eq!(data, vec![3., 2., 3.]);
}
