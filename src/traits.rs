//! The capabilities of fixed-length and run-time sized containers.
use vstd::prelude::*;
use crate::cow::StaticCowVec;

verus! {

/// Relies on std's `<&[T; N] as TryFrom<&[T]>>::try_from`: it succeeds when
/// the slice holds exactly `N` elements, and the array reference then views
/// those same elements.
#[verifier::external_body]
pub(crate) fn as_array_ref<'b, T, const N: usize>(s: &'b [T]) -> (r: &'b [T; N])
    requires
        s@.len() == N,
    ensures
        r@ == s@,
{
    <&[T; N]>::try_from(s).unwrap()
}

/// Relies on std's `<&mut [T; N] as TryFrom<&mut [T]>>::try_from`: it
/// succeeds when the slice holds exactly `N` elements, and the array
/// reference then refers to those same elements, so that what is written
/// through it is what the slice holds afterwards.
#[verifier::external_body]
pub(crate) fn as_array_mut<'b, T, const N: usize>(s: &'b mut [T]) -> (r: &'b mut [T; N])
    requires
        old(s)@.len() == N,
    ensures
        r@ == old(s)@,
        final(s)@ == final(r)@,
{
    <&mut [T; N]>::try_from(s).unwrap()
}

/// A contiguous container of exactly `LEN` elements.
pub trait StaticVec<T, const LEN: usize> {
    /// The elements, in order.
    spec fn elems(&self) -> Seq<T>;

    proof fn lemma_elems_len(&self)
        ensures
            self.elems().len() == LEN,
    ;

    /// The element at `i`, read without a bounds check at run time: the
    /// contract asks the caller to prove `i < LEN` instead.
    fn get_unchecked(&self, i: usize) -> (r: &T)
        requires
            i < LEN,
        ensures
            *r == self.elems()[i as int],
    ;

    /// The elements as one contiguous slice.
    fn as_slice(&self) -> (r: &[T])
        ensures
            r@ == self.elems(),
    ;

    /// The `SLEN` elements from position `i` on, viewed in place.
    fn static_slice_unchecked<const SLEN: usize>(&self, i: usize) -> (r: &[T; SLEN])
        requires
            i + SLEN <= LEN,
        ensures
            r@ == self.elems().subrange(i as int, i + SLEN),
    {
        proof {
            self.lemma_elems_len();
        }
        let part = vstd::slice::slice_subrange(self.as_slice(), i, i + SLEN);
        as_array_ref(part)
    }

    /// A copy-on-write vector that borrows these elements.
    fn moo(&self) -> (r: StaticCowVec<'_, T, LEN>)
        where
            T: Copy,
        ensures
            r@ == self.elems(),
            !r.owned_spec(),
    {
        proof {
            self.lemma_elems_len();
        }
        StaticCowVec::from_ref(as_array_ref(self.as_slice()))
    }
}

impl<T, const LEN: usize> StaticVec<T, LEN> for [T; LEN] {
    open spec fn elems(&self) -> Seq<T> {
        self@
    }

    proof fn lemma_elems_len(&self) {
    }

    fn get_unchecked(&self, i: usize) -> (r: &T) {
        &self[i]
    }

    fn as_slice(&self) -> (r: &[T]) {
        self.as_slice()
    }
}

} // verus!

verus! {

/// A contiguous container whose length is known only at run time.
pub trait DynamicVec<T>: Sized {
    spec fn dyn_elems(&self) -> Seq<T>;

    fn len(&self) -> (r: usize)
        ensures
            r == self.dyn_elems().len(),
    ;

    fn is_empty(&self) -> (r: bool)
        ensures
            r == (self.dyn_elems().len() == 0),
    {
        self.len() == 0
    }

    /// The elements, moved into a `Vec`.
    fn into_vec(self) -> (r: Vec<T>)
        ensures
            r@ == self.dyn_elems(),
    ;

    /// The elements as one contiguous slice.
    fn dyn_slice(&self) -> (r: &[T])
        ensures
            r@ == self.dyn_elems(),
    ;

    /// A copy-on-write vector of `LEN` elements that borrows these; the
    /// length must be `LEN`.
    fn moo<const LEN: usize>(&self) -> (r: StaticCowVec<'_, T, LEN>)
        where
            T: Copy,
        requires
            self.dyn_elems().len() == LEN,
        ensures
            r@ == self.dyn_elems(),
            !r.owned_spec(),
    {
        StaticCowVec::from_ref(as_array_ref(self.dyn_slice()))
    }

    /// The container seen as a vector of exactly `LEN` elements; its length
    /// must be `LEN`.
    fn pretend_static<const LEN: usize>(self) -> (r: PretendStaticVec<T, LEN>)
        requires
            self.dyn_elems().len() == LEN,
        ensures
            r.elems() == self.dyn_elems(),
    {
        PretendStaticVec::new(self.into_vec())
    }
}

impl<T> DynamicVec<T> for Vec<T> {
    open spec fn dyn_elems(&self) -> Seq<T> {
        self@
    }

    fn len(&self) -> (r: usize) {
        self.len()
    }

    fn into_vec(self) -> (r: Vec<T>) {
        self
    }

    fn dyn_slice(&self) -> (r: &[T]) {
        self.as_slice()
    }
}

/// A run-time sized vector whose length was checked to be `LEN`, so that it
/// can stand where a static vector is expected.
pub struct PretendStaticVec<T, const LEN: usize> {
    data: Vec<T>,
}

impl<T, const LEN: usize> PretendStaticVec<T, LEN> {
    #[verifier::type_invariant]
    spec fn inv(&self) -> bool {
        self.data@.len() == LEN
    }

    pub fn new(data: Vec<T>) -> (r: Self)
        requires
            data@.len() == LEN,
        ensures
            r.elems() == data@,
    {
        let r = PretendStaticVec { data };
        assert(r.elems() =~= data@);
        r
    }
}

impl<T, const LEN: usize> StaticVec<T, LEN> for PretendStaticVec<T, LEN> {
    closed spec fn elems(&self) -> Seq<T> {
        Seq::new(LEN as nat, |i: int| self.data@[i])
    }

    proof fn lemma_elems_len(&self) {
    }

    fn get_unchecked(&self, i: usize) -> (r: &T) {
        proof {
            use_type_invariant(self);
        }
        &self.data[i]
    }

    fn as_slice(&self) -> (r: &[T]) {
        proof {
            use_type_invariant(self);
        }
        let r = self.data.as_slice();
        assert(r@ =~= self.elems());
        r
    }
}

} // verus!
