//! The copy-on-write vector.
use vstd::prelude::*;

verus! {

/// Storage of a copy-on-write vector: an inline buffer of its own, or a view
/// of `LEN` elements that live elsewhere.
pub enum CowData<'a, T, const LEN: usize> {
    Owned([T; LEN]),
    Borrowed(&'a [T; LEN]),
}

/// A vector of `LEN` elements that borrows its data until the first write,
/// which copies the data into an inline buffer.
pub struct StaticCowVec<'a, T, const LEN: usize> {
    data: CowData<'a, T, LEN>,
}

impl<'a, T, const LEN: usize> View for StaticCowVec<'a, T, LEN> {
    type V = Seq<T>;

    closed spec fn view(&self) -> Seq<T> {
        match self.data {
            CowData::Owned(a) => a@,
            CowData::Borrowed(r) => r@,
        }
    }
}

impl<'a, T, const LEN: usize> StaticCowVec<'a, T, LEN> {
    /// True when the vector holds its elements in its own buffer.
    pub closed spec fn owned_spec(&self) -> bool {
        self.data is Owned
    }

    pub proof fn lemma_view_len(&self)
        ensures
            self@.len() == LEN,
    {
    }
}

impl<'a, T: Copy, const LEN: usize> StaticCowVec<'a, T, LEN> {
    /// A vector that owns `a`.
    pub fn from_array(a: [T; LEN]) -> (r: Self)
        ensures
            r@ == a@,
            r.owned_spec(),
    {
        StaticCowVec { data: CowData::Owned(a) }
    }

    /// A vector that borrows `a`, without copying it.
    pub fn from_ref(a: &'a [T; LEN]) -> (r: Self)
        ensures
            r@ == a@,
            !r.owned_spec(),
    {
        StaticCowVec { data: CowData::Borrowed(a) }
    }

    /// A vector that borrows the elements of `s`, which must hold exactly
    /// `LEN` of them.
    pub fn from_slice(s: &'a [T]) -> (r: Self)
        requires
            s@.len() == LEN,
        ensures
            r@ == s@,
            !r.owned_spec(),
    {
        StaticCowVec { data: CowData::Borrowed(crate::traits::as_array_ref(s)) }
    }

    pub fn len(&self) -> (r: usize)
        ensures
            r == LEN,
    {
        LEN
    }

    pub fn is_empty(&self) -> (r: bool)
        ensures
            r == (LEN == 0),
    {
        self.len() == 0
    }

    pub fn is_borrowed(&self) -> (r: bool)
        ensures
            r == !self.owned_spec(),
    {
        !self.is_owned()
    }

    pub fn is_owned(&self) -> (r: bool)
        ensures
            r == self.owned_spec(),
    {
        match &self.data {
            CowData::Owned(_) => true,
            CowData::Borrowed(_) => false,
        }
    }

    /// The elements, read where they are: reading never copies.
    pub fn moo_ref(&self) -> (r: &[T; LEN])
        ensures
            r@ == self@,
    {
        match &self.data {
            CowData::Owned(a) => a,
            CowData::Borrowed(r) => *r,
        }
    }

    /// The element at `i`.
    pub fn get(&self, i: usize) -> (r: T)
        requires
            i < LEN,
        ensures
            r == self@[i as int],
    {
        let a = self.moo_ref();
        a[i]
    }

    /// Moves borrowed data into the inline buffer; owned data stays as it is.
    pub fn make_owned(&mut self)
        ensures
            final(self)@ == old(self)@,
            final(self).owned_spec(),
    {
        match &self.data {
            CowData::Owned(_) => {},
            CowData::Borrowed(r) => {
                let copy: [T; LEN] = **r;
                self.data = CowData::Owned(copy);
            },
        }
    }

    /// Mutable access to the elements. A borrowed vector first copies the data
    /// it borrows into its own buffer, so the source is never written.
    pub fn mut_moo_ref(&mut self) -> (r: &mut [T; LEN])
        ensures
            r@ == old(self)@,
            final(self).owned_spec(),
            final(self)@ == final(r)@,
    {
        self.make_owned();
        match &mut self.data {
            CowData::Owned(a) => a,
            CowData::Borrowed(_) => vstd::pervasive::unreached(),
        }
    }

    /// Writes `v` at `i`, copying borrowed data first.
    pub fn set(&mut self, i: usize, v: T)
        requires
            i < LEN,
        ensures
            final(self)@ == old(self)@.update(i as int, v),
            final(self).owned_spec(),
    {
        let a = self.mut_moo_ref();
        a[i] = v;
    }

    /// A copy of the elements in an owned vector that borrows nothing.
    pub fn moo_owned(&self) -> (r: StaticCowVec<'static, T, LEN>)
        ensures
            r@ == self@,
            r.owned_spec(),
    {
        let a: [T; LEN] = *self.moo_ref();
        StaticCowVec { data: CowData::Owned(a) }
    }
}

} // verus!

verus! {

impl<'a, T: Copy, const LEN: usize> crate::traits::StaticVec<T, LEN> for StaticCowVec<'a, T, LEN> {
    open spec fn elems(&self) -> Seq<T> {
        self@
    }

    proof fn lemma_elems_len(&self) {
        self.lemma_view_len();
    }

    fn get_unchecked(&self, i: usize) -> (r: &T) {
        proof {
            self.lemma_view_len();
        }
        let a = self.moo_ref();
        &a[i]
    }

    fn as_slice(&self) -> (r: &[T]) {
        self.moo_ref().as_slice()
    }
}

} // verus!
