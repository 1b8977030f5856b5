//! Type tags: markers that record facts about a value (normalized, a matrix,
//! transposed), held one at a time, fixed at compile time, or stacked.
use vstd::prelude::*;

verus! {

#[derive(Clone, Copy, Debug, PartialEq, Eq, Structural)]
pub enum TypeTag {
    IsNormalized,
    IsMatrix,
    IsTransposed,
    IsTagList,
    Revoked,
    Max,
}

/// The number of a tag, in declaration order.
pub open spec fn tag_index(t: TypeTag) -> nat {
    match t {
        TypeTag::IsNormalized => 0,
        TypeTag::IsMatrix => 1,
        TypeTag::IsTransposed => 2,
        TypeTag::IsTagList => 3,
        TypeTag::Revoked => 4,
        TypeTag::Max => 5,
    }
}

impl TypeTag {
    pub fn index(self) -> (r: usize)
        ensures
            r == tag_index(self),
    {
        match self {
            TypeTag::IsNormalized => 0,
            TypeTag::IsMatrix => 1,
            TypeTag::IsTransposed => 2,
            TypeTag::IsTagList => 3,
            TypeTag::Revoked => 4,
            TypeTag::Max => 5,
        }
    }

    /// The tag numbered `u`; numbers above that of `Max` name no tag.
    pub fn from_index(u: usize) -> (r: TypeTag)
        requires
            u <= 5,
        ensures
            tag_index(r) == u,
    {
        if u == 0 {
            TypeTag::IsNormalized
        } else if u == 1 {
            TypeTag::IsMatrix
        } else if u == 2 {
            TypeTag::IsTransposed
        } else if u == 3 {
            TypeTag::IsTagList
        } else if u == 4 {
            TypeTag::Revoked
        } else {
            TypeTag::Max
        }
    }
}

/// A value that can be asked for tags at run time.
pub trait DynTaggable {
    spec fn tagged(&self, tag: TypeTag) -> bool;

    /// Tags can be added to and removed from this value.
    spec fn accepts_tags(&self) -> bool;

    fn has_tag(&self, tag: TypeTag) -> (r: bool)
        ensures
            r == self.tagged(tag),
    ;

    fn add_tag(&mut self, tag: TypeTag)
        requires
            old(self).accepts_tags(),
        ensures
            final(self).tagged(tag),
            final(self).accepts_tags(),
    ;

    fn del_tag(&mut self, tag: TypeTag)
        requires
            old(self).accepts_tags(),
            old(self).tagged(tag),
        ensures
            final(self).tagged(TypeTag::Revoked),
            tag != TypeTag::Revoked ==> !final(self).tagged(tag),
            final(self).accepts_tags(),
    ;
}

/// A value whose tags can be asked for by number, as a compile-time constant.
pub trait ConstTaggable: DynTaggable {
    fn const_has_tag<const TAG2: usize>(&self) -> (r: bool)
        ensures
            TAG2 <= 5 ==> r == self.tagged(TypeTag::from_index_spec(TAG2 as nat)),
    ;
}

impl TypeTag {
    /// The tag numbered `u`, for `u` up to that of `Max`.
    pub open spec fn from_index_spec(u: nat) -> TypeTag {
        if u == 0 {
            TypeTag::IsNormalized
        } else if u == 1 {
            TypeTag::IsMatrix
        } else if u == 2 {
            TypeTag::IsTransposed
        } else if u == 3 {
            TypeTag::IsTagList
        } else if u == 4 {
            TypeTag::Revoked
        } else {
            TypeTag::Max
        }
    }
}

/// One tag, changeable at run time.
#[derive(Clone, Copy, Debug, PartialEq, Eq, Structural)]
pub struct DynTypeTag(pub TypeTag);

impl DynTaggable for DynTypeTag {
    open spec fn tagged(&self, tag: TypeTag) -> bool {
        self.0 == tag
    }

    open spec fn accepts_tags(&self) -> bool {
        true
    }

    fn has_tag(&self, tag: TypeTag) -> (r: bool) {
        tag == self.0
    }

    fn add_tag(&mut self, tag: TypeTag) {
        self.0 = tag;
    }

    /// Replaces the tag by `Revoked`.
    fn del_tag(&mut self, tag: TypeTag) {
        self.0 = TypeTag::Revoked;
    }
}

impl ConstTaggable for DynTypeTag {
    fn const_has_tag<const TAG2: usize>(&self) -> (r: bool) {
        self.0.index() == TAG2
    }
}

/// One tag, fixed at compile time by its number.
#[derive(Clone, Copy, Debug)]
pub struct ConstTypeTag<const TAG: usize>;

impl<const TAG: usize> DynTaggable for ConstTypeTag<TAG> {
    open spec fn tagged(&self, tag: TypeTag) -> bool {
        tag_index(tag) == TAG
    }

    /// A compile-time tag cannot change.
    open spec fn accepts_tags(&self) -> bool {
        false
    }

    fn has_tag(&self, tag: TypeTag) -> (r: bool) {
        tag.index() == TAG
    }

    fn add_tag(&mut self, tag: TypeTag) {
        vstd::pervasive::unreached()
    }

    fn del_tag(&mut self, tag: TypeTag) {
        vstd::pervasive::unreached()
    }
}

impl<const TAG: usize> ConstTaggable for ConstTypeTag<TAG> {
    fn const_has_tag<const TAG2: usize>(&self) -> (r: bool) {
        TAG == TAG2
    }
}

/// Tags pushed one on another: the top one, `TAG`, fixed at compile time,
/// over the numbers of those pushed before it, oldest first.
pub struct TypeTagStack<const TAG: usize> {
    below: Vec<usize>,
}

/// The list of tag numbers under the top of a stack.
pub struct TagList {
    tags: Vec<usize>,
}

impl View for TagList {
    type V = Seq<usize>;

    closed spec fn view(&self) -> Seq<usize> {
        self.tags@
    }
}

/// `u` occurs in `s`.
fn contains_index(s: &Vec<usize>, u: usize) -> (r: bool)
    ensures
        r == s@.contains(u),
{
    let mut i: usize = 0;
    while i < s.len()
        invariant
            i <= s@.len(),
            forall|j: int| 0 <= j < i ==> s@[j] != u,
        decreases s@.len() - i,
    {
        if s[i] == u {
            return true;
        }
        i += 1;
    }
    false
}

impl DynTaggable for TagList {
    /// A list that holds `IsTagList` answers yes to every tag.
    open spec fn tagged(&self, tag: TypeTag) -> bool {
        self@.contains(3) || self@.contains(tag_index(tag) as usize)
    }

    /// The tags of a stack change by pushing and popping only.
    open spec fn accepts_tags(&self) -> bool {
        false
    }

    fn has_tag(&self, tag: TypeTag) -> (r: bool) {
        contains_index(&self.tags, 3) || contains_index(&self.tags, tag.index())
    }

    fn add_tag(&mut self, tag: TypeTag) {
        vstd::pervasive::unreached()
    }

    fn del_tag(&mut self, tag: TypeTag) {
        vstd::pervasive::unreached()
    }
}

impl<const TAG: usize> TypeTagStack<TAG> {
    /// The tag numbers from the bottom of the stack to its top.
    pub closed spec fn stack(&self) -> Seq<usize> {
        self.below@.push(TAG)
    }

    /// A stack that holds `TAG` alone.
    pub fn new() -> (r: Self)
        ensures
            r.stack() == seq![TAG],
    {
        let r = TypeTagStack { below: Vec::new() };
        assert(r.stack() =~= seq![TAG]);
        r
    }

    /// This stack with `TAG2` pushed on top.
    pub fn push_tag<const TAG2: usize>(&self) -> (r: TypeTagStack<TAG2>)
        ensures
            r.stack() == self.stack().push(TAG2),
    {
        let mut below = self.below.clone();
        assert(below@ =~= self.below@);
        below.push(TAG);
        let r = TypeTagStack { below };
        assert(r.stack() =~= self.stack().push(TAG2));
        r
    }

    /// The tags under the top of the stack.
    pub fn pop_tag(&self) -> (r: TagList)
        ensures
            r@ == self.stack().drop_last(),
    {
        let tags = self.below.clone();
        let r = TagList { tags };
        assert(r@ =~= self.stack().drop_last());
        r
    }
}

impl<const TAG: usize> TypeTagStack<TAG> {
    /// `u` is in the stack: on top, or in the list under it.
    fn stack_contains(&self, u: usize) -> (r: bool)
        ensures
            r == self.stack().contains(u),
    {
        let r = u == TAG || contains_index(&self.below, u);
        proof {
            let st = self.stack();
            assert(st[st.len() - 1] == TAG);
            if r {
                if u != TAG {
                    let j = choose|j: int| 0 <= j < self.below@.len() && self.below@[j] == u;
                    assert(st[j] == u);
                }
            } else {
                assert forall|j: int| 0 <= j < st.len() implies st[j] != u by {
                    if j < self.below@.len() {
                        assert(st[j] == self.below@[j]);
                    }
                }
            }
        }
        r
    }
}

impl<const TAG: usize> DynTaggable for TypeTagStack<TAG> {
    /// A stack that holds `IsTagList` anywhere answers yes to every tag.
    open spec fn tagged(&self, tag: TypeTag) -> bool {
        self.stack().contains(3) || self.stack().contains(tag_index(tag) as usize)
    }

    open spec fn accepts_tags(&self) -> bool {
        false
    }

    fn has_tag(&self, tag: TypeTag) -> (r: bool) {
        self.stack_contains(3) || self.stack_contains(tag.index())
    }

    fn add_tag(&mut self, tag: TypeTag) {
        vstd::pervasive::unreached()
    }

    fn del_tag(&mut self, tag: TypeTag) {
        vstd::pervasive::unreached()
    }
}

impl<const TAG: usize> ConstTaggable for TypeTagStack<TAG> {
    fn const_has_tag<const TAG2: usize>(&self) -> (r: bool) {
        self.stack_contains(3) || self.stack_contains(TAG2)
    }
}

} // verus!
