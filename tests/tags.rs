use slas::tags::{ConstTaggable, ConstTypeTag, DynTaggable, DynTypeTag, TypeTag, TypeTagStack};

#[test]
fn dyn_tag_add_and_revoke() {
    let mut t = DynTypeTag(TypeTag::IsMatrix);
    assert!(t.has_tag(TypeTag::IsMatrix));
    assert!(!t.has_tag(TypeTag::IsNormalized));
    t.add_tag(TypeTag::IsNormalized);
    assert!(t.has_tag(TypeTag::IsNormalized));
    t.del_tag(TypeTag::IsNormalized);
    assert!(t.has_tag(TypeTag::Revoked));
    assert!(!t.has_tag(TypeTag::IsNormalized));
    assert!(t.const_has_tag::<4>());
}

#[test]
fn const_tag() {
    let t = ConstTypeTag::<2>;
    assert!(t.has_tag(TypeTag::IsTransposed));
    assert!(!t.has_tag(TypeTag::IsMatrix));
    assert!(t.const_has_tag::<2>());
    assert!(!t.const_has_tag::<1>());
}

#[test]
fn tag_numbers() {
    assert_eq!(TypeTag::from_index(0), TypeTag::IsNormalized);
    assert_eq!(TypeTag::from_index(5), TypeTag::Max);
    assert_eq!(TypeTag::IsTagList.index(), 3);
}

#[test]
fn tag_stack() {
    let s = TypeTagStack::<1>::new();
    let s2 = s.push_tag::<2>();
    assert!(s2.has_tag(TypeTag::IsMatrix));
    assert!(s2.has_tag(TypeTag::IsTransposed));
    assert!(!s2.has_tag(TypeTag::IsNormalized));
    assert!(s2.const_has_tag::<1>());
    assert!(!s2.const_has_tag::<0>());
    let below = s2.pop_tag();
    assert!(below.has_tag(TypeTag::IsMatrix));
    assert!(!below.has_tag(TypeTag::IsTransposed));
    let all = s2.push_tag::<3>();
    assert!(all.has_tag(TypeTag::IsNormalized));
}

#[test]
fn tag_list_below_top_answers_every_tag() {
    let s = TypeTagStack::<3>::new();
    let s2 = s.push_tag::<0>();
    assert!(s2.has_tag(TypeTag::IsMatrix));
    assert!(s2.const_has_tag::<2>());
    let below = s2.pop_tag();
    assert!(below.has_tag(TypeTag::Revoked));
    let plain = TypeTagStack::<1>::new().push_tag::<0>();
    assert!(!plain.has_tag(TypeTag::IsTransposed));
    assert!(!plain.pop_tag().has_tag(TypeTag::IsNormalized));
}
