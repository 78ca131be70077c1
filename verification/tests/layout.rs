use miniutil::build::ty::{
    array_ty, bool_ty, box_ty, discriminator_branch, discriminator_invalid, discriminator_known,
    enum_ty, enum_variant, from_frozen_layout, int_ty, raw_ptr_ty, raw_void_ptr_ty, ref_mut_ty,
    ref_mut_ty_default_markers_for, ref_ty, ref_ty_default_markers_for, slice_ty, trait_object_ty,
    tuple_ty, union_ty, unsized_tuple_ty,
};
use miniutil::build::ty_conv::{raw_ptr_ty_to, ref_mut_ty_to, ref_ty_to, TypeConv};
use miniutil::names::{Name, TraitName};
use miniutil::ty::{
    Discriminator, IntType, LayoutStrategy, Mutability, PointeeInfo, PointerMetaKind, PtrType,
    Signedness, TupleHeadLayout, Type, UnsafeCellStrategy,
};

fn u32_ty() -> Type {
    <u32 as TypeConv>::get_type()
}

fn some_trait() -> TraitName {
    TraitName(Name::from_internal(3))
}

#[test]
fn integers_and_bool_have_their_declared_size() {
    assert_eq!(int_ty(Signedness::Signed, 2).layout(), Some(LayoutStrategy::Sized(2, 2)));
    assert_eq!(u32_ty().layout(), Some(LayoutStrategy::Sized(4, 4)));
    assert_eq!(<u128 as TypeConv>::get_type().layout(), Some(LayoutStrategy::Sized(16, 16)));
    assert_eq!(bool_ty().layout(), Some(LayoutStrategy::Sized(1, 1)));
    assert_eq!(<usize as TypeConv>::get_type().layout(), Some(LayoutStrategy::Sized(8, 8)));
    assert_eq!(<isize as TypeConv>::get_type(), Type::Int(IntType { signed: Signedness::Signed, size: 8 }));
}

#[test]
fn thin_pointers_are_one_pointer_wide() {
    assert_eq!(raw_void_ptr_ty().layout(), Some(LayoutStrategy::Sized(8, 8)));
    assert_eq!(Type::Ptr(PtrType::FnPtr).layout(), Some(LayoutStrategy::Sized(8, 8)));
    assert_eq!(Type::Ptr(PtrType::VTablePtr(some_trait())).layout(), Some(LayoutStrategy::Sized(8, 8)));
    let r = ref_ty_default_markers_for(u32_ty());
    assert_eq!(r.layout(), Some(LayoutStrategy::Sized(8, 8)));
    let b = box_ty(PointeeInfo {
        layout: LayoutStrategy::Sized(4, 4),
        inhabited: true,
        unsafe_cells: UnsafeCellStrategy::Sized { bytes: vec![] },
        unpin: true,
    });
    assert_eq!(b.layout(), Some(LayoutStrategy::Sized(8, 8)));
}

#[test]
fn wide_raw_pointers_are_a_pair() {
    assert_eq!(raw_ptr_ty(PointerMetaKind::ElementCount).layout(), Some(LayoutStrategy::Sized(16, 8)));
    assert_eq!(
        raw_ptr_ty(PointerMetaKind::VTablePointer(some_trait())).layout(),
        Some(LayoutStrategy::Sized(16, 8))
    );
}

#[test]
fn array_size_is_element_size_times_count() {
    let a = array_ty(u32_ty(), 3);
    assert_eq!(a.layout(), Some(LayoutStrategy::Sized(12, 4)));
    let nested = array_ty(array_ty(u32_ty(), 0x1_0000), 1);
    assert_eq!(nested.layout(), Some(LayoutStrategy::Sized(0x4_0000, 4)));
    assert_eq!(<[u16; 5] as TypeConv>::get_type().layout(), Some(LayoutStrategy::Sized(10, 2)));
    assert_eq!(<[u16; 5] as TypeConv>::get_size(), Some(10));
    assert_eq!(<[u16; 5] as TypeConv>::get_align(), Some(2));
    assert_eq!(<[u16; 5] as TypeConv>::get_layout(), Some(LayoutStrategy::Sized(10, 2)));
    assert_eq!(array_ty(u32_ty(), 0).layout(), Some(LayoutStrategy::Sized(0, 4)));
}

#[test]
fn array_too_large_has_no_layout() {
    let a = array_ty(<u64 as TypeConv>::get_type(), u64::MAX);
    assert_eq!(a.layout(), None);
    let b = array_ty(<u8 as TypeConv>::get_type(), u64::MAX);
    assert_eq!(b.layout(), Some(LayoutStrategy::Sized(u64::MAX, 1)));
    assert_eq!(array_ty(array_ty(<u8 as TypeConv>::get_type(), u64::MAX), 2).layout(), None);
    assert_eq!(slice_ty(array_ty(<u64 as TypeConv>::get_type(), u64::MAX)).layout(), None);
    assert!(a.is_sized());
}

#[test]
fn slice_is_sized_by_length() {
    let s = slice_ty(u32_ty());
    assert_eq!(s.layout(), Some(LayoutStrategy::Slice(4, 4)));
    assert!(!s.is_sized());
    assert_eq!(s.meta_kind(), PointerMetaKind::ElementCount);
    assert_eq!(<[u32] as TypeConv>::get_type(), slice_ty(u32_ty()));
}

#[test]
fn trait_object_is_unknown() {
    let t = trait_object_ty(some_trait());
    assert_eq!(t.layout(), Some(LayoutStrategy::TraitObject(some_trait())));
    assert!(!t.is_sized());
    assert_eq!(t.meta_kind(), PointerMetaKind::VTablePointer(some_trait()));
}

#[test]
fn meta_kind_of_other_types_is_thin() {
    assert_eq!(u32_ty().meta_kind(), PointerMetaKind::Thin);
    assert_eq!(array_ty(u32_ty(), 2).meta_kind(), PointerMetaKind::Thin);
    assert_eq!(LayoutStrategy::Sized(4, 4).meta_kind(), PointerMetaKind::Thin);
    assert_eq!(LayoutStrategy::Slice(4, 4).meta_kind(), PointerMetaKind::ElementCount);
}

#[test]
fn tuple_is_sized_iff_its_tail_is() {
    let unit = <() as TypeConv>::get_type();
    assert_eq!(
        unit.layout(),
        Some(LayoutStrategy::Tuple {
            head: TupleHeadLayout { end: 0, align: 1, packed_align: None },
            tail: Box::new(LayoutStrategy::Sized(0, 1)),
        })
    );
    assert!(unit.is_sized());
    assert!(unit.layout().unwrap().is_sized());

    let pair = tuple_ty(vec![(0, u32_ty()), (4, u32_ty())], 8, 4);
    assert!(pair.is_sized());
    assert_eq!(pair.layout().unwrap().static_size(), Some(8));
    assert_eq!(pair.layout().unwrap().static_align(), 4);
    assert_eq!(array_ty(pair, 3).layout(), Some(LayoutStrategy::Sized(24, 4)));

    let with_slice = unsized_tuple_ty(vec![(0, u32_ty())], slice_ty(<u16 as TypeConv>::get_type()), 4, 4, None);
    assert_eq!(
        with_slice.layout(),
        Some(LayoutStrategy::Tuple {
            head: TupleHeadLayout { end: 4, align: 4, packed_align: None },
            tail: Box::new(LayoutStrategy::Slice(2, 2)),
        })
    );
    assert!(!with_slice.is_sized());
    assert!(!with_slice.layout().unwrap().is_sized());

    let with_sized_tail = unsized_tuple_ty(vec![], u32_ty(), 4, 4, Some(1));
    assert!(with_sized_tail.is_sized());
    assert_eq!(with_sized_tail.layout().unwrap().static_size(), Some(8));

    let nested = unsized_tuple_ty(vec![], unsized_tuple_ty(vec![], trait_object_ty(some_trait()), 0, 1, None), 0, 1, None);
    assert!(!nested.is_sized());
}

#[test]
fn unions_and_enums_carry_their_layout() {
    let u = union_ty(vec![(0, u32_ty()), (0, bool_ty())], 4, 4);
    assert_eq!(u.layout(), Some(LayoutStrategy::Sized(4, 4)));
    match &u {
        Type::Union { chunks, .. } => assert_eq!(chunks, &vec![(0, 4)]),
        _ => panic!("not a union"),
    }
    let v = enum_variant(bool_ty(), vec![(0, (IntType { signed: Signedness::Unsigned, size: 1 }, 1))]);
    let e = enum_ty::<u8>(vec![(1, v)], discriminator_known(1), 1, 1);
    assert_eq!(e.layout(), Some(LayoutStrategy::Sized(1, 1)));
    match &e {
        Type::Enum { discriminant_ty, .. } => {
            assert_eq!(*discriminant_ty, IntType { signed: Signedness::Unsigned, size: 1 })
        }
        _ => panic!("not an enum"),
    }
}

#[test]
fn discriminators_are_built_as_given() {
    assert_eq!(discriminator_invalid(), Discriminator::Invalid);
    assert_eq!(discriminator_known(7), Discriminator::Known(7));
    let d = discriminator_branch::<i16>(2, discriminator_invalid(), vec![((0, 4), discriminator_known(0))]);
    assert_eq!(
        d,
        Discriminator::Branch {
            offset: 2,
            value_type: IntType { signed: Signedness::Signed, size: 2 },
            fallback: Box::new(Discriminator::Invalid),
            children: vec![((0, 4), Discriminator::Known(0))],
        }
    );
}

#[test]
fn frozen_layout_has_no_cells() {
    assert_eq!(from_frozen_layout(&LayoutStrategy::Sized(4, 4)), UnsafeCellStrategy::Sized { bytes: vec![] });
    assert_eq!(from_frozen_layout(&LayoutStrategy::Slice(4, 4)), UnsafeCellStrategy::Slice { element: vec![] });
    assert_eq!(
        from_frozen_layout(&LayoutStrategy::TraitObject(some_trait())),
        UnsafeCellStrategy::TraitObject { is_freeze: true }
    );
    let t = LayoutStrategy::Tuple {
        head: TupleHeadLayout { end: 4, align: 4, packed_align: None },
        tail: Box::new(LayoutStrategy::Slice(2, 2)),
    };
    assert_eq!(
        from_frozen_layout(&t),
        UnsafeCellStrategy::Tuple { head: vec![], tail: Box::new(UnsafeCellStrategy::Slice { element: vec![] }) }
    );
}

#[test]
fn references_with_default_markers() {
    let r = ref_ty_default_markers_for(slice_ty(u32_ty()));
    let pointee = PointeeInfo {
        layout: LayoutStrategy::Slice(4, 4),
        inhabited: true,
        unsafe_cells: UnsafeCellStrategy::Slice { element: vec![] },
        unpin: true,
    };
    assert_eq!(r, Type::Ptr(PtrType::Ref { mutbl: Mutability::Immutable, pointee }));
    let m = ref_mut_ty_default_markers_for(bool_ty());
    let pointee = PointeeInfo {
        layout: LayoutStrategy::Sized(1, 1),
        inhabited: true,
        unsafe_cells: UnsafeCellStrategy::Sized { bytes: vec![] },
        unpin: true,
    };
    assert_eq!(m, ref_mut_ty(pointee));
    let pointee = PointeeInfo {
        layout: LayoutStrategy::Sized(1, 1),
        inhabited: false,
        unsafe_cells: UnsafeCellStrategy::Sized { bytes: vec![] },
        unpin: false,
    };
    match ref_ty(pointee) {
        Type::Ptr(PtrType::Ref { mutbl, pointee }) => {
            assert_eq!(mutbl, Mutability::Immutable);
            assert!(!pointee.inhabited);
        }
        _ => panic!("not a reference"),
    }
}

#[test]
fn structural_equality_of_types() {
    let a = tuple_ty(vec![(0, u32_ty()), (4, slice_ty(bool_ty()))], 8, 4);
    let b = tuple_ty(vec![(0, u32_ty()), (4, slice_ty(bool_ty()))], 8, 4);
    let c = tuple_ty(vec![(0, u32_ty()), (4, slice_ty(u32_ty()))], 8, 4);
    assert!(a.same_as(&b));
    assert!(!a.same_as(&c));
    assert!(!a.same_as(&u32_ty()));
    assert!(ref_ty_default_markers_for(u32_ty()).same_as(&ref_ty_default_markers_for(u32_ty())));
    assert!(!ref_ty_default_markers_for(u32_ty()).same_as(&ref_mut_ty_default_markers_for(u32_ty())));
}

#[test]
fn copies_are_equal_to_what_they_were_made_from() {
    let v = enum_variant(bool_ty(), vec![(0, (IntType { signed: Signedness::Unsigned, size: 1 }, 1))]);
    let e = enum_ty::<u8>(
        vec![(1, v)],
        discriminator_branch::<u8>(0, discriminator_invalid(), vec![((0, 2), discriminator_known(1))]),
        1,
        1,
    );
    let t = unsized_tuple_ty(
        vec![(0, e), (4, ref_ty_default_markers_for(slice_ty(u32_ty()))), (8, union_ty(vec![(0, u32_ty())], 4, 4))],
        array_ty(trait_object_ty(some_trait()), 2),
        16,
        8,
        Some(2),
    );
    let copy = t.clone();
    assert_eq!(copy, t);
    assert!(copy.same_as(&t));
    assert_eq!(t.duplicate(), t);
    let l = t.layout().unwrap();
    assert_eq!(l.clone(), l);
    assert!(l.same_as(&l.duplicate()));
    assert!(!l.same_as(&LayoutStrategy::Sized(16, 8)));
}

#[test]
fn size_and_alignment_of_unsized_types_are_not_given() {
    assert_eq!(<[u32] as TypeConv>::get_size(), None);
    assert_eq!(<[u32] as TypeConv>::get_align(), None);
    assert_eq!(<[u32] as TypeConv>::get_layout(), Some(LayoutStrategy::Slice(4, 4)));
    assert_eq!(<u64 as TypeConv>::get_size(), Some(8));
    assert_eq!(<u64 as TypeConv>::get_align(), Some(8));
    assert_eq!(<() as TypeConv>::get_size(), Some(0));
    assert_eq!(<() as TypeConv>::get_align(), Some(1));
    assert_eq!(<[[u8; 3]; 0] as TypeConv>::get_size(), Some(0));
}

#[test]
fn raw_pointers_to_host_types() {
    assert_eq!(raw_ptr_ty_to::<u32>(), raw_ptr_ty(PointerMetaKind::Thin));
    assert_eq!(raw_ptr_ty_to::<[u32]>(), raw_ptr_ty(PointerMetaKind::ElementCount));
    assert_eq!(raw_ptr_ty_to::<[[[u8; 3]; 2]]>(), raw_ptr_ty(PointerMetaKind::ElementCount));
    assert_eq!(raw_ptr_ty_to::<[u8; 3]>().layout(), Some(LayoutStrategy::Sized(8, 8)));
}

#[test]
fn references_to_host_types() {
    assert_eq!(ref_ty_to::<[u32]>(), Some(ref_ty_default_markers_for(slice_ty(u32_ty()))));
    assert_eq!(ref_mut_ty_to::<[u8; 3]>(), Some(ref_mut_ty_default_markers_for(array_ty(<u8 as TypeConv>::get_type(), 3))));
    assert_eq!(ref_ty_to::<u32>().unwrap().layout(), Some(LayoutStrategy::Sized(8, 8)));
    assert!(ref_ty_to::<()>().is_some());
}
