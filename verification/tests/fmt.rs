use miniutil::build::ty::{
    array_ty, bool_ty, box_ty, discriminator_known, enum_ty, enum_variant, raw_ptr_ty,
    ref_mut_ty_default_markers_for, ref_ty_default_markers_for, slice_ty, trait_object_ty, tuple_ty,
    union_ty, unsized_tuple_ty,
};
use miniutil::build::ty_conv::TypeConv;
use miniutil::fmt::ty::{
    fmt_comptype, fmt_comptype_chunks, fmt_comptype_fields, fmt_comptype_index, fmt_comptypes,
    fmt_int_type, fmt_layout_strategy, fmt_meta_kind, fmt_pointee_info, fmt_ptr_type, fmt_type,
    get_comptype_index, CompTypeIndex,
};
use miniutil::fmt::{fmt_int, fmt_nat, fmt_trait_name, FmtExpr};
use miniutil::names::{Name, TraitName};
use miniutil::ty::{
    IntType, LayoutStrategy, PointeeInfo, PointerMetaKind, PtrType, Signedness, TupleHeadLayout, Type,
    UnsafeCellStrategy,
};

fn ty<T: TypeConv + ?Sized>() -> Type {
    T::get_type()
}

fn some_trait() -> TraitName {
    TraitName(Name::from_internal(3))
}

#[test]
fn numbers() {
    assert_eq!(fmt_nat(0), "0");
    assert_eq!(fmt_nat(7), "7");
    assert_eq!(fmt_nat(10), "10");
    assert_eq!(fmt_nat(1234567890), "1234567890");
    assert_eq!(fmt_nat(u128::MAX), "340282366920938463463374607431768211455");
    assert_eq!(fmt_int(0), "0");
    assert_eq!(fmt_int(-42), "-42");
    assert_eq!(fmt_int(905), "905");
    assert_eq!(fmt_int(i128::MIN), "-170141183460469231731687303715884105728");
    assert_eq!(fmt_int(i128::MAX), "170141183460469231731687303715884105727");
    assert_eq!(fmt_trait_name(some_trait()), "trait3");
}

#[test]
fn integer_types() {
    assert_eq!(fmt_int_type(IntType { signed: Signedness::Unsigned, size: 4 }), "u32");
    assert_eq!(fmt_int_type(IntType { signed: Signedness::Signed, size: 16 }), "i128");
    assert_eq!(fmt_int_type(IntType { signed: Signedness::Signed, size: 0 }), "i0");
    assert_eq!(
        fmt_int_type(IntType { signed: Signedness::Unsigned, size: u64::MAX }),
        "u147573952589676412920"
    );
}

#[test]
fn meta_kinds() {
    assert_eq!(fmt_meta_kind(PointerMetaKind::Thin), "thin");
    assert_eq!(fmt_meta_kind(PointerMetaKind::ElementCount), "meta=len");
    assert_eq!(fmt_meta_kind(PointerMetaKind::VTablePointer(some_trait())), "meta=vtable<trait3>");
}

#[test]
fn layout_strategies() {
    assert_eq!(fmt_layout_strategy(&LayoutStrategy::Sized(4, 2)), "size=4, align=2");
    assert_eq!(fmt_layout_strategy(&LayoutStrategy::Slice(2, 1)), "size=2*len, align=1");
    assert_eq!(fmt_layout_strategy(&LayoutStrategy::TraitObject(some_trait())), "size,align={unknown}");
    let t = LayoutStrategy::Tuple {
        head: TupleHeadLayout { end: 4, align: 4, packed_align: None },
        tail: Box::new(LayoutStrategy::Slice(2, 2)),
    };
    assert_eq!(fmt_layout_strategy(&t), "head=(end=4, align=4), tail=(size=2*len, align=2)");
    let t = LayoutStrategy::Tuple {
        head: TupleHeadLayout { end: 12, align: 4, packed_align: Some(1) },
        tail: Box::new(LayoutStrategy::Sized(0, 1)),
    };
    assert_eq!(fmt_layout_strategy(&t), "head=(end=12, align=4), packed=1, tail=(size=0, align=1)");
}

#[test]
fn pointee_infos() {
    let plain = PointeeInfo {
        layout: LayoutStrategy::Sized(4, 4),
        inhabited: true,
        unsafe_cells: UnsafeCellStrategy::Sized { bytes: vec![] },
        unpin: true,
    };
    assert_eq!(fmt_pointee_info(&plain), "pointee_info(thin, size=4, align=4)");
    let odd = PointeeInfo {
        layout: LayoutStrategy::Slice(4, 4),
        inhabited: false,
        unsafe_cells: UnsafeCellStrategy::Slice { element: vec![(0, 4)] },
        unpin: false,
    };
    assert_eq!(
        fmt_pointee_info(&odd),
        "pointee_info(meta=len, size=4*len, align=4, uninhabited, !Freeze, !Unpin)"
    );
    let object = PointeeInfo {
        layout: LayoutStrategy::TraitObject(some_trait()),
        inhabited: true,
        unsafe_cells: UnsafeCellStrategy::TraitObject { is_freeze: false },
        unpin: true,
    };
    assert_eq!(
        fmt_pointee_info(&object),
        "pointee_info(meta=vtable<trait3>, size,align={unknown}, !Freeze)"
    );
    let nested = UnsafeCellStrategy::Tuple {
        head: vec![],
        tail: Box::new(UnsafeCellStrategy::Sized { bytes: vec![(1, 2)] }),
    };
    assert!(!nested.is_freeze_outside());
    assert!(UnsafeCellStrategy::Tuple { head: vec![], tail: Box::new(UnsafeCellStrategy::TraitObject { is_freeze: true }) }
        .is_freeze_outside());
}

#[test]
fn pointer_types() {
    let shared = ref_ty_default_markers_for(ty::<u32>());
    let unique = ref_mut_ty_default_markers_for(ty::<u32>());
    let boxed = box_ty(PointeeInfo {
        layout: LayoutStrategy::Sized(1, 1),
        inhabited: true,
        unsafe_cells: UnsafeCellStrategy::Sized { bytes: vec![] },
        unpin: true,
    });
    let raw = raw_ptr_ty(PointerMetaKind::Thin);
    let mut seen = vec![];
    assert_eq!(
        fmt_type(&shared, &mut seen),
        FmtExpr::NonAtomic("&pointee_info(thin, size=4, align=4)".to_string())
    );
    assert_eq!(
        fmt_type(&unique, &mut seen),
        FmtExpr::NonAtomic("&mut pointee_info(thin, size=4, align=4)".to_string())
    );
    assert_eq!(fmt_type(&unique, &mut seen).to_atomic_string(), "(&mut pointee_info(thin, size=4, align=4))");
    assert_eq!(fmt_type(&unique, &mut seen).to_string(), "&mut pointee_info(thin, size=4, align=4)");
    assert_eq!(
        fmt_type(&boxed, &mut seen),
        FmtExpr::Atomic("Box<pointee_info(thin, size=1, align=1)>".to_string())
    );
    assert_eq!(fmt_type(&boxed, &mut seen).to_atomic_string(), "Box<pointee_info(thin, size=1, align=1)>");
    assert_eq!(
        fmt_ptr_type(&PtrType::Raw { meta_kind: PointerMetaKind::ElementCount }),
        FmtExpr::NonAtomic("*raw(meta=len)".to_string())
    );
    assert_eq!(fmt_type(&raw, &mut seen).to_string(), "*raw(thin)");
    assert_eq!(fmt_ptr_type(&PtrType::FnPtr), FmtExpr::Atomic("fn()".to_string()));
    assert_eq!(fmt_ptr_type(&PtrType::VTablePtr(some_trait())), FmtExpr::Atomic("{vtable}".to_string()));
    assert!(seen.is_empty());
}

#[test]
fn simple_types() {
    let a = array_ty(ty::<u32>(), 3);
    let s = slice_ty(array_ty(ty::<i8>(), 0));
    let d = trait_object_ty(some_trait());
    let n = ty::<u64>();
    let b = bool_ty();
    let mut seen = vec![];
    assert_eq!(fmt_type(&n, &mut seen), FmtExpr::Atomic("u64".to_string()));
    assert_eq!(fmt_type(&b, &mut seen), FmtExpr::Atomic("bool".to_string()));
    assert_eq!(fmt_type(&a, &mut seen), FmtExpr::Atomic("[u32; 3]".to_string()));
    assert_eq!(fmt_type(&s, &mut seen), FmtExpr::Atomic("[[i8; 0]]".to_string()));
    assert_eq!(fmt_type(&d, &mut seen), FmtExpr::Atomic("dyn trait3".to_string()));
    assert!(seen.is_empty());
}

#[test]
fn composite_types_are_listed_once() {
    let pair = tuple_ty(vec![(0, ty::<u8>()), (1, ty::<u8>())], 2, 1);
    let same_pair = tuple_ty(vec![(0, ty::<u8>()), (1, ty::<u8>())], 2, 1);
    let other = union_ty(vec![(0, ty::<u32>())], 4, 4);
    let pairs = array_ty(tuple_ty(vec![(0, ty::<u8>()), (1, ty::<u8>())], 2, 1), 5);
    let mut seen = vec![];
    assert_eq!(fmt_type(&pair, &mut seen).to_string(), "T0");
    assert_eq!(fmt_type(&other, &mut seen).to_string(), "T1");
    assert_eq!(fmt_type(&same_pair, &mut seen).to_string(), "T0");
    assert_eq!(fmt_type(&pairs, &mut seen).to_string(), "[T0; 5]");
    assert_eq!(seen.len(), 2);
    assert_eq!(get_comptype_index(&other, &mut seen).idx, 1);
    let unit = ty::<()>();
    assert_eq!(get_comptype_index(&unit, &mut seen).idx, 2);
    assert_eq!(seen.len(), 3);
    assert_eq!(fmt_comptype_index(CompTypeIndex { idx: 12 }), "T12");
}

#[test]
fn fields_and_chunks() {
    let fields = vec![(0, ty::<u32>()), (4, ty::<()>()), (4, slice_ty(ty::<()>()))];
    let mut seen = vec![];
    assert_eq!(
        fmt_comptype_fields(&fields, &mut seen),
        "  at byte 0: u32,\n  at byte 4: T0,\n  at byte 4: [T0],\n"
    );
    assert_eq!(seen.len(), 1);
    assert_eq!(fmt_comptype_fields(&vec![], &mut seen), "");
    assert_eq!(fmt_comptype_chunks(&vec![(0, 4), (8, 2)]), "  chunk(at=0, size=4),\n  chunk(at=8, size=2),\n");
    assert_eq!(fmt_comptype_chunks(&vec![]), "");
}

#[test]
fn one_composite_type() {
    let inner = tuple_ty(vec![(0, ty::<u8>()), (1, ty::<u8>())], 2, 1);
    let outer = tuple_ty(vec![(0, ty::<u32>()), (4, inner)], 8, 4);
    let mut seen = vec![&outer];
    assert_eq!(
        fmt_comptype(CompTypeIndex { idx: 0 }, &outer, &mut seen),
        "tuple T0 (head=(end=8, align=4), tail=(size=0, align=1)) {\n  at byte 0: u32,\n  at byte 4: T1,\n}\n\n"
    );
    assert_eq!(seen.len(), 2);

    let unsized_tuple = unsized_tuple_ty(vec![(0, ty::<u32>())], slice_ty(ty::<u16>()), 4, 4, None);
    let mut seen = vec![&unsized_tuple];
    assert_eq!(
        fmt_comptype(CompTypeIndex { idx: 0 }, &unsized_tuple, &mut seen),
        "tuple T0 (head=(end=4, align=4), tail=(size=2*len, align=2)) {\n  at byte 0: u32,\n  tail: [u16],\n}\n\n"
    );

    let u = union_ty(vec![(0, ty::<u32>()), (0, bool_ty())], 4, 4);
    let mut seen = vec![&u];
    assert_eq!(
        fmt_comptype(CompTypeIndex { idx: 0 }, &u, &mut seen),
        "union T0 (size=4, align=4) {\n  at byte 0: u32,\n  at byte 0: bool,\n  chunk(at=0, size=4),\n}\n\n"
    );

    let v = enum_variant(bool_ty(), vec![]);
    let w = enum_variant(ty::<()>(), vec![]);
    let e = enum_ty::<u8>(vec![(1, v), (-2, w)], discriminator_known(1), 1, 1);
    let mut seen = vec![&e];
    assert_eq!(
        fmt_comptype(CompTypeIndex { idx: 4 }, &e, &mut seen),
        "enum T4 (size=1, align=1) {\n  Discriminant: u8\n  Variant 1: bool\n  Variant -2: T1\n}\n\n"
    );

    let huge = unsized_tuple_ty(vec![], array_ty(ty::<u64>(), u64::MAX), 0, 8, None);
    let mut seen = vec![&huge];
    assert_eq!(
        fmt_comptype(CompTypeIndex { idx: 0 }, &huge, &mut seen),
        "tuple T0 (size,align={overflow}) {\n  tail: [u64; 18446744073709551615],\n}\n\n"
    );
}

#[test]
fn all_composite_types_in_the_order_they_are_met() {
    let leaf = || tuple_ty(vec![(0, ty::<u8>())], 1, 1);
    let left = tuple_ty(vec![(0, leaf())], 1, 1);
    let right = union_ty(vec![(0, ty::<u16>())], 2, 2);
    let root = tuple_ty(vec![(0, left), (2, right), (4, leaf())], 6, 2);
    let mut seen = vec![];
    assert_eq!(fmt_type(&root, &mut seen).to_string(), "T0");
    let text = fmt_comptypes(seen);
    let expected = "tuple T0 (head=(end=6, align=2), tail=(size=0, align=1)) {\n  at byte 0: T1,\n  at byte 2: T2,\n  at byte 4: T3,\n}\n\n\
tuple T1 (head=(end=1, align=1), tail=(size=0, align=1)) {\n  at byte 0: T3,\n}\n\n\
union T2 (size=2, align=2) {\n  at byte 0: u16,\n  chunk(at=0, size=2),\n}\n\n\
tuple T3 (head=(end=1, align=1), tail=(size=0, align=1)) {\n  at byte 0: u8,\n}\n\n";
    assert_eq!(text, expected);
    assert_eq!(fmt_comptypes(vec![]), "");
}
