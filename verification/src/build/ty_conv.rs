//! Conversion of host types to types of the language.

use vstd::prelude::*;
use crate::build::ty::{
    array_ty, bool_ty, default_pointee_of, raw_ptr_ty, ref_mut_ty_default_markers_for,
    ref_ty_default_markers_for, slice_ty, tuple_ty,
};
use crate::ty::{
    Align, IntType, LayoutStrategy, Mutability, PtrType, Signedness, Size, Type, PTR_SIZE,
};

verus! {

/// A host type that stands for a type of the language.
pub trait TypeConv {
    /// Whether `t` is the type of the language that this host type stands for.
    spec fn converts_to(t: Type) -> bool;

    /// The type of the language that this host type stands for.
    fn get_type() -> (t: Type)
        ensures
            Self::converts_to(t),
    ;

    /// The layout of that type; `None` exactly when a size in it does not
    /// fit in 64 bits.
    fn get_layout() -> (res: Option<LayoutStrategy>)
        ensures
            exists|t: Type|
                Self::converts_to(t) && (res is Some <==> t.representable()) && (res is Some
                    ==> res.unwrap()@ == t.layout_model()),
    {
        let t = Self::get_type();
        t.layout()
    }

    /// The size of that type; `None` where the type is unsized, and where a
    /// size in its layout does not fit in 64 bits.
    fn get_size() -> (res: Option<Size>)
        ensures
            exists|t: Type|
                Self::converts_to(t) && (res is Some <==> t.sized() && t.representable()
                    && t.layout_model().static_size() <= u64::MAX) && (res is Some
                    ==> res.unwrap() == t.layout_model().static_size()),
    {
        let t = Self::get_type();
        match t.layout() {
            Some(l) => if l.is_sized() {
                l.static_size()
            } else {
                None
            },
            None => None,
        }
    }

    /// The alignment of that type; `None` where the type is unsized, and
    /// where a size in its layout does not fit in 64 bits.
    fn get_align() -> (res: Option<Align>)
        ensures
            exists|t: Type|
                Self::converts_to(t) && (res is Some <==> t.sized() && t.representable()) && (res
                    is Some ==> res.unwrap() == t.layout_model().static_align()),
    {
        let t = Self::get_type();
        match t.layout() {
            Some(l) => if l.is_sized() {
                Some(l.static_align())
            } else {
                None
            },
            None => None,
        }
    }
}

impl TypeConv for u8 {
    open spec fn converts_to(t: Type) -> bool {
        t == Type::Int(IntType { signed: Signedness::Unsigned, size: 1 })
    }

    fn get_type() -> (t: Type) {
        Type::Int(IntType { signed: Signedness::Unsigned, size: 1 })
    }
}

impl TypeConv for u16 {
    open spec fn converts_to(t: Type) -> bool {
        t == Type::Int(IntType { signed: Signedness::Unsigned, size: 2 })
    }

    fn get_type() -> (t: Type) {
        Type::Int(IntType { signed: Signedness::Unsigned, size: 2 })
    }
}

impl TypeConv for u32 {
    open spec fn converts_to(t: Type) -> bool {
        t == Type::Int(IntType { signed: Signedness::Unsigned, size: 4 })
    }

    fn get_type() -> (t: Type) {
        Type::Int(IntType { signed: Signedness::Unsigned, size: 4 })
    }
}

impl TypeConv for u64 {
    open spec fn converts_to(t: Type) -> bool {
        t == Type::Int(IntType { signed: Signedness::Unsigned, size: 8 })
    }

    fn get_type() -> (t: Type) {
        Type::Int(IntType { signed: Signedness::Unsigned, size: 8 })
    }
}

impl TypeConv for u128 {
    open spec fn converts_to(t: Type) -> bool {
        t == Type::Int(IntType { signed: Signedness::Unsigned, size: 16 })
    }

    fn get_type() -> (t: Type) {
        Type::Int(IntType { signed: Signedness::Unsigned, size: 16 })
    }
}

impl TypeConv for i8 {
    open spec fn converts_to(t: Type) -> bool {
        t == Type::Int(IntType { signed: Signedness::Signed, size: 1 })
    }

    fn get_type() -> (t: Type) {
        Type::Int(IntType { signed: Signedness::Signed, size: 1 })
    }
}

impl TypeConv for i16 {
    open spec fn converts_to(t: Type) -> bool {
        t == Type::Int(IntType { signed: Signedness::Signed, size: 2 })
    }

    fn get_type() -> (t: Type) {
        Type::Int(IntType { signed: Signedness::Signed, size: 2 })
    }
}

impl TypeConv for i32 {
    open spec fn converts_to(t: Type) -> bool {
        t == Type::Int(IntType { signed: Signedness::Signed, size: 4 })
    }

    fn get_type() -> (t: Type) {
        Type::Int(IntType { signed: Signedness::Signed, size: 4 })
    }
}

impl TypeConv for i64 {
    open spec fn converts_to(t: Type) -> bool {
        t == Type::Int(IntType { signed: Signedness::Signed, size: 8 })
    }

    fn get_type() -> (t: Type) {
        Type::Int(IntType { signed: Signedness::Signed, size: 8 })
    }
}

impl TypeConv for i128 {
    open spec fn converts_to(t: Type) -> bool {
        t == Type::Int(IntType { signed: Signedness::Signed, size: 16 })
    }

    fn get_type() -> (t: Type) {
        Type::Int(IntType { signed: Signedness::Signed, size: 16 })
    }
}

impl TypeConv for usize {
    open spec fn converts_to(t: Type) -> bool {
        t == Type::Int(IntType { signed: Signedness::Unsigned, size: PTR_SIZE })
    }

    fn get_type() -> (t: Type) {
        Type::Int(IntType { signed: Signedness::Unsigned, size: PTR_SIZE })
    }
}

impl TypeConv for isize {
    open spec fn converts_to(t: Type) -> bool {
        t == Type::Int(IntType { signed: Signedness::Signed, size: PTR_SIZE })
    }

    fn get_type() -> (t: Type) {
        Type::Int(IntType { signed: Signedness::Signed, size: PTR_SIZE })
    }
}

impl TypeConv for bool {
    open spec fn converts_to(t: Type) -> bool {
        t == Type::Bool
    }

    fn get_type() -> (t: Type) {
        bool_ty()
    }
}

impl<T: TypeConv, const N: usize> TypeConv for [T; N] {
    open spec fn converts_to(t: Type) -> bool {
        t matches Type::Array { elem, count } && T::converts_to(*elem) && count == N
    }

    fn get_type() -> (t: Type) {
        array_ty(T::get_type(), N as u64)
    }
}

impl<T: TypeConv> TypeConv for [T] {
    open spec fn converts_to(t: Type) -> bool {
        t matches Type::Slice { elem } && T::converts_to(*elem)
    }

    fn get_type() -> (t: Type) {
        slice_ty(T::get_type())
    }
}

impl TypeConv for () {
    open spec fn converts_to(t: Type) -> bool {
        is_unit_type(t)
    }

    fn get_type() -> (t: Type) {
        tuple_ty(Vec::new(), 0, 1)
    }
}

/// Whether `t` is the tuple without fields.
pub open spec fn is_unit_type(t: Type) -> bool {
    t matches Type::Tuple { sized_fields, sized_head_layout, unsized_field } && sized_fields@.len()
        == 0 && sized_head_layout.end == 0 && sized_head_layout.align == 1
        && sized_head_layout.packed_align is None && unsized_field is None
}

/// The type of raw pointers to values of the type that `T` stands for: thin,
/// or wide with the metadata that the type needs.
pub fn raw_ptr_ty_to<T: TypeConv + ?Sized>() -> (t: Type)
    ensures
        exists|inner: Type|
            T::converts_to(inner) && t == Type::Ptr(
                PtrType::Raw { meta_kind: inner.meta_kind_model() },
            ),
{
    let inner = T::get_type();
    raw_ptr_ty(inner.meta_kind())
}

/// The type of shared references to values of the type that `T` stands for,
/// taken to be inhabited, free of interior mutability and movable; `None`
/// exactly when a size in the layout of that type does not fit in 64 bits.
pub fn ref_ty_to<T: TypeConv + ?Sized>() -> (res: Option<Type>)
    ensures
        exists|inner: Type|
            T::converts_to(inner) && (res is Some <==> inner.representable()) && (res is Some ==> (
            res.unwrap() matches Type::Ptr(PtrType::Ref { mutbl, pointee }) && mutbl
                == Mutability::Immutable && default_pointee_of(pointee, inner))),
{
    let inner = T::get_type();
    if inner.layout().is_some() {
        Some(ref_ty_default_markers_for(inner))
    } else {
        None
    }
}

/// The type of mutable references to values of the type that `T` stands for,
/// taken to be inhabited, free of interior mutability and movable; `None`
/// exactly when a size in the layout of that type does not fit in 64 bits.
pub fn ref_mut_ty_to<T: TypeConv + ?Sized>() -> (res: Option<Type>)
    ensures
        exists|inner: Type|
            T::converts_to(inner) && (res is Some <==> inner.representable()) && (res is Some ==> (
            res.unwrap() matches Type::Ptr(PtrType::Ref { mutbl, pointee }) && mutbl
                == Mutability::Mutable && default_pointee_of(pointee, inner))),
{
    let inner = T::get_type();
    if inner.layout().is_some() {
        Some(ref_mut_ty_default_markers_for(inner))
    } else {
        None
    }
}

} // verus!
