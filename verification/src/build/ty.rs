//! Constructors for types.

use vstd::prelude::*;
use crate::build::ty_conv::TypeConv;
use crate::names::TraitName;
use crate::ty::{
    Align, Discriminator, Int, IntType, LayoutStrategy, Mutability, Offset, PointeeInfo,
    PointerMetaKind, PtrType, Signedness, Size, TupleHeadLayout, Type, UnsafeCellStrategy, Variant,
};

verus! {

pub fn int_ty(signed: Signedness, size: Size) -> (t: Type)
    ensures
        t == Type::Int(IntType { signed, size }),
{
    Type::Int(IntType { signed, size })
}

pub fn bool_ty() -> (t: Type)
    ensures
        t == Type::Bool,
{
    Type::Bool
}

pub fn ref_ty(pointee: PointeeInfo) -> (t: Type)
    ensures
        t == Type::Ptr(PtrType::Ref { mutbl: Mutability::Immutable, pointee }),
{
    Type::Ptr(PtrType::Ref { mutbl: Mutability::Immutable, pointee })
}

/// Whether `cells` follows the shape of `layout` and marks no byte as lying
/// inside an interior-mutability cell.
pub open spec fn frozen_for(cells: UnsafeCellStrategy, layout: LayoutStrategy) -> bool
    decreases layout,
{
    match layout {
        LayoutStrategy::Sized(_, _) => cells matches UnsafeCellStrategy::Sized { bytes }
            && bytes@.len() == 0,
        LayoutStrategy::Slice(_, _) => cells matches UnsafeCellStrategy::Slice { element }
            && element@.len() == 0,
        LayoutStrategy::TraitObject(_) => cells matches UnsafeCellStrategy::TraitObject { is_freeze }
            && is_freeze,
        LayoutStrategy::Tuple { tail, .. } => cells matches UnsafeCellStrategy::Tuple {
            head,
            tail: cells_tail,
        } && head@.len() == 0 && frozen_for(*cells_tail, *tail),
    }
}

/// The cell description without any cell for a value of layout `layout`.
pub fn from_frozen_layout(layout: &LayoutStrategy) -> (cells: UnsafeCellStrategy)
    ensures
        frozen_for(cells, *layout),
    decreases layout,
{
    match layout {
        LayoutStrategy::Sized(_, _) => UnsafeCellStrategy::Sized { bytes: Vec::new() },
        LayoutStrategy::Slice(_, _) => UnsafeCellStrategy::Slice { element: Vec::new() },
        LayoutStrategy::TraitObject(_) => UnsafeCellStrategy::TraitObject { is_freeze: true },
        LayoutStrategy::Tuple { head: _, tail } => UnsafeCellStrategy::Tuple {
            head: Vec::new(),
            tail: Box::new(from_frozen_layout(tail)),
        },
    }
}

/// Whether `pointee` describes a value of type `ty` that is inhabited, holds
/// no interior-mutability cell and may be moved.
pub open spec fn default_pointee_of(pointee: PointeeInfo, ty: Type) -> bool {
    &&& pointee.layout@ == ty.layout_model()
    &&& pointee.inhabited
    &&& pointee.unpin
    &&& frozen_for(pointee.unsafe_cells, pointee.layout)
}

/// The pointee description of a type with the default markers.
fn default_pointee(ty: &Type) -> (pointee: PointeeInfo)
    requires
        ty.representable(),
    ensures
        default_pointee_of(pointee, *ty),
{
    let layout = match ty.layout() {
        Some(l) => l,
        None => vstd::pervasive::unreached(),
    };
    let unsafe_cells = from_frozen_layout(&layout);
    PointeeInfo { layout, inhabited: true, unsafe_cells, unpin: true }
}

/// The type of shared references to values of type `ty`, which is taken to
/// be inhabited, free of interior mutability and movable.
pub fn ref_ty_default_markers_for(ty: Type) -> (t: Type)
    requires
        ty.representable(),
    ensures
        t matches Type::Ptr(PtrType::Ref { mutbl, pointee }) && mutbl == Mutability::Immutable
            && default_pointee_of(pointee, ty),
{
    ref_ty(default_pointee(&ty))
}

pub fn ref_mut_ty(pointee: PointeeInfo) -> (t: Type)
    ensures
        t == Type::Ptr(PtrType::Ref { mutbl: Mutability::Mutable, pointee }),
{
    Type::Ptr(PtrType::Ref { mutbl: Mutability::Mutable, pointee })
}

/// The type of mutable references to values of type `ty`, which is taken to
/// be inhabited, free of interior mutability and movable.
pub fn ref_mut_ty_default_markers_for(ty: Type) -> (t: Type)
    requires
        ty.representable(),
    ensures
        t matches Type::Ptr(PtrType::Ref { mutbl, pointee }) && mutbl == Mutability::Mutable
            && default_pointee_of(pointee, ty),
{
    ref_mut_ty(default_pointee(&ty))
}

pub fn box_ty(pointee: PointeeInfo) -> (t: Type)
    ensures
        t == Type::Ptr(PtrType::Box { pointee }),
{
    Type::Ptr(PtrType::Box { pointee })
}

pub fn raw_ptr_ty(meta_kind: PointerMetaKind) -> (t: Type)
    ensures
        t == Type::Ptr(PtrType::Raw { meta_kind }),
{
    Type::Ptr(PtrType::Raw { meta_kind })
}

pub fn raw_void_ptr_ty() -> (t: Type)
    ensures
        t == Type::Ptr(PtrType::Raw { meta_kind: PointerMetaKind::Thin }),
{
    raw_ptr_ty(PointerMetaKind::Thin)
}

/// A tuple of sized fields at the given offsets.
pub fn tuple_ty(f: Vec<(Offset, Type)>, size: Size, align: Align) -> (t: Type)
    ensures
        t == (Type::Tuple {
            sized_fields: f,
            sized_head_layout: TupleHeadLayout { end: size, align, packed_align: None },
            unsized_field: None,
        }),
{
    Type::Tuple {
        sized_fields: f,
        sized_head_layout: TupleHeadLayout { end: size, align, packed_align: None },
        unsized_field: None,
    }
}

/// A tuple of sized fields followed by a field of type `unsized_ty`.
pub fn unsized_tuple_ty(
    fs: Vec<(Offset, Type)>,
    unsized_ty: Type,
    end: Offset,
    align: Align,
    packed_align: Option<Align>,
) -> (t: Type)
    ensures
        t == (Type::Tuple {
            sized_fields: fs,
            sized_head_layout: TupleHeadLayout { end, align, packed_align },
            unsized_field: Some(Box::new(unsized_ty)),
        }),
{
    Type::Tuple {
        sized_fields: fs,
        sized_head_layout: TupleHeadLayout { end, align, packed_align },
        unsized_field: Some(Box::new(unsized_ty)),
    }
}

/// A union of the given fields whose bytes form one chunk that spans it.
pub fn union_ty(f: Vec<(Offset, Type)>, size: Size, align: Align) -> (t: Type)
    ensures
        t matches Type::Union { fields, size: s, align: a, chunks } && fields == f && s == size && a
            == align && chunks@ == seq![(0u64, size)],
{
    let mut chunks: Vec<(Offset, Size)> = Vec::new();
    chunks.push((0, size));
    Type::Union { fields: f, size, align, chunks }
}

pub fn array_ty(elem: Type, count: u64) -> (t: Type)
    ensures
        t == (Type::Array { elem: Box::new(elem), count }),
{
    Type::Array { elem: Box::new(elem), count }
}

pub fn slice_ty(elem: Type) -> (t: Type)
    ensures
        t == (Type::Slice { elem: Box::new(elem) }),
{
    Type::Slice { elem: Box::new(elem) }
}

pub fn trait_object_ty(trait_name: TraitName) -> (t: Type)
    ensures
        t == Type::TraitObject(trait_name),
{
    Type::TraitObject(trait_name)
}

pub fn enum_variant(ty: Type, tagger: Vec<(Offset, (IntType, Int))>) -> (v: Variant)
    ensures
        v == (Variant { ty, tagger }),
{
    Variant { ty, tagger }
}

/// An enum whose discriminants have the integer type that `D` converts to.
pub fn enum_ty<D: TypeConv>(
    variants: Vec<(Int, Variant)>,
    discriminator: Discriminator,
    size: Size,
    align: Align,
) -> (t: Type)
    requires
        forall|d: Type| D::converts_to(d) ==> d is Int,
    ensures
        t matches Type::Enum { variants: v, discriminator: d, discriminant_ty, size: s, align: a }
            && v == variants && d == discriminator && D::converts_to(Type::Int(discriminant_ty))
            && s == size && a == align,
{
    let discriminant_ty = match D::get_type() {
        Type::Int(t) => t,
        _ => vstd::pervasive::unreached(),
    };
    Type::Enum { variants, discriminator, discriminant_ty, size, align }
}

pub fn discriminator_invalid() -> (d: Discriminator)
    ensures
        d == Discriminator::Invalid,
{
    Discriminator::Invalid
}

pub fn discriminator_known(discriminant: Int) -> (d: Discriminator)
    ensures
        d == Discriminator::Known(discriminant),
{
    Discriminator::Known(discriminant)
}

/// A discriminator that reads a value of the integer type that `T` converts
/// to at `offset` and goes on with the child whose range holds it, or with
/// `fallback`.
pub fn discriminator_branch<T: TypeConv>(
    offset: Offset,
    fallback: Discriminator,
    children: Vec<((Int, Int), Discriminator)>,
) -> (d: Discriminator)
    requires
        forall|t: Type| T::converts_to(t) ==> t is Int,
    ensures
        d matches Discriminator::Branch { offset: o, value_type, fallback: f, children: c } && o
            == offset && T::converts_to(Type::Int(value_type)) && *f == fallback && c == children,
{
    let value_type = match T::get_type() {
        Type::Int(t) => t,
        _ => vstd::pervasive::unreached(),
    };
    Discriminator::Branch { offset, value_type, fallback: Box::new(fallback), children }
}

} // verus!
