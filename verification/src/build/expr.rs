//! Constructors for expressions, arguments and statements.

use vstd::prelude::*;
use crate::build::ty::{raw_void_ptr_ty, tuple_ty};
use crate::build::ty_conv::{is_unit_type, TypeConv};
use crate::names::{FnName, LocalName, Name};
use crate::syntax::{
    ArgumentExpr, BinOp, CastOp, Constant, PlaceExpr, RelOp, Statement, UnOp, ValueExpr,
};
use crate::ty::{Int, PointerMetaKind, PtrType, Type};

verus! {

/// Whether `v` is the dangling thin pointer that stands for the address of a
/// value without bytes.
pub open spec fn is_unit_ptr(v: ValueExpr) -> bool {
    v matches ValueExpr::Constant(c, t) && c == Constant::DanglingPointer && t == Type::Ptr(
        PtrType::Raw { meta_kind: PointerMetaKind::Thin },
    )
}

/// Whether `p` is the place of the tuple without fields behind the dangling
/// pointer.
pub open spec fn is_unit_place(p: PlaceExpr) -> bool {
    p matches PlaceExpr::Deref { operand, ty } && is_unit_ptr(*operand) && is_unit_type(ty)
}

/// Whether `v` is the tuple without fields.
pub open spec fn is_unit(v: ValueExpr) -> bool {
    v matches ValueExpr::Tuple(fields, ty) && fields@.len() == 0 && is_unit_type(ty)
}

/// Whether `v` is a pointer to the function `f`.
pub open spec fn is_fn_ptr(v: ValueExpr, f: FnName) -> bool {
    v matches ValueExpr::Constant(c, t) && c == Constant::FnPointer(f) && t == Type::Ptr(
        PtrType::FnPtr,
    )
}

/// The tuple type without fields.
pub fn unit_ty() -> (t: Type)
    ensures
        is_unit_type(t),
{
    tuple_ty(Vec::new(), 0, 1)
}

/// The tuple without fields.
pub fn unit() -> (v: ValueExpr)
    ensures
        is_unit(v),
{
    ValueExpr::Tuple(Vec::new(), unit_ty())
}

/// A dangling thin pointer, good for accesses of no bytes.
pub fn unit_ptr() -> (v: ValueExpr)
    ensures
        is_unit_ptr(v),
{
    ValueExpr::Constant(Constant::DanglingPointer, raw_void_ptr_ty())
}

/// A place that holds the tuple without fields.
pub fn unit_place() -> (p: PlaceExpr)
    ensures
        is_unit_place(p),
{
    PlaceExpr::Deref { operand: Box::new(unit_ptr()), ty: unit_ty() }
}

/// A pointer to the function `f`.
pub fn fn_ptr(f: FnName) -> (v: ValueExpr)
    ensures
        is_fn_ptr(v, f),
{
    ValueExpr::Constant(Constant::FnPointer(f), Type::Ptr(PtrType::FnPtr))
}

/// A pointer to the function with the number `f`.
pub fn fn_ptr_internal(f: u32) -> (v: ValueExpr)
    ensures
        is_fn_ptr(v, FnName(Name { id: f })),
{
    fn_ptr(FnName(Name::from_internal(f)))
}

/// The integer constant `value` of type `ty`.
pub fn const_int_typed(value: Int, ty: Type) -> (v: ValueExpr)
    ensures
        v == ValueExpr::Constant(Constant::Int(value), ty),
{
    ValueExpr::Constant(Constant::Int(value), ty)
}

/// The integer constant `value` of the integer type that `T` stands for.
pub fn const_int<T: TypeConv>(value: Int) -> (v: ValueExpr)
    requires
        forall|t: Type| T::converts_to(t) ==> t is Int,
    ensures
        v matches ValueExpr::Constant(c, ty) && c == Constant::Int(value) && T::converts_to(ty),
{
    ValueExpr::Constant(Constant::Int(value), T::get_type())
}

pub fn const_bool(value: bool) -> (v: ValueExpr)
    ensures
        v == ValueExpr::Constant(Constant::Bool(value), Type::Bool),
{
    ValueExpr::Constant(Constant::Bool(value), Type::Bool)
}

pub fn load(source: PlaceExpr) -> (v: ValueExpr)
    ensures
        v == (ValueExpr::Load { source: Box::new(source) }),
{
    ValueExpr::Load { source: Box::new(source) }
}

pub fn addr_of(target: PlaceExpr, ptr_ty: PtrType) -> (v: ValueExpr)
    ensures
        v == (ValueExpr::AddrOf { target: Box::new(target), ptr_ty }),
{
    ValueExpr::AddrOf { target: Box::new(target), ptr_ty }
}

pub fn transmute(operand: ValueExpr, ty: Type) -> (v: ValueExpr)
    ensures
        v == (ValueExpr::UnOp {
            operator: UnOp::Cast(CastOp::Transmute(ty)),
            operand: Box::new(operand),
        }),
{
    ValueExpr::UnOp { operator: UnOp::Cast(CastOp::Transmute(ty)), operand: Box::new(operand) }
}

pub fn eq(left: ValueExpr, right: ValueExpr) -> (v: ValueExpr)
    ensures
        v == (ValueExpr::BinOp {
            operator: BinOp::Rel(RelOp::Eq),
            left: Box::new(left),
            right: Box::new(right),
        }),
{
    ValueExpr::BinOp {
        operator: BinOp::Rel(RelOp::Eq),
        left: Box::new(left),
        right: Box::new(right),
    }
}

/// The boolean `condition` as an integer of type `T`: 1 where it holds, 0
/// where it does not.
pub fn bool_to_int<T: TypeConv>(condition: ValueExpr) -> (v: ValueExpr)
    requires
        forall|t: Type| T::converts_to(t) ==> t is Int,
    ensures
        is_bool_to_int::<T>(v, condition),
{
    let ty = match T::get_type() {
        Type::Int(t) => t,
        _ => vstd::pervasive::unreached(),
    };
    ValueExpr::UnOp { operator: UnOp::Cast(CastOp::BoolToInt(ty)), operand: Box::new(condition) }
}

/// Whether `v` casts the boolean `condition` to the integer type that `T`
/// stands for.
pub open spec fn is_bool_to_int<T: TypeConv>(v: ValueExpr, condition: ValueExpr) -> bool {
    v matches ValueExpr::UnOp { operator: UnOp::Cast(CastOp::BoolToInt(ty)), operand } && *operand
        == condition && T::converts_to(Type::Int(ty))
}

pub fn local(id: u32) -> (p: PlaceExpr)
    ensures
        p == PlaceExpr::Local(LocalName(Name { id })),
{
    PlaceExpr::Local(LocalName(Name::from_internal(id)))
}

pub fn local_by_name(name: LocalName) -> (p: PlaceExpr)
    ensures
        p == PlaceExpr::Local(name),
{
    PlaceExpr::Local(name)
}

pub fn deref(operand: ValueExpr, ty: Type) -> (p: PlaceExpr)
    ensures
        p == (PlaceExpr::Deref { operand: Box::new(operand), ty }),
{
    PlaceExpr::Deref { operand: Box::new(operand), ty }
}

pub fn field(root: PlaceExpr, number: u64) -> (p: PlaceExpr)
    ensures
        p == (PlaceExpr::Field { root: Box::new(root), field: number }),
{
    PlaceExpr::Field { root: Box::new(root), field: number }
}

pub fn index(root: PlaceExpr, at: ValueExpr) -> (p: PlaceExpr)
    ensures
        p == (PlaceExpr::Index { root: Box::new(root), index: Box::new(at) }),
{
    PlaceExpr::Index { root: Box::new(root), index: Box::new(at) }
}

pub fn by_value(value: ValueExpr) -> (a: ArgumentExpr)
    ensures
        a == ArgumentExpr::ByValue(value),
{
    ArgumentExpr::ByValue(value)
}

pub fn in_place(place: PlaceExpr) -> (a: ArgumentExpr)
    ensures
        a == ArgumentExpr::InPlace(place),
{
    ArgumentExpr::InPlace(place)
}

pub fn storage_live(id: u32) -> (s: Statement)
    ensures
        s == Statement::StorageLive(LocalName(Name { id })),
{
    Statement::StorageLive(LocalName(Name::from_internal(id)))
}

pub fn assign(destination: PlaceExpr, source: ValueExpr) -> (s: Statement)
    ensures
        s == (Statement::Assign { destination, source }),
{
    Statement::Assign { destination, source }
}

pub fn validate(place: PlaceExpr, fn_entry: bool) -> (s: Statement)
    ensures
        s == (Statement::Validate { place, fn_entry }),
{
    Statement::Validate { place, fn_entry }
}

} // verus!
