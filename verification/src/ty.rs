//! The universe of types, and the layout engine that assigns each type its
//! layout strategy and pointer metadata kind.

use vstd::prelude::*;
use crate::names::TraitName;

verus! {

/// A number of bytes.
pub type Size = u64;

/// A byte offset from the start of a value.
pub type Offset = u64;

/// An alignment in bytes.
pub type Align = u64;

/// An integer value of the language.
pub type Int = i128;

/// Width of a thin pointer on the target, in bytes.
pub const PTR_SIZE: Size = 8;

/// Alignment of a pointer on the target, in bytes.
pub const PTR_ALIGN: Align = 8;

#[derive(Clone, Copy, Debug, PartialEq, Eq, Structural)]
pub enum Signedness {
    Signed,
    Unsigned,
}

#[derive(Clone, Copy, Debug, PartialEq, Eq, Structural)]
pub struct IntType {
    pub signed: Signedness,
    pub size: Size,
}

#[derive(Clone, Copy, Debug, PartialEq, Eq, Structural)]
pub enum Mutability {
    Mutable,
    Immutable,
}

/// What a pointer carries next to its address.
#[derive(Clone, Copy, Debug, PartialEq, Eq, Structural)]
pub enum PointerMetaKind {
    /// Nothing: the pointer is thin.
    Thin,
    /// The number of elements of the slice pointed to.
    ElementCount,
    /// A pointer to the vtable of the given trait.
    VTablePointer(TraitName),
}

/// The fixed part of a tuple: where its sized fields end and how it is aligned.
#[derive(Clone, Copy, Debug, PartialEq, Eq, Structural)]
pub struct TupleHeadLayout {
    pub end: Size,
    pub align: Align,
    pub packed_align: Option<Align>,
}

/// How the size and alignment of a type are determined.
#[derive(Debug, PartialEq, Eq)]
pub enum LayoutStrategy {
    /// Size and alignment are fixed.
    Sized(Size, Align),
    /// A slice: the size is the element size times the run-time length.
    Slice(Size, Align),
    /// A trait object: size and alignment are only known from the vtable.
    TraitObject(TraitName),
    /// A tuple: a head of fixed layout followed by a tail with its own strategy.
    Tuple { head: TupleHeadLayout, tail: Box<LayoutStrategy> },
}

/// The mathematical layout of a type: a layout strategy over unbounded numbers.
pub enum Layout {
    Sized { size: nat, align: nat },
    Slice { elem_size: nat, align: nat },
    TraitObject(TraitName),
    Tuple { end: nat, align: nat, packed_align: Option<nat>, tail: Box<Layout> },
}

impl Layout {
    /// A layout is sized when it is `Sized`, or a tuple whose tail is sized.
    pub open spec fn is_sized(self) -> bool
        decreases self,
    {
        match self {
            Layout::Sized { .. } => true,
            Layout::Tuple { tail, .. } => tail.is_sized(),
            _ => false,
        }
    }

    /// The bytes known before run time: the size of a sized layout, the head
    /// end of a tuple plus the static size of its tail, and nothing for a
    /// slice or a trait object.
    pub open spec fn static_size(self) -> nat
        decreases self,
    {
        match self {
            Layout::Sized { size, .. } => size,
            Layout::Tuple { end, tail, .. } => end + tail.static_size(),
            _ => 0,
        }
    }

    /// The alignment known before run time; for a trait object it is 1.
    pub open spec fn static_align(self) -> nat
        decreases self,
    {
        match self {
            Layout::Sized { align, .. } => align,
            Layout::Slice { align, .. } => align,
            Layout::TraitObject(_) => 1,
            Layout::Tuple { align, tail, .. } => if align >= tail.static_align() {
                align
            } else {
                tail.static_align()
            },
        }
    }

    /// The metadata a pointer to a value of this layout carries.
    pub open spec fn meta_kind(self) -> PointerMetaKind {
        match self {
            Layout::Slice { .. } => PointerMetaKind::ElementCount,
            Layout::TraitObject(t) => PointerMetaKind::VTablePointer(t),
            _ => PointerMetaKind::Thin,
        }
    }
}

pub open spec fn opt_nat(a: Option<u64>) -> Option<nat> {
    match a {
        Some(x) => Some(x as nat),
        None => None,
    }
}

impl View for LayoutStrategy {
    type V = Layout;

    open spec fn view(&self) -> Layout {
        self.model()
    }
}

impl LayoutStrategy {
    /// The same layout over unbounded numbers.
    pub open spec fn model(self) -> Layout
        decreases self,
    {
        match self {
            LayoutStrategy::Sized(size, align) => Layout::Sized {
                size: size as nat,
                align: align as nat,
            },
            LayoutStrategy::Slice(size, align) => Layout::Slice {
                elem_size: size as nat,
                align: align as nat,
            },
            LayoutStrategy::TraitObject(t) => Layout::TraitObject(t),
            LayoutStrategy::Tuple { head, tail } => Layout::Tuple {
                end: head.end as nat,
                align: head.align as nat,
                packed_align: opt_nat(head.packed_align),
                tail: Box::new(tail.model()),
            },
        }
    }

    /// Whether the size is fixed before run time.
    pub fn is_sized(&self) -> (res: bool)
        ensures
            res == self@.is_sized(),
        decreases self,
    {
        match self {
            LayoutStrategy::Sized(_, _) => true,
            LayoutStrategy::Tuple { head: _, tail } => tail.is_sized(),
            _ => false,
        }
    }

    /// The statically known size, or `None` where it does not fit in 64 bits.
    pub fn static_size(&self) -> (res: Option<Size>)
        ensures
            res is Some <==> self@.static_size() <= u64::MAX,
            res is Some ==> res.unwrap() == self@.static_size(),
        decreases self,
    {
        match self {
            LayoutStrategy::Sized(size, _) => Some(*size),
            LayoutStrategy::Tuple { head, tail } => match tail.static_size() {
                Some(t) => head.end.checked_add(t),
                None => None,
            },
            _ => Some(0),
        }
    }

    /// The statically known alignment.
    pub fn static_align(&self) -> (res: Align)
        ensures
            res == self@.static_align(),
        decreases self,
    {
        match self {
            LayoutStrategy::Sized(_, align) => *align,
            LayoutStrategy::Slice(_, align) => *align,
            LayoutStrategy::TraitObject(_) => 1,
            LayoutStrategy::Tuple { head, tail } => {
                let t = tail.static_align();
                if head.align >= t {
                    head.align
                } else {
                    t
                }
            },
        }
    }

    /// The metadata a pointer to a value of this layout carries.
    pub fn meta_kind(&self) -> (res: PointerMetaKind)
        ensures
            res == self@.meta_kind(),
    {
        match self {
            LayoutStrategy::Slice(_, _) => PointerMetaKind::ElementCount,
            LayoutStrategy::TraitObject(t) => PointerMetaKind::VTablePointer(*t),
            _ => PointerMetaKind::Thin,
        }
    }
}

/// Which bytes of a pointee lie inside an interior-mutability cell.
#[derive(Debug, PartialEq, Eq)]
pub enum UnsafeCellStrategy {
    Sized { bytes: Vec<(Offset, Offset)> },
    Slice { element: Vec<(Offset, Offset)> },
    TraitObject { is_freeze: bool },
    Tuple { head: Vec<(Offset, Offset)>, tail: Box<UnsafeCellStrategy> },
}

/// What a reference or box knows of the value it points to.
#[derive(Debug, PartialEq, Eq)]
pub struct PointeeInfo {
    pub layout: LayoutStrategy,
    pub inhabited: bool,
    pub unsafe_cells: UnsafeCellStrategy,
    pub unpin: bool,
}

#[derive(Debug, PartialEq, Eq)]
pub enum PtrType {
    Ref { mutbl: Mutability, pointee: PointeeInfo },
    Box { pointee: PointeeInfo },
    Raw { meta_kind: PointerMetaKind },
    FnPtr,
    VTablePtr(TraitName),
}

/// One variant of an enum: its payload and the bytes written to mark it.
#[derive(Debug, PartialEq, Eq)]
pub struct Variant {
    pub ty: Type,
    pub tagger: Vec<(Offset, (IntType, Int))>,
}

/// How the variant of an enum value is read back from its bytes.
#[derive(Debug, PartialEq, Eq)]
pub enum Discriminator {
    Invalid,
    Known(Int),
    Branch {
        offset: Offset,
        value_type: IntType,
        fallback: Box<Discriminator>,
        children: Vec<((Int, Int), Discriminator)>,
    },
}

#[derive(Debug, PartialEq, Eq)]
pub enum Type {
    Int(IntType),
    Bool,
    Ptr(PtrType),
    Tuple {
        sized_fields: Vec<(Offset, Type)>,
        sized_head_layout: TupleHeadLayout,
        unsized_field: Option<Box<Type>>,
    },
    Union { fields: Vec<(Offset, Type)>, size: Size, align: Align, chunks: Vec<(Offset, Size)> },
    Enum {
        variants: Vec<(Int, Variant)>,
        discriminator: Discriminator,
        discriminant_ty: IntType,
        size: Size,
        align: Align,
    },
    Array { elem: Box<Type>, count: u64 },
    Slice { elem: Box<Type> },
    TraitObject(TraitName),
}

impl PtrType {
    /// A raw pointer with metadata is a pair of two pointer widths; every
    /// other pointer is one pointer wide.
    pub open spec fn layout_model(self) -> Layout {
        match self {
            PtrType::Raw { meta_kind } => if meta_kind == PointerMetaKind::Thin {
                Layout::Sized { size: PTR_SIZE as nat, align: PTR_ALIGN as nat }
            } else {
                Layout::Sized { size: 2 * PTR_SIZE as nat, align: PTR_ALIGN as nat }
            },
            _ => Layout::Sized { size: PTR_SIZE as nat, align: PTR_ALIGN as nat },
        }
    }

    pub fn layout(&self) -> (res: LayoutStrategy)
        ensures
            res@ == self.layout_model(),
    {
        match self {
            PtrType::Raw { meta_kind } => match meta_kind {
                PointerMetaKind::Thin => LayoutStrategy::Sized(PTR_SIZE, PTR_ALIGN),
                _ => LayoutStrategy::Sized(2 * PTR_SIZE, PTR_ALIGN),
            },
            _ => LayoutStrategy::Sized(PTR_SIZE, PTR_ALIGN),
        }
    }
}

impl Type {
    /// The layout of a type.
    ///
    /// Integers are as wide as declared and aligned to their width, `bool` is
    /// one byte, pointers follow [`PtrType::layout_model`], unions and enums
    /// carry their size and alignment, an array is its element repeated, a
    /// slice is sized by its run-time length, a trait object is unknown, and a
    /// tuple is its head followed by the layout of its unsized field, or by an
    /// empty sized tail where it has none.
    pub open spec fn layout_model(self) -> Layout
        decreases self,
    {
        match self {
            Type::Int(t) => Layout::Sized { size: t.size as nat, align: t.size as nat },
            Type::Bool => Layout::Sized { size: 1, align: 1 },
            Type::Ptr(p) => p.layout_model(),
            Type::Tuple { sized_head_layout, unsized_field, .. } => Layout::Tuple {
                end: sized_head_layout.end as nat,
                align: sized_head_layout.align as nat,
                packed_align: opt_nat(sized_head_layout.packed_align),
                tail: Box::new(
                    match unsized_field {
                        Some(t) => t.layout_model(),
                        None => Layout::Sized { size: 0, align: 1 },
                    },
                ),
            },
            Type::Union { size, align, .. } => Layout::Sized {
                size: size as nat,
                align: align as nat,
            },
            Type::Enum { size, align, .. } => Layout::Sized {
                size: size as nat,
                align: align as nat,
            },
            Type::Array { elem, count } => Layout::Sized {
                size: elem.layout_model().static_size() * count as nat,
                align: elem.layout_model().static_align(),
            },
            Type::Slice { elem } => Layout::Slice {
                elem_size: elem.layout_model().static_size(),
                align: elem.layout_model().static_align(),
            },
            Type::TraitObject(t) => Layout::TraitObject(t),
        }
    }

    /// Whether every size in the layout of this type, and of the types it is
    /// made of, fits in 64 bits.
    pub open spec fn representable(self) -> bool
        decreases self,
    {
        match self {
            Type::Tuple { unsized_field, .. } => match unsized_field {
                Some(t) => t.representable(),
                None => true,
            },
            Type::Array { elem, count } => elem.representable()
                && elem.layout_model().static_size() * count as nat <= u64::MAX,
            Type::Slice { elem } => elem.representable() && elem.layout_model().static_size()
                <= u64::MAX,
            _ => true,
        }
    }

    /// Whether the size of values of this type is fixed before run time.
    pub open spec fn sized(self) -> bool {
        self.layout_model().is_sized()
    }

    /// The metadata a pointer to a value of this type carries: an element
    /// count for a slice, a vtable pointer for a trait object, else nothing.
    pub open spec fn meta_kind_model(self) -> PointerMetaKind {
        match self {
            Type::Slice { .. } => PointerMetaKind::ElementCount,
            Type::TraitObject(t) => PointerMetaKind::VTablePointer(t),
            _ => PointerMetaKind::Thin,
        }
    }

    /// Computes the layout; `None` exactly when a size does not fit in 64 bits.
    pub fn layout(&self) -> (res: Option<LayoutStrategy>)
        ensures
            res is Some <==> self.representable(),
            res is Some ==> res.unwrap()@ == self.layout_model(),
        decreases self,
    {
        proof {
            reveal_with_fuel(LayoutStrategy::model, 2);
        }
        match self {
            Type::Int(t) => Some(LayoutStrategy::Sized(t.size, t.size)),
            Type::Bool => Some(LayoutStrategy::Sized(1, 1)),
            Type::Ptr(p) => Some(p.layout()),
            Type::Tuple { sized_fields: _, sized_head_layout, unsized_field } => {
                let tail = match unsized_field {
                    Some(t) => match t.layout() {
                        Some(l) => l,
                        None => {
                            return None;
                        },
                    },
                    None => LayoutStrategy::Sized(0, 1),
                };
                Some(LayoutStrategy::Tuple { head: *sized_head_layout, tail: Box::new(tail) })
            },
            Type::Union { fields: _, size, align, chunks: _ } => Some(
                LayoutStrategy::Sized(*size, *align),
            ),
            Type::Enum { variants: _, discriminator: _, discriminant_ty: _, size, align } => Some(
                LayoutStrategy::Sized(*size, *align),
            ),
            Type::Array { elem, count } => {
                let l = match elem.layout() {
                    Some(l) => l,
                    None => {
                        return None;
                    },
                };
                let elem_size = match l.static_size() {
                    Some(s) => s,
                    None => {
                        proof {
                            lemma_product_at_least(l@.static_size(), *count as nat);
                        }
                        return Self::none_unless_empty(*count, l.static_align());
                    },
                };
                match elem_size.checked_mul(*count) {
                    Some(size) => Some(LayoutStrategy::Sized(size, l.static_align())),
                    None => None,
                }
            },
            Type::Slice { elem } => {
                let l = match elem.layout() {
                    Some(l) => l,
                    None => {
                        return None;
                    },
                };
                match l.static_size() {
                    Some(s) => Some(LayoutStrategy::Slice(s, l.static_align())),
                    None => None,
                }
            },
            Type::TraitObject(t) => Some(LayoutStrategy::TraitObject(*t)),
        }
    }

    /// The layout of an array whose element is too large to measure: empty
    /// where the array has no elements, and not representable otherwise.
    fn none_unless_empty(count: u64, align: Align) -> (res: Option<LayoutStrategy>)
        ensures
            res is Some <==> count == 0,
            res is Some ==> res.unwrap()@ == (Layout::Sized { size: 0, align: align as nat }),
    {
        if count == 0 {
            Some(LayoutStrategy::Sized(0, align))
        } else {
            None
        }
    }

    /// Whether the size of values of this type is fixed before run time.
    pub fn is_sized(&self) -> (res: bool)
        ensures
            res == self.sized(),
        decreases self,
    {
        proof {
            reveal_with_fuel(Layout::is_sized, 2);
        }
        match self {
            Type::Slice { elem: _ } => false,
            Type::TraitObject(_) => false,
            Type::Tuple { sized_fields: _, sized_head_layout: _, unsized_field } => {
                match unsized_field {
                    Some(t) => t.is_sized(),
                    None => true,
                }
            },
            _ => true,
        }
    }

    /// The metadata a pointer to a value of this type carries.
    pub fn meta_kind(&self) -> (res: PointerMetaKind)
        ensures
            res == self.meta_kind_model(),
    {
        match self {
            Type::Slice { elem: _ } => PointerMetaKind::ElementCount,
            Type::TraitObject(t) => PointerMetaKind::VTablePointer(*t),
            _ => PointerMetaKind::Thin,
        }
    }
}

proof fn lemma_product_at_least(a: nat, b: nat)
    ensures
        b > 0 ==> a * b >= a,
        b == 0 ==> a * b == 0,
{
    assert(b > 0 ==> a * b >= a) by (nonlinear_arith);
    assert(b == 0 ==> a * b == 0) by (nonlinear_arith);
}

/// A tuple is sized exactly when it has no unsized field, or when the type of
/// that field is itself sized.
pub proof fn lemma_tuple_sized_iff_tail_sized(
    sized_fields: Vec<(Offset, Type)>,
    sized_head_layout: TupleHeadLayout,
    unsized_field: Option<Box<Type>>,
)
    ensures
        (Type::Tuple { sized_fields, sized_head_layout, unsized_field }).sized() <==> match unsized_field {
            Some(t) => t.sized(),
            None => true,
        },
{
    reveal_with_fuel(Layout::is_sized, 2);
}

/// A layout is sized exactly when it is `Sized`, or a tuple whose tail is.
pub proof fn lemma_layout_sized(l: LayoutStrategy)
    ensures
        l@.is_sized() <==> match l {
            LayoutStrategy::Sized(_, _) => true,
            LayoutStrategy::Tuple { head, tail } => tail@.is_sized(),
            _ => false,
        },
{
}

/// The size of an array is the static size of its element times its length,
/// and its alignment that of its element.
pub proof fn lemma_array_layout(elem: Type, count: u64)
    ensures
        (Type::Array { elem: Box::new(elem), count }).layout_model() == (Layout::Sized {
            size: elem.layout_model().static_size() * count as nat,
            align: elem.layout_model().static_align(),
        }),
        (Type::Array { elem: Box::new(elem), count }).layout_model().static_size()
            == elem.layout_model().static_size() * count as nat,
        (Type::Array { elem: Box::new(elem), count }).sized(),
{
}

/// The metadata kind of a type is that of its layout.
pub proof fn lemma_meta_kind_mirrors_layout(ty: Type)
    ensures
        ty.layout_model().meta_kind() == ty.meta_kind_model(),
{
}

} // verus!
