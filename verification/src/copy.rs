//! Copies of types: a copy is built anew and is structurally equal to what
//! it was made from.

use vstd::prelude::*;
use crate::ty::{
    Discriminator, Int, IntType, LayoutStrategy, Offset, PointeeInfo, PtrType, Type,
    UnsafeCellStrategy, Variant,
};

verus! {

/// A copy of a list of byte ranges.
pub fn copy_ranges(ranges: &Vec<(Offset, Offset)>) -> (res: Vec<(Offset, Offset)>)
    ensures
        res@ == ranges@,
{
    let mut res: Vec<(Offset, Offset)> = Vec::new();
    let mut i: usize = 0;
    while i < ranges.len()
        invariant
            i <= ranges.len(),
            res@ == ranges@.subrange(0, i as int),
        decreases ranges.len() - i,
    {
        res.push((ranges[i].0, ranges[i].1));
        proof {
            assert(res@ =~= ranges@.subrange(0, i as int + 1));
        }
        i += 1;
    }
    proof {
        assert(res@ =~= ranges@);
    }
    res
}

/// A copy of a tagger.
pub fn copy_tagger(tagger: &Vec<(Offset, (IntType, Int))>) -> (res: Vec<(Offset, (IntType, Int))>)
    ensures
        res@ == tagger@,
{
    let mut res: Vec<(Offset, (IntType, Int))> = Vec::new();
    let mut i: usize = 0;
    while i < tagger.len()
        invariant
            i <= tagger.len(),
            res@ == tagger@.subrange(0, i as int),
        decreases tagger.len() - i,
    {
        res.push((tagger[i].0, (tagger[i].1.0, tagger[i].1.1)));
        proof {
            assert(res@ =~= tagger@.subrange(0, i as int + 1));
        }
        i += 1;
    }
    proof {
        assert(res@ =~= tagger@);
    }
    res
}

impl LayoutStrategy {
    /// A copy of this layout strategy.
    pub fn duplicate(&self) -> (res: LayoutStrategy)
        ensures
            res == *self,
        decreases self,
    {
        match self {
            LayoutStrategy::Sized(size, align) => LayoutStrategy::Sized(*size, *align),
            LayoutStrategy::Slice(size, align) => LayoutStrategy::Slice(*size, *align),
            LayoutStrategy::TraitObject(name) => LayoutStrategy::TraitObject(*name),
            LayoutStrategy::Tuple { head, tail } => LayoutStrategy::Tuple {
                head: *head,
                tail: Box::new(tail.duplicate()),
            },
        }
    }
}

impl UnsafeCellStrategy {
    /// A copy of this cell description.
    pub fn duplicate(&self) -> (res: UnsafeCellStrategy)
        ensures
            self.same(res),
        decreases self,
    {
        match self {
            UnsafeCellStrategy::Sized { bytes } => UnsafeCellStrategy::Sized {
                bytes: copy_ranges(bytes),
            },
            UnsafeCellStrategy::Slice { element } => UnsafeCellStrategy::Slice {
                element: copy_ranges(element),
            },
            UnsafeCellStrategy::TraitObject { is_freeze } => UnsafeCellStrategy::TraitObject {
                is_freeze: *is_freeze,
            },
            UnsafeCellStrategy::Tuple { head, tail } => UnsafeCellStrategy::Tuple {
                head: copy_ranges(head),
                tail: Box::new(tail.duplicate()),
            },
        }
    }
}

impl PointeeInfo {
    /// A copy of this pointee description.
    pub fn duplicate(&self) -> (res: PointeeInfo)
        ensures
            self.same(res),
    {
        PointeeInfo {
            layout: self.layout.duplicate(),
            inhabited: self.inhabited,
            unsafe_cells: self.unsafe_cells.duplicate(),
            unpin: self.unpin,
        }
    }
}

impl PtrType {
    /// A copy of this pointer type.
    pub fn duplicate(&self) -> (res: PtrType)
        ensures
            self.same(res),
    {
        match self {
            PtrType::Ref { mutbl, pointee } => PtrType::Ref {
                mutbl: *mutbl,
                pointee: pointee.duplicate(),
            },
            PtrType::Box { pointee } => PtrType::Box { pointee: pointee.duplicate() },
            PtrType::Raw { meta_kind } => PtrType::Raw { meta_kind: *meta_kind },
            PtrType::FnPtr => PtrType::FnPtr,
            PtrType::VTablePtr(name) => PtrType::VTablePtr(*name),
        }
    }
}

impl Discriminator {
    /// A copy of this discriminator.
    pub fn duplicate(&self) -> (res: Discriminator)
        ensures
            self.same(res),
        decreases self,
    {
        match self {
            Discriminator::Invalid => Discriminator::Invalid,
            Discriminator::Known(value) => Discriminator::Known(*value),
            Discriminator::Branch { offset, value_type, fallback, children } => {
                Discriminator::Branch {
                    offset: *offset,
                    value_type: *value_type,
                    fallback: Box::new(fallback.duplicate()),
                    children: Self::copy_children(children),
                }
            },
        }
    }

    /// A copy of a list of children.
    fn copy_children(children: &Vec<((Int, Int), Discriminator)>) -> (res: Vec<
        ((Int, Int), Discriminator),
    >)
        ensures
            res@.len() == children@.len(),
            forall|i: int|
                0 <= i < children@.len() ==> (#[trigger] children@[i]).0 == res@[i].0
                    && children@[i].1.same(res@[i].1),
        decreases children,
    {
        let mut res: Vec<((Int, Int), Discriminator)> = Vec::new();
        let mut i: usize = 0;
        while i < children.len()
            invariant
                i <= children.len(),
                res@.len() == i,
                forall|j: int|
                    0 <= j < i ==> (#[trigger] children@[j]).0 == res@[j].0 && children@[j].1.same(
                        res@[j].1,
                    ),
            decreases children.len() - i,
        {
            res.push(((children[i].0.0, children[i].0.1), children[i].1.duplicate()));
            i += 1;
        }
        res
    }
}

impl Variant {
    /// A copy of this variant.
    pub fn duplicate(&self) -> (res: Variant)
        ensures
            self.same(res),
    {
        Variant { ty: self.ty.duplicate(), tagger: copy_tagger(&self.tagger) }
    }
}

impl Type {
    /// A copy of this type.
    pub fn duplicate(&self) -> (res: Type)
        ensures
            self.same(res),
        decreases self,
    {
        match self {
            Type::Int(int_ty) => Type::Int(*int_ty),
            Type::Bool => Type::Bool,
            Type::Ptr(ptr_ty) => Type::Ptr(ptr_ty.duplicate()),
            Type::Tuple { sized_fields, sized_head_layout, unsized_field } => Type::Tuple {
                sized_fields: Self::copy_fields(sized_fields),
                sized_head_layout: *sized_head_layout,
                unsized_field: match unsized_field {
                    Some(tail) => Some(Box::new(tail.duplicate())),
                    None => None,
                },
            },
            Type::Union { fields, size, align, chunks } => Type::Union {
                fields: Self::copy_fields(fields),
                size: *size,
                align: *align,
                chunks: copy_ranges(chunks),
            },
            Type::Enum { variants, discriminator, discriminant_ty, size, align } => Type::Enum {
                variants: Self::copy_variants(variants),
                discriminator: discriminator.duplicate(),
                discriminant_ty: *discriminant_ty,
                size: *size,
                align: *align,
            },
            Type::Array { elem, count } => Type::Array {
                elem: Box::new(elem.duplicate()),
                count: *count,
            },
            Type::Slice { elem } => Type::Slice { elem: Box::new(elem.duplicate()) },
            Type::TraitObject(name) => Type::TraitObject(*name),
        }
    }

    /// A copy of a list of fields.
    fn copy_fields(fields: &Vec<(Offset, Type)>) -> (res: Vec<(Offset, Type)>)
        ensures
            res@.len() == fields@.len(),
            forall|i: int|
                0 <= i < fields@.len() ==> (#[trigger] fields@[i]).0 == res@[i].0
                    && fields@[i].1.same(res@[i].1),
        decreases fields,
    {
        let mut res: Vec<(Offset, Type)> = Vec::new();
        let mut i: usize = 0;
        while i < fields.len()
            invariant
                i <= fields.len(),
                res@.len() == i,
                forall|j: int|
                    0 <= j < i ==> (#[trigger] fields@[j]).0 == res@[j].0 && fields@[j].1.same(
                        res@[j].1,
                    ),
            decreases fields.len() - i,
        {
            res.push((fields[i].0, fields[i].1.duplicate()));
            i += 1;
        }
        res
    }

    /// A copy of a list of variants.
    fn copy_variants(variants: &Vec<(Int, Variant)>) -> (res: Vec<(Int, Variant)>)
        ensures
            res@.len() == variants@.len(),
            forall|i: int|
                0 <= i < variants@.len() ==> (#[trigger] variants@[i]).0 == res@[i].0
                    && variants@[i].1.ty.same(res@[i].1.ty) && variants@[i].1.tagger@
                    == res@[i].1.tagger@,
        decreases variants,
    {
        let mut res: Vec<(Int, Variant)> = Vec::new();
        let mut i: usize = 0;
        while i < variants.len()
            invariant
                i <= variants.len(),
                res@.len() == i,
                forall|j: int|
                    0 <= j < i ==> (#[trigger] variants@[j]).0 == res@[j].0
                        && variants@[j].1.ty.same(res@[j].1.ty) && variants@[j].1.tagger@
                        == res@[j].1.tagger@,
            decreases variants.len() - i,
        {
            let ty = variants[i].1.ty.duplicate();
            let tagger = copy_tagger(&variants[i].1.tagger);
            res.push((variants[i].0, Variant { ty, tagger }));
            i += 1;
        }
        res
    }
}

impl Clone for LayoutStrategy {
    fn clone(&self) -> (res: Self)
        ensures
            res == *self,
    {
        self.duplicate()
    }
}

impl Clone for UnsafeCellStrategy {
    fn clone(&self) -> (res: Self)
        ensures
            self.same(res),
    {
        self.duplicate()
    }
}

impl Clone for PointeeInfo {
    fn clone(&self) -> (res: Self)
        ensures
            self.same(res),
    {
        self.duplicate()
    }
}

impl Clone for PtrType {
    fn clone(&self) -> (res: Self)
        ensures
            self.same(res),
    {
        self.duplicate()
    }
}

impl Clone for Discriminator {
    fn clone(&self) -> (res: Self)
        ensures
            self.same(res),
    {
        self.duplicate()
    }
}

impl Clone for Variant {
    fn clone(&self) -> (res: Self)
        ensures
            self.same(res),
    {
        self.duplicate()
    }
}

impl Clone for Type {
    fn clone(&self) -> (res: Self)
        ensures
            self.same(res),
    {
        self.duplicate()
    }
}

} // verus!
