//! Structural equality of types: two types are the same when they are built
//! alike from equal parts, whatever vectors hold those parts.

use vstd::prelude::*;
use crate::ty::{
    Discriminator, Int, IntType, LayoutStrategy, Offset, PointeeInfo, PtrType, Type,
    UnsafeCellStrategy, Variant,
};

verus! {

/// Whether two lists of byte ranges hold the same ranges in the same order.
pub fn same_ranges(a: &Vec<(Offset, Offset)>, b: &Vec<(Offset, Offset)>) -> (res: bool)
    ensures
        res == (a@ == b@),
{
    if a.len() != b.len() {
        return false;
    }
    let mut i: usize = 0;
    while i < a.len()
        invariant
            i <= a.len(),
            a.len() == b.len(),
            forall|j: int| 0 <= j < i ==> a@[j] == b@[j],
        decreases a.len() - i,
    {
        if a[i].0 != b[i].0 || a[i].1 != b[i].1 {
            return false;
        }
        i += 1;
    }
    proof {
        assert(a@ =~= b@);
    }
    true
}

/// Whether two taggers write the same values at the same offsets.
pub fn same_tagger(a: &Vec<(Offset, (IntType, Int))>, b: &Vec<(Offset, (IntType, Int))>) -> (res:
    bool)
    ensures
        res == (a@ == b@),
{
    if a.len() != b.len() {
        return false;
    }
    let mut i: usize = 0;
    while i < a.len()
        invariant
            i <= a.len(),
            a.len() == b.len(),
            forall|j: int| 0 <= j < i ==> a@[j] == b@[j],
        decreases a.len() - i,
    {
        if a[i].0 != b[i].0 || a[i].1.0 != b[i].1.0 || a[i].1.1 != b[i].1.1 {
            return false;
        }
        i += 1;
    }
    proof {
        assert(a@ =~= b@);
    }
    true
}

impl LayoutStrategy {
    /// Whether two layout strategies are equal.
    pub fn same_as(&self, other: &LayoutStrategy) -> (res: bool)
        ensures
            res == (*self == *other),
        decreases self,
    {
        match (self, other) {
            (LayoutStrategy::Sized(s, a), LayoutStrategy::Sized(t, b)) => *s == *t && *a == *b,
            (LayoutStrategy::Slice(s, a), LayoutStrategy::Slice(t, b)) => *s == *t && *a == *b,
            (LayoutStrategy::TraitObject(s), LayoutStrategy::TraitObject(t)) => *s == *t,
            (
                LayoutStrategy::Tuple { head: g, tail: s },
                LayoutStrategy::Tuple { head: h, tail: t },
            ) => *g == *h && s.same_as(t),
            _ => false,
        }
    }
}

impl UnsafeCellStrategy {
    /// Structural equality of cell descriptions.
    pub open spec fn same(self, other: Self) -> bool
        decreases self,
    {
        match (self, other) {
            (UnsafeCellStrategy::Sized { bytes: a }, UnsafeCellStrategy::Sized { bytes: b }) => a@
                == b@,
            (
                UnsafeCellStrategy::Slice { element: a },
                UnsafeCellStrategy::Slice { element: b },
            ) => a@ == b@,
            (
                UnsafeCellStrategy::TraitObject { is_freeze: a },
                UnsafeCellStrategy::TraitObject { is_freeze: b },
            ) => a == b,
            (
                UnsafeCellStrategy::Tuple { head: a, tail: s },
                UnsafeCellStrategy::Tuple { head: b, tail: t },
            ) => a@ == b@ && s.same(*t),
            _ => false,
        }
    }

    /// Whether two cell descriptions are structurally equal.
    pub fn same_as(&self, other: &UnsafeCellStrategy) -> (res: bool)
        ensures
            res == self.same(*other),
        decreases self,
    {
        match (self, other) {
            (UnsafeCellStrategy::Sized { bytes: a }, UnsafeCellStrategy::Sized { bytes: b }) => {
                same_ranges(a, b)
            },
            (
                UnsafeCellStrategy::Slice { element: a },
                UnsafeCellStrategy::Slice { element: b },
            ) => same_ranges(a, b),
            (
                UnsafeCellStrategy::TraitObject { is_freeze: a },
                UnsafeCellStrategy::TraitObject { is_freeze: b },
            ) => *a == *b,
            (
                UnsafeCellStrategy::Tuple { head: a, tail: s },
                UnsafeCellStrategy::Tuple { head: b, tail: t },
            ) => same_ranges(a, b) && s.same_as(t),
            _ => false,
        }
    }
}

impl PointeeInfo {
    /// Structural equality of pointee descriptions.
    pub open spec fn same(self, other: Self) -> bool {
        &&& self.layout == other.layout
        &&& self.inhabited == other.inhabited
        &&& self.unsafe_cells.same(other.unsafe_cells)
        &&& self.unpin == other.unpin
    }

    /// Whether two pointee descriptions are structurally equal.
    pub fn same_as(&self, other: &PointeeInfo) -> (res: bool)
        ensures
            res == self.same(*other),
    {
        self.layout.same_as(&other.layout) && self.inhabited == other.inhabited
            && self.unsafe_cells.same_as(&other.unsafe_cells) && self.unpin == other.unpin
    }
}

impl PtrType {
    /// Structural equality of pointer types.
    pub open spec fn same(self, other: Self) -> bool {
        match (self, other) {
            (PtrType::Ref { mutbl: m, pointee: p }, PtrType::Ref { mutbl: n, pointee: q }) => m == n
                && p.same(q),
            (PtrType::Box { pointee: p }, PtrType::Box { pointee: q }) => p.same(q),
            (PtrType::Raw { meta_kind: m }, PtrType::Raw { meta_kind: n }) => m == n,
            (PtrType::FnPtr, PtrType::FnPtr) => true,
            (PtrType::VTablePtr(s), PtrType::VTablePtr(t)) => s == t,
            _ => false,
        }
    }

    /// Whether two pointer types are structurally equal.
    pub fn same_as(&self, other: &PtrType) -> (res: bool)
        ensures
            res == self.same(*other),
    {
        match (self, other) {
            (PtrType::Ref { mutbl: m, pointee: p }, PtrType::Ref { mutbl: n, pointee: q }) => *m
                == *n && p.same_as(q),
            (PtrType::Box { pointee: p }, PtrType::Box { pointee: q }) => p.same_as(q),
            (PtrType::Raw { meta_kind: m }, PtrType::Raw { meta_kind: n }) => *m == *n,
            (PtrType::FnPtr, PtrType::FnPtr) => true,
            (PtrType::VTablePtr(s), PtrType::VTablePtr(t)) => *s == *t,
            _ => false,
        }
    }
}

impl Discriminator {
    /// Structural equality of discriminators.
    pub open spec fn same(self, other: Self) -> bool
        decreases self,
    {
        match (self, other) {
            (Discriminator::Invalid, Discriminator::Invalid) => true,
            (Discriminator::Known(a), Discriminator::Known(b)) => a == b,
            (
                Discriminator::Branch { offset: o, value_type: v, fallback: f, children: c },
                Discriminator::Branch { offset: p, value_type: w, fallback: g, children: d },
            ) => {
                &&& o == p
                &&& v == w
                &&& f.same(*g)
                &&& c@.len() == d@.len()
                &&& forall|i: int|
                    0 <= i < c@.len() ==> (#[trigger] c@[i]).0 == d@[i].0 && c@[i].1.same(d@[i].1)
            },
            _ => false,
        }
    }

    /// Whether two discriminators are structurally equal.
    pub fn same_as(&self, other: &Discriminator) -> (res: bool)
        ensures
            res == self.same(*other),
        decreases self,
    {
        match (self, other) {
            (Discriminator::Invalid, Discriminator::Invalid) => true,
            (Discriminator::Known(a), Discriminator::Known(b)) => *a == *b,
            (
                Discriminator::Branch { offset: o, value_type: v, fallback: f, children: c },
                Discriminator::Branch { offset: p, value_type: w, fallback: g, children: d },
            ) => {
                if *o != *p || *v != *w || !f.same_as(g) {
                    return false;
                }
                Self::same_children(c, d)
            },
            _ => false,
        }
    }

    /// Whether two lists of children are structurally equal.
    fn same_children(c: &Vec<((Int, Int), Discriminator)>, d: &Vec<((Int, Int), Discriminator)>) -> (res:
        bool)
        ensures
            res == (c@.len() == d@.len() && forall|i: int|
                0 <= i < c@.len() ==> (#[trigger] c@[i]).0 == d@[i].0 && c@[i].1.same(d@[i].1)),
        decreases c,
    {
        if c.len() != d.len() {
            return false;
        }
        let mut i: usize = 0;
        while i < c.len()
            invariant
                i <= c.len(),
                c.len() == d.len(),
                forall|j: int| 0 <= j < i ==> (#[trigger] c@[j]).0 == d@[j].0 && c@[j].1.same(d@[j].1),
            decreases c.len() - i,
        {
            if c[i].0.0 != d[i].0.0 || c[i].0.1 != d[i].0.1 || !c[i].1.same_as(&d[i].1) {
                assert(!((#[trigger] c@[i as int]).0 == d@[i as int].0 && c@[i as int].1.same(
                    d@[i as int].1,
                )));
                return false;
            }
            i += 1;
        }
        true
    }
}

/// Structural equality of two lists of fields.
pub open spec fn same_fields(a: Seq<(Offset, Type)>, b: Seq<(Offset, Type)>) -> bool {
    &&& a.len() == b.len()
    &&& forall|i: int| 0 <= i < a.len() ==> (#[trigger] a[i]).0 == b[i].0 && a[i].1.same(b[i].1)
}

impl Variant {
    /// Structural equality of variants.
    pub open spec fn same(self, other: Self) -> bool {
        self.ty.same(other.ty) && self.tagger@ == other.tagger@
    }
}

impl Type {
    /// Structural equality of types.
    pub open spec fn same(self, other: Self) -> bool
        decreases self,
    {
        match (self, other) {
            (Type::Int(a), Type::Int(b)) => a == b,
            (Type::Bool, Type::Bool) => true,
            (Type::Ptr(a), Type::Ptr(b)) => a.same(b),
            (
                Type::Tuple { sized_fields: f, sized_head_layout: h, unsized_field: u },
                Type::Tuple { sized_fields: g, sized_head_layout: k, unsized_field: v },
            ) => {
                &&& f@.len() == g@.len()
                &&& forall|i: int|
                    0 <= i < f@.len() ==> (#[trigger] f@[i]).0 == g@[i].0 && f@[i].1.same(g@[i].1)
                &&& h == k
                &&& match (u, v) {
                    (Some(s), Some(t)) => s.same(*t),
                    (None, None) => true,
                    _ => false,
                }
            },
            (
                Type::Union { fields: f, size: s, align: a, chunks: c },
                Type::Union { fields: g, size: t, align: b, chunks: d },
            ) => {
                &&& f@.len() == g@.len()
                &&& forall|i: int|
                    0 <= i < f@.len() ==> (#[trigger] f@[i]).0 == g@[i].0 && f@[i].1.same(g@[i].1)
                &&& s == t
                &&& a == b
                &&& c@ == d@
            },
            (
                Type::Enum { variants: f, discriminator: x, discriminant_ty: m, size: s, align: a },
                Type::Enum { variants: g, discriminator: y, discriminant_ty: n, size: t, align: b },
            ) => {
                &&& f@.len() == g@.len()
                &&& forall|i: int|
                    0 <= i < f@.len() ==> (#[trigger] f@[i]).0 == g@[i].0 && f@[i].1.ty.same(
                        g@[i].1.ty,
                    ) && f@[i].1.tagger@ == g@[i].1.tagger@
                &&& x.same(y)
                &&& m == n
                &&& s == t
                &&& a == b
            },
            (Type::Array { elem: e, count: c }, Type::Array { elem: f, count: d }) => e.same(*f)
                && c == d,
            (Type::Slice { elem: e }, Type::Slice { elem: f }) => e.same(*f),
            (Type::TraitObject(a), Type::TraitObject(b)) => a == b,
            _ => false,
        }
    }

    /// Whether two types are structurally equal.
    pub fn same_as(&self, other: &Type) -> (res: bool)
        ensures
            res == self.same(*other),
        decreases self,
    {
        match (self, other) {
            (Type::Int(a), Type::Int(b)) => *a == *b,
            (Type::Bool, Type::Bool) => true,
            (Type::Ptr(a), Type::Ptr(b)) => a.same_as(b),
            (
                Type::Tuple { sized_fields: f, sized_head_layout: h, unsized_field: u },
                Type::Tuple { sized_fields: g, sized_head_layout: k, unsized_field: v },
            ) => {
                if !Self::same_field_list(f, g) || *h != *k {
                    return false;
                }
                match (u, v) {
                    (Some(s), Some(t)) => s.same_as(t),
                    (None, None) => true,
                    _ => false,
                }
            },
            (
                Type::Union { fields: f, size: s, align: a, chunks: c },
                Type::Union { fields: g, size: t, align: b, chunks: d },
            ) => {
                Self::same_field_list(f, g) && *s == *t && *a == *b && same_ranges(c, d)
            },
            (
                Type::Enum { variants: f, discriminator: x, discriminant_ty: m, size: s, align: a },
                Type::Enum { variants: g, discriminator: y, discriminant_ty: n, size: t, align: b },
            ) => {
                Self::same_variant_list(f, g) && x.same_as(y) && *m == *n && *s == *t && *a == *b
            },
            (Type::Array { elem: e, count: c }, Type::Array { elem: f, count: d }) => e.same_as(f)
                && *c == *d,
            (Type::Slice { elem: e }, Type::Slice { elem: f }) => e.same_as(f),
            (Type::TraitObject(a), Type::TraitObject(b)) => *a == *b,
            _ => false,
        }
    }

    /// Whether two lists of fields are structurally equal.
    fn same_field_list(f: &Vec<(Offset, Type)>, g: &Vec<(Offset, Type)>) -> (res: bool)
        ensures
            res == (f@.len() == g@.len() && forall|i: int|
                0 <= i < f@.len() ==> (#[trigger] f@[i]).0 == g@[i].0 && f@[i].1.same(g@[i].1)),
        decreases f,
    {
        if f.len() != g.len() {
            return false;
        }
        let mut i: usize = 0;
        while i < f.len()
            invariant
                i <= f.len(),
                f.len() == g.len(),
                forall|j: int| 0 <= j < i ==> (#[trigger] f@[j]).0 == g@[j].0 && f@[j].1.same(g@[j].1),
            decreases f.len() - i,
        {
            if f[i].0 != g[i].0 || !f[i].1.same_as(&g[i].1) {
                assert(!((#[trigger] f@[i as int]).0 == g@[i as int].0 && f@[i as int].1.same(
                    g@[i as int].1,
                )));
                return false;
            }
            i += 1;
        }
        true
    }

    /// Whether two lists of variants are structurally equal.
    fn same_variant_list(f: &Vec<(Int, Variant)>, g: &Vec<(Int, Variant)>) -> (res: bool)
        ensures
            res == (f@.len() == g@.len() && forall|i: int|
                0 <= i < f@.len() ==> (#[trigger] f@[i]).0 == g@[i].0 && f@[i].1.ty.same(g@[i].1.ty)
                    && f@[i].1.tagger@ == g@[i].1.tagger@),
        decreases f,
    {
        if f.len() != g.len() {
            return false;
        }
        let mut i: usize = 0;
        while i < f.len()
            invariant
                i <= f.len(),
                f.len() == g.len(),
                forall|j: int|
                    0 <= j < i ==> (#[trigger] f@[j]).0 == g@[j].0 && f@[j].1.ty.same(g@[j].1.ty)
                        && f@[j].1.tagger@ == g@[j].1.tagger@,
            decreases f.len() - i,
        {
            if f[i].0 != g[i].0 || !f[i].1.ty.same_as(&g[i].1.ty) || !same_tagger(
                &f[i].1.tagger,
                &g[i].1.tagger,
            ) {
                assert(!((#[trigger] f@[i as int]).0 == g@[i as int].0 && f@[i as int].1.ty.same(
                    g@[i as int].1.ty,
                ) && f@[i as int].1.tagger@ == g@[i as int].1.tagger@));
                return false;
            }
            i += 1;
        }
        true
    }
}

/// Every cell description is structurally equal to itself.
pub proof fn lemma_cells_same_reflexive(c: UnsafeCellStrategy)
    ensures
        c.same(c),
    decreases c,
{
    match c {
        UnsafeCellStrategy::Tuple { tail, .. } => {
            lemma_cells_same_reflexive(*tail);
        },
        _ => {},
    }
}

/// Every discriminator is structurally equal to itself.
pub proof fn lemma_discriminator_same_reflexive(d: Discriminator)
    ensures
        d.same(d),
    decreases d,
{
    match d {
        Discriminator::Branch { fallback, children, .. } => {
            lemma_discriminator_same_reflexive(*fallback);
            assert forall|i: int| 0 <= i < children@.len() implies (#[trigger] children@[i]).1.same(
                children@[i].1,
            ) by {
                lemma_discriminator_same_reflexive(children@[i].1);
            }
        },
        _ => {},
    }
}

/// Every type is structurally equal to itself.
pub proof fn lemma_same_reflexive(t: Type)
    ensures
        t.same(t),
    decreases t,
{
    match t {
        Type::Ptr(p) => {
            match p {
                PtrType::Ref { pointee, .. } => {
                    lemma_cells_same_reflexive(pointee.unsafe_cells);
                },
                PtrType::Box { pointee } => {
                    lemma_cells_same_reflexive(pointee.unsafe_cells);
                },
                _ => {},
            }
        },
        Type::Tuple { sized_fields, unsized_field, .. } => {
            assert forall|i: int| 0 <= i < sized_fields@.len() implies (
            #[trigger] sized_fields@[i]).1.same(sized_fields@[i].1) by {
                lemma_same_reflexive(sized_fields@[i].1);
            }
            match unsized_field {
                Some(tail) => {
                    lemma_same_reflexive(*tail);
                },
                None => {},
            }
        },
        Type::Union { fields, .. } => {
            assert forall|i: int| 0 <= i < fields@.len() implies (#[trigger] fields@[i]).1.same(
                fields@[i].1,
            ) by {
                lemma_same_reflexive(fields@[i].1);
            }
        },
        Type::Enum { variants, discriminator, .. } => {
            assert forall|i: int| 0 <= i < variants@.len() implies (
            #[trigger] variants@[i]).1.ty.same(variants@[i].1.ty) by {
                lemma_same_reflexive(variants@[i].1.ty);
            }
            lemma_discriminator_same_reflexive(discriminator);
        },
        Type::Array { elem, .. } => {
            lemma_same_reflexive(*elem);
        },
        Type::Slice { elem } => {
            lemma_same_reflexive(*elem);
        },
        _ => {},
    }
}

} // verus!
