//! What holds of the list of composite types: registering keeps it free of
//! repetitions, and rendering a composite type adds less to the list than
//! the type weighs, which bounds the work that is left.

use vstd::prelude::*;
use crate::fmt::ty::{
    comptype_body_text, fields_text, is_composite, position_from, registered, type_text,
    variants_text,
};
use crate::same::lemma_same_reflexive;
use crate::ty::{Int, Offset, Type, Variant};

verus! {

/// The weight of the types of the fields from position `from` on.
pub open spec fn fields_weight(fields: Seq<(Offset, Type)>, from: int) -> nat
    decreases fields, fields.len() - from,
{
    if from < 0 || from >= fields.len() {
        0
    } else {
        fields[from].1.weight() + fields_weight(fields, from + 1)
    }
}

/// The weight of the payload types of the variants from position `from` on.
pub open spec fn variants_weight(variants: Seq<(Int, Variant)>, from: int) -> nat
    decreases variants, variants.len() - from,
{
    if from < 0 || from >= variants.len() {
        0
    } else {
        variants[from].1.ty.weight() + variants_weight(variants, from + 1)
    }
}

impl Type {
    /// The number of types that this type is made of, itself included.
    pub open spec fn weight(self) -> nat
        decreases self,
    {
        1 + match self {
            Type::Tuple { sized_fields, unsized_field, .. } => fields_weight(sized_fields@, 0)
                + match unsized_field {
                Some(t) => t.weight(),
                None => 0,
            },
            Type::Union { fields, .. } => fields_weight(fields@, 0),
            Type::Enum { variants, .. } => variants_weight(variants@, 0),
            Type::Array { elem, .. } => elem.weight(),
            Type::Slice { elem } => elem.weight(),
            _ => 0,
        }
    }
}

/// The weight of the entries of `list` from position `from` up to `to`.
pub open spec fn range_weight(list: Seq<Type>, from: int, to: int) -> nat
    decreases to - from,
{
    if from < 0 || from >= to || to > list.len() {
        0
    } else {
        list[from].weight() + range_weight(list, from + 1, to)
    }
}

/// The weight of the entries of `list` from position `from` on.
pub open spec fn list_weight(list: Seq<Type>, from: int) -> nat {
    range_weight(list, from, list.len() as int)
}

/// Whether `after` is `before` with composite types appended whose weight is
/// at most `bound`.
pub open spec fn grown(before: Seq<Type>, after: Seq<Type>, bound: nat) -> bool {
    &&& before.len() <= after.len()
    &&& forall|k: int| 0 <= k < before.len() ==> after[k] == before[k]
    &&& forall|k: int| before.len() <= k < after.len() ==> is_composite(#[trigger] after[k])
    &&& range_weight(after, before.len() as int, after.len() as int) <= bound
}

/// The weight of a range is the weight of its two parts.
pub proof fn lemma_range_split(list: Seq<Type>, a: int, b: int, c: int)
    requires
        0 <= a <= b <= c <= list.len(),
    ensures
        range_weight(list, a, c) == range_weight(list, a, b) + range_weight(list, b, c),
    decreases b - a,
{
    if a < b {
        lemma_range_split(list, a + 1, b, c);
    }
}

/// Lists that agree on a range weigh the same there.
pub proof fn lemma_range_agrees(l: Seq<Type>, m: Seq<Type>, a: int, b: int)
    requires
        0 <= a <= b <= l.len(),
        b <= m.len(),
        forall|k: int| a <= k < b ==> l[k] == m[k],
    ensures
        range_weight(l, a, b) == range_weight(m, a, b),
    decreases b - a,
{
    if a < b {
        lemma_range_agrees(l, m, a + 1, b);
    }
}

/// Growing twice is growing once by the sum of the bounds.
pub proof fn lemma_grown_twice(a: Seq<Type>, b: Seq<Type>, c: Seq<Type>, m: nat, n: nat)
    requires
        grown(a, b, m),
        grown(b, c, n),
    ensures
        grown(a, c, m + n),
{
    lemma_range_split(c, a.len() as int, b.len() as int, c.len() as int);
    lemma_range_agrees(c, b, a.len() as int, b.len() as int);
    assert forall|k: int| a.len() <= k < c.len() implies is_composite(#[trigger] c[k]) by {
        if k < b.len() {
            assert(is_composite(b[k]));
        }
    }
}

/// Registering a composite type appends at most that type.
pub proof fn lemma_registered_grows(t: Type, list: Seq<Type>)
    requires
        is_composite(t),
    ensures
        grown(list, registered(t, list).1, t.weight()),
{
    let after = registered(t, list).1;
    if position_from(t, list, 0) is None {
        assert(range_weight(after, list.len() as int, after.len() as int) == t.weight()) by {
            assert(after[list.len() as int] == t);
            assert(range_weight(after, list.len() as int + 1, after.len() as int) == 0);
        }
    }
}

/// Rendering a type appends composite types that weigh no more than it.
pub proof fn lemma_type_text_grows(t: Type, list: Seq<Type>)
    ensures
        grown(list, type_text(t, list).1, t.weight()),
    decreases t,
{
    match t {
        Type::Tuple { .. } | Type::Union { .. } | Type::Enum { .. } => {
            lemma_registered_grows(t, list);
        },
        Type::Array { elem, .. } => {
            lemma_type_text_grows(*elem, list);
        },
        Type::Slice { elem } => {
            lemma_type_text_grows(*elem, list);
        },
        _ => {},
    }
}

/// Rendering fields appends composite types that weigh no more than them.
pub proof fn lemma_fields_text_grows(fields: Seq<(Offset, Type)>, from: int, list: Seq<Type>)
    requires
        0 <= from,
    ensures
        grown(list, fields_text(fields, from, list).1, fields_weight(fields, from)),
    decreases fields.len() - from,
{
    if from < fields.len() {
        let first = type_text(fields[from].1, list);
        lemma_type_text_grows(fields[from].1, list);
        lemma_fields_text_grows(fields, from + 1, first.1);
        lemma_grown_twice(
            list,
            first.1,
            fields_text(fields, from + 1, first.1).1,
            fields[from].1.weight(),
            fields_weight(fields, from + 1),
        );
    }
}

/// Rendering variants appends composite types that weigh no more than their
/// payload types.
pub proof fn lemma_variants_text_grows(variants: Seq<(Int, Variant)>, from: int, list: Seq<Type>)
    requires
        0 <= from,
    ensures
        grown(list, variants_text(variants, from, list).1, variants_weight(variants, from)),
    decreases variants.len() - from,
{
    if from < variants.len() {
        let first = type_text(variants[from].1.ty, list);
        lemma_type_text_grows(variants[from].1.ty, list);
        lemma_variants_text_grows(variants, from + 1, first.1);
        lemma_grown_twice(
            list,
            first.1,
            variants_text(variants, from + 1, first.1).1,
            variants[from].1.ty.weight(),
            variants_weight(variants, from + 1),
        );
    }
}

/// Rendering the body of a composite type appends composite types that
/// weigh less than it.
pub proof fn lemma_comptype_body_grows(t: Type, list: Seq<Type>)
    requires
        is_composite(t),
    ensures
        grown(list, comptype_body_text(t, list).1, (t.weight() - 1) as nat),
{
    match t {
        Type::Tuple { sized_fields, unsized_field, .. } => {
            lemma_fields_text_grows(sized_fields@, 0, list);
            let fields = fields_text(sized_fields@, 0, list);
            match unsized_field {
                Some(tail) => {
                    lemma_type_text_grows(*tail, fields.1);
                    lemma_grown_twice(
                        list,
                        fields.1,
                        type_text(*tail, fields.1).1,
                        fields_weight(sized_fields@, 0),
                        tail.weight(),
                    );
                },
                None => {},
            }
        },
        Type::Union { fields, .. } => {
            lemma_fields_text_grows(fields@, 0, list);
        },
        Type::Enum { variants, .. } => {
            lemma_variants_text_grows(variants@, 0, list);
        },
        _ => {},
    }
}

/// After the composite type at position `i` is rendered, the entries behind
/// it weigh less than the entries from it on did before.
pub proof fn lemma_work_decreases(list: Seq<Type>, i: int)
    requires
        0 <= i < list.len(),
        is_composite(list[i]),
    ensures
        list_weight(comptype_body_text(list[i], list).1, i + 1) < list_weight(list, i),
        list_weight(list, i) >= 1,
{
    let after = comptype_body_text(list[i], list).1;
    lemma_comptype_body_grows(list[i], list);
    lemma_range_split(after, i + 1, list.len() as int, after.len() as int);
    lemma_range_agrees(after, list, i + 1, list.len() as int);
}

/// Whether no two entries of `list` are structurally equal.
pub open spec fn listed_once(list: Seq<Type>) -> bool {
    forall|i: int, j: int| 0 <= i < j < list.len() ==> !(#[trigger] list[i]).same(#[trigger] list[j])
}

/// Where no entry from `from` on is found, none of them is structurally
/// equal to `t`; where one is found, it is.
pub proof fn lemma_position_from(t: Type, list: Seq<Type>, from: int)
    requires
        0 <= from,
    ensures
        match position_from(t, list, from) {
            Some(i) => from <= i < list.len() && list[i].same(t),
            None => forall|k: int| from <= k < list.len() ==> !(#[trigger] list[k]).same(t),
        },
    decreases list.len() - from,
{
    if from < list.len() && !list[from].same(t) {
        lemma_position_from(t, list, from + 1);
    }
}

/// Registering a type keeps a list free of repetitions, the position it
/// returns holds a type structurally equal to the one registered, and
/// registering the type again changes nothing.
pub proof fn lemma_registered_once(t: Type, list: Seq<Type>)
    requires
        listed_once(list),
    ensures
        listed_once(registered(t, list).1),
        0 <= registered(t, list).0 < registered(t, list).1.len(),
        registered(t, list).1[registered(t, list).0].same(t),
        registered(t, registered(t, list).1) == registered(t, list),
{
    lemma_position_from(t, list, 0);
    lemma_same_reflexive(t);
    let after = registered(t, list).1;
    if position_from(t, list, 0) is None {
        let n = list.len() as int;
        assert(after[n] == t);
        assert forall|j: int| 0 <= j < n implies !(#[trigger] after[j]).same(t) by {
            assert(after[j] == list[j]);
        }
        assert forall|i: int, j: int| 0 <= i < j < after.len() implies !(#[trigger] after[i]).same(
            #[trigger] after[j],
        ) by {
            assert(after[i] == list[i]);
            if j < n {
                assert(after[j] == list[j]);
            }
        }
        lemma_position_least(t, after, 0, n);
    }
}

/// The position found is the first that holds a structurally equal type.
pub proof fn lemma_position_least(t: Type, list: Seq<Type>, from: int, k: int)
    requires
        0 <= from <= k < list.len(),
        list[k].same(t),
        forall|j: int| from <= j < k ==> !(#[trigger] list[j]).same(t),
    ensures
        position_from(t, list, from) == Some(k),
    decreases k - from,
{
    if from < k {
        lemma_position_least(t, list, from + 1, k);
    }
}

} // verus!
