//! Rendering of types. Integers, pointers and arrays are rendered in place;
//! tuples, unions and enums are rendered as an index into a list of
//! composite types, which is printed apart.

use vstd::prelude::*;
use vstd::string::*;
use crate::fmt::weight::{lemma_comptype_body_grows, lemma_work_decreases, list_weight};
use crate::fmt::{
    decimal, fmt_int, fmt_nat, fmt_trait_name, signed_decimal, trait_name_text, FmtExpr,
};
use crate::ty::{
    Int, IntType, Layout, LayoutStrategy, Mutability, Offset, PointeeInfo, PointerMetaKind, PtrType,
    Signedness, Size, Type, UnsafeCellStrategy, Variant,
};

verus! {

/// The text of an integer type: `i` or `u` and its width in bits.
pub open spec fn int_type_text(int_ty: IntType) -> Seq<char> {
    (match int_ty.signed {
        Signedness::Signed => "i"@,
        Signedness::Unsigned => "u"@,
    }) + decimal(int_ty.size as nat * 8)
}

/// Renders an integer type.
pub fn fmt_int_type(int_ty: IntType) -> (s: String)
    ensures
        s@ == int_type_text(int_ty),
{
    let signed = match int_ty.signed {
        Signedness::Signed => "i",
        Signedness::Unsigned => "u",
    };
    let bits: u128 = int_ty.size as u128 * 8;
    let mut s = String::from_str(signed);
    s.append(fmt_nat(bits).as_str());
    s
}

/// The text of a pointer metadata kind.
pub open spec fn meta_kind_text(kind: PointerMetaKind) -> Seq<char> {
    match kind {
        PointerMetaKind::Thin => "thin"@,
        PointerMetaKind::ElementCount => "meta=len"@,
        PointerMetaKind::VTablePointer(name) => "meta=vtable<"@ + trait_name_text(name) + ">"@,
    }
}

/// Renders a pointer metadata kind.
pub fn fmt_meta_kind(kind: PointerMetaKind) -> (s: String)
    ensures
        s@ == meta_kind_text(kind),
{
    match kind {
        PointerMetaKind::Thin => String::from_str("thin"),
        PointerMetaKind::ElementCount => String::from_str("meta=len"),
        PointerMetaKind::VTablePointer(name) => {
            let mut s = String::from_str("meta=vtable<");
            s.append(fmt_trait_name(name).as_str());
            s.append(">");
            s
        },
    }
}

/// The text of a layout.
pub open spec fn layout_text(layout: Layout) -> Seq<char>
    decreases layout,
{
    match layout {
        Layout::Sized { size, align } => "size="@ + decimal(size) + ", align="@ + decimal(align),
        Layout::Slice { elem_size, align } => "size="@ + decimal(elem_size) + "*len, align="@
            + decimal(align),
        Layout::TraitObject(_) => "size,align={unknown}"@,
        Layout::Tuple { end, align, packed_align, tail } => "head=(end="@ + decimal(end)
            + ", align="@ + decimal(align) + ")"@ + (match packed_align {
            Some(packed) => ", packed="@ + decimal(packed),
            None => ""@,
        }) + ", tail=("@ + layout_text(*tail) + ")"@,
    }
}

/// Renders a layout strategy.
pub fn fmt_layout_strategy(layout: &LayoutStrategy) -> (s: String)
    ensures
        s@ == layout_text(layout@),
    decreases layout,
{
    match layout {
        LayoutStrategy::Sized(size, align) => {
            let mut s = String::from_str("size=");
            s.append(fmt_nat(*size as u128).as_str());
            s.append(", align=");
            s.append(fmt_nat(*align as u128).as_str());
            s
        },
        LayoutStrategy::Slice(size, align) => {
            let mut s = String::from_str("size=");
            s.append(fmt_nat(*size as u128).as_str());
            s.append("*len, align=");
            s.append(fmt_nat(*align as u128).as_str());
            s
        },
        LayoutStrategy::TraitObject(_) => String::from_str("size,align={unknown}"),
        LayoutStrategy::Tuple { head, tail } => {
            let mut s = String::from_str("head=(end=");
            s.append(fmt_nat(head.end as u128).as_str());
            s.append(", align=");
            s.append(fmt_nat(head.align as u128).as_str());
            s.append(")");
            match head.packed_align {
                Some(packed) => {
                    s.append(", packed=");
                    s.append(fmt_nat(packed as u128).as_str());
                },
                None => {
                    s.append("");
                },
            }
            s.append(", tail=(");
            s.append(fmt_layout_strategy(tail).as_str());
            s.append(")");
            s
        },
    }
}

impl UnsafeCellStrategy {
    /// Whether no byte outside the pointer's metadata lies in an
    /// interior-mutability cell.
    pub open spec fn freeze_outside(self) -> bool
        decreases self,
    {
        match self {
            UnsafeCellStrategy::Sized { bytes } => bytes@.len() == 0,
            UnsafeCellStrategy::Slice { element } => element@.len() == 0,
            UnsafeCellStrategy::TraitObject { is_freeze } => is_freeze,
            UnsafeCellStrategy::Tuple { head, tail } => head@.len() == 0 && tail.freeze_outside(),
        }
    }

    /// Whether no byte lies in an interior-mutability cell.
    pub fn is_freeze_outside(&self) -> (res: bool)
        ensures
            res == self.freeze_outside(),
        decreases self,
    {
        match self {
            UnsafeCellStrategy::Sized { bytes } => bytes.len() == 0,
            UnsafeCellStrategy::Slice { element } => element.len() == 0,
            UnsafeCellStrategy::TraitObject { is_freeze } => *is_freeze,
            UnsafeCellStrategy::Tuple { head, tail } => head.len() == 0 && tail.is_freeze_outside(),
        }
    }
}

/// The text of a pointee description: its metadata kind and layout, and the
/// markers that it lacks.
pub open spec fn pointee_info_text(pointee: PointeeInfo) -> Seq<char> {
    "pointee_info("@ + meta_kind_text(pointee.layout@.meta_kind()) + ", "@ + layout_text(
        pointee.layout@,
    ) + (if pointee.inhabited {
        ""@
    } else {
        ", uninhabited"@
    }) + (if pointee.unsafe_cells.freeze_outside() {
        ""@
    } else {
        ", !Freeze"@
    }) + (if pointee.unpin {
        ""@
    } else {
        ", !Unpin"@
    }) + ")"@
}

/// Renders a pointee description.
pub fn fmt_pointee_info(pointee: &PointeeInfo) -> (s: String)
    ensures
        s@ == pointee_info_text(*pointee),
{
    let uninhab_str = if pointee.inhabited {
        ""
    } else {
        ", uninhabited"
    };
    let freeze_str = if pointee.unsafe_cells.is_freeze_outside() {
        ""
    } else {
        ", !Freeze"
    };
    let pin_str = if pointee.unpin {
        ""
    } else {
        ", !Unpin"
    };
    let mut s = String::from_str("pointee_info(");
    s.append(fmt_meta_kind(pointee.layout.meta_kind()).as_str());
    s.append(", ");
    s.append(fmt_layout_strategy(&pointee.layout).as_str());
    s.append(uninhab_str);
    s.append(freeze_str);
    s.append(pin_str);
    s.append(")");
    s
}

/// The text of a pointer type.
pub open spec fn ptr_type_text(ptr_ty: PtrType) -> Seq<char> {
    match ptr_ty {
        PtrType::Ref { mutbl: Mutability::Mutable, pointee } => "&mut "@ + pointee_info_text(
            pointee,
        ),
        PtrType::Ref { mutbl: Mutability::Immutable, pointee } => "&"@ + pointee_info_text(pointee),
        PtrType::Box { pointee } => "Box<"@ + pointee_info_text(pointee) + ">"@,
        PtrType::Raw { meta_kind } => "*raw("@ + meta_kind_text(meta_kind) + ")"@,
        PtrType::FnPtr => "fn()"@,
        PtrType::VTablePtr(_) => "{vtable}"@,
    }
}

/// Whether the text of a pointer type stands on its own: references and raw
/// pointers do not.
pub open spec fn ptr_type_atomic(ptr_ty: PtrType) -> bool {
    !(ptr_ty is Ref || ptr_ty is Raw)
}

/// Renders a pointer type.
pub fn fmt_ptr_type(ptr_ty: &PtrType) -> (e: FmtExpr)
    ensures
        e.text() == ptr_type_text(*ptr_ty),
        e is Atomic <==> ptr_type_atomic(*ptr_ty),
{
    match ptr_ty {
        PtrType::Ref { mutbl: Mutability::Mutable, pointee } => {
            let mut s = String::from_str("&mut ");
            s.append(fmt_pointee_info(pointee).as_str());
            FmtExpr::NonAtomic(s)
        },
        PtrType::Ref { mutbl: Mutability::Immutable, pointee } => {
            let mut s = String::from_str("&");
            s.append(fmt_pointee_info(pointee).as_str());
            FmtExpr::NonAtomic(s)
        },
        PtrType::Box { pointee } => {
            let mut s = String::from_str("Box<");
            s.append(fmt_pointee_info(pointee).as_str());
            s.append(">");
            FmtExpr::Atomic(s)
        },
        PtrType::Raw { meta_kind } => {
            let mut s = String::from_str("*raw(");
            s.append(fmt_meta_kind(*meta_kind).as_str());
            s.append(")");
            FmtExpr::NonAtomic(s)
        },
        PtrType::FnPtr => FmtExpr::Atomic(String::from_str("fn()")),
        PtrType::VTablePtr(_) => FmtExpr::Atomic(String::from_str("{vtable}")),
    }
}

/// Whether `t` is a composite type: a tuple, a union or an enum.
pub open spec fn is_composite(t: Type) -> bool {
    t is Tuple || t is Union || t is Enum
}

/// The position of a composite type in the list of composite types.
pub struct CompTypeIndex {
    pub idx: usize,
}

/// The types that a list of references refers to.
pub open spec fn types_of(refs: Seq<&Type>) -> Seq<Type> {
    Seq::new(refs.len(), |i: int| *refs[i])
}

/// The first position at or after `from` that holds a type structurally
/// equal to `t`.
pub open spec fn position_from(t: Type, comptypes: Seq<Type>, from: int) -> Option<int>
    decreases comptypes.len() - from,
{
    if from < 0 || from >= comptypes.len() {
        None
    } else if comptypes[from].same(t) {
        Some(from)
    } else {
        position_from(t, comptypes, from + 1)
    }
}

/// The position of `t` in `comptypes` and the list afterwards: where no
/// entry is structurally equal to `t`, it is appended.
pub open spec fn registered(t: Type, comptypes: Seq<Type>) -> (int, Seq<Type>) {
    match position_from(t, comptypes, 0) {
        Some(i) => (i, comptypes),
        None => (comptypes.len() as int, comptypes.push(t)),
    }
}

/// Gives the position of `ty` within `comptypes`, and appends `ty` where it
/// has been missing.
pub fn get_comptype_index<'a>(ty: &'a Type, comptypes: &mut Vec<&'a Type>) -> (res: CompTypeIndex)
    ensures
        (res.idx as int, types_of(final(comptypes)@)) == registered(*ty, types_of(old(comptypes)@)),
{
    let mut i: usize = 0;
    while i < comptypes.len()
        invariant
            i <= comptypes.len(),
            comptypes@ == old(comptypes)@,
            position_from(*ty, types_of(comptypes@), 0) == position_from(
                *ty,
                types_of(comptypes@),
                i as int,
            ),
        decreases comptypes.len() - i,
    {
        if comptypes[i].same_as(ty) {
            return CompTypeIndex { idx: i };
        }
        i += 1;
    }
    let n = comptypes.len();
    comptypes.push(ty);
    proof {
        assert(types_of(comptypes@) =~= types_of(old(comptypes)@).push(*ty));
    }
    CompTypeIndex { idx: n }
}

/// The text of a position in the list of composite types: `T` and the
/// position.
pub open spec fn comptype_index_text(idx: int) -> Seq<char> {
    "T"@ + decimal(idx as nat)
}

/// Renders a position in the list of composite types.
pub fn fmt_comptype_index(comptype_index: CompTypeIndex) -> (s: String)
    ensures
        s@ == comptype_index_text(comptype_index.idx as int),
{
    let mut s = String::from_str("T");
    s.append(fmt_nat(comptype_index.idx as u128).as_str());
    s
}

/// The text of a type and the list of composite types after rendering it.
/// A composite type is rendered as its position in the list, which it joins
/// where it has been missing.
pub open spec fn type_text(t: Type, comptypes: Seq<Type>) -> (Seq<char>, Seq<Type>)
    decreases t,
{
    match t {
        Type::Int(int_ty) => (int_type_text(int_ty), comptypes),
        Type::Ptr(ptr_ty) => (ptr_type_text(ptr_ty), comptypes),
        Type::Bool => ("bool"@, comptypes),
        Type::Tuple { .. } | Type::Union { .. } | Type::Enum { .. } => (
            comptype_index_text(registered(t, comptypes).0),
            registered(t, comptypes).1,
        ),
        Type::Array { elem, count } => (
            "["@ + type_text(*elem, comptypes).0 + "; "@ + decimal(count as nat) + "]"@,
            type_text(*elem, comptypes).1,
        ),
        Type::Slice { elem } => (
            "["@ + type_text(*elem, comptypes).0 + "]"@,
            type_text(*elem, comptypes).1,
        ),
        Type::TraitObject(name) => ("dyn "@ + trait_name_text(name), comptypes),
    }
}

/// Whether the text of a type stands on its own: all but references and raw
/// pointers do.
pub open spec fn type_atomic(t: Type) -> bool {
    match t {
        Type::Ptr(ptr_ty) => ptr_type_atomic(ptr_ty),
        _ => true,
    }
}

/// Renders a type; composite types that it meets join `comptypes`.
pub fn fmt_type<'a>(t: &'a Type, comptypes: &mut Vec<&'a Type>) -> (e: FmtExpr)
    ensures
        (e.text(), types_of(final(comptypes)@)) == type_text(*t, types_of(old(comptypes)@)),
        e is Atomic <==> type_atomic(*t),
    decreases t,
{
    match t {
        Type::Int(int_ty) => FmtExpr::Atomic(fmt_int_type(*int_ty)),
        Type::Ptr(ptr_ty) => fmt_ptr_type(ptr_ty),
        Type::Bool => FmtExpr::Atomic(String::from_str("bool")),
        Type::Tuple { .. } | Type::Union { .. } | Type::Enum { .. } => {
            let comptype_index = get_comptype_index(t, comptypes);
            FmtExpr::Atomic(fmt_comptype_index(comptype_index))
        },
        Type::Array { elem, count } => {
            let elem = fmt_type(elem, comptypes).to_string();
            let mut s = String::from_str("[");
            s.append(elem.as_str());
            s.append("; ");
            s.append(fmt_nat(*count as u128).as_str());
            s.append("]");
            FmtExpr::Atomic(s)
        },
        Type::Slice { elem } => {
            let elem = fmt_type(elem, comptypes).to_string();
            let mut s = String::from_str("[");
            s.append(elem.as_str());
            s.append("]");
            FmtExpr::Atomic(s)
        },
        Type::TraitObject(trait_name) => {
            let mut s = String::from_str("dyn ");
            s.append(fmt_trait_name(*trait_name).as_str());
            FmtExpr::Atomic(s)
        },
    }
}

/// The text of the fields from position `from` on, one line for each, and
/// the list of composite types after rendering them in order.
pub open spec fn fields_text(fields: Seq<(Offset, Type)>, from: int, comptypes: Seq<Type>) -> (
    Seq<char>,
    Seq<Type>,
)
    decreases fields.len() - from,
{
    if from < 0 || from >= fields.len() {
        (""@, comptypes)
    } else {
        let first = type_text(fields[from].1, comptypes);
        let rest = fields_text(fields, from + 1, first.1);
        (
            "  at byte "@ + decimal(fields[from].0 as nat) + ": "@ + first.0 + ",\n"@ + rest.0,
            rest.1,
        )
    }
}

/// Renders the fields of a composite type, one line for each.
pub fn fmt_comptype_fields<'a>(fields: &'a Vec<(Offset, Type)>, comptypes: &mut Vec<&'a Type>) -> (s:
    String)
    ensures
        (s@, types_of(final(comptypes)@)) == fields_text(fields@, 0, types_of(old(comptypes)@)),
{
    let mut s = String::new();
    let mut i: usize = 0;
    while i < fields.len()
        invariant
            i <= fields.len(),
            fields_text(fields@, 0, types_of(old(comptypes)@)) == (
                s@ + fields_text(fields@, i as int, types_of(comptypes@)).0,
                fields_text(fields@, i as int, types_of(comptypes@)).1,
            ),
        decreases fields.len() - i,
    {
        let ghost before = s@;
        let ghost list = types_of(comptypes@);
        let ty = fmt_type(&fields[i].1, comptypes).to_string();
        s.append("  at byte ");
        s.append(fmt_nat(fields[i].0 as u128).as_str());
        s.append(": ");
        s.append(ty.as_str());
        s.append(",\n");
        proof {
            let rest = fields_text(fields@, i as int + 1, types_of(comptypes@));
            assert(fields_text(fields@, i as int, list).0 == "  at byte "@ + decimal(
                fields[i as int].0 as nat,
            ) + ": "@ + ty@ + ",\n"@ + rest.0);
            assert(before + ("  at byte "@ + decimal(fields[i as int].0 as nat) + ": "@ + ty@
                + ",\n"@ + rest.0) =~= s@ + rest.0);
        }
        i += 1;
    }
    proof {
        reveal_strlit("");
        assert(s@ + ""@ =~= s@);
    }
    s
}

/// The text of the chunks from position `from` on, one line for each.
pub open spec fn chunks_text(chunks: Seq<(Offset, Size)>, from: int) -> Seq<char>
    decreases chunks.len() - from,
{
    if from < 0 || from >= chunks.len() {
        ""@
    } else {
        "  chunk(at="@ + decimal(chunks[from].0 as nat) + ", size="@ + decimal(
            chunks[from].1 as nat,
        ) + "),\n"@ + chunks_text(chunks, from + 1)
    }
}

/// Renders the chunks of a union, one line for each.
pub fn fmt_comptype_chunks(chunks: &Vec<(Offset, Size)>) -> (s: String)
    ensures
        s@ == chunks_text(chunks@, 0),
{
    let mut s = String::new();
    let mut i: usize = 0;
    while i < chunks.len()
        invariant
            i <= chunks.len(),
            chunks_text(chunks@, 0) == s@ + chunks_text(chunks@, i as int),
        decreases chunks.len() - i,
    {
        let ghost before = s@;
        s.append("  chunk(at=");
        s.append(fmt_nat(chunks[i].0 as u128).as_str());
        s.append(", size=");
        s.append(fmt_nat(chunks[i].1 as u128).as_str());
        s.append("),\n");
        proof {
            let rest = chunks_text(chunks@, i as int + 1);
            assert(before + ("  chunk(at="@ + decimal(chunks[i as int].0 as nat) + ", size="@
                + decimal(chunks[i as int].1 as nat) + "),\n"@ + rest) =~= s@ + rest);
        }
        i += 1;
    }
    proof {
        reveal_strlit("");
        assert(s@ + ""@ =~= s@);
    }
    s
}

/// The text of the variants from position `from` on, one line for each, and
/// the list of composite types after rendering their payload types in order.
pub open spec fn variants_text(variants: Seq<(Int, Variant)>, from: int, comptypes: Seq<Type>) -> (
    Seq<char>,
    Seq<Type>,
)
    decreases variants.len() - from,
{
    if from < 0 || from >= variants.len() {
        (""@, comptypes)
    } else {
        let first = type_text(variants[from].1.ty, comptypes);
        let rest = variants_text(variants, from + 1, first.1);
        (
            "  Variant "@ + signed_decimal(variants[from].0 as int) + ": "@ + first.0 + "\n"@
                + rest.0,
            rest.1,
        )
    }
}

/// Renders the variants of an enum, one line for each.
fn fmt_comptype_variants<'a>(variants: &'a Vec<(Int, Variant)>, comptypes: &mut Vec<&'a Type>) -> (s:
    String)
    ensures
        (s@, types_of(final(comptypes)@)) == variants_text(
            variants@,
            0,
            types_of(old(comptypes)@),
        ),
{
    let mut s = String::new();
    let mut i: usize = 0;
    while i < variants.len()
        invariant
            i <= variants.len(),
            variants_text(variants@, 0, types_of(old(comptypes)@)) == (
                s@ + variants_text(variants@, i as int, types_of(comptypes@)).0,
                variants_text(variants@, i as int, types_of(comptypes@)).1,
            ),
        decreases variants.len() - i,
    {
        let ghost before = s@;
        let ghost list = types_of(comptypes@);
        let ty = fmt_type(&variants[i].1.ty, comptypes).to_string();
        s.append("  Variant ");
        s.append(fmt_int(variants[i].0).as_str());
        s.append(": ");
        s.append(ty.as_str());
        s.append("\n");
        proof {
            let rest = variants_text(variants@, i as int + 1, types_of(comptypes@));
            assert(variants_text(variants@, i as int, list).0 == "  Variant "@ + signed_decimal(
                variants[i as int].0 as int,
            ) + ": "@ + ty@ + "\n"@ + rest.0);
            assert(before + ("  Variant "@ + signed_decimal(variants[i as int].0 as int) + ": "@
                + ty@ + "\n"@ + rest.0) =~= s@ + rest.0);
        }
        i += 1;
    }
    proof {
        reveal_strlit("");
        assert(s@ + ""@ =~= s@);
    }
    s
}

/// The text of the layout of a type, which says so where a size in it does
/// not fit in 64 bits.
pub open spec fn type_layout_text(t: Type) -> Seq<char> {
    if t.representable() {
        layout_text(t.layout_model())
    } else {
        "size,align={overflow}"@
    }
}

/// The lines between the braces of a composite type, and the list of
/// composite types after rendering them.
pub open spec fn comptype_body_text(t: Type, comptypes: Seq<Type>) -> (Seq<char>, Seq<Type>) {
    match t {
        Type::Tuple { sized_fields, unsized_field, .. } => {
            let fields = fields_text(sized_fields@, 0, comptypes);
            match unsized_field {
                Some(tail) => (
                    fields.0 + "  tail: "@ + type_text(*tail, fields.1).0 + ",\n"@,
                    type_text(*tail, fields.1).1,
                ),
                None => fields,
            }
        },
        Type::Union { fields, chunks, .. } => (
            fields_text(fields@, 0, comptypes).0 + chunks_text(chunks@, 0),
            fields_text(fields@, 0, comptypes).1,
        ),
        Type::Enum { variants, discriminant_ty, .. } => (
            "  Discriminant: "@ + int_type_text(discriminant_ty) + "\n"@ + variants_text(
                variants@,
                0,
                comptypes,
            ).0,
            variants_text(variants@, 0, comptypes).1,
        ),
        _ => (""@, comptypes),
    }
}

/// The keyword that opens a composite type.
pub open spec fn comptype_keyword(t: Type) -> Seq<char> {
    match t {
        Type::Tuple { .. } => "tuple"@,
        Type::Union { .. } => "union"@,
        _ => "enum"@,
    }
}

/// The text of the composite type at position `i`, and the list of composite
/// types after rendering it: a heading with its keyword, its position and
/// its layout, and its fields or variants between braces.
pub open spec fn comptype_text(i: int, t: Type, comptypes: Seq<Type>) -> (Seq<char>, Seq<Type>) {
    (
        comptype_keyword(t) + " "@ + comptype_index_text(i) + " ("@ + type_layout_text(t)
            + ") {\n"@ + comptype_body_text(t, comptypes).0 + "}\n\n"@,
        comptype_body_text(t, comptypes).1,
    )
}

/// Renders the composite type `t`, which stands at position `i`; composite
/// types that it meets join `comptypes`.
pub fn fmt_comptype<'a>(i: CompTypeIndex, t: &'a Type, comptypes: &mut Vec<&'a Type>) -> (s: String)
    requires
        is_composite(*t),
    ensures
        (s@, types_of(final(comptypes)@)) == comptype_text(
            i.idx as int,
            *t,
            types_of(old(comptypes)@),
        ),
{
    let keyword = match t {
        Type::Tuple { .. } => "tuple",
        Type::Union { .. } => "union",
        _ => "enum",
    };
    let ct = fmt_comptype_index(i);
    let computed = t.layout();
    let layout = match &computed {
        Some(l) => fmt_layout_strategy(l),
        None => String::from_str("size,align={overflow}"),
    };
    let mut s = String::from_str(keyword);
    s.append(" ");
    s.append(ct.as_str());
    s.append(" (");
    s.append(layout.as_str());
    s.append(") {\n");
    let ghost head = s@;
    match t {
        Type::Tuple { sized_fields, sized_head_layout: _, unsized_field } => {
            s.append(fmt_comptype_fields(sized_fields, comptypes).as_str());
            match unsized_field {
                Some(unsized_ty) => {
                    let ty = fmt_type(unsized_ty, comptypes).to_string();
                    s.append("  tail: ");
                    s.append(ty.as_str());
                    s.append(",\n");
                },
                None => {},
            }
        },
        Type::Union { fields, size: _, align: _, chunks } => {
            s.append(fmt_comptype_fields(fields, comptypes).as_str());
            s.append(fmt_comptype_chunks(chunks).as_str());
        },
        Type::Enum { variants, discriminator: _, discriminant_ty, size: _, align: _ } => {
            let discr = fmt_int_type(*discriminant_ty);
            s.append("  Discriminant: ");
            s.append(discr.as_str());
            s.append("\n");
            s.append(fmt_comptype_variants(variants, comptypes).as_str());
        },
        _ => {},
    }
    proof {
        assert(s@ =~= head + comptype_body_text(*t, types_of(old(comptypes)@)).0);
    }
    s.append("}\n\n");
    proof {
        assert(s@ =~= comptype_text(i.idx as int, *t, types_of(old(comptypes)@)).0);
    }
    s
}

/// The text of the composite types of `comptypes` from position `from` on,
/// each rendered when its turn comes, with the composite types that joined
/// the list before. At most `fuel` of them are rendered.
pub open spec fn comptypes_text_from(comptypes: Seq<Type>, from: int, fuel: nat) -> Seq<char>
    decreases fuel,
{
    if fuel == 0 || from < 0 || from >= comptypes.len() {
        ""@
    } else {
        let step = comptype_text(from, comptypes[from], comptypes);
        step.0 + comptypes_text_from(step.1, from + 1, (fuel - 1) as nat)
    }
}

/// The text of all the composite types that are reached from `comptypes`:
/// those of the list and those that join it while they are rendered. The
/// weight of the list bounds how many there can be.
pub open spec fn comptypes_text(comptypes: Seq<Type>) -> Seq<char> {
    comptypes_text_from(comptypes, 0, list_weight(comptypes, 0))
}

/// Renders all composite types: those of `comptypes`, in order, and behind
/// them those that are met while they are rendered.
pub fn fmt_comptypes<'a>(comptypes: Vec<&'a Type>) -> (out: String)
    requires
        forall|i: int| 0 <= i < comptypes@.len() ==> is_composite(*#[trigger] comptypes@[i]),
    ensures
        out@ == comptypes_text(types_of(comptypes@)),
{
    let ghost given = types_of(comptypes@);
    let ghost mut fuel = list_weight(given, 0);
    let mut comptypes = comptypes;
    let mut out = String::new();
    let mut i: usize = 0;
    proof {
        reveal_strlit("");
        assert(out@ + comptypes_text(given) =~= comptypes_text(given));
    }
    while i < comptypes.len()
        invariant
            i <= comptypes.len(),
            forall|k: int| 0 <= k < comptypes@.len() ==> is_composite(*#[trigger] comptypes@[k]),
            fuel >= list_weight(types_of(comptypes@), i as int),
            comptypes_text(given) == out@ + comptypes_text_from(types_of(comptypes@), i as int, fuel),
        decreases list_weight(types_of(comptypes@), i as int),
    {
        let ghost list = types_of(comptypes@);
        let ghost before = out@;
        let c = comptypes[i];
        let s = fmt_comptype(CompTypeIndex { idx: i }, c, &mut comptypes);
        out.append(s.as_str());
        proof {
            let after = types_of(comptypes@);
            assert(list[i as int] == *c);
            lemma_work_decreases(list, i as int);
            lemma_comptype_body_grows(*c, list);
            assert forall|k: int| 0 <= k < comptypes@.len() implies is_composite(
                *#[trigger] comptypes@[k],
            ) by {
                assert(after[k] == *comptypes@[k]);
                if k < list.len() {
                    assert(after[k] == list[k]);
                }
            }
            let rest = comptypes_text_from(after, i as int + 1, (fuel - 1) as nat);
            assert(before + (s@ + rest) =~= out@ + rest);
            fuel = (fuel - 1) as nat;
        }
        i += 1;
    }
    proof {
        reveal_strlit("");
        assert(out@ + ""@ =~= out@);
    }
    out
}

} // verus!
