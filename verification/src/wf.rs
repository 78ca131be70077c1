//! The well-formedness checker: one pass over a program that either accepts
//! it or names the first rule it breaks.

use vstd::prelude::*;
use crate::names::{BbName, FnName};
use crate::syntax::{
    block_kind, kind_of, ArgumentExpr, BasicBlock, BbKind, CastOp, Function, PlaceExpr,
    Program, Statement, Terminator, UnOp, ValueExpr,
};
use crate::ty::{Int, Offset, Type, Variant};

verus! {

/// The rule that an ill-formed program breaks.
#[derive(Clone, Copy, Debug, PartialEq, Eq, Structural)]
pub enum IllFormed {
    /// A normal edge names a block that its function does not have.
    NextBlockMissing,
    /// An unwind edge names a block that its function does not have.
    UnwindBlockMissing,
    /// A normal edge leads to a block of a kind it may not lead to.
    NextBlockWrongKind,
    /// An unwind edge leads to a block that is not a cleanup block.
    UnwindBlockWrongKind,
    /// `Return` outside a regular block.
    ReturnOutsideRegular,
    /// `StartUnwind` outside a regular block.
    StartUnwindOutsideRegular,
    /// `ResumeUnwind` outside a cleanup block.
    ResumeUnwindOutsideCleanup,
    /// An unwind edge leaves a catch block.
    UnwindInCatch,
    /// A local variable of unsized type.
    UnsizedLocal,
    /// A slice type whose element type is unsized.
    UnsizedSliceElem,
    /// A load from a place of unsized type.
    UnsizedLoad,
    /// A transmute to an unsized type.
    UnsizedTransmuteTarget,
}

impl IllFormed {
    /// The fixed text that identifies the rule.
    pub open spec fn message_text(self) -> Seq<char> {
        match self {
            IllFormed::NextBlockMissing => "Terminator: next block does not exist"@,
            IllFormed::UnwindBlockMissing => "Terminator: unwind block does not exist"@,
            IllFormed::NextBlockWrongKind => "Terminator: next block has the wrong block kind"@,
            IllFormed::UnwindBlockWrongKind => "Terminator: unwind block has the wrong block kind"@,
            IllFormed::ReturnOutsideRegular => "Terminator::Return has to be called in a regular block"@,
            IllFormed::StartUnwindOutsideRegular => "Terminator::StartUnwind has to be called in a regular block"@,
            IllFormed::ResumeUnwindOutsideCleanup => "Terminator::ResumeUnwind: has to be called in cleanup block"@,
            IllFormed::UnwindInCatch => "Terminator: unwinding is not allowed in a catch block"@,
            IllFormed::UnsizedLocal => "Function: unsized local variable"@,
            IllFormed::UnsizedSliceElem => "Type::Slice: unsized element type"@,
            IllFormed::UnsizedLoad => "ValueExpr::Load: unsized value type"@,
            IllFormed::UnsizedTransmuteTarget => "Cast::Transmute: unsized target type"@,
        }
    }

    /// The fixed text that identifies the rule.
    pub fn message(&self) -> (text: &'static str)
        ensures
            text@ == self.message_text(),
    {
        match self {
            IllFormed::NextBlockMissing => "Terminator: next block does not exist",
            IllFormed::UnwindBlockMissing => "Terminator: unwind block does not exist",
            IllFormed::NextBlockWrongKind => "Terminator: next block has the wrong block kind",
            IllFormed::UnwindBlockWrongKind => "Terminator: unwind block has the wrong block kind",
            IllFormed::ReturnOutsideRegular => "Terminator::Return has to be called in a regular block",
            IllFormed::StartUnwindOutsideRegular => "Terminator::StartUnwind has to be called in a regular block",
            IllFormed::ResumeUnwindOutsideCleanup => "Terminator::ResumeUnwind: has to be called in cleanup block",
            IllFormed::UnwindInCatch => "Terminator: unwinding is not allowed in a catch block",
            IllFormed::UnsizedLocal => "Function: unsized local variable",
            IllFormed::UnsizedSliceElem => "Type::Slice: unsized element type",
            IllFormed::UnsizedLoad => "ValueExpr::Load: unsized value type",
            IllFormed::UnsizedTransmuteTarget => "Cast::Transmute: unsized target type",
        }
    }
}

/// What a checker reports: the first broken rule, if any.
pub type Verdict = Option<IllFormed>;

/// The earlier of two findings.
pub open spec fn first(a: Verdict, b: Verdict) -> Verdict {
    if a is Some {
        a
    } else {
        b
    }
}

/// The first finding in `s` at or after position `from`.
pub open spec fn first_from(s: Seq<Verdict>, from: int) -> Verdict
    decreases s.len() - from,
{
    if from < 0 || from >= s.len() {
        None
    } else if s[from] is Some {
        s[from]
    } else {
        first_from(s, from + 1)
    }
}

/// The first finding in `s`.
pub open spec fn first_of(s: Seq<Verdict>) -> Verdict {
    first_from(s, 0)
}

/// The result that stands for a finding.
pub open spec fn as_result(v: Verdict) -> Result<(), IllFormed> {
    match v {
        Some(e) => Err(e),
        None => Ok(()),
    }
}

/// The finding `e` unless `ok` holds.
pub open spec fn unless(ok: bool, e: IllFormed) -> Verdict {
    if ok {
        None
    } else {
        Some(e)
    }
}

impl Type {
    /// Whether every slice type inside this type has a sized element type.
    pub open spec fn slices_sized(self) -> bool
        decreases self,
    {
        match self {
            Type::Tuple { sized_fields, unsized_field, .. } => {
                &&& forall|i: int|
                    0 <= i < sized_fields.len() ==> (#[trigger] sized_fields[i]).1.slices_sized()
                &&& match unsized_field {
                    Some(t) => t.slices_sized(),
                    None => true,
                }
            },
            Type::Union { fields, .. } => forall|i: int|
                0 <= i < fields.len() ==> (#[trigger] fields[i]).1.slices_sized(),
            Type::Enum { variants, .. } => forall|i: int|
                0 <= i < variants.len() ==> (#[trigger] variants[i]).1.ty.slices_sized(),
            Type::Array { elem, .. } => elem.slices_sized(),
            Type::Slice { elem } => elem.sized() && elem.slices_sized(),
            _ => true,
        }
    }

    /// The finding for a type that occurs in a program.
    pub open spec fn violation(self) -> Verdict {
        unless(self.slices_sized(), IllFormed::UnsizedSliceElem)
    }

    /// Checks that every slice type inside this type has a sized element type.
    pub fn check_slices(&self) -> (res: bool)
        ensures
            res == self.slices_sized(),
        decreases self,
    {
        match self {
            Type::Tuple { sized_fields, sized_head_layout: _, unsized_field } => {
                if !Self::check_fields(sized_fields) {
                    return false;
                }
                match unsized_field {
                    Some(t) => t.check_slices(),
                    None => true,
                }
            },
            Type::Union { fields, size: _, align: _, chunks: _ } => Self::check_fields(fields),
            Type::Enum { variants, discriminator: _, discriminant_ty: _, size: _, align: _ } => {
                Self::check_variants(variants)
            },
            Type::Array { elem, count: _ } => elem.check_slices(),
            Type::Slice { elem } => elem.is_sized() && elem.check_slices(),
            _ => true,
        }
    }

    /// Checks the types of a list of fields.
    fn check_fields(fields: &Vec<(Offset, Type)>) -> (res: bool)
        ensures
            res == forall|i: int| 0 <= i < fields.len() ==> (#[trigger] fields[i]).1.slices_sized(),
        decreases fields,
    {
        let mut i: usize = 0;
        while i < fields.len()
            invariant
                i <= fields.len(),
                forall|j: int| 0 <= j < i ==> (#[trigger] fields[j]).1.slices_sized(),
            decreases fields.len() - i,
        {
            if !fields[i].1.check_slices() {
                return false;
            }
            i += 1;
        }
        true
    }

    /// Checks the payload types of a list of variants.
    fn check_variants(variants: &Vec<(Int, Variant)>) -> (res: bool)
        ensures
            res == forall|i: int|
                0 <= i < variants.len() ==> (#[trigger] variants[i]).1.ty.slices_sized(),
        decreases variants,
    {
        let mut i: usize = 0;
        while i < variants.len()
            invariant
                i <= variants.len(),
                forall|j: int| 0 <= j < i ==> (#[trigger] variants[j]).1.ty.slices_sized(),
            decreases variants.len() - i,
        {
            if !variants[i].1.ty.check_slices() {
                return false;
            }
            i += 1;
        }
        true
    }

    /// Checks a type that occurs in a program.
    pub fn check(&self) -> (res: Result<(), IllFormed>)
        ensures
            res == as_result(self.violation()),
    {
        if self.check_slices() {
            Ok(())
        } else {
            Err(IllFormed::UnsizedSliceElem)
        }
    }
}

/// The field types of a tuple or union, or nothing for any other type.
pub open spec fn field_type(ty: Type, field: u64) -> Option<Type> {
    match ty {
        Type::Tuple { sized_fields, .. } => if field < sized_fields.len() {
            Some(sized_fields[field as int].1)
        } else {
            None
        },
        Type::Union { fields, .. } => if field < fields.len() {
            Some(fields[field as int].1)
        } else {
            None
        },
        _ => None,
    }
}

/// The element type of an array or slice, or nothing for any other type.
pub open spec fn element_type(ty: Type) -> Option<Type> {
    match ty {
        Type::Array { elem, .. } => Some(*elem),
        Type::Slice { elem } => Some(*elem),
        _ => None,
    }
}

impl PlaceExpr {
    /// The type of the place, where the declarations determine one: a local
    /// has its declared type, a dereference the type it names, a field the
    /// type of that field of a tuple or union, an indexed place the element
    /// type of an array or slice.
    pub open spec fn type_model(self, locals: Seq<Type>) -> Option<Type>
        decreases self,
    {
        match self {
            PlaceExpr::Local(name) => if name.0.id < locals.len() {
                Some(locals[name.0.id as int])
            } else {
                None
            },
            PlaceExpr::Deref { ty, .. } => Some(ty),
            PlaceExpr::Field { root, field } => match root.type_model(locals) {
                Some(t) => field_type(t, field),
                None => None,
            },
            PlaceExpr::Index { root, .. } => match root.type_model(locals) {
                Some(t) => element_type(t),
                None => None,
            },
        }
    }

    /// The first rule that the place expression breaks, operands before the
    /// expression itself.
    pub open spec fn violation(self, locals: Seq<Type>) -> Verdict
        decreases self,
    {
        match self {
            PlaceExpr::Local(_) => None,
            PlaceExpr::Deref { operand, ty } => first(operand.violation(locals), ty.violation()),
            PlaceExpr::Field { root, .. } => root.violation(locals),
            PlaceExpr::Index { root, index } => first(
                root.violation(locals),
                index.violation(locals),
            ),
        }
    }

    /// The type of the place, where the declarations determine one.
    pub fn type_of<'a>(&'a self, locals: &'a Vec<Type>) -> (res: Option<&'a Type>)
        ensures
            res is Some <==> self.type_model(locals@) is Some,
            res is Some ==> *res.unwrap() == self.type_model(locals@).unwrap(),
        decreases self,
    {
        match self {
            PlaceExpr::Local(name) => {
                let i = name.0.id as usize;
                if i < locals.len() {
                    Some(&locals[i])
                } else {
                    None
                }
            },
            PlaceExpr::Deref { operand: _, ty } => Some(ty),
            PlaceExpr::Field { root, field } => match root.type_of(locals) {
                Some(t) => match t {
                    Type::Tuple { sized_fields, sized_head_layout: _, unsized_field: _ } => {
                        if *field < sized_fields.len() as u64 {
                            Some(&sized_fields[*field as usize].1)
                        } else {
                            None
                        }
                    },
                    Type::Union { fields, size: _, align: _, chunks: _ } => {
                        if *field < fields.len() as u64 {
                            Some(&fields[*field as usize].1)
                        } else {
                            None
                        }
                    },
                    _ => None,
                },
                None => None,
            },
            PlaceExpr::Index { root, index: _ } => match root.type_of(locals) {
                Some(t) => match t {
                    Type::Array { elem, count: _ } => Some(&**elem),
                    Type::Slice { elem } => Some(&**elem),
                    _ => None,
                },
                None => None,
            },
        }
    }

    /// Checks the place expression against the sizedness rules.
    pub fn check(&self, locals: &Vec<Type>) -> (res: Result<(), IllFormed>)
        ensures
            res == as_result(self.violation(locals@)),
        decreases self,
    {
        match self {
            PlaceExpr::Local(_) => Ok(()),
            PlaceExpr::Deref { operand, ty } => {
                operand.check(locals)?;
                ty.check()
            },
            PlaceExpr::Field { root, field: _ } => root.check(locals),
            PlaceExpr::Index { root, index } => {
                root.check(locals)?;
                index.check(locals)
            },
        }
    }
}

impl UnOp {
    /// A transmute needs a well-formed, sized target type.
    pub open spec fn violation(self) -> Verdict {
        match self {
            UnOp::Cast(CastOp::Transmute(ty)) => first(
                ty.violation(),
                unless(ty.sized(), IllFormed::UnsizedTransmuteTarget),
            ),
            _ => None,
        }
    }

    /// Checks the operator against the sizedness rules.
    pub fn check(&self) -> (res: Result<(), IllFormed>)
        ensures
            res == as_result(self.violation()),
    {
        match self {
            UnOp::Cast(CastOp::Transmute(ty)) => {
                ty.check()?;
                if ty.is_sized() {
                    Ok(())
                } else {
                    Err(IllFormed::UnsizedTransmuteTarget)
                }
            },
            _ => Ok(()),
        }
    }
}

/// The findings of a list of value expressions, one for each.
pub open spec fn value_findings(values: Seq<ValueExpr>, locals: Seq<Type>, from: int) -> Verdict
    decreases values, values.len() - from,
{
    if from < 0 || from >= values.len() {
        None
    } else {
        first(values[from].violation(locals), value_findings(values, locals, from + 1))
    }
}

impl ValueExpr {
    /// The first rule that the value expression breaks, operands before the
    /// expression itself. A load needs a place of sized type, where the
    /// declarations determine its type.
    pub open spec fn violation(self, locals: Seq<Type>) -> Verdict
        decreases self,
    {
        match self {
            ValueExpr::Constant(_, ty) => ty.violation(),
            ValueExpr::Tuple(fields, ty) => first(
                value_findings(fields@, locals, 0),
                ty.violation(),
            ),
            ValueExpr::Load { source } => first(
                source.violation(locals),
                match source.type_model(locals) {
                    Some(t) => unless(t.sized(), IllFormed::UnsizedLoad),
                    None => None,
                },
            ),
            ValueExpr::AddrOf { target, .. } => target.violation(locals),
            ValueExpr::UnOp { operator, operand } => first(
                operand.violation(locals),
                operator.violation(),
            ),
            ValueExpr::BinOp { left, right, .. } => first(
                left.violation(locals),
                right.violation(locals),
            ),
        }
    }

    /// Checks the value expression against the sizedness rules.
    pub fn check(&self, locals: &Vec<Type>) -> (res: Result<(), IllFormed>)
        ensures
            res == as_result(self.violation(locals@)),
        decreases self,
    {
        match self {
            ValueExpr::Constant(_, ty) => ty.check(),
            ValueExpr::Tuple(fields, ty) => {
                check_values(fields, locals)?;
                ty.check()
            },
            ValueExpr::Load { source } => {
                source.check(locals)?;
                match source.type_of(locals) {
                    Some(t) => if t.is_sized() {
                        Ok(())
                    } else {
                        Err(IllFormed::UnsizedLoad)
                    },
                    None => Ok(()),
                }
            },
            ValueExpr::AddrOf { target, ptr_ty: _ } => target.check(locals),
            ValueExpr::UnOp { operator, operand } => {
                operand.check(locals)?;
                operator.check()
            },
            ValueExpr::BinOp { operator: _, left, right } => {
                left.check(locals)?;
                right.check(locals)
            },
        }
    }
}

/// Checks a list of value expressions in order.
pub fn check_values(values: &Vec<ValueExpr>, locals: &Vec<Type>) -> (res: Result<(), IllFormed>)
    ensures
        res == as_result(value_findings(values@, locals@, 0)),
    decreases values,
{
    let mut i: usize = 0;
    while i < values.len()
        invariant
            i <= values.len(),
            value_findings(values@, locals@, 0) == value_findings(values@, locals@, i as int),
        decreases values.len() - i,
    {
        values[i].check(locals)?;
        i += 1;
    }
    Ok(())
}

impl ArgumentExpr {
    /// The first rule that the argument breaks.
    pub open spec fn violation(self, locals: Seq<Type>) -> Verdict {
        match self {
            ArgumentExpr::ByValue(value) => value.violation(locals),
            ArgumentExpr::InPlace(place) => place.violation(locals),
        }
    }

    /// Checks the argument against the sizedness rules.
    pub fn check(&self, locals: &Vec<Type>) -> (res: Result<(), IllFormed>)
        ensures
            res == as_result(self.violation(locals@)),
    {
        match self {
            ArgumentExpr::ByValue(value) => value.check(locals),
            ArgumentExpr::InPlace(place) => place.check(locals),
        }
    }
}

/// The findings of a list of call arguments, one for each.
pub open spec fn argument_findings(arguments: Seq<ArgumentExpr>, locals: Seq<Type>) -> Seq<
    Verdict,
> {
    Seq::new(arguments.len(), |i: int| arguments[i].violation(locals))
}

/// Checks a list of call arguments in order.
pub fn check_arguments(arguments: &Vec<ArgumentExpr>, locals: &Vec<Type>) -> (res: Result<
    (),
    IllFormed,
>)
    ensures
        res == as_result(first_of(argument_findings(arguments@, locals@))),
{
    let ghost all = argument_findings(arguments@, locals@);
    let mut i: usize = 0;
    while i < arguments.len()
        invariant
            i <= arguments.len(),
            all == argument_findings(arguments@, locals@),
            first_of(all) == first_from(all, i as int),
        decreases arguments.len() - i,
    {
        arguments[i].check(locals)?;
        i += 1;
    }
    Ok(())
}

impl Statement {
    /// The first rule that the statement breaks, the destination of an
    /// assignment before its source.
    pub open spec fn violation(self, locals: Seq<Type>) -> Verdict {
        match self {
            Statement::Assign { destination, source } => first(
                destination.violation(locals),
                source.violation(locals),
            ),
            Statement::PlaceMention(place) => place.violation(locals),
            Statement::Validate { place, .. } => place.violation(locals),
            Statement::StorageLive(_) => None,
            Statement::StorageDead(_) => None,
        }
    }

    /// Checks the statement against the sizedness rules.
    pub fn check(&self, locals: &Vec<Type>) -> (res: Result<(), IllFormed>)
        ensures
            res == as_result(self.violation(locals@)),
    {
        match self {
            Statement::Assign { destination, source } => {
                destination.check(locals)?;
                source.check(locals)
            },
            Statement::PlaceMention(place) => place.check(locals),
            Statement::Validate { place, fn_entry: _ } => place.check(locals),
            Statement::StorageLive(_) => Ok(()),
            Statement::StorageDead(_) => Ok(()),
        }
    }
}

/// The findings of a list of statements, one for each.
pub open spec fn statement_findings(statements: Seq<Statement>, locals: Seq<Type>) -> Seq<
    Verdict,
> {
    Seq::new(statements.len(), |i: int| statements[i].violation(locals))
}

/// A normal edge: its target must exist and be of kind `expected`.
pub open spec fn next_edge(
    blocks: Seq<(BbName, BasicBlock)>,
    target: BbName,
    expected: BbKind,
) -> Verdict {
    match kind_of(blocks, target) {
        None => Some(IllFormed::NextBlockMissing),
        Some(k) => unless(k == expected, IllFormed::NextBlockWrongKind),
    }
}

/// The return edge of a call made in a block of kind `kind`: its target must
/// exist, the call must stand in a regular or catch block, and the target
/// must be of the same kind.
pub open spec fn return_edge(
    blocks: Seq<(BbName, BasicBlock)>,
    target: BbName,
    kind: BbKind,
) -> Verdict {
    match kind_of(blocks, target) {
        None => Some(IllFormed::NextBlockMissing),
        Some(k) => unless(
            (kind == BbKind::Regular || kind == BbKind::Catch) && k == kind,
            IllFormed::NextBlockWrongKind,
        ),
    }
}

/// An unwind edge that leaves a block of kind `kind`: it may not leave a
/// catch block, its target must exist, and the target must be a cleanup block.
pub open spec fn unwind_edge(
    blocks: Seq<(BbName, BasicBlock)>,
    target: BbName,
    kind: BbKind,
) -> Verdict {
    if kind == BbKind::Catch {
        Some(IllFormed::UnwindInCatch)
    } else {
        match kind_of(blocks, target) {
            None => Some(IllFormed::UnwindBlockMissing),
            Some(k) => unless(k == BbKind::Cleanup, IllFormed::UnwindBlockWrongKind),
        }
    }
}

/// The findings of the cases of a switch, one for each edge.
pub open spec fn case_findings(
    cases: Seq<(Int, BbName)>,
    blocks: Seq<(BbName, BasicBlock)>,
    kind: BbKind,
) -> Seq<Verdict> {
    Seq::new(cases.len(), |i: int| next_edge(blocks, cases[i].1, kind))
}

impl Terminator {
    /// The first sizedness rule that an expression of the terminator breaks.
    pub open spec fn expr_violation(self, locals: Seq<Type>) -> Verdict {
        match self {
            Terminator::Switch { value, .. } => value.violation(locals),
            Terminator::Intrinsic { arguments, ret, .. } => first(
                value_findings(arguments@, locals, 0),
                ret.violation(locals),
            ),
            Terminator::Call { callee, arguments, ret, .. } => first(
                callee.violation(locals),
                first(first_of(argument_findings(arguments@, locals)), ret.violation(locals)),
            ),
            Terminator::StartUnwind { unwind_payload, .. } => unwind_payload.violation(locals),
            _ => None,
        }
    }

    /// The first rule of block-kind discipline that the terminator breaks
    /// when it closes a block of kind `kind` in a function with `blocks`.
    ///
    /// `Goto`, the edges of a `Switch` (cases in order, then the fallback)
    /// and the successor of an intrinsic stay in the kind of their block. A
    /// call's return edge comes before its unwind edge. `StartUnwind` stands
    /// in a regular block and unwinds to a cleanup block, `StopUnwind` leads
    /// to a regular block, `Return` stands in a regular block and
    /// `ResumeUnwind` in a cleanup block.
    pub open spec fn edge_violation(self, kind: BbKind, blocks: Seq<(BbName, BasicBlock)>) -> Verdict {
        match self {
            Terminator::Goto(target) => next_edge(blocks, target, kind),
            Terminator::Switch { cases, fallback, .. } => first(
                first_of(case_findings(cases@, blocks, kind)),
                next_edge(blocks, fallback, kind),
            ),
            Terminator::Unreachable => None,
            Terminator::Intrinsic { next_block, .. } => match next_block {
                Some(target) => next_edge(blocks, target, kind),
                None => None,
            },
            Terminator::Call { next_block, unwind_block, .. } => first(
                match next_block {
                    Some(target) => return_edge(blocks, target, kind),
                    None => None,
                },
                match unwind_block {
                    Some(target) => unwind_edge(blocks, target, kind),
                    None => None,
                },
            ),
            Terminator::Return => unless(kind == BbKind::Regular, IllFormed::ReturnOutsideRegular),
            Terminator::StartUnwind { unwind_block, .. } => first(
                unless(kind == BbKind::Regular, IllFormed::StartUnwindOutsideRegular),
                unwind_edge(blocks, unwind_block, kind),
            ),
            Terminator::StopUnwind(target) => next_edge(blocks, target, BbKind::Regular),
            Terminator::ResumeUnwind => unless(
                kind == BbKind::Cleanup,
                IllFormed::ResumeUnwindOutsideCleanup,
            ),
        }
    }

    /// The first rule that the terminator breaks: its expressions come
    /// before its edges.
    pub open spec fn violation(
        self,
        kind: BbKind,
        blocks: Seq<(BbName, BasicBlock)>,
        locals: Seq<Type>,
    ) -> Verdict {
        first(self.expr_violation(locals), self.edge_violation(kind, blocks))
    }

    /// Checks the expressions of the terminator against the sizedness rules.
    pub fn check_exprs(&self, locals: &Vec<Type>) -> (res: Result<(), IllFormed>)
        ensures
            res == as_result(self.expr_violation(locals@)),
    {
        match self {
            Terminator::Switch { value, cases: _, fallback: _ } => value.check(locals),
            Terminator::Intrinsic { intrinsic: _, arguments, ret, next_block: _ } => {
                check_values(arguments, locals)?;
                ret.check(locals)
            },
            Terminator::Call {
                callee,
                calling_convention: _,
                arguments,
                ret,
                next_block: _,
                unwind_block: _,
            } => {
                callee.check(locals)?;
                check_arguments(arguments, locals)?;
                ret.check(locals)
            },
            Terminator::StartUnwind { unwind_payload, unwind_block: _ } => unwind_payload.check(
                locals,
            ),
            _ => Ok(()),
        }
    }

    /// Checks the edges of the terminator against the block-kind discipline.
    pub fn check_edges(&self, kind: BbKind, blocks: &Vec<(BbName, BasicBlock)>) -> (res: Result<
        (),
        IllFormed,
    >)
        ensures
            res == as_result(self.edge_violation(kind, blocks@)),
    {
        match self {
            Terminator::Goto(target) => check_next_edge(blocks, *target, kind),
            Terminator::Switch { value: _, cases, fallback } => {
                let ghost all = case_findings(cases@, blocks@, kind);
                let mut i: usize = 0;
                while i < cases.len()
                    invariant
                        i <= cases.len(),
                        all == case_findings(cases@, blocks@, kind),
                        first_of(all) == first_from(all, i as int),
                        self.edge_violation(kind, blocks@) == first(
                            first_of(all),
                            next_edge(blocks@, *fallback, kind),
                        ),
                    decreases cases.len() - i,
                {
                    check_next_edge(blocks, cases[i].1, kind)?;
                    i += 1;
                }
                check_next_edge(blocks, *fallback, kind)
            },
            Terminator::Unreachable => Ok(()),
            Terminator::Intrinsic { intrinsic: _, arguments: _, ret: _, next_block } => {
                match next_block {
                    Some(target) => check_next_edge(blocks, *target, kind),
                    None => Ok(()),
                }
            },
            Terminator::Call {
                callee: _,
                calling_convention: _,
                arguments: _,
                ret: _,
                next_block,
                unwind_block,
            } => {
                match next_block {
                    Some(target) => {
                        check_return_edge(blocks, *target, kind)?;
                    },
                    None => {},
                }
                match unwind_block {
                    Some(target) => check_unwind_edge(blocks, *target, kind),
                    None => Ok(()),
                }
            },
            Terminator::Return => {
                if kind == BbKind::Regular {
                    Ok(())
                } else {
                    Err(IllFormed::ReturnOutsideRegular)
                }
            },
            Terminator::StartUnwind { unwind_payload: _, unwind_block } => {
                if kind != BbKind::Regular {
                    return Err(IllFormed::StartUnwindOutsideRegular);
                }
                check_unwind_edge(blocks, *unwind_block, kind)
            },
            Terminator::StopUnwind(target) => check_next_edge(blocks, *target, BbKind::Regular),
            Terminator::ResumeUnwind => {
                if kind == BbKind::Cleanup {
                    Ok(())
                } else {
                    Err(IllFormed::ResumeUnwindOutsideCleanup)
                }
            },
        }
    }

    /// Checks the terminator of a block of kind `kind`.
    pub fn check(&self, kind: BbKind, blocks: &Vec<(BbName, BasicBlock)>, locals: &Vec<Type>) -> (res:
        Result<(), IllFormed>)
        ensures
            res == as_result(self.violation(kind, blocks@, locals@)),
    {
        self.check_exprs(locals)?;
        self.check_edges(kind, blocks)
    }
}

/// Checks a normal edge.
pub fn check_next_edge(blocks: &Vec<(BbName, BasicBlock)>, target: BbName, expected: BbKind) -> (res:
    Result<(), IllFormed>)
    ensures
        res == as_result(next_edge(blocks@, target, expected)),
{
    match block_kind(blocks, target) {
        None => Err(IllFormed::NextBlockMissing),
        Some(k) => if k == expected {
            Ok(())
        } else {
            Err(IllFormed::NextBlockWrongKind)
        },
    }
}

/// Checks the return edge of a call.
pub fn check_return_edge(blocks: &Vec<(BbName, BasicBlock)>, target: BbName, kind: BbKind) -> (res:
    Result<(), IllFormed>)
    ensures
        res == as_result(return_edge(blocks@, target, kind)),
{
    match block_kind(blocks, target) {
        None => Err(IllFormed::NextBlockMissing),
        Some(k) => if (kind == BbKind::Regular || kind == BbKind::Catch) && k == kind {
            Ok(())
        } else {
            Err(IllFormed::NextBlockWrongKind)
        },
    }
}

/// Checks an unwind edge.
pub fn check_unwind_edge(blocks: &Vec<(BbName, BasicBlock)>, target: BbName, kind: BbKind) -> (res:
    Result<(), IllFormed>)
    ensures
        res == as_result(unwind_edge(blocks@, target, kind)),
{
    if kind == BbKind::Catch {
        return Err(IllFormed::UnwindInCatch);
    }
    match block_kind(blocks, target) {
        None => Err(IllFormed::UnwindBlockMissing),
        Some(k) => if k == BbKind::Cleanup {
            Ok(())
        } else {
            Err(IllFormed::UnwindBlockWrongKind)
        },
    }
}

impl BasicBlock {
    /// The first rule that the block breaks: its statements in order, then
    /// its terminator.
    pub open spec fn violation(self, blocks: Seq<(BbName, BasicBlock)>, locals: Seq<Type>) -> Verdict {
        first(
            first_of(statement_findings(self.statements@, locals)),
            self.terminator.violation(self.kind, blocks, locals),
        )
    }

    /// Checks the block as part of a function with `blocks` and `locals`.
    pub fn check(&self, blocks: &Vec<(BbName, BasicBlock)>, locals: &Vec<Type>) -> (res: Result<
        (),
        IllFormed,
    >)
        ensures
            res == as_result(self.violation(blocks@, locals@)),
    {
        let ghost all = statement_findings(self.statements@, locals@);
        let mut i: usize = 0;
        while i < self.statements.len()
            invariant
                i <= self.statements.len(),
                all == statement_findings(self.statements@, locals@),
                first_of(all) == first_from(all, i as int),
            decreases self.statements.len() - i,
        {
            self.statements[i].check(locals)?;
            i += 1;
        }
        self.terminator.check(self.kind, blocks, locals)
    }
}

/// The finding for the declared type of a local: it must be well-formed and
/// sized.
pub open spec fn local_violation(ty: Type) -> Verdict {
    first(ty.violation(), unless(ty.sized(), IllFormed::UnsizedLocal))
}

/// The findings of the locals of a function, one for each.
pub open spec fn local_findings(locals: Seq<Type>) -> Seq<Verdict> {
    Seq::new(locals.len(), |i: int| local_violation(locals[i]))
}

/// The findings of the blocks of a function, one for each.
pub open spec fn block_findings(blocks: Seq<(BbName, BasicBlock)>, locals: Seq<Type>) -> Seq<
    Verdict,
> {
    Seq::new(blocks.len(), |i: int| blocks[i].1.violation(blocks, locals))
}

impl Function {
    /// The first rule that the function breaks: its locals in order, then
    /// its blocks in order.
    pub open spec fn violation(self) -> Verdict {
        first(
            first_of(local_findings(self.locals@)),
            first_of(block_findings(self.blocks@, self.locals@)),
        )
    }

    /// Checks the function.
    pub fn check(&self) -> (res: Result<(), IllFormed>)
        ensures
            res == as_result(self.violation()),
    {
        let ghost all = local_findings(self.locals@);
        let mut i: usize = 0;
        while i < self.locals.len()
            invariant
                i <= self.locals.len(),
                all == local_findings(self.locals@),
                first_of(all) == first_from(all, i as int),
            decreases self.locals.len() - i,
        {
            self.locals[i].check()?;
            if !self.locals[i].is_sized() {
                return Err(IllFormed::UnsizedLocal);
            }
            i += 1;
        }
        let ghost all = block_findings(self.blocks@, self.locals@);
        let mut j: usize = 0;
        while j < self.blocks.len()
            invariant
                j <= self.blocks.len(),
                all == block_findings(self.blocks@, self.locals@),
                first_of(all) == first_from(all, j as int),
                first_of(local_findings(self.locals@)) is None,
            decreases self.blocks.len() - j,
        {
            self.blocks[j].1.check(&self.blocks, &self.locals)?;
            j += 1;
        }
        Ok(())
    }
}

/// The findings of the functions of a program, one for each.
pub open spec fn function_findings(functions: Seq<(FnName, Function)>) -> Seq<Verdict> {
    Seq::new(functions.len(), |i: int| functions[i].1.violation())
}

impl Program {
    /// The first rule that the program breaks, its functions taken in order;
    /// `None` for a well-formed program.
    pub open spec fn violation(self) -> Verdict {
        first_of(function_findings(self.functions@))
    }

    /// Whether the program is well-formed.
    pub open spec fn well_formed(self) -> bool {
        self.violation() is None
    }

    /// Checks the program: `Ok` for a well-formed one, and otherwise the
    /// first rule that it breaks.
    pub fn check(&self) -> (res: Result<(), IllFormed>)
        ensures
            res == as_result(self.violation()),
            res is Ok <==> self.well_formed(),
    {
        let ghost all = function_findings(self.functions@);
        let mut i: usize = 0;
        while i < self.functions.len()
            invariant
                i <= self.functions.len(),
                all == function_findings(self.functions@),
                first_of(all) == first_from(all, i as int),
            decreases self.functions.len() - i,
        {
            self.functions[i].1.check()?;
            i += 1;
        }
        Ok(())
    }
}

/// Checks a program: `Ok` for a well-formed one, and otherwise the first rule
/// that it breaks.
pub fn check(program: &Program) -> (res: Result<(), IllFormed>)
    ensures
        res == as_result(program.violation()),
{
    program.check()
}

} // verus!
