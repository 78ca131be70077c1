//! What holds of the checker for every program: acceptance is conformance to
//! the rules, and a rejection names the first rule that is broken.

use vstd::prelude::*;
use crate::build::control::{begins_with, closed_with_kind, lemma_kind_of_closed};
use crate::build::function::FunctionBuilder;
use crate::names::{bb, BbName};
use crate::syntax::{kind_of, BasicBlock, BbKind, CastOp, Function, PlaceExpr, Program, Terminator, UnOp, ValueExpr};
use crate::ty::Type;
use crate::wf::{
    block_findings, case_findings, first, first_from, first_of, function_findings, local_findings,
    local_violation, statement_findings, IllFormed, Verdict,
};

verus! {

/// A list of findings holds none from `from` on exactly when each of its
/// entries from there on is empty.
pub proof fn lemma_first_from_none(s: Seq<Verdict>, from: int)
    requires
        0 <= from,
    ensures
        first_from(s, from) is None <==> forall|i: int| from <= i < s.len() ==> s[i] is None,
    decreases s.len() - from,
{
    if from < s.len() {
        lemma_first_from_none(s, from + 1);
    }
}

/// The first finding of a list is its first entry that is not empty.
pub proof fn lemma_first_from_at(s: Seq<Verdict>, from: int, k: int)
    requires
        0 <= from <= k < s.len(),
        forall|i: int| from <= i < k ==> s[i] is None,
        s[k] is Some,
    ensures
        first_from(s, from) == s[k],
    decreases k - from,
{
    if from < k {
        lemma_first_from_at(s, from + 1, k);
    }
}

/// Whether a terminator that closes a block of kind `kind` follows the
/// block-kind discipline.
pub open spec fn edges_conform(t: Terminator, kind: BbKind, blocks: Seq<(BbName, BasicBlock)>) -> bool {
    match t {
        Terminator::Goto(target) => kind_of(blocks, target) == Some(kind),
        Terminator::Switch { cases, fallback, .. } => {
            &&& forall|i: int|
                0 <= i < cases.len() ==> kind_of(blocks, (#[trigger] cases[i]).1) == Some(kind)
            &&& kind_of(blocks, fallback) == Some(kind)
        },
        Terminator::Unreachable => true,
        Terminator::Intrinsic { next_block, .. } => next_block is Some ==> kind_of(
            blocks,
            next_block.unwrap(),
        ) == Some(kind),
        Terminator::Call { next_block, unwind_block, .. } => {
            &&& next_block is Some ==> (kind == BbKind::Regular || kind == BbKind::Catch)
                && kind_of(blocks, next_block.unwrap()) == Some(kind)
            &&& unwind_block is Some ==> kind != BbKind::Catch && kind_of(
                blocks,
                unwind_block.unwrap(),
            ) == Some(BbKind::Cleanup)
        },
        Terminator::Return => kind == BbKind::Regular,
        Terminator::StartUnwind { unwind_block, .. } => kind == BbKind::Regular && kind_of(
            blocks,
            unwind_block,
        ) == Some(BbKind::Cleanup),
        Terminator::StopUnwind(target) => kind_of(blocks, target) == Some(BbKind::Regular),
        Terminator::ResumeUnwind => kind == BbKind::Cleanup,
    }
}

/// The checker finds no fault with the edges of a terminator exactly when
/// the terminator follows the block-kind discipline.
pub proof fn lemma_edges_accepted_iff_conform(
    t: Terminator,
    kind: BbKind,
    blocks: Seq<(BbName, BasicBlock)>,
)
    ensures
        t.edge_violation(kind, blocks) is None <==> edges_conform(t, kind, blocks),
{
    match t {
        Terminator::Switch { cases, fallback, .. } => {
            let all = case_findings(cases@, blocks, kind);
            lemma_first_from_none(all, 0);
            if first_of(all) is None {
                assert forall|i: int| 0 <= i < cases.len() implies kind_of(
                    blocks,
                    (#[trigger] cases[i]).1,
                ) == Some(kind) by {
                    assert(all[i] is None);
                }
            }
            if edges_conform(t, kind, blocks) {
                assert forall|i: int| 0 <= i < all.len() implies all[i] is None by {
                    assert(kind_of(blocks, cases[i].1) == Some(kind));
                }
            }
        },
        _ => {},
    }
}

/// Whether a block breaks no rule: each statement and each expression of the
/// terminator respects the sizedness rules, and the terminator follows the
/// block-kind discipline.
pub open spec fn block_conforms(
    block: BasicBlock,
    blocks: Seq<(BbName, BasicBlock)>,
    locals: Seq<Type>,
) -> bool {
    &&& forall|i: int|
        0 <= i < block.statements.len() ==> (#[trigger] block.statements[i]).violation(locals)
            is None
    &&& block.terminator.expr_violation(locals) is None
    &&& edges_conform(block.terminator, block.kind, blocks)
}

/// Whether a function breaks no rule: each local has a well-formed, sized
/// type and each block conforms.
pub open spec fn function_conforms(f: Function) -> bool {
    &&& forall|i: int|
        0 <= i < f.locals.len() ==> (#[trigger] f.locals[i]).slices_sized() && f.locals[i].sized()
    &&& forall|i: int|
        0 <= i < f.blocks.len() ==> block_conforms((#[trigger] f.blocks[i]).1, f.blocks@, f.locals@)
}

/// Whether every function of the program conforms.
pub open spec fn program_conforms(p: Program) -> bool {
    forall|i: int| 0 <= i < p.functions.len() ==> function_conforms((#[trigger] p.functions[i]).1)
}

/// A block is accepted exactly when it conforms.
pub proof fn lemma_block_accepted_iff_conforms(
    block: BasicBlock,
    blocks: Seq<(BbName, BasicBlock)>,
    locals: Seq<Type>,
)
    ensures
        block.violation(blocks, locals) is None <==> block_conforms(block, blocks, locals),
{
    let all = statement_findings(block.statements@, locals);
    lemma_first_from_none(all, 0);
    lemma_edges_accepted_iff_conform(block.terminator, block.kind, blocks);
    if first_of(all) is None {
        assert forall|i: int| 0 <= i < block.statements.len() implies (
        #[trigger] block.statements[i]).violation(locals) is None by {
            assert(all[i] is None);
        }
    }
    if block_conforms(block, blocks, locals) {
        assert forall|i: int| 0 <= i < all.len() implies all[i] is None by {
            assert(block.statements[i].violation(locals) is None);
        }
    }
}

/// A function is accepted exactly when it conforms.
pub proof fn lemma_function_accepted_iff_conforms(f: Function)
    ensures
        f.violation() is None <==> function_conforms(f),
{
    let ls = local_findings(f.locals@);
    let bs = block_findings(f.blocks@, f.locals@);
    lemma_first_from_none(ls, 0);
    lemma_first_from_none(bs, 0);
    assert forall|i: int| 0 <= i < f.blocks.len() implies (bs[i] is None <==> block_conforms(
        (#[trigger] f.blocks[i]).1,
        f.blocks@,
        f.locals@,
    )) by {
        lemma_block_accepted_iff_conforms(f.blocks[i].1, f.blocks@, f.locals@);
    }
    if f.violation() is None {
        assert forall|i: int| 0 <= i < f.locals.len() implies (#[trigger] f.locals[i]).slices_sized()
            && f.locals[i].sized() by {
            assert(ls[i] is None);
        }
        assert forall|i: int| 0 <= i < f.blocks.len() implies block_conforms(
            (#[trigger] f.blocks[i]).1,
            f.blocks@,
            f.locals@,
        ) by {
            assert(bs[i] is None);
        }
    }
    if function_conforms(f) {
        assert forall|i: int| 0 <= i < ls.len() implies ls[i] is None by {
            assert(f.locals[i].slices_sized() && f.locals[i].sized());
        }
        assert forall|i: int| 0 <= i < bs.len() implies bs[i] is None by {
            assert(block_conforms(f.blocks[i].1, f.blocks@, f.locals@));
        }
    }
}

/// A program is accepted exactly when every local, statement, expression
/// and terminator in it conforms to the rules.
pub proof fn lemma_accepted_iff_conforms(p: Program)
    ensures
        p.well_formed() <==> program_conforms(p),
{
    let fs = function_findings(p.functions@);
    lemma_first_from_none(fs, 0);
    assert forall|i: int| 0 <= i < p.functions.len() implies (fs[i] is None <==> function_conforms(
        (#[trigger] p.functions[i]).1,
    )) by {
        lemma_function_accepted_iff_conforms(p.functions[i].1);
    }
    if p.well_formed() {
        assert forall|i: int| 0 <= i < p.functions.len() implies function_conforms(
            (#[trigger] p.functions[i]).1,
        ) by {
            assert(fs[i] is None);
        }
    }
    if program_conforms(p) {
        assert forall|i: int| 0 <= i < fs.len() implies fs[i] is None by {
            assert(function_conforms(p.functions[i].1));
        }
    }
}

/// Where everything before the terminator of block `b` of function `f` of a
/// program conforms and that terminator breaks the rule `e`, the program is
/// rejected with `e`, whatever comes after.
pub proof fn lemma_rejected_with_broken_edge(p: Program, f: int, b: int, e: IllFormed)
    requires
        0 <= f < p.functions.len(),
        0 <= b < p.functions[f].1.blocks.len(),
        forall|i: int| 0 <= i < f ==> function_conforms((#[trigger] p.functions[i]).1),
        forall|i: int|
            0 <= i < p.functions[f].1.locals.len() ==> (
            #[trigger] p.functions[f].1.locals[i]).slices_sized()
                && p.functions[f].1.locals[i].sized(),
        forall|i: int|
            0 <= i < b ==> block_conforms(
                (#[trigger] p.functions[f].1.blocks[i]).1,
                p.functions[f].1.blocks@,
                p.functions[f].1.locals@,
            ),
        forall|i: int|
            0 <= i < p.functions[f].1.blocks[b].1.statements.len() ==> (
            #[trigger] p.functions[f].1.blocks[b].1.statements[i]).violation(
                p.functions[f].1.locals@,
            ) is None,
        p.functions[f].1.blocks[b].1.terminator.expr_violation(p.functions[f].1.locals@) is None,
        p.functions[f].1.blocks[b].1.terminator.edge_violation(
            p.functions[f].1.blocks[b].1.kind,
            p.functions[f].1.blocks@,
        ) == Some(e),
    ensures
        p.violation() == Some(e),
{
    let func = p.functions[f].1;
    let block = func.blocks[b].1;
    let fs = function_findings(p.functions@);
    let ls = local_findings(func.locals@);
    let bs = block_findings(func.blocks@, func.locals@);
    let ss = statement_findings(block.statements@, func.locals@);
    assert forall|i: int| 0 <= i < ss.len() implies ss[i] is None by {
        assert(block.statements[i].violation(func.locals@) is None);
    }
    lemma_first_from_none(ss, 0);
    assert(block.violation(func.blocks@, func.locals@) == Some(e));
    assert forall|i: int| 0 <= i < b implies bs[i] is None by {
        lemma_block_accepted_iff_conforms(func.blocks[i].1, func.blocks@, func.locals@);
    }
    assert(bs[b] == Some(e));
    lemma_first_from_at(bs, 0, b);
    assert forall|i: int| 0 <= i < ls.len() implies ls[i] is None by {
        assert(func.locals[i].slices_sized() && func.locals[i].sized());
    }
    lemma_first_from_none(ls, 0);
    assert(func.violation() == Some(e));
    assert forall|i: int| 0 <= i < f implies fs[i] is None by {
        lemma_function_accepted_iff_conforms(p.functions[i].1);
    }
    assert(fs[f] == Some(e));
    lemma_first_from_at(fs, 0, f);
}

/// The edges of a call: a return edge into a block of another kind has the
/// wrong block kind, an unwind edge into a block that is no cleanup block has
/// the wrong block kind, and an edge to a block that is not there names it
/// as missing.
pub proof fn lemma_call_edges(
    call: Terminator,
    kind: BbKind,
    blocks: Seq<(BbName, BasicBlock)>,
)
    requires
        call is Call,
    ensures
        call->Call_next_block is Some && kind_of(blocks, call->Call_next_block.unwrap()) is None
            ==> call.edge_violation(kind, blocks) == Some(IllFormed::NextBlockMissing),
        call->Call_next_block is Some && kind_of(blocks, call->Call_next_block.unwrap()) is Some
            && kind_of(blocks, call->Call_next_block.unwrap()) != Some(kind)
            ==> call.edge_violation(kind, blocks) == Some(IllFormed::NextBlockWrongKind),
        call->Call_next_block is None && call->Call_unwind_block is Some && kind != BbKind::Catch
            && kind_of(blocks, call->Call_unwind_block.unwrap()) is None ==> call.edge_violation(
            kind,
            blocks,
        ) == Some(IllFormed::UnwindBlockMissing),
        call->Call_next_block is None && call->Call_unwind_block is Some && kind != BbKind::Catch
            && kind_of(blocks, call->Call_unwind_block.unwrap()) is Some && kind_of(
            blocks,
            call->Call_unwind_block.unwrap(),
        ) != Some(BbKind::Cleanup) ==> call.edge_violation(kind, blocks) == Some(
            IllFormed::UnwindBlockWrongKind,
        ),
        call->Call_unwind_block is Some && call.edge_violation(kind, blocks) is None ==> kind_of(
            blocks,
            call->Call_unwind_block.unwrap(),
        ) == Some(BbKind::Cleanup),
{
}

/// The unwind discipline: `Return` and `StartUnwind` are rejected outside a
/// regular block, `ResumeUnwind` outside a cleanup block, an unwind edge of a
/// call inside a catch block, and a `Goto` into a block of another kind.
pub proof fn lemma_unwind_discipline(
    t: Terminator,
    kind: BbKind,
    blocks: Seq<(BbName, BasicBlock)>,
)
    ensures
        t is Return && kind != BbKind::Regular ==> t.edge_violation(kind, blocks) == Some(
            IllFormed::ReturnOutsideRegular,
        ),
        t is StartUnwind && kind != BbKind::Regular ==> t.edge_violation(kind, blocks) == Some(
            IllFormed::StartUnwindOutsideRegular,
        ),
        t is ResumeUnwind && kind != BbKind::Cleanup ==> t.edge_violation(kind, blocks) == Some(
            IllFormed::ResumeUnwindOutsideCleanup,
        ),
        t is Call && t->Call_unwind_block is Some && kind == BbKind::Catch ==> t.edge_violation(
            kind,
            blocks,
        ) is Some,
        t is Call && t->Call_unwind_block is Some && t->Call_next_block is None && kind
            == BbKind::Catch ==> t.edge_violation(kind, blocks) == Some(IllFormed::UnwindInCatch),
        t is Goto && kind_of(blocks, t->Goto_0) is Some && kind_of(blocks, t->Goto_0) != Some(kind)
            ==> t.edge_violation(kind, blocks) == Some(IllFormed::NextBlockWrongKind),
{
}

/// The sizedness rules: a slice of an unsized element type is rejected
/// wherever it occurs, a local of a well-formed unsized type is rejected as
/// an unsized local, a load from a faultless place of unsized type as an
/// unsized value, and a transmute of a faultless operand to a well-formed
/// unsized type as an unsized target.
pub proof fn lemma_sizedness_rules(
    elem: Type,
    ty: Type,
    source: PlaceExpr,
    operand: ValueExpr,
    locals: Seq<Type>,
)
    ensures
        !elem.sized() ==> (Type::Slice { elem: Box::new(elem) }).violation() == Some(
            IllFormed::UnsizedSliceElem,
        ),
        ty.slices_sized() && !ty.sized() ==> local_violation(ty) == Some(IllFormed::UnsizedLocal),
        source.violation(locals) is None && source.type_model(locals) is Some
            && !source.type_model(locals).unwrap().sized() ==> (ValueExpr::Load {
            source: Box::new(source),
        }).violation(locals) == Some(IllFormed::UnsizedLoad),
        operand.violation(locals) is None && ty.slices_sized() && !ty.sized() ==> (ValueExpr::UnOp {
            operator: UnOp::Cast(CastOp::Transmute(ty)),
            operand: Box::new(operand),
        }).violation(locals) == Some(IllFormed::UnsizedTransmuteTarget),
{
}

/// A list of findings whose first finding is `e` holds `e` at some position.
pub proof fn lemma_first_from_found(s: Seq<Verdict>, from: int, e: IllFormed) -> (k: int)
    requires
        0 <= from,
        first_from(s, from) == Some(e),
    ensures
        from <= k < s.len(),
        s[k] == Some(e),
    decreases s.len() - from,
{
    if s[from] is Some {
        from
    } else {
        lemma_first_from_found(s, from + 1, e)
    }
}

/// Whether the function `f` holds a construct that breaks the rule `e`: a
/// local, a statement, an expression of a terminator or an edge.
pub open spec fn breaks_rule(f: Function, e: IllFormed) -> bool {
    ||| exists|i: int| 0 <= i < f.locals.len() && local_violation(#[trigger] f.locals[i]) == Some(e)
    ||| exists|b: int, i: int|
        0 <= b < f.blocks.len() && 0 <= i < f.blocks[b].1.statements.len() && (
        #[trigger] f.blocks[b].1.statements[i]).violation(f.locals@) == Some(e)
    ||| exists|b: int|
        0 <= b < f.blocks.len() && (#[trigger] f.blocks[b]).1.terminator.expr_violation(f.locals@)
            == Some(e)
    ||| exists|b: int|
        0 <= b < f.blocks.len() && (#[trigger] f.blocks[b]).1.terminator.edge_violation(
            f.blocks[b].1.kind,
            f.blocks@,
        ) == Some(e)
}

/// A program that is rejected with the rule `e` holds a function with a
/// construct that breaks `e`: the checker names no rule that nothing breaks.
pub proof fn lemma_rejection_has_a_cause(p: Program, e: IllFormed)
    requires
        p.violation() == Some(e),
    ensures
        exists|i: int| 0 <= i < p.functions.len() && breaks_rule((#[trigger] p.functions[i]).1, e),
{
    let fs = function_findings(p.functions@);
    let i = lemma_first_from_found(fs, 0, e);
    let f = p.functions[i].1;
    let ls = local_findings(f.locals@);
    let bs = block_findings(f.blocks@, f.locals@);
    assert(f.violation() == Some(e));
    if first_of(ls) is Some {
        let k = lemma_first_from_found(ls, 0, e);
        assert(local_violation(f.locals[k]) == Some(e));
    } else {
        let b = lemma_first_from_found(bs, 0, e);
        let block = f.blocks[b].1;
        assert(block.violation(f.blocks@, f.locals@) == Some(e));
        let ss = statement_findings(block.statements@, f.locals@);
        if first_of(ss) is Some {
            let k = lemma_first_from_found(ss, 0, e);
            assert(f.blocks[b].1.statements[k].violation(f.locals@) == Some(e));
        } else if block.terminator.expr_violation(f.locals@) is Some {
            assert(f.blocks[b].1.terminator.expr_violation(f.locals@) == Some(e));
        } else {
            assert(f.blocks[b].1.terminator.edge_violation(f.blocks[b].1.kind, f.blocks@) == Some(e));
        }
    }
    assert(breaks_rule(p.functions[i].1, e));
}

/// No two rules share their text.
pub proof fn lemma_messages_distinct(a: IllFormed, b: IllFormed)
    requires
        a != b,
    ensures
        a.message_text() != b.message_text(),
{
    reveal_strlit("Terminator: next block does not exist");
    reveal_strlit("Terminator: unwind block does not exist");
    reveal_strlit("Terminator: next block has the wrong block kind");
    reveal_strlit("Terminator: unwind block has the wrong block kind");
    reveal_strlit("Terminator::Return has to be called in a regular block");
    reveal_strlit("Terminator::StartUnwind has to be called in a regular block");
    reveal_strlit("Terminator::ResumeUnwind: has to be called in cleanup block");
    reveal_strlit("Terminator: unwinding is not allowed in a catch block");
    reveal_strlit("Function: unsized local variable");
    reveal_strlit("Type::Slice: unsized element type");
    reveal_strlit("ValueExpr::Load: unsized value type");
    reveal_strlit("Cast::Transmute: unsized target type");
    assert("Terminator::StartUnwind has to be called in a regular block"@[12]
        != "Terminator::ResumeUnwind: has to be called in cleanup block"@[12]);
    assert(a.message_text().len() != b.message_text().len() || a.message_text()[12]
        != b.message_text()[12]);
}

/// An edge that a builder step made to the block begun next is accepted once
/// that block is closed: where `step` is `before` with its current block
/// closed and the block `bb(before.next_block)` begun in the same kind, and
/// `after` holds the blocks of `step` and that block, closed with its kind,
/// a jump or an intrinsic that leads from the closed block to it breaks no
/// rule of the block-kind discipline.
pub proof fn lemma_step_edge_accepted(
    before: FunctionBuilder,
    step: FunctionBuilder,
    after: FunctionBuilder,
)
    requires
        before.continued_into(step),
        after.wf(),
        begins_with(after.blocks@, step.blocks@),
        closed_with_kind(
            after.blocks@,
            bb(before.next_block),
            before.cur_block.unwrap().kind,
        ),
        step.last_terminator() == Terminator::Goto(bb(before.next_block)) || (
        step.last_terminator() matches Terminator::Intrinsic { next_block, .. } && next_block
            == Some(bb(before.next_block))),
    ensures
        after.blocks@[before.blocks@.len() as int].1.terminator == step.last_terminator(),
        after.blocks@[before.blocks@.len() as int].1.kind == before.cur_block.unwrap().kind,
        step.last_terminator().edge_violation(before.cur_block.unwrap().kind, after.blocks@)
            is None,
{
    lemma_kind_of_closed(after.blocks@, bb(before.next_block), before.cur_block.unwrap().kind);
    assert(after.blocks@.subrange(0, step.blocks@.len() as int)[before.blocks@.len() as int]
        == after.blocks@[before.blocks@.len() as int]);
    assert(step.blocks@.last() == step.blocks@[before.blocks@.len() as int]);
}

} // verus!
