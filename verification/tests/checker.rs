use miniutil::build::expr::{
    addr_of, by_value, const_bool, const_int, deref, field, fn_ptr, in_place, index, load, local,
    transmute, unit, unit_place, unit_ptr, validate,
};
use miniutil::build::function::{block, function, program, FunctionBuilder, ProgramBuilder};
use miniutil::build::terminator::{
    abort, allocate, assuming, atomic_fetch, call, exit, goto, if_, lock_create, resume_unwind,
    return_, start_unwind, stop_unwind, switch_int, FetchBinOp,
};
use miniutil::build::ty::{array_ty, slice_ty, trait_object_ty, tuple_ty, unsized_tuple_ty};
use miniutil::build::ty_conv::TypeConv;
use miniutil::names::{BbName, Name, TraitName};
use miniutil::syntax::{
    block_kind, BasicBlock, BbKind, CallingConvention, IntBinOp, IntrinsicOp, Statement,
    Terminator, ValueExpr,
};
use miniutil::ty::{PointerMetaKind, PtrType, Type};
use miniutil::wf::{check, check_next_edge, check_return_edge, check_unwind_edge, IllFormed};

fn bb(id: u32) -> BbName {
    BbName(Name::from_internal(id))
}

fn single(kind: BbKind, terminator: Terminator, others: Vec<BasicBlock>) -> Result<(), IllFormed> {
    let mut blocks = vec![block(vec![], terminator, kind)];
    blocks.extend(others);
    check(&program(vec![function(false, 0, vec![], blocks)]))
}

fn u32_ty() -> Type {
    <u32 as TypeConv>::get_type()
}

/// A two-block function `{b0: Goto(b1), b1: Exit}` with both blocks regular is accepted;
/// with `b1` a cleanup block it is rejected.
#[test]
fn two_block_function() {
    let ok = program(vec![function(
        false,
        0,
        vec![],
        vec![block(vec![], goto(1), BbKind::Regular), block(vec![], exit(), BbKind::Regular)],
    )]);
    assert_eq!(check(&ok), Ok(()));
    let bad = program(vec![function(
        false,
        0,
        vec![],
        vec![block(vec![], goto(1), BbKind::Regular), block(vec![], exit(), BbKind::Cleanup)],
    )]);
    assert_eq!(check(&bad), Err(IllFormed::NextBlockWrongKind));
    assert_eq!(check(&bad).unwrap_err().message(), "Terminator: next block has the wrong block kind");
}

#[test]
fn the_verdict_is_stable() {
    let bad = program(vec![function(
        false,
        0,
        vec![slice_ty(u32_ty())],
        vec![block(vec![], goto(7), BbKind::Regular)],
    )]);
    let first = check(&bad);
    assert_eq!(first, Err(IllFormed::UnsizedLocal));
    assert_eq!(check(&bad), first);
    assert_eq!(bad.check(), first);
}

#[test]
fn empty_program_is_accepted() {
    assert_eq!(check(&program(vec![])), Ok(()));
    assert_eq!(check(&program(vec![function(false, 0, vec![], vec![])])), Ok(()));
}

#[test]
fn every_rule_has_its_message() {
    let all = [
        (IllFormed::NextBlockMissing, "Terminator: next block does not exist"),
        (IllFormed::UnwindBlockMissing, "Terminator: unwind block does not exist"),
        (IllFormed::NextBlockWrongKind, "Terminator: next block has the wrong block kind"),
        (IllFormed::UnwindBlockWrongKind, "Terminator: unwind block has the wrong block kind"),
        (IllFormed::ReturnOutsideRegular, "Terminator::Return has to be called in a regular block"),
        (IllFormed::StartUnwindOutsideRegular, "Terminator::StartUnwind has to be called in a regular block"),
        (IllFormed::ResumeUnwindOutsideCleanup, "Terminator::ResumeUnwind: has to be called in cleanup block"),
        (IllFormed::UnwindInCatch, "Terminator: unwinding is not allowed in a catch block"),
        (IllFormed::UnsizedLocal, "Function: unsized local variable"),
        (IllFormed::UnsizedSliceElem, "Type::Slice: unsized element type"),
        (IllFormed::UnsizedLoad, "ValueExpr::Load: unsized value type"),
        (IllFormed::UnsizedTransmuteTarget, "Cast::Transmute: unsized target type"),
    ];
    for (rule, text) in all {
        assert_eq!(rule.message(), text);
    }
}

#[test]
fn goto_and_intrinsics_stay_in_their_kind() {
    for kind in [BbKind::Regular, BbKind::Cleanup, BbKind::Catch, BbKind::Terminate] {
        assert_eq!(single(kind, goto(1), vec![block(vec![], miniutil::build::terminator::unreachable(), kind)]), Ok(()));
        assert_eq!(single(kind, assuming(const_bool(true), 1), vec![block(vec![], abort(), kind)]), Ok(()));
        assert_eq!(single(kind, goto(0), vec![]), Ok(()));
    }
    assert_eq!(
        single(BbKind::Cleanup, goto(1), vec![block(vec![], exit(), BbKind::Regular)]),
        Err(IllFormed::NextBlockWrongKind)
    );
    assert_eq!(single(BbKind::Regular, goto(1), vec![]), Err(IllFormed::NextBlockMissing));
    assert_eq!(
        single(BbKind::Regular, lock_create(unit_place(), 4), vec![]),
        Err(IllFormed::NextBlockMissing)
    );
}

#[test]
fn switch_checks_cases_in_order_then_fallback() {
    let others = || vec![block(vec![], exit(), BbKind::Regular), block(vec![], exit(), BbKind::Cleanup)];
    assert_eq!(
        single(BbKind::Regular, switch_int(const_int::<u8>(0), &vec![(0, 1), (1, 0)], 1), others()),
        Ok(())
    );
    assert_eq!(
        single(BbKind::Regular, switch_int(const_int::<u8>(0), &vec![(0, 9), (1, 2)], 1), others()),
        Err(IllFormed::NextBlockMissing)
    );
    assert_eq!(
        single(BbKind::Regular, switch_int(const_int::<u8>(0), &vec![(0, 2), (1, 9)], 1), others()),
        Err(IllFormed::NextBlockWrongKind)
    );
    assert_eq!(
        single(BbKind::Regular, switch_int(const_int::<u8>(0), &vec![], 9), others()),
        Err(IllFormed::NextBlockMissing)
    );
    assert_eq!(
        single(BbKind::Regular, if_(const_bool(true), 1, 2), others()),
        Err(IllFormed::NextBlockWrongKind)
    );
    assert_eq!(single(BbKind::Regular, if_(const_bool(true), 1, 0), others()), Ok(()));
}

#[test]
fn call_edges() {
    let others = || {
        vec![
            block(vec![], exit(), BbKind::Regular),
            block(vec![], exit(), BbKind::Cleanup),
            block(vec![], exit(), BbKind::Catch),
        ]
    };
    let call_with = |next: Option<u32>, unwind: Option<u32>| Terminator::Call {
        callee: fn_ptr_internal_test(),
        calling_convention: CallingConvention::Rust,
        arguments: vec![by_value(unit()), in_place(unit_place())],
        ret: unit_place(),
        next_block: next.map(bb),
        unwind_block: unwind.map(bb),
    };
    assert_eq!(single(BbKind::Regular, call_with(Some(1), Some(2)), others()), Ok(()));
    assert_eq!(single(BbKind::Regular, call_with(None, None), others()), Ok(()));
    assert_eq!(single(BbKind::Catch, call_with(Some(3), None), others()), Ok(()));
    assert_eq!(single(BbKind::Cleanup, call_with(None, Some(2)), others()), Ok(()));
    assert_eq!(single(BbKind::Regular, call_with(Some(2), None), others()), Err(IllFormed::NextBlockWrongKind));
    assert_eq!(single(BbKind::Cleanup, call_with(Some(2), None), others()), Err(IllFormed::NextBlockWrongKind));
    assert_eq!(single(BbKind::Regular, call_with(Some(9), Some(9)), others()), Err(IllFormed::NextBlockMissing));
    assert_eq!(single(BbKind::Regular, call_with(Some(1), Some(9)), others()), Err(IllFormed::UnwindBlockMissing));
    assert_eq!(single(BbKind::Regular, call_with(Some(1), Some(3)), others()), Err(IllFormed::UnwindBlockWrongKind));
    assert_eq!(single(BbKind::Regular, call_with(None, Some(1)), others()), Err(IllFormed::UnwindBlockWrongKind));
    assert_eq!(single(BbKind::Catch, call_with(Some(3), Some(2)), others()), Err(IllFormed::UnwindInCatch));
    assert_eq!(single(BbKind::Catch, call_with(None, Some(9)), others()), Err(IllFormed::UnwindInCatch));
    assert_eq!(single(BbKind::Regular, call(0, vec![], unit_place(), Some(1)), others()), Ok(()));
    assert_eq!(single(BbKind::Regular, call(0, vec![], unit_place(), Some(2)), others()), Err(IllFormed::NextBlockWrongKind));
}

fn fn_ptr_internal_test() -> ValueExpr {
    fn_ptr(miniutil::names::FnName(Name::from_internal(0)))
}

#[test]
fn unwind_discipline() {
    let others = || vec![block(vec![], exit(), BbKind::Regular), block(vec![], exit(), BbKind::Cleanup)];
    assert_eq!(single(BbKind::Regular, return_(), vec![]), Ok(()));
    for kind in [BbKind::Cleanup, BbKind::Catch, BbKind::Terminate] {
        assert_eq!(single(kind, return_(), vec![]), Err(IllFormed::ReturnOutsideRegular));
        assert_eq!(
            single(kind, start_unwind(unit_ptr(), bb(2)), others()),
            Err(IllFormed::StartUnwindOutsideRegular)
        );
    }
    assert_eq!(single(BbKind::Cleanup, resume_unwind(), vec![]), Ok(()));
    for kind in [BbKind::Regular, BbKind::Catch, BbKind::Terminate] {
        assert_eq!(single(kind, resume_unwind(), vec![]), Err(IllFormed::ResumeUnwindOutsideCleanup));
    }
    assert_eq!(single(BbKind::Regular, start_unwind(unit_ptr(), bb(2)), others()), Ok(()));
    assert_eq!(single(BbKind::Regular, start_unwind(unit_ptr(), bb(1)), others()), Err(IllFormed::UnwindBlockWrongKind));
    assert_eq!(single(BbKind::Regular, start_unwind(unit_ptr(), bb(9)), others()), Err(IllFormed::UnwindBlockMissing));
    for kind in [BbKind::Regular, BbKind::Cleanup, BbKind::Catch, BbKind::Terminate] {
        assert_eq!(single(kind, stop_unwind(bb(1)), others()), Ok(()));
        assert_eq!(single(kind, stop_unwind(bb(2)), others()), Err(IllFormed::NextBlockWrongKind));
        assert_eq!(single(kind, stop_unwind(bb(9)), others()), Err(IllFormed::NextBlockMissing));
    }
}

#[test]
fn edges_one_by_one() {
    let blocks = vec![
        (bb(0), block(vec![], exit(), BbKind::Regular)),
        (bb(5), block(vec![], exit(), BbKind::Cleanup)),
        (bb(0), block(vec![], exit(), BbKind::Catch)),
    ];
    assert_eq!(block_kind(&blocks, bb(0)), Some(BbKind::Regular));
    assert_eq!(block_kind(&blocks, bb(5)), Some(BbKind::Cleanup));
    assert_eq!(block_kind(&blocks, bb(1)), None);
    assert_eq!(check_next_edge(&blocks, bb(5), BbKind::Cleanup), Ok(()));
    assert_eq!(check_next_edge(&blocks, bb(5), BbKind::Regular), Err(IllFormed::NextBlockWrongKind));
    assert_eq!(check_return_edge(&blocks, bb(0), BbKind::Regular), Ok(()));
    assert_eq!(check_return_edge(&blocks, bb(5), BbKind::Cleanup), Err(IllFormed::NextBlockWrongKind));
    assert_eq!(check_unwind_edge(&blocks, bb(5), BbKind::Terminate), Ok(()));
    assert_eq!(check_unwind_edge(&blocks, bb(5), BbKind::Catch), Err(IllFormed::UnwindInCatch));
    assert_eq!(check_unwind_edge(&blocks, bb(6), BbKind::Regular), Err(IllFormed::UnwindBlockMissing));
}

#[test]
fn sizedness_of_locals_and_types() {
    let with_locals = |locals: Vec<Type>| {
        check(&program(vec![function(false, 0, locals, vec![block(vec![], exit(), BbKind::Regular)])]))
    };
    assert_eq!(with_locals(vec![u32_ty(), array_ty(u32_ty(), 4)]), Ok(()));
    assert_eq!(with_locals(vec![u32_ty(), slice_ty(u32_ty())]), Err(IllFormed::UnsizedLocal));
    assert_eq!(
        with_locals(vec![trait_object_ty(TraitName(Name::from_internal(0)))]),
        Err(IllFormed::UnsizedLocal)
    );
    assert_eq!(with_locals(vec![slice_ty(slice_ty(u32_ty()))]), Err(IllFormed::UnsizedSliceElem));
    assert_eq!(
        with_locals(vec![tuple_ty(vec![(0, array_ty(slice_ty(slice_ty(u32_ty())), 1))], 0, 1)]),
        Err(IllFormed::UnsizedSliceElem)
    );
    assert_eq!(
        with_locals(vec![unsized_tuple_ty(vec![], slice_ty(u32_ty()), 0, 4, None)]),
        Err(IllFormed::UnsizedLocal)
    );
    assert_eq!(with_locals(vec![unsized_tuple_ty(vec![], u32_ty(), 0, 4, None)]), Ok(()));
    assert!(!slice_ty(slice_ty(u32_ty())).check_slices());
    assert!(slice_ty(u32_ty()).check_slices());
    assert_eq!(slice_ty(u32_ty()).check(), Ok(()));
}

#[test]
fn sizedness_of_loads_and_transmutes() {
    let locals = || vec![array_ty(u32_ty(), 2), tuple_ty(vec![(0, u32_ty())], 4, 4)];
    let with_statement = |s: Statement| {
        check(&program(vec![function(false, 0, locals(), vec![block(vec![s], exit(), BbKind::Regular)])]))
    };
    let raw = || PtrType::Raw { meta_kind: PointerMetaKind::ElementCount };
    assert_eq!(with_statement(validate(index(local(0), const_int::<u8>(1)), false)), Ok(()));
    assert_eq!(
        with_statement(Statement::PlaceMention(deref(load(field(local(1), 0)), u32_ty()))),
        Ok(())
    );
    assert_eq!(
        with_statement(Statement::PlaceMention(deref(addr_of(deref(unit_ptr(), slice_ty(u32_ty())), raw()), u32_ty()))),
        Ok(())
    );
    assert_eq!(
        with_statement(Statement::PlaceMention(deref(load(deref(unit_ptr(), slice_ty(u32_ty()))), u32_ty()))),
        Err(IllFormed::UnsizedLoad)
    );
    assert_eq!(
        with_statement(Statement::PlaceMention(deref(load(index(deref(unit_ptr(), slice_ty(u32_ty())), const_int::<u8>(0))), u32_ty()))),
        Ok(())
    );
    assert_eq!(
        with_statement(Statement::PlaceMention(deref(load(local(7)), u32_ty()))),
        Ok(())
    );
    assert_eq!(
        with_statement(Statement::PlaceMention(deref(transmute(load(local(0)), slice_ty(u32_ty())), u32_ty()))),
        Err(IllFormed::UnsizedTransmuteTarget)
    );
    assert_eq!(
        with_statement(Statement::PlaceMention(deref(transmute(load(local(0)), slice_ty(slice_ty(u32_ty()))), u32_ty()))),
        Err(IllFormed::UnsizedSliceElem)
    );
    assert_eq!(
        with_statement(Statement::PlaceMention(deref(transmute(load(local(0)), array_ty(u32_ty(), 2)), u32_ty()))),
        Ok(())
    );
}

#[test]
fn statements_come_before_the_terminator_and_locals_before_blocks() {
    let bad_statement = validate(deref(unit_ptr(), slice_ty(slice_ty(u32_ty()))), false);
    let p = program(vec![function(
        false,
        0,
        vec![],
        vec![block(vec![bad_statement], return_(), BbKind::Cleanup)],
    )]);
    assert_eq!(check(&p), Err(IllFormed::UnsizedSliceElem));
    let p = program(vec![function(
        false,
        0,
        vec![slice_ty(u32_ty())],
        vec![block(vec![], return_(), BbKind::Cleanup)],
    )]);
    assert_eq!(check(&p), Err(IllFormed::UnsizedLocal));
    let p = program(vec![
        function(false, 0, vec![], vec![block(vec![], return_(), BbKind::Cleanup)]),
        function(false, 0, vec![slice_ty(u32_ty())], vec![]),
    ]);
    assert_eq!(check(&p), Err(IllFormed::ReturnOutsideRegular));
    let p = program(vec![function(
        false,
        0,
        vec![],
        vec![block(vec![], allocate(load(deref(unit_ptr(), slice_ty(u32_ty()))), const_int::<u8>(1), unit_place(), 9), BbKind::Regular)],
    )]);
    assert_eq!(check(&p), Err(IllFormed::UnsizedLoad));
}

#[test]
fn builder_lays_out_blocks_in_the_order_they_are_closed() {
    let mut p = ProgramBuilder::new();
    let f = {
        let mut f: FunctionBuilder = p.declare_function();
        f.print(const_int::<u8>(1));
        f.atomic_fetch(FetchBinOp::Sub, unit_place(), unit_ptr(), const_int::<u8>(1));
        f.exit();
        p.finish_function(f)
    };
    let p = p.finish_program(f);
    assert_eq!(check(&p), Ok(()));
    let blocks = &p.functions[0].1.blocks;
    assert_eq!(blocks.len(), 3);
    assert_eq!(blocks[0].0, bb(0));
    assert_eq!(blocks[1].0, bb(1));
    assert_eq!(blocks[2].0, bb(2));
    match &blocks[0].1.terminator {
        Terminator::Intrinsic { intrinsic, arguments, next_block, .. } => {
            assert_eq!(*intrinsic, IntrinsicOp::PrintStdout);
            assert_eq!(arguments.len(), 1);
            assert_eq!(*next_block, Some(bb(1)));
        }
        _ => panic!("not an intrinsic"),
    }
    match &blocks[1].1.terminator {
        Terminator::Intrinsic { intrinsic, arguments, next_block, .. } => {
            assert_eq!(*intrinsic, IntrinsicOp::AtomicFetchAndOp(IntBinOp::Sub));
            assert_eq!(arguments.len(), 2);
            assert_eq!(*next_block, Some(bb(2)));
        }
        _ => panic!("not an intrinsic"),
    }
    match atomic_fetch(FetchBinOp::Add, unit_place(), unit_ptr(), unit_ptr(), 3) {
        Terminator::Intrinsic { intrinsic, .. } => assert_eq!(intrinsic, IntrinsicOp::AtomicFetchAndOp(IntBinOp::Add)),
        _ => panic!("not an intrinsic"),
    }
}

#[test]
fn builder_switch_joins_unfinished_branches() {
    let mut p = ProgramBuilder::new();
    let f = {
        let mut f: FunctionBuilder = p.declare_function();
        let branches: Vec<(i128, fn(&mut FunctionBuilder))> =
            vec![(3, |f: &mut FunctionBuilder| f.exit()), (5, |f: &mut FunctionBuilder| f.print(unit()))];
        f.switch_int(const_int::<u8>(3), &branches, |_: &mut FunctionBuilder| {});
        f.exit();
        p.finish_function(f)
    };
    let p = p.finish_program(f);
    assert_eq!(check(&p), Ok(()));
    let blocks = &p.functions[0].1.blocks;
    let names: Vec<u32> = blocks.iter().map(|b| b.0 .0.get_internal()).collect();
    assert_eq!(names, vec![0, 1, 2, 4, 3, 5]);
    match &blocks[0].1.terminator {
        Terminator::Switch { cases, fallback, .. } => {
            assert_eq!(cases, &vec![(3, bb(1)), (5, bb(2))]);
            assert_eq!(*fallback, bb(3));
        }
        _ => panic!("not a switch"),
    }
    assert_eq!(blocks[3].1.terminator, Terminator::Goto(bb(5)));
    assert_eq!(blocks[4].1.terminator, Terminator::Goto(bb(5)));
}

#[test]
fn builder_if_and_while() {
    let mut p = ProgramBuilder::new();
    let f = {
        let mut f: FunctionBuilder = p.declare_function();
        f.if_(const_bool(true), |f: &mut FunctionBuilder| f.exit(), |f: &mut FunctionBuilder| f.abort());
        assert!(!f.has_cur_block());
        p.finish_function(f)
    };
    let g = {
        let mut g: FunctionBuilder = p.declare_function();
        g.while_(const_bool(false), |f: &mut FunctionBuilder| f.print(unit()));
        assert!(g.has_cur_block());
        g.return_();
        p.finish_function(g)
    };
    let p = p.finish_program(f);
    assert_eq!(check(&p), Ok(()));
    let blocks = &p.functions[0].1.blocks;
    match &blocks[0].1.terminator {
        Terminator::Switch { cases, fallback, .. } => {
            assert_eq!(cases, &vec![(1, bb(1))]);
            assert_eq!(*fallback, bb(2));
        }
        _ => panic!("not a switch"),
    }
    assert_eq!(g.0.get_internal(), 1);
    let blocks = &p.functions[1].1.blocks;
    let names: Vec<u32> = blocks.iter().map(|b| b.0 .0.get_internal()).collect();
    assert_eq!(names, vec![0, 1, 2, 4, 3, 5]);
    assert_eq!(blocks[0].1.terminator, Terminator::Goto(bb(1)));
    assert_eq!(blocks[3].1.terminator, Terminator::Goto(bb(1)));
    assert_eq!(blocks[4].1.terminator, Terminator::Goto(bb(5)));
    assert_eq!(blocks[5].1.terminator, Terminator::Return);
}

#[test]
fn builder_side_blocks_are_closed_with_their_kind() {
    let mut p = ProgramBuilder::new();
    let f = {
        let mut f: FunctionBuilder = p.declare_function();
        let cleanup = f.cleanup_block(|f: &mut FunctionBuilder| f.resume_unwind());
        let catch = f.catch_block(|f: &mut FunctionBuilder| f.abort());
        assert_eq!(cleanup, bb(1));
        assert_eq!(catch, bb(2));
        assert!(f.has_cur_block());
        assert_eq!(block_kind(&f.blocks, cleanup), Some(BbKind::Cleanup));
        assert_eq!(block_kind(&f.blocks, catch), Some(BbKind::Catch));
        assert_eq!(block_kind(&f.blocks, bb(0)), None);
        f.start_unwind(unit_ptr(), cleanup);
        p.finish_function(f)
    };
    let p = p.finish_program(f);
    assert_eq!(check(&p), Ok(()));
}

#[test]
fn builder_branch_blocks_keep_the_kind_of_the_switch() {
    let mut p = ProgramBuilder::new();
    let f = {
        let mut f: FunctionBuilder = p.declare_function();
        let branches: Vec<(i128, fn(&mut FunctionBuilder))> = vec![(0, |f: &mut FunctionBuilder| f.exit())];
        f.switch_int(const_int::<u8>(3), &branches, |f: &mut FunctionBuilder| f.abort());
        assert!(!f.has_cur_block());
        assert_eq!(block_kind(&f.blocks, bb(1)), Some(BbKind::Regular));
        assert_eq!(block_kind(&f.blocks, bb(2)), Some(BbKind::Regular));
        p.finish_function(f)
    };
    let g = {
        let mut g: FunctionBuilder = p.declare_function();
        g.while_(const_bool(true), |_: &mut FunctionBuilder| {});
        assert!(g.has_cur_block());
        let names: Vec<u32> = g.blocks.iter().map(|b| b.0 .0.get_internal()).collect();
        assert_eq!(names, vec![0, 1, 2, 3]);
        assert_eq!(g.blocks[2].1.terminator, Terminator::Goto(bb(1)));
        assert_eq!(g.blocks[3].1.terminator, Terminator::Goto(bb(4)));
        assert_eq!(block_kind(&g.blocks, bb(2)), Some(BbKind::Regular));
        assert_eq!(block_kind(&g.blocks, bb(3)), Some(BbKind::Regular));
        g.exit();
        p.finish_function(g)
    };
    let p = p.finish_program(f);
    assert_eq!(g.0.get_internal(), 1);
    assert_eq!(check(&p), Ok(()));
}
