use miniutil::build::expr::{by_value, const_int, fn_ptr, fn_ptr_internal, local, storage_live, unit, unit_place, unit_ptr};
use miniutil::build::function::{block, function, program, FunctionBuilder, ProgramBuilder};
use miniutil::build::terminator::{exit, goto, print, return_, start_unwind, switch_int};
use miniutil::build::ty_conv::TypeConv;
use miniutil::names::{BbName, Name};
use miniutil::syntax::{BasicBlock, BbKind, CallingConvention, Function, Program, Statement, Terminator};
use miniutil::wf::check;

fn regular(statements: Vec<Statement>, terminator: Terminator) -> BasicBlock {
    block(statements, terminator, BbKind::Regular)
}

fn assert_ill_formed_blocks(p: Program, message: &str) {
    match check(&p) {
        Ok(()) => panic!("the program is well-formed"),
        Err(e) => assert_eq!(e.message(), message),
    }
}

/// Using `goto` to jump to a block of a different kind is ill-formed.
#[test]
fn goto_wrong_blockkind() {
    let bb0 = regular(vec![], goto(1));
    let bb1 = block(vec![], exit(), BbKind::Cleanup);
    let f = function(false, 0, vec![], vec![bb0, bb1]);
    let p = program(vec![f]);
    assert_ill_formed_blocks(p, "Terminator: next block has the wrong block kind");
}

/// Using `switch` to jump to a block of a different kind is ill-formed.
#[test]
fn switch_wrong_blockkind() {
    let bb0 = regular(vec![], switch_int(const_int::<i32>(0), &vec![(0, 1), (1, 1), (7, 2)], 1));
    let bb1 = regular(vec![], exit());
    let bb2 = block(vec![], exit(), BbKind::Cleanup);
    let f = function(false, 0, vec![], vec![bb0, bb1, bb2]);
    let p = program(vec![f]);
    assert_ill_formed_blocks(p, "Terminator: next block has the wrong block kind");
}

/// Using `switch` to jump to a block of a different kind in the fallback is ill-formed.
#[test]
fn switch_wrong_blockkind_fallback() {
    let bb0 = regular(vec![], switch_int(const_int::<i32>(0), &vec![(0, 1), (1, 1), (7, 1)], 2));
    let bb1 = regular(vec![], exit());
    let bb2 = block(vec![], exit(), BbKind::Cleanup);
    let f = function(false, 0, vec![], vec![bb0, bb1, bb2]);
    let p = program(vec![f]);
    assert_ill_formed_blocks(p, "Terminator: next block has the wrong block kind");
}

/// Using an intrinsic to jump to a block of a different kind is ill-formed.
#[test]
fn intrinsic_wrong_blockkind() {
    let bb0 = regular(vec![], print(const_int::<i32>(0), 1));
    let bb1 = block(vec![], exit(), BbKind::Cleanup);
    let f = function(false, 0, vec![], vec![bb0, bb1]);
    let p = program(vec![f]);
    assert_ill_formed_blocks(p, "Terminator: next block has the wrong block kind");
}

/// A `call` returning to a block of a different kind is ill-formed.
#[test]
fn call_nextblock_wrong_kind() {
    let bb0 = regular(
        vec![],
        Terminator::Call {
            callee: fn_ptr_internal(1),
            calling_convention: CallingConvention::C,
            arguments: vec![],
            ret: unit_place(),
            next_block: Some(BbName(Name::from_internal(1))),
            unwind_block: None,
        },
    );
    let bb1 = block(vec![], exit(), BbKind::Terminate);
    let f0 = function(false, 0, vec![], vec![bb0, bb1]);

    let f1 = function(false, 0, vec![], vec![regular(vec![], return_())]);
    let p = program(vec![f0, f1]);
    assert_ill_formed_blocks(p, "Terminator: next block has the wrong block kind");
}

/// A `call` whose unwind block has the wrong block kind is ill-formed.
#[test]
fn call_unwindblock_wrong_kind() {
    let bb0 = regular(
        vec![],
        Terminator::Call {
            callee: fn_ptr_internal(1),
            calling_convention: CallingConvention::C,
            arguments: vec![],
            ret: unit_place(),
            next_block: None,
            unwind_block: Some(BbName(Name::from_internal(1))),
        },
    );
    let bb1 = regular(vec![], exit());
    let f0 = function(false, 0, vec![], vec![bb0, bb1]);

    let f1 = function(false, 0, vec![], vec![regular(vec![], return_())]);
    let p = program(vec![f0, f1]);
    assert_ill_formed_blocks(p, "Terminator: unwind block has the wrong block kind");
}

/// Using `StartUnwind` to jump to a regular block is ill-formed.
#[test]
fn start_unwind_wrong_nextblock() {
    let bb0 = regular(vec![], start_unwind(unit_ptr(), BbName(Name::from_internal(1))));
    let bb1 = regular(vec![], exit());
    let f = function(false, 0, vec![], vec![bb0, bb1]);
    let p = program(vec![f]);
    assert_ill_formed_blocks(p, "Terminator: unwind block has the wrong block kind");
}

/// `Return` in a cleanup block is ill-formed.
#[test]
fn return_in_cleanup() {
    let mut p = ProgramBuilder::new();
    let f = {
        let mut f = p.declare_function();
        let c = f.cleanup_block(|f: &mut FunctionBuilder| f.return_());
        f.start_unwind(unit_ptr(), c);
        p.finish_function(f)
    };

    let main_fn = {
        let mut main_fn = p.declare_function();
        let c = main_fn.cleanup_block(|f: &mut FunctionBuilder| {
            f.abort();
        });
        main_fn.call(unit_place(), fn_ptr(f), vec![], c);
        main_fn.exit();
        p.finish_function(main_fn)
    };

    let p = p.finish_program(main_fn);
    assert_ill_formed_blocks(p, "Terminator::Return has to be called in a regular block");
}

/// `StartUnwind` in a cleanup block is ill-formed.
#[test]
fn start_unwind_in_cleanup() {
    let mut p = ProgramBuilder::new();
    let f = {
        let mut f = p.declare_function();
        let outer_cleanup = f.cleanup_block(|f: &mut FunctionBuilder| {
            let inner_cleanup = f.cleanup_block(|f: &mut FunctionBuilder| f.exit());
            f.start_unwind(unit_ptr(), inner_cleanup);
        });
        f.start_unwind(unit_ptr(), outer_cleanup);
        p.finish_function(f)
    };
    let p = p.finish_program(f);
    assert_ill_formed_blocks(p, "Terminator::StartUnwind has to be called in a regular block");
}

/// `ResumeUnwind` in a regular block is ill-formed.
#[test]
fn resume_in_regular_block() {
    let mut p = ProgramBuilder::new();
    let f = {
        let mut f = p.declare_function();
        f.resume_unwind();
        p.finish_function(f)
    };
    let p = p.finish_program(f);
    assert_ill_formed_blocks(p, "Terminator::ResumeUnwind: has to be called in cleanup block");
}

/// Some basic function.
fn other_f() -> Function {
    let locals = vec![<() as TypeConv>::get_type(), <() as TypeConv>::get_type()];
    let b0 = regular(vec![], exit());
    function(true, 1, locals, vec![b0])
}

/// A `call` whose next block does not exist is ill-formed.
#[test]
fn call_next_block_non_exist() {
    let locals = vec![<() as TypeConv>::get_type()];

    let b0 = regular(
        vec![storage_live(0)],
        Terminator::Call {
            callee: fn_ptr_internal(1),
            calling_convention: CallingConvention::C,
            arguments: vec![by_value(unit())],
            ret: local(0),
            next_block: Some(BbName(Name::from_internal(2))),
            unwind_block: Some(BbName(Name::from_internal(1))),
        },
    );
    let b1 = regular(vec![], exit());

    let f = function(false, 0, locals, vec![b0, b1]);
    let p = program(vec![f, other_f()]);
    assert_ill_formed_blocks(p, "Terminator: next block does not exist");
}

/// A `call` whose unwind block does not exist is ill-formed.
#[test]
fn unwind_block_non_exist() {
    let locals = vec![<() as TypeConv>::get_type()];

    let b0 = regular(
        vec![storage_live(0)],
        Terminator::Call {
            callee: fn_ptr_internal(1),
            calling_convention: CallingConvention::C,
            arguments: vec![by_value(unit())],
            ret: local(0),
            next_block: Some(BbName(Name::from_internal(1))),
            unwind_block: Some(BbName(Name::from_internal(2))),
        },
    );
    let b1 = regular(vec![], exit());

    let f = function(false, 0, locals, vec![b0, b1]);
    let p = program(vec![f, other_f()]);
    assert_ill_formed_blocks(p, "Terminator: unwind block does not exist");
}

/// A call in a catch block with an unwinding edge is ill-formed.
#[test]
fn unwind_in_catch_block() {
    let mut p = ProgramBuilder::new();

    let panic_fn = {
        let mut f = p.declare_function();
        f.print(const_int::<i32>(2));
        let cleanup = f.cleanup_block(|f: &mut FunctionBuilder| f.resume_unwind());
        f.start_unwind(unit_ptr(), cleanup);
        p.finish_function(f)
    };

    let main_fn = {
        let mut f = p.declare_function();

        let cont = f.declare_block();

        let cleanup_block = f.cleanup_block(|f: &mut FunctionBuilder| f.abort());
        let catch_block = f.catch_block(|f: &mut FunctionBuilder| {
            f.call(unit_place(), fn_ptr(panic_fn), vec![], cleanup_block);
            f.stop_unwind(cont);
        });

        f.call(unit_place(), fn_ptr(panic_fn), vec![], catch_block);
        f.goto(cont);
        f.set_cur_block(cont, BbKind::Regular);
        f.exit();
        p.finish_function(f)
    };

    let p = p.finish_program(main_fn);
    assert_ill_formed_blocks(p, "Terminator: unwinding is not allowed in a catch block");
}

/// A `goto` that jumps from a cleanup to a catch block is ill-formed.
#[test]
fn goto_from_cleanup_to_catch() {
    let locals = vec![<() as TypeConv>::get_type()];

    let b0 = regular(vec![storage_live(0)], start_unwind(unit_ptr(), BbName(Name::from_internal(1))));
    let b1 = block(vec![], Terminator::Goto(BbName(Name::from_internal(2))), BbKind::Cleanup);
    let b2 = block(vec![], exit(), BbKind::Catch);

    let f = function(false, 0, locals, vec![b0, b1, b2]);
    let p = program(vec![f, other_f()]);
    assert_ill_formed_blocks(p, "Terminator: next block has the wrong block kind");
}
