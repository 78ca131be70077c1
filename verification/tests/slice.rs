use miniutil::build::expr::{assign, const_int, deref, index, load, local_by_name, transmute};
use miniutil::build::function::{FunctionBuilder, ProgramBuilder};
use miniutil::build::ty::{ref_ty_default_markers_for, slice_ty};
use miniutil::build::ty_conv::TypeConv;
use miniutil::syntax::Program;
use miniutil::wf::{check, IllFormed};

fn assert_ill_formed_slice(p: Program, message: &str) {
    match check(&p) {
        Ok(()) => panic!("the program is well-formed"),
        Err(e) => assert_eq!(e.message(), message),
    }
}

/// The slice element type must be sized.
#[test]
fn ill_slice_ref_unsized_elem() {
    let mut p = ProgramBuilder::new();

    let f = {
        let mut f = p.declare_function();
        let var = f.declare_local_with_ty(ref_ty_default_markers_for(<[u32] as TypeConv>::get_type()));
        f.storage_live(var);
        let slice_place = deref(load(local_by_name(var)), slice_ty(slice_ty(<u32 as TypeConv>::get_type())));
        f.validate(slice_place, false);
        f.exit();
        p.finish_function(f)
    };

    let p = p.finish_program(f);
    assert_ill_formed_slice(p, "Type::Slice: unsized element type");
}

/// Locals must be sized.
#[test]
fn ill_local() {
    let mut p = ProgramBuilder::new();

    let f = {
        let mut f = p.declare_function();
        // ill formed:
        f.declare_local_with_ty(<[u32] as TypeConv>::get_type());
        f.exit();
        p.finish_function(f)
    };

    let p = p.finish_program(f);
    assert_ill_formed_slice(p, "Function: unsized local variable");
}

/// Loads at unsized types are ill-formed.
#[test]
fn ill_load() {
    let mut p = ProgramBuilder::new();

    let f = {
        let mut f = p.declare_function();
        let var = f.declare_local_with_ty(ref_ty_default_markers_for(<[u32] as TypeConv>::get_type()));
        f.storage_live(var);
        let slice_place = deref(load(local_by_name(var)), <[u32] as TypeConv>::get_type());
        // ill formed load:
        f.print(load(slice_place));
        f.exit();
        p.finish_function(f)
    };

    let p = p.finish_program(f);
    assert_ill_formed_slice(p, "ValueExpr::Load: unsized value type");
}

/// Transmutes to unsized types are ill-formed.
#[test]
fn ill_transmute() {
    let mut p = ProgramBuilder::new();

    let f = {
        let mut f = p.declare_function();
        let arr = f.declare_local::<[u32; 1]>();
        f.storage_live(arr);
        f.assign(index(local_by_name(arr), const_int::<i32>(0)), const_int::<u32>(42));
        // ill formed transmute:
        let slice = transmute(load(local_by_name(arr)), <[u32] as TypeConv>::get_type());
        f.print(slice);
        f.exit();
        p.finish_function(f)
    };

    let p = p.finish_program(f);
    assert_ill_formed_slice(p, "Cast::Transmute: unsized target type");
}

/// Slices can occur behind references, and an index into a slice is well-formed.
#[test]
fn slice_behind_reference_is_accepted() {
    let mut p = ProgramBuilder::new();
    let f = {
        let mut f: FunctionBuilder = p.declare_function();
        let slice = f.declare_local_with_ty(ref_ty_default_markers_for(<[u32] as TypeConv>::get_type()));
        let var = f.declare_local::<u32>();
        f.storage_live(var);
        let elem = index(deref(load(local_by_name(slice)), <[u32] as TypeConv>::get_type()), const_int::<i32>(2));
        f.push_statement(assign(elem, const_int::<u32>(42)));
        let elem = index(deref(load(local_by_name(slice)), <[u32] as TypeConv>::get_type()), const_int::<i32>(2));
        f.assign(local_by_name(var), load(elem));
        f.exit();
        p.finish_function(f)
    };
    let p = p.finish_program(f);
    assert_eq!(check(&p), Ok(()));
    assert_eq!(p.check(), Ok::<(), IllFormed>(()));
}

/// Arguments and the return value are locals like any other: an unsized one is rejected.
#[test]
fn arguments_and_return_value_are_locals() {
    let mut p = ProgramBuilder::new();
    let f = {
        let mut f: FunctionBuilder = p.declare_function();
        let ret = f.declare_ret_with_ty(<u32 as TypeConv>::get_type());
        let arg = f.declare_arg_with_ty(ref_ty_default_markers_for(<[u8] as TypeConv>::get_type()));
        assert_eq!(ret.0.get_internal(), 0);
        assert_eq!(arg.0.get_internal(), 1);
        f.return_();
        p.finish_function(f)
    };
    let p = p.finish_program(f);
    assert_eq!(p.functions[0].1.ret, Some(miniutil::names::LocalName(miniutil::names::Name::from_internal(0))));
    assert_eq!(p.functions[0].1.args.len(), 1);
    assert_eq!(check(&p), Ok(()));

    let mut p = ProgramBuilder::new();
    let f = {
        let mut f: FunctionBuilder = p.declare_function();
        f.declare_arg_with_ty(<[u8] as TypeConv>::get_type());
        f.return_();
        p.finish_function(f)
    };
    let p = p.finish_program(f);
    assert_eq!(check(&p), Err(IllFormed::UnsizedLocal));
}
