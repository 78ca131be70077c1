//! Terminators, and the builder methods that close the current block with one.

use vstd::prelude::*;
use crate::build::expr::{bool_to_int, fn_ptr, fn_ptr_internal, is_bool_to_int, is_fn_ptr, is_unit_place, unit_place};
use crate::build::function::FunctionBuilder;
use crate::names::{bb, bbname_into_u32, BbName, FnName, Name};
use crate::syntax::{
    ArgumentExpr, CallingConvention, IntBinOp, IntrinsicLockOp, IntrinsicOp, PlaceExpr,
    Terminator, ValueExpr,
};
use crate::ty::Int;

verus! {

/// Whether `t` is the intrinsic `op` applied to `args` that goes on at `next`.
pub open spec fn is_intrinsic(
    t: Terminator,
    op: IntrinsicOp,
    args: Seq<ValueExpr>,
    next: Option<BbName>,
) -> bool {
    t matches Terminator::Intrinsic { intrinsic, arguments, ret, next_block } && intrinsic == op
        && arguments@ == args && next_block == next
}

/// Whether `t` is an intrinsic that writes its result to `place`.
pub open spec fn returns_into(t: Terminator, place: PlaceExpr) -> bool {
    t matches Terminator::Intrinsic { ret, .. } && ret == place
}

/// Whether `t` is an intrinsic whose result is the tuple without fields.
pub open spec fn returns_unit(t: Terminator) -> bool {
    t matches Terminator::Intrinsic { ret, .. } && is_unit_place(ret)
}

/// Whether `t` is the call of `callee` with `args` under the convention
/// `conv` that returns to `next` and unwinds to `unwind`.
pub open spec fn is_call(
    t: Terminator,
    callee: ValueExpr,
    conv: CallingConvention,
    args: Vec<ArgumentExpr>,
    next: Option<BbName>,
    unwind: Option<BbName>,
) -> bool {
    t matches Terminator::Call {
        callee: c,
        calling_convention,
        arguments,
        ret,
        next_block,
        unwind_block,
    } && c == callee && calling_convention == conv && arguments == args && next_block == next
        && unwind_block == unwind
}

/// Whether `t` is a call that writes its result to `place`.
pub open spec fn call_returns_into(t: Terminator, place: PlaceExpr) -> bool {
    t matches Terminator::Call { ret, .. } && ret == place
}

/// Whether `t` is a call whose result is the tuple without fields.
pub open spec fn call_returns_unit(t: Terminator) -> bool {
    t matches Terminator::Call { ret, .. } && is_unit_place(ret)
}

/// An arithmetic operation that an atomic fetch can apply.
#[derive(Clone, Copy, Debug, PartialEq, Eq, Structural)]
pub enum FetchBinOp {
    Add,
    Sub,
}

impl FetchBinOp {
    /// The integer operation that this stands for.
    pub open spec fn int_op(self) -> IntBinOp {
        match self {
            FetchBinOp::Add => IntBinOp::Add,
            FetchBinOp::Sub => IntBinOp::Sub,
        }
    }
}

impl FunctionBuilder {
    /// Whether a block is under construction.
    pub open spec fn can_finish(self) -> bool {
        &&& self.wf()
        &&& self.cur_block is Some
    }

    /// Whether a block is under construction and a fresh block name is left.
    pub open spec fn can_continue(self) -> bool {
        &&& self.can_finish()
        &&& self.next_block < u32::MAX
    }

    /// Whether `after` is `self` with its current block closed and no block
    /// begun.
    pub open spec fn ended_into(self, after: Self) -> bool {
        &&& self.closed_into(after)
        &&& after.cur_block is None
        &&& after.next_block == self.next_block
    }

    /// Closes the current block with `terminator` and begins the declared
    /// block `next_block` with the kind of the closed one.
    fn finish_with_next_block(&mut self, next_block: BbName, terminator: Terminator)
        requires
            old(self).wf(),
            old(self).cur_block is Some,
            old(self).next_block > 0,
            next_block == bb((old(self).next_block - 1) as u32),
            old(self).cur_block.unwrap().name.0.id < old(self).next_block - 1,
            forall|i: int|
                0 <= i < old(self).blocks.len() ==> (#[trigger] old(self).blocks[i]).0.0.id < old(
                    self,
                ).next_block - 1,
        ensures
            old(self).closed_into(*final(self)),
            final(self).last_terminator() == terminator,
            final(self).at_start_of(next_block, old(self).cur_block.unwrap().kind),
            final(self).next_block == old(self).next_block,
            final(self).wf(),
    {
        let block_kind = self.cur_block_kind();
        self.finish_block(terminator);
        proof {
            assert forall|i: int| 0 <= i < self.blocks.len() implies (#[trigger] self.blocks[i]).0
                != next_block by {
                if i < old(self).blocks.len() {
                    assert(self.blocks@.drop_last()[i] == self.blocks[i]);
                    assert(old(self).blocks[i].0.0.id < old(self).next_block - 1);
                }
            }
        }
        self.set_cur_block(next_block, block_kind);
    }

    /// Ends the program. Closes the current block and begins none.
    pub fn exit(&mut self)
        requires
            old(self).can_finish(),
        ensures
            old(self).ended_into(*final(self)),
            final(self).wf(),
            is_intrinsic(final(self).last_terminator(), IntrinsicOp::Exit, Seq::<ValueExpr>::empty(), None),
            returns_unit(final(self).last_terminator()),
    {
        self.finish_block(exit());
    }

    /// Aborts the program. Closes the current block and begins none.
    pub fn abort(&mut self)
        requires
            old(self).can_finish(),
        ensures
            old(self).ended_into(*final(self)),
            final(self).wf(),
            is_intrinsic(final(self).last_terminator(), IntrinsicOp::Abort, Seq::<ValueExpr>::empty(), None),
            returns_unit(final(self).last_terminator()),
    {
        self.finish_block(abort());
    }

    /// Marks the end of the block as never reached. Closes the current block and begins none.
    pub fn unreachable(&mut self)
        requires
            old(self).can_finish(),
        ensures
            old(self).ended_into(*final(self)),
            final(self).wf(),
            final(self).last_terminator() == Terminator::Unreachable,
    {
        self.finish_block(Terminator::Unreachable);
    }

    /// Returns from the function. Closes the current block and begins none.
    pub fn return_(&mut self)
        requires
            old(self).can_finish(),
        ensures
            old(self).ended_into(*final(self)),
            final(self).wf(),
            final(self).last_terminator() == Terminator::Return,
    {
        self.finish_block(Terminator::Return);
    }

    /// Goes on unwinding in the caller. Closes the current block and begins none.
    pub fn resume_unwind(&mut self)
        requires
            old(self).can_finish(),
        ensures
            old(self).ended_into(*final(self)),
            final(self).wf(),
            final(self).last_terminator() == Terminator::ResumeUnwind,
    {
        self.finish_block(Terminator::ResumeUnwind);
    }

    /// Jumps to `dest`. Closes the current block and begins none.
    pub fn goto(&mut self, dest: BbName)
        requires
            old(self).can_finish(),
        ensures
            old(self).ended_into(*final(self)),
            final(self).wf(),
            final(self).last_terminator() == Terminator::Goto(dest),
    {
        self.finish_block(Terminator::Goto(dest));
    }

    /// Starts unwinding with `unwind_payload` at the block `cleanup`. Closes the current block and begins none.
    pub fn start_unwind(&mut self, unwind_payload: ValueExpr, cleanup: BbName)
        requires
            old(self).can_finish(),
        ensures
            old(self).ended_into(*final(self)),
            final(self).wf(),
            final(self).last_terminator() == (Terminator::StartUnwind {
                unwind_payload,
                unwind_block: cleanup,
            }),
    {
        self.finish_block(start_unwind(unwind_payload, cleanup));
    }

    /// Stops unwinding and goes on at `next_block`. Closes the current block and begins none.
    pub fn stop_unwind(&mut self, next_block: BbName)
        requires
            old(self).can_finish(),
        ensures
            old(self).ended_into(*final(self)),
            final(self).wf(),
            final(self).last_terminator() == Terminator::StopUnwind(next_block),
    {
        self.finish_block(stop_unwind(next_block));
    }

    /// Closes the current block with a call and, where the call returns,
    /// begins the block that it returns to with the kind of the closed one.
    fn handle_call(
        &mut self,
        ret: PlaceExpr,
        f: ValueExpr,
        args: Vec<ArgumentExpr>,
        conv: CallingConvention,
        next_block: Option<BbName>,
        unwind_block: Option<BbName>,
    )
        requires
            old(self).can_finish(),
            next_block is Some ==> old(self).next_block > 0 && next_block.unwrap() == bb(
                (old(self).next_block - 1) as u32,
            ) && old(self).cur_block.unwrap().name.0.id < old(self).next_block - 1 && forall|i: int|
                0 <= i < old(self).blocks.len() ==> (#[trigger] old(self).blocks[i]).0.0.id < old(
                    self,
                ).next_block - 1,
        ensures
            old(self).closed_into(*final(self)),
            final(self).next_block == old(self).next_block,
            final(self).wf(),
            final(self).last_terminator() == (Terminator::Call {
                callee: f,
                calling_convention: conv,
                arguments: args,
                ret,
                next_block,
                unwind_block,
            }),
            match next_block {
                Some(next) => final(self).at_start_of(next, old(self).cur_block.unwrap().kind),
                None => final(self).cur_block is None,
            },
    {
        let block_kind = self.cur_block_kind();
        self.finish_block(
            Terminator::Call {
                callee: f,
                calling_convention: conv,
                arguments: args,
                ret,
                next_block,
                unwind_block,
            },
        );
        if let Some(next) = next_block {
            proof {
                assert forall|i: int| 0 <= i < self.blocks.len() implies (
                #[trigger] self.blocks[i]).0 != next by {
                    if i < old(self).blocks.len() {
                        assert(self.blocks@.drop_last()[i] == self.blocks[i]);
                        assert(old(self).blocks[i].0.0.id < old(self).next_block - 1);
                    }
                }
            }
            self.set_cur_block(next, block_kind);
        }
    }

    /// Calls a function that neither returns nor unwinds, under the Rust
    /// calling convention. Closes the current block and begins none.
    pub fn call_noret(&mut self, ret: PlaceExpr, f: ValueExpr, args: Vec<ArgumentExpr>)
        requires
            old(self).can_finish(),
        ensures
            old(self).ended_into(*final(self)),
            final(self).wf(),
            is_call(final(self).last_terminator(), f, CallingConvention::Rust, args, None, None),
            call_returns_into(final(self).last_terminator(), ret),
    {
        self.handle_call(ret, f, args, CallingConvention::Rust, None, None);
    }

    /// Calls a function that does not unwind, under the Rust calling
    /// convention. Goes on in a fresh block of the same kind.
    pub fn call_nounwind(&mut self, ret: PlaceExpr, f: ValueExpr, args: Vec<ArgumentExpr>)
        requires
            old(self).can_continue(),
        ensures
            old(self).continued_into(*final(self)),
            final(self).wf(),
            is_call(
                final(self).last_terminator(),
                f,
                CallingConvention::Rust,
                args,
                Some(bb(old(self).next_block)),
                None,
            ),
            call_returns_into(final(self).last_terminator(), ret),
    {
        let next_block = self.declare_block();
        self.handle_call(ret, f, args, CallingConvention::Rust, Some(next_block), None);
    }

    /// Calls a function that does not unwind, under the Rust calling
    /// convention, and drops its result, the tuple without fields. Goes on in
    /// a fresh block of the same kind.
    pub fn call_ignoreret(&mut self, f: ValueExpr, args: Vec<ArgumentExpr>)
        requires
            old(self).can_continue(),
        ensures
            old(self).continued_into(*final(self)),
            final(self).wf(),
            is_call(
                final(self).last_terminator(),
                f,
                CallingConvention::Rust,
                args,
                Some(bb(old(self).next_block)),
                None,
            ),
            call_returns_unit(final(self).last_terminator()),
    {
        let next_block = self.declare_block();
        self.handle_call(unit_place(), f, args, CallingConvention::Rust, Some(next_block), None);
    }

    /// Calls a function under the Rust calling convention; an unwind goes on
    /// at `unwind_block`. Goes on in a fresh block of the same kind.
    pub fn call(
        &mut self,
        ret: PlaceExpr,
        f: ValueExpr,
        args: Vec<ArgumentExpr>,
        unwind_block: BbName,
    )
        requires
            old(self).can_continue(),
        ensures
            old(self).continued_into(*final(self)),
            final(self).wf(),
            is_call(
                final(self).last_terminator(),
                f,
                CallingConvention::Rust,
                args,
                Some(bb(old(self).next_block)),
                Some(unwind_block),
            ),
            call_returns_into(final(self).last_terminator(), ret),
    {
        let next_block = self.declare_block();
        self.handle_call(
            ret,
            f,
            args,
            CallingConvention::Rust,
            Some(next_block),
            Some(unwind_block),
        );
    }

    /// Calls a function under the calling convention `conv`; an unwind goes
    /// on at `unwind_block`. Goes on in a fresh block of the same kind.
    pub fn call_with_conv(
        &mut self,
        ret: PlaceExpr,
        f: ValueExpr,
        args: Vec<ArgumentExpr>,
        conv: CallingConvention,
        unwind_block: BbName,
    )
        requires
            old(self).can_continue(),
        ensures
            old(self).continued_into(*final(self)),
            final(self).wf(),
            is_call(
                final(self).last_terminator(),
                f,
                conv,
                args,
                Some(bb(old(self).next_block)),
                Some(unwind_block),
            ),
            call_returns_into(final(self).last_terminator(), ret),
    {
        let next_block = self.declare_block();
        self.handle_call(ret, f, args, conv, Some(next_block), Some(unwind_block));
    }

    /// Makes the rest of the execution rest on `val` being true. Goes on in a fresh block of the same kind.
    pub fn assuming(&mut self, val: ValueExpr)
        requires
            old(self).can_continue(),
        ensures
            old(self).continued_into(*final(self)),
            final(self).wf(),
            is_intrinsic(
                final(self).last_terminator(),
                IntrinsicOp::Assume,
                seq![val],
                Some(bb(old(self).next_block)),
            ),
            returns_unit(final(self).last_terminator()),
    {
        let next_block = self.declare_block();
        self.finish_with_next_block(next_block, assuming(val, bbname_into_u32(next_block)));
    }

    /// Prints `arg` to standard output. Goes on in a fresh block of the same kind.
    pub fn print(&mut self, arg: ValueExpr)
        requires
            old(self).can_continue(),
        ensures
            old(self).continued_into(*final(self)),
            final(self).wf(),
            is_intrinsic(
                final(self).last_terminator(),
                IntrinsicOp::PrintStdout,
                seq![arg],
                Some(bb(old(self).next_block)),
            ),
            returns_unit(final(self).last_terminator()),
    {
        let next_block = self.declare_block();
        self.finish_with_next_block(next_block, print(arg, bbname_into_u32(next_block)));
    }

    /// Prints `arg` to standard error. Goes on in a fresh block of the same kind.
    pub fn eprint(&mut self, arg: ValueExpr)
        requires
            old(self).can_continue(),
        ensures
            old(self).continued_into(*final(self)),
            final(self).wf(),
            is_intrinsic(
                final(self).last_terminator(),
                IntrinsicOp::PrintStderr,
                seq![arg],
                Some(bb(old(self).next_block)),
            ),
            returns_unit(final(self).last_terminator()),
    {
        let next_block = self.declare_block();
        self.finish_with_next_block(next_block, eprint(arg, bbname_into_u32(next_block)));
    }

    /// Allocates `size` bytes aligned to `align` and writes the pointer to `ret_place`. Goes on in a fresh block of the same kind.
    pub fn allocate(&mut self, size: ValueExpr, align: ValueExpr, ret_place: PlaceExpr)
        requires
            old(self).can_continue(),
        ensures
            old(self).continued_into(*final(self)),
            final(self).wf(),
            is_intrinsic(
                final(self).last_terminator(),
                IntrinsicOp::Allocate,
                seq![size, align],
                Some(bb(old(self).next_block)),
            ),
            returns_into(final(self).last_terminator(), ret_place),
    {
        let next_block = self.declare_block();
        self.finish_with_next_block(next_block, allocate(size, align, ret_place, bbname_into_u32(next_block)));
    }

    /// Frees the allocation of `size` bytes aligned to `align` at `ptr`. Goes on in a fresh block of the same kind.
    pub fn deallocate(&mut self, ptr: ValueExpr, size: ValueExpr, align: ValueExpr)
        requires
            old(self).can_continue(),
        ensures
            old(self).continued_into(*final(self)),
            final(self).wf(),
            is_intrinsic(
                final(self).last_terminator(),
                IntrinsicOp::Deallocate,
                seq![ptr, size, align],
                Some(bb(old(self).next_block)),
            ),
            returns_unit(final(self).last_terminator()),
    {
        let next_block = self.declare_block();
        self.finish_with_next_block(next_block, deallocate(ptr, size, align, bbname_into_u32(next_block)));
    }

    /// Starts a thread that runs the function `f` on `data_ptr` and writes its id to `ret`. Goes on in a fresh block of the same kind.
    pub fn spawn(&mut self, f: FnName, data_ptr: ValueExpr, ret: PlaceExpr)
        requires
            old(self).can_continue(),
        ensures
            old(self).continued_into(*final(self)),
            final(self).wf(),
            final(self).last_terminator() matches Terminator::Intrinsic {
                intrinsic,
                arguments,
                ret: r,
                next_block,
            } && intrinsic == IntrinsicOp::Spawn && arguments@.len() == 2 && is_fn_ptr(
                arguments@[0],
                f,
            ) && arguments@[1] == data_ptr && r == ret && next_block == Some(
                bb(old(self).next_block),
            ),
    {
        let next_block = self.declare_block();
        self.finish_with_next_block(next_block, spawn(fn_ptr(f), data_ptr, ret, bbname_into_u32(next_block)));
    }

    /// Waits for the thread `thread_id`. Goes on in a fresh block of the same kind.
    pub fn join(&mut self, thread_id: ValueExpr)
        requires
            old(self).can_continue(),
        ensures
            old(self).continued_into(*final(self)),
            final(self).wf(),
            is_intrinsic(
                final(self).last_terminator(),
                IntrinsicOp::Join,
                seq![thread_id],
                Some(bb(old(self).next_block)),
            ),
            returns_unit(final(self).last_terminator()),
    {
        let next_block = self.declare_block();
        self.finish_with_next_block(next_block, join(thread_id, bbname_into_u32(next_block)));
    }

    /// Compares the bytes behind two pointers and writes the outcome to `ret`. Goes on in a fresh block of the same kind.
    pub fn raw_eq(&mut self, ret: PlaceExpr, left_ptr: ValueExpr, right_ptr: ValueExpr)
        requires
            old(self).can_continue(),
        ensures
            old(self).continued_into(*final(self)),
            final(self).wf(),
            is_intrinsic(
                final(self).last_terminator(),
                IntrinsicOp::RawEq,
                seq![left_ptr, right_ptr],
                Some(bb(old(self).next_block)),
            ),
            returns_into(final(self).last_terminator(), ret),
    {
        let next_block = self.declare_block();
        self.finish_with_next_block(next_block, raw_eq(ret, left_ptr, right_ptr, bbname_into_u32(next_block)));
    }

    /// Stores `src` behind `ptr` atomically. Goes on in a fresh block of the same kind.
    pub fn atomic_store(&mut self, ptr: ValueExpr, src: ValueExpr)
        requires
            old(self).can_continue(),
        ensures
            old(self).continued_into(*final(self)),
            final(self).wf(),
            is_intrinsic(
                final(self).last_terminator(),
                IntrinsicOp::AtomicStore,
                seq![ptr, src],
                Some(bb(old(self).next_block)),
            ),
            returns_unit(final(self).last_terminator()),
    {
        let next_block = self.declare_block();
        self.finish_with_next_block(next_block, atomic_store(ptr, src, bbname_into_u32(next_block)));
    }

    /// Loads the value behind `ptr` atomically into `dest`. Goes on in a fresh block of the same kind.
    pub fn atomic_load(&mut self, dest: PlaceExpr, ptr: ValueExpr)
        requires
            old(self).can_continue(),
        ensures
            old(self).continued_into(*final(self)),
            final(self).wf(),
            is_intrinsic(
                final(self).last_terminator(),
                IntrinsicOp::AtomicLoad,
                seq![ptr],
                Some(bb(old(self).next_block)),
            ),
            returns_into(final(self).last_terminator(), dest),
    {
        let next_block = self.declare_block();
        self.finish_with_next_block(next_block, atomic_load(dest, ptr, bbname_into_u32(next_block)));
    }

    /// Applies `binop` with `other` to the value behind `ptr` atomically and writes the old value to `dest`. Goes on in a fresh block of the same kind.
    pub fn atomic_fetch(&mut self, binop: FetchBinOp, dest: PlaceExpr, ptr: ValueExpr, other: ValueExpr)
        requires
            old(self).can_continue(),
        ensures
            old(self).continued_into(*final(self)),
            final(self).wf(),
            is_intrinsic(
                final(self).last_terminator(),
                IntrinsicOp::AtomicFetchAndOp(binop.int_op()),
                seq![ptr, other],
                Some(bb(old(self).next_block)),
            ),
            returns_into(final(self).last_terminator(), dest),
    {
        let next_block = self.declare_block();
        self.finish_with_next_block(next_block, atomic_fetch(binop, dest, ptr, other, bbname_into_u32(next_block)));
    }

    /// Replaces the value behind `ptr` by `next_val` if it equals `current`, atomically, and writes the old value to `dest`. Goes on in a fresh block of the same kind.
    pub fn compare_exchange(&mut self, dest: PlaceExpr, ptr: ValueExpr, current: ValueExpr, next_val: ValueExpr)
        requires
            old(self).can_continue(),
        ensures
            old(self).continued_into(*final(self)),
            final(self).wf(),
            is_intrinsic(
                final(self).last_terminator(),
                IntrinsicOp::AtomicCompareExchange,
                seq![ptr, current, next_val],
                Some(bb(old(self).next_block)),
            ),
            returns_into(final(self).last_terminator(), dest),
    {
        let next_block = self.declare_block();
        self.finish_with_next_block(next_block, compare_exchange(dest, ptr, current, next_val, bbname_into_u32(next_block)));
    }

    /// Exposes the provenance of `ptr` and writes its address to `dest`. Goes on in a fresh block of the same kind.
    pub fn expose_provenance(&mut self, dest: PlaceExpr, ptr: ValueExpr)
        requires
            old(self).can_continue(),
        ensures
            old(self).continued_into(*final(self)),
            final(self).wf(),
            is_intrinsic(
                final(self).last_terminator(),
                IntrinsicOp::PointerExposeProvenance,
                seq![ptr],
                Some(bb(old(self).next_block)),
            ),
            returns_into(final(self).last_terminator(), dest),
    {
        let next_block = self.declare_block();
        self.finish_with_next_block(next_block, expose_provenance(dest, ptr, bbname_into_u32(next_block)));
    }

    /// Makes a pointer with exposed provenance from `addr` and writes it to `dest`. Goes on in a fresh block of the same kind.
    pub fn with_exposed_provenance(&mut self, dest: PlaceExpr, addr: ValueExpr)
        requires
            old(self).can_continue(),
        ensures
            old(self).continued_into(*final(self)),
            final(self).wf(),
            is_intrinsic(
                final(self).last_terminator(),
                IntrinsicOp::PointerWithExposedProvenance,
                seq![addr],
                Some(bb(old(self).next_block)),
            ),
            returns_into(final(self).last_terminator(), dest),
    {
        let next_block = self.declare_block();
        self.finish_with_next_block(next_block, with_exposed_provenance(dest, addr, bbname_into_u32(next_block)));
    }

    /// Creates a lock and writes its id to `ret`. Goes on in a fresh block of the same kind.
    pub fn lock_create(&mut self, ret: PlaceExpr)
        requires
            old(self).can_continue(),
        ensures
            old(self).continued_into(*final(self)),
            final(self).wf(),
            is_intrinsic(
                final(self).last_terminator(),
                IntrinsicOp::Lock(IntrinsicLockOp::Create),
                Seq::<ValueExpr>::empty(),
                Some(bb(old(self).next_block)),
            ),
            returns_into(final(self).last_terminator(), ret),
    {
        let next_block = self.declare_block();
        self.finish_with_next_block(next_block, lock_create(ret, bbname_into_u32(next_block)));
    }

    /// Acquires the lock `lock_id`. Goes on in a fresh block of the same kind.
    pub fn lock_acquire(&mut self, lock_id: ValueExpr)
        requires
            old(self).can_continue(),
        ensures
            old(self).continued_into(*final(self)),
            final(self).wf(),
            is_intrinsic(
                final(self).last_terminator(),
                IntrinsicOp::Lock(IntrinsicLockOp::Acquire),
                seq![lock_id],
                Some(bb(old(self).next_block)),
            ),
            returns_unit(final(self).last_terminator()),
    {
        let next_block = self.declare_block();
        self.finish_with_next_block(next_block, lock_acquire(lock_id, bbname_into_u32(next_block)));
    }

    /// Releases the lock `lock_id`. Goes on in a fresh block of the same kind.
    pub fn lock_release(&mut self, lock_id: ValueExpr)
        requires
            old(self).can_continue(),
        ensures
            old(self).continued_into(*final(self)),
            final(self).wf(),
            is_intrinsic(
                final(self).last_terminator(),
                IntrinsicOp::Lock(IntrinsicLockOp::Release),
                seq![lock_id],
                Some(bb(old(self).next_block)),
            ),
            returns_unit(final(self).last_terminator()),
    {
        let next_block = self.declare_block();
        self.finish_with_next_block(next_block, lock_release(lock_id, bbname_into_u32(next_block)));
    }

    /// Writes the payload of the unwind in flight to `ret`. Goes on in a fresh block of the same kind.
    pub fn get_unwind_payload(&mut self, ret: PlaceExpr)
        requires
            old(self).can_continue(),
        ensures
            old(self).continued_into(*final(self)),
            final(self).wf(),
            is_intrinsic(
                final(self).last_terminator(),
                IntrinsicOp::GetUnwindPayload,
                Seq::<ValueExpr>::empty(),
                Some(bb(old(self).next_block)),
            ),
            returns_into(final(self).last_terminator(), ret),
    {
        let next_block = self.declare_block();
        self.finish_with_next_block(next_block, get_unwind_payload(ret, bbname_into_u32(next_block)));
    }
}

/// The empty argument list.
fn no_args() -> (v: Vec<ValueExpr>)
    ensures
        v@ == Seq::<ValueExpr>::empty(),
{
    Vec::new()
}

/// The argument list that holds `a`.
fn one_arg(a: ValueExpr) -> (v: Vec<ValueExpr>)
    ensures
        v@ == seq![a],
{
    let mut v = Vec::new();
    v.push(a);
    proof {
        assert(v@ =~= seq![a]);
    }
    v
}

/// The argument list that holds `a` and `b`.
fn two_args(a: ValueExpr, b: ValueExpr) -> (v: Vec<ValueExpr>)
    ensures
        v@ == seq![a, b],
{
    let mut v = Vec::new();
    v.push(a);
    v.push(b);
    proof {
        assert(v@ =~= seq![a, b]);
    }
    v
}

/// The argument list that holds `a`, `b` and `c`.
fn three_args(a: ValueExpr, b: ValueExpr, c: ValueExpr) -> (v: Vec<ValueExpr>)
    ensures
        v@ == seq![a, b, c],
{
    let mut v = Vec::new();
    v.push(a);
    v.push(b);
    v.push(c);
    proof {
        assert(v@ =~= seq![a, b, c]);
    }
    v
}

/// The intrinsic `op` applied to `arguments` that writes to `ret` and goes on
/// at the block with the number `next`.
fn intrinsic(op: IntrinsicOp, arguments: Vec<ValueExpr>, ret: PlaceExpr, next: u32) -> (t:
    Terminator)
    ensures
        is_intrinsic(t, op, arguments@, Some(bb(next))),
        returns_into(t, ret),
{
    Terminator::Intrinsic {
        intrinsic: op,
        arguments,
        ret,
        next_block: Some(BbName(Name::from_internal(next))),
    }
}

/// The intrinsic `op` without arguments and without a successor.
fn last_intrinsic(op: IntrinsicOp) -> (t: Terminator)
    ensures
        is_intrinsic(t, op, Seq::<ValueExpr>::empty(), None),
        returns_unit(t),
{
    Terminator::Intrinsic { intrinsic: op, arguments: no_args(), ret: unit_place(), next_block: None }
}

/// Jumps to the block with the number `x`.
pub fn goto(x: u32) -> (t: Terminator)
    ensures
        t == Terminator::Goto(bb(x)),
{
    Terminator::Goto(BbName(Name::from_internal(x)))
}

/// Whether `t` is the switch on `condition` as an 8-bit integer that goes to
/// `then_blk` on 1 and to `else_blk` otherwise.
pub open spec fn is_if(t: Terminator, condition: ValueExpr, then_blk: BbName, else_blk: BbName) -> bool {
    t matches Terminator::Switch { value, cases, fallback } && is_bool_to_int::<u8>(value, condition)
        && cases@ == seq![(1i128, then_blk)] && fallback == else_blk
}

/// Goes to the block with the number `then_blk` where `condition` holds and
/// to the one with the number `else_blk` where it does not.
pub fn if_(condition: ValueExpr, then_blk: u32, else_blk: u32) -> (t: Terminator)
    ensures
        is_if(t, condition, bb(then_blk), bb(else_blk)),
{
    let mut cases: Vec<(Int, BbName)> = Vec::new();
    cases.push((1, BbName(Name::from_internal(then_blk))));
    proof {
        assert(cases@ =~= seq![(1i128, bb(then_blk))]);
    }
    Terminator::Switch {
        value: bool_to_int::<u8>(condition),
        cases,
        fallback: BbName(Name::from_internal(else_blk)),
    }
}

/// Whether `t` is the switch on `value` whose cases are those of `cases`,
/// in their order, and whose fallback is `fallback`.
pub open spec fn is_switch(
    t: Terminator,
    value: ValueExpr,
    cases: Seq<(Int, u32)>,
    fallback: BbName,
) -> bool {
    t matches Terminator::Switch { value: v, cases: c, fallback: f } && v == value && f == fallback
        && c@.len() == cases.len() && forall|i: int|
        0 <= i < cases.len() ==> (#[trigger] c@[i]) == (cases[i].0, bb(cases[i].1))
}

/// Goes to the block of the first case that `value` equals, and to the block
/// with the number `fallback` where there is none.
pub fn switch_int(value: ValueExpr, cases: &Vec<(Int, u32)>, fallback: u32) -> (t: Terminator)
    ensures
        is_switch(t, value, cases@, bb(fallback)),
{
    let mut edges: Vec<(Int, BbName)> = Vec::new();
    let mut i: usize = 0;
    while i < cases.len()
        invariant
            i <= cases.len(),
            edges@.len() == i,
            forall|j: int| 0 <= j < i ==> (#[trigger] edges@[j]) == (cases@[j].0, bb(cases@[j].1)),
        decreases cases.len() - i,
    {
        edges.push((cases[i].0, BbName(Name::from_internal(cases[i].1))));
        i += 1;
    }
    Terminator::Switch { value, cases: edges, fallback: BbName(Name::from_internal(fallback)) }
}

/// Marks the end of the block as never reached.
pub fn unreachable() -> (t: Terminator)
    ensures
        t == Terminator::Unreachable,
{
    Terminator::Unreachable
}

/// Calls the function with the number `f` under the C calling convention;
/// the call returns to the block with the number `next`, if any, and does
/// not unwind.
pub fn call(f: u32, args: Vec<ArgumentExpr>, ret: PlaceExpr, next: Option<u32>) -> (t: Terminator)
    ensures
        t matches Terminator::Call {
            callee,
            calling_convention,
            arguments,
            ret: r,
            next_block,
            unwind_block,
        } && is_fn_ptr(callee, FnName(Name { id: f })) && calling_convention
            == CallingConvention::C && arguments == args && r == ret && next_block == match next {
            Some(x) => Some(bb(x)),
            None => None,
        } && unwind_block is None,
{
    Terminator::Call {
        callee: fn_ptr_internal(f),
        calling_convention: CallingConvention::C,
        arguments: args,
        ret,
        next_block: match next {
            Some(x) => Some(BbName(Name::from_internal(x))),
            None => None,
        },
        unwind_block: None,
    }
}

/// Ends the program.
pub fn exit() -> (t: Terminator)
    ensures
        is_intrinsic(t, IntrinsicOp::Exit, Seq::<ValueExpr>::empty(), None),
        returns_unit(t),
{
    last_intrinsic(IntrinsicOp::Exit)
}

/// Aborts the program.
pub fn abort() -> (t: Terminator)
    ensures
        is_intrinsic(t, IntrinsicOp::Abort, Seq::<ValueExpr>::empty(), None),
        returns_unit(t),
{
    last_intrinsic(IntrinsicOp::Abort)
}

/// Returns from the function.
pub fn return_() -> (t: Terminator)
    ensures
        t == Terminator::Return,
{
    Terminator::Return
}

/// Starts unwinding with `unwind_payload` at the block `cleanup`.
pub fn start_unwind(unwind_payload: ValueExpr, cleanup: BbName) -> (t: Terminator)
    ensures
        t == (Terminator::StartUnwind { unwind_payload, unwind_block: cleanup }),
{
    Terminator::StartUnwind { unwind_block: cleanup, unwind_payload }
}

/// Stops unwinding and goes on at `next_block`.
pub fn stop_unwind(next_block: BbName) -> (t: Terminator)
    ensures
        t == Terminator::StopUnwind(next_block),
{
    Terminator::StopUnwind(next_block)
}

/// Goes on unwinding in the caller.
pub fn resume_unwind() -> (t: Terminator)
    ensures
        t == Terminator::ResumeUnwind,
{
    Terminator::ResumeUnwind
}

/// Makes the rest of the execution rest on `val` being true. Goes on at the block with the number `next`.
pub fn assuming(val: ValueExpr, next: u32) -> (t: Terminator)
    ensures
        is_intrinsic(t, IntrinsicOp::Assume, seq![val], Some(bb(next))),
        returns_unit(t),
{
    intrinsic(IntrinsicOp::Assume, one_arg(val), unit_place(), next)
}

/// Prints `arg` to standard output. Goes on at the block with the number `next`.
pub fn print(arg: ValueExpr, next: u32) -> (t: Terminator)
    ensures
        is_intrinsic(t, IntrinsicOp::PrintStdout, seq![arg], Some(bb(next))),
        returns_unit(t),
{
    intrinsic(IntrinsicOp::PrintStdout, one_arg(arg), unit_place(), next)
}

/// Prints `arg` to standard error. Goes on at the block with the number `next`.
pub fn eprint(arg: ValueExpr, next: u32) -> (t: Terminator)
    ensures
        is_intrinsic(t, IntrinsicOp::PrintStderr, seq![arg], Some(bb(next))),
        returns_unit(t),
{
    intrinsic(IntrinsicOp::PrintStderr, one_arg(arg), unit_place(), next)
}

/// Allocates `size` bytes aligned to `align` and writes the pointer to `ret_place`. Goes on at the block with the number `next`.
pub fn allocate(size: ValueExpr, align: ValueExpr, ret_place: PlaceExpr, next: u32) -> (t: Terminator)
    ensures
        is_intrinsic(t, IntrinsicOp::Allocate, seq![size, align], Some(bb(next))),
        returns_into(t, ret_place),
{
    intrinsic(IntrinsicOp::Allocate, two_args(size, align), ret_place, next)
}

/// Frees the allocation of `size` bytes aligned to `align` at `ptr`. Goes on at the block with the number `next`.
pub fn deallocate(ptr: ValueExpr, size: ValueExpr, align: ValueExpr, next: u32) -> (t: Terminator)
    ensures
        is_intrinsic(t, IntrinsicOp::Deallocate, seq![ptr, size, align], Some(bb(next))),
        returns_unit(t),
{
    intrinsic(IntrinsicOp::Deallocate, three_args(ptr, size, align), unit_place(), next)
}

/// Starts a thread that runs the function `fn_ptr` on `data_ptr` and writes its id to `ret`. Goes on at the block with the number `next`.
pub fn spawn(fn_ptr: ValueExpr, data_ptr: ValueExpr, ret: PlaceExpr, next: u32) -> (t: Terminator)
    ensures
        is_intrinsic(t, IntrinsicOp::Spawn, seq![fn_ptr, data_ptr], Some(bb(next))),
        returns_into(t, ret),
{
    intrinsic(IntrinsicOp::Spawn, two_args(fn_ptr, data_ptr), ret, next)
}

/// Waits for the thread `thread_id`. Goes on at the block with the number `next`.
pub fn join(thread_id: ValueExpr, next: u32) -> (t: Terminator)
    ensures
        is_intrinsic(t, IntrinsicOp::Join, seq![thread_id], Some(bb(next))),
        returns_unit(t),
{
    intrinsic(IntrinsicOp::Join, one_arg(thread_id), unit_place(), next)
}

/// Compares the bytes behind two pointers and writes the outcome to `ret`. Goes on at the block with the number `next`.
pub fn raw_eq(ret: PlaceExpr, left_ptr: ValueExpr, right_ptr: ValueExpr, next: u32) -> (t: Terminator)
    ensures
        is_intrinsic(t, IntrinsicOp::RawEq, seq![left_ptr, right_ptr], Some(bb(next))),
        returns_into(t, ret),
{
    intrinsic(IntrinsicOp::RawEq, two_args(left_ptr, right_ptr), ret, next)
}

/// Stores `src` behind `ptr` atomically. Goes on at the block with the number `next`.
pub fn atomic_store(ptr: ValueExpr, src: ValueExpr, next: u32) -> (t: Terminator)
    ensures
        is_intrinsic(t, IntrinsicOp::AtomicStore, seq![ptr, src], Some(bb(next))),
        returns_unit(t),
{
    intrinsic(IntrinsicOp::AtomicStore, two_args(ptr, src), unit_place(), next)
}

/// Loads the value behind `ptr` atomically into `dest`. Goes on at the block with the number `next`.
pub fn atomic_load(dest: PlaceExpr, ptr: ValueExpr, next: u32) -> (t: Terminator)
    ensures
        is_intrinsic(t, IntrinsicOp::AtomicLoad, seq![ptr], Some(bb(next))),
        returns_into(t, dest),
{
    intrinsic(IntrinsicOp::AtomicLoad, one_arg(ptr), dest, next)
}

/// Applies `binop` with `other` to the value behind `ptr` atomically and writes the old value to `dest`. Goes on at the block with the number `next`.
pub fn atomic_fetch(binop: FetchBinOp, dest: PlaceExpr, ptr: ValueExpr, other: ValueExpr, next: u32) -> (t: Terminator)
    ensures
        is_intrinsic(t, IntrinsicOp::AtomicFetchAndOp(binop.int_op()), seq![ptr, other], Some(bb(next))),
        returns_into(t, dest),
{
    let op = match binop {
        FetchBinOp::Add => IntBinOp::Add,
        FetchBinOp::Sub => IntBinOp::Sub,
    };
    intrinsic(IntrinsicOp::AtomicFetchAndOp(op), two_args(ptr, other), dest, next)
}

/// Replaces the value behind `ptr` by `next_val` if it equals `current`, atomically, and writes the old value to `dest`. Goes on at the block with the number `next`.
pub fn compare_exchange(dest: PlaceExpr, ptr: ValueExpr, current: ValueExpr, next_val: ValueExpr, next: u32) -> (t: Terminator)
    ensures
        is_intrinsic(t, IntrinsicOp::AtomicCompareExchange, seq![ptr, current, next_val], Some(bb(next))),
        returns_into(t, dest),
{
    intrinsic(IntrinsicOp::AtomicCompareExchange, three_args(ptr, current, next_val), dest, next)
}

/// Exposes the provenance of `ptr` and writes its address to `dest`. Goes on at the block with the number `next`.
pub fn expose_provenance(dest: PlaceExpr, ptr: ValueExpr, next: u32) -> (t: Terminator)
    ensures
        is_intrinsic(t, IntrinsicOp::PointerExposeProvenance, seq![ptr], Some(bb(next))),
        returns_into(t, dest),
{
    intrinsic(IntrinsicOp::PointerExposeProvenance, one_arg(ptr), dest, next)
}

/// Makes a pointer with exposed provenance from `addr` and writes it to `dest`. Goes on at the block with the number `next`.
pub fn with_exposed_provenance(dest: PlaceExpr, addr: ValueExpr, next: u32) -> (t: Terminator)
    ensures
        is_intrinsic(t, IntrinsicOp::PointerWithExposedProvenance, seq![addr], Some(bb(next))),
        returns_into(t, dest),
{
    intrinsic(IntrinsicOp::PointerWithExposedProvenance, one_arg(addr), dest, next)
}

/// Creates a lock and writes its id to `ret`. Goes on at the block with the number `next`.
pub fn lock_create(ret: PlaceExpr, next: u32) -> (t: Terminator)
    ensures
        is_intrinsic(t, IntrinsicOp::Lock(IntrinsicLockOp::Create), Seq::<ValueExpr>::empty(), Some(bb(next))),
        returns_into(t, ret),
{
    intrinsic(IntrinsicOp::Lock(IntrinsicLockOp::Create), no_args(), ret, next)
}

/// Acquires the lock `lock_id`. Goes on at the block with the number `next`.
pub fn lock_acquire(lock_id: ValueExpr, next: u32) -> (t: Terminator)
    ensures
        is_intrinsic(t, IntrinsicOp::Lock(IntrinsicLockOp::Acquire), seq![lock_id], Some(bb(next))),
        returns_unit(t),
{
    intrinsic(IntrinsicOp::Lock(IntrinsicLockOp::Acquire), one_arg(lock_id), unit_place(), next)
}

/// Releases the lock `lock_id`. Goes on at the block with the number `next`.
pub fn lock_release(lock_id: ValueExpr, next: u32) -> (t: Terminator)
    ensures
        is_intrinsic(t, IntrinsicOp::Lock(IntrinsicLockOp::Release), seq![lock_id], Some(bb(next))),
        returns_unit(t),
{
    intrinsic(IntrinsicOp::Lock(IntrinsicLockOp::Release), one_arg(lock_id), unit_place(), next)
}

/// Writes the payload of the unwind in flight to `ret`. Goes on at the block with the number `next`.
pub fn get_unwind_payload(ret: PlaceExpr, next: u32) -> (t: Terminator)
    ensures
        is_intrinsic(t, IntrinsicOp::GetUnwindPayload, Seq::<ValueExpr>::empty(), Some(bb(next))),
        returns_into(t, ret),
{
    intrinsic(IntrinsicOp::GetUnwindPayload, no_args(), ret, next)
}

} // verus!
