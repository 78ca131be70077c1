//! The function builder: it hands out block names and collects the blocks
//! that have been closed with a terminator.

use vstd::prelude::*;
use crate::names::{bb, BbName, FnName, LocalName, Name};
use crate::build::ty_conv::TypeConv;
use crate::syntax::{
    BasicBlock, BbKind, Function, PlaceExpr, Program, Statement, Terminator, ValueExpr,
};
use crate::ty::Type;

verus! {

/// The block under construction.
#[derive(Debug, PartialEq, Eq)]
pub struct CurBlock {
    pub name: BbName,
    pub statements: Vec<Statement>,
    pub kind: BbKind,
}

/// A function under construction.
#[derive(Debug, PartialEq, Eq)]
pub struct FunctionBuilder {
    pub name: FnName,
    pub locals: Vec<Type>,
    pub args: Vec<LocalName>,
    pub ret: Option<LocalName>,
    /// The blocks closed so far, in the order in which they were closed.
    pub blocks: Vec<(BbName, BasicBlock)>,
    pub start: BbName,
    pub cur_block: Option<CurBlock>,
    /// The number of the next block name to hand out.
    pub next_block: u32,
}

impl FunctionBuilder {
    /// Every closed block and the current block bear a name that was handed
    /// out, no two closed blocks bear the same name, and the current block is
    /// not yet among them.
    pub open spec fn wf(self) -> bool {
        &&& forall|i: int|
            0 <= i < self.blocks.len() ==> (#[trigger] self.blocks[i]).0.0.id < self.next_block
        &&& forall|i: int, j: int|
            0 <= i < j < self.blocks.len() ==> (#[trigger] self.blocks[i]).0 != (
            #[trigger] self.blocks[j]).0
        &&& self.cur_block is Some ==> self.cur_block.unwrap().name.0.id < self.next_block
            && self.is_open(self.cur_block.unwrap().name)
    }

    /// Whether no closed block bears the name `name`.
    pub open spec fn is_open(self, name: BbName) -> bool {
        forall|i: int| 0 <= i < self.blocks.len() ==> (#[trigger] self.blocks[i]).0 != name
    }

    /// Whether `after` differs from `self` at most in its blocks, its current
    /// block and its next block name.
    pub open spec fn same_signature(self, after: Self) -> bool {
        &&& after.name == self.name
        &&& after.locals == self.locals
        &&& after.args == self.args
        &&& after.ret == self.ret
        &&& after.start == self.start
    }

    /// Whether `after` is `self` with its current block closed by a
    /// terminator and appended to the closed blocks.
    pub open spec fn closed_into(self, after: Self) -> bool {
        &&& self.cur_block is Some
        &&& self.same_signature(after)
        &&& after.blocks@.len() == self.blocks@.len() + 1
        &&& after.blocks@.drop_last() == self.blocks@
        &&& after.blocks@.last().0 == self.cur_block.unwrap().name
        &&& after.blocks@.last().1.statements == self.cur_block.unwrap().statements
        &&& after.blocks@.last().1.kind == self.cur_block.unwrap().kind
    }

    /// The terminator of the block closed last.
    pub open spec fn last_terminator(self) -> Terminator {
        self.blocks@.last().1.terminator
    }

    /// Whether the current block is an empty block `name` of kind `kind`.
    pub open spec fn at_start_of(self, name: BbName, kind: BbKind) -> bool {
        &&& self.cur_block is Some
        &&& self.cur_block.unwrap().name == name
        &&& self.cur_block.unwrap().kind == kind
        &&& self.cur_block.unwrap().statements@.len() == 0
    }

    /// Whether `after` is `self` with its current block closed and a block
    /// with a fresh name, of the same kind, begun.
    pub open spec fn continued_into(self, after: Self) -> bool {
        &&& self.closed_into(after)
        &&& after.next_block == self.next_block + 1
        &&& after.at_start_of(bb(self.next_block), self.cur_block.unwrap().kind)
    }

    /// Begins a function named `name` whose first block, a regular one, is
    /// the current block.
    pub fn new(name: FnName) -> (f: FunctionBuilder)
        ensures
            f.wf(),
            f.name == name,
            f.locals@.len() == 0,
            f.args@.len() == 0,
            f.ret is None,
            f.blocks@.len() == 0,
            f.start == bb(0),
            f.next_block == 1,
            f.at_start_of(bb(0), BbKind::Regular),
    {
        let start = BbName(Name::from_internal(0));
        FunctionBuilder {
            name,
            locals: Vec::new(),
            args: Vec::new(),
            ret: None,
            blocks: Vec::new(),
            start,
            cur_block: Some(CurBlock { name: start, statements: Vec::new(), kind: BbKind::Regular }),
            next_block: 1,
        }
    }

    /// Hands out a fresh block name.
    pub fn declare_block(&mut self) -> (name: BbName)
        requires
            old(self).next_block < u32::MAX,
        ensures
            name == bb(old(self).next_block),
            final(self).next_block == old(self).next_block + 1,
            final(self).blocks == old(self).blocks,
            final(self).cur_block == old(self).cur_block,
            old(self).same_signature(*final(self)),
            old(self).wf() ==> final(self).wf(),
    {
        let name = BbName(Name::from_internal(self.next_block));
        self.next_block = self.next_block + 1;
        name
    }

    /// Makes the declared block `name` the current block, with no statements.
    pub fn set_cur_block(&mut self, name: BbName, kind: BbKind)
        requires
            old(self).cur_block is None,
        ensures
            final(self).at_start_of(name, kind),
            final(self).next_block == old(self).next_block,
            final(self).blocks == old(self).blocks,
            old(self).same_signature(*final(self)),
            old(self).wf() && name.0.id < old(self).next_block && old(self).is_open(name)
                ==> final(self).wf(),
    {
        self.cur_block = Some(CurBlock { name, statements: Vec::new(), kind });
    }

    /// The kind of the current block.
    pub fn cur_block_kind(&self) -> (kind: BbKind)
        requires
            self.cur_block is Some,
        ensures
            kind == self.cur_block.unwrap().kind,
    {
        match &self.cur_block {
            Some(cur) => cur.kind,
            None => BbKind::Regular,
        }
    }

    /// Whether a block is under construction.
    pub fn has_cur_block(&self) -> (res: bool)
        ensures
            res == (self.cur_block is Some),
    {
        self.cur_block.is_some()
    }

    /// Closes the current block with `terminator`.
    pub fn finish_block(&mut self, terminator: Terminator)
        requires
            old(self).cur_block is Some,
            old(self).is_open(old(self).cur_block.unwrap().name),
        ensures
            old(self).closed_into(*final(self)),
            final(self).last_terminator() == terminator,
            final(self).cur_block is None,
            final(self).next_block == old(self).next_block,
            old(self).wf() ==> final(self).wf(),
    {
        let cur = self.cur_block.take().unwrap();
        let block = BasicBlock { statements: cur.statements, terminator, kind: cur.kind };
        self.blocks.push((cur.name, block));
        proof {
            assert(final(self).blocks@.drop_last() =~= old(self).blocks@);
        }
    }

    /// Appends a statement to the current block.
    pub fn push_statement(&mut self, statement: Statement)
        requires
            old(self).cur_block is Some,
        ensures
            final(self).cur_block is Some,
            final(self).cur_block.unwrap().name == old(self).cur_block.unwrap().name,
            final(self).cur_block.unwrap().kind == old(self).cur_block.unwrap().kind,
            final(self).cur_block.unwrap().statements@ == old(
                self,
            ).cur_block.unwrap().statements@.push(statement),
            final(self).blocks == old(self).blocks,
            final(self).next_block == old(self).next_block,
            old(self).same_signature(*final(self)),
            old(self).wf() ==> final(self).wf(),
    {
        let mut cur = self.cur_block.take().unwrap();
        cur.statements.push(statement);
        self.cur_block = Some(cur);
    }

    /// Declares a local of type `ty` and returns its name.
    pub fn declare_local_with_ty(&mut self, ty: Type) -> (name: LocalName)
        requires
            old(self).locals.len() < u32::MAX,
        ensures
            name.0.id == old(self).locals.len(),
            final(self).locals@ == old(self).locals@.push(ty),
            final(self).blocks == old(self).blocks,
            final(self).cur_block == old(self).cur_block,
            final(self).next_block == old(self).next_block,
            final(self).name == old(self).name,
            final(self).args == old(self).args,
            final(self).ret == old(self).ret,
            final(self).start == old(self).start,
            old(self).wf() ==> final(self).wf(),
    {
        let id = self.locals.len() as u32;
        self.locals.push(ty);
        LocalName(Name::from_internal(id))
    }

    /// Whether `after` is `self` with `statement` appended to the current
    /// block.
    pub open spec fn pushed_into(self, after: Self, statement: Statement) -> bool {
        &&& self.cur_block is Some
        &&& after.cur_block is Some
        &&& after.cur_block.unwrap().name == self.cur_block.unwrap().name
        &&& after.cur_block.unwrap().kind == self.cur_block.unwrap().kind
        &&& after.cur_block.unwrap().statements@ == self.cur_block.unwrap().statements@.push(
            statement,
        )
        &&& after.blocks == self.blocks
        &&& after.next_block == self.next_block
        &&& self.same_signature(after)
    }

    /// Appends the statement that marks the local `name` as live.
    pub fn storage_live(&mut self, name: LocalName)
        requires
            old(self).cur_block is Some,
        ensures
            old(self).pushed_into(*final(self), Statement::StorageLive(name)),
            old(self).wf() ==> final(self).wf(),
    {
        self.push_statement(Statement::StorageLive(name));
    }

    /// Appends the statement that marks the local `name` as dead.
    pub fn storage_dead(&mut self, name: LocalName)
        requires
            old(self).cur_block is Some,
        ensures
            old(self).pushed_into(*final(self), Statement::StorageDead(name)),
            old(self).wf() ==> final(self).wf(),
    {
        self.push_statement(Statement::StorageDead(name));
    }

    /// Appends the assignment of `source` to `destination`.
    pub fn assign(&mut self, destination: PlaceExpr, source: ValueExpr)
        requires
            old(self).cur_block is Some,
        ensures
            old(self).pushed_into(*final(self), Statement::Assign { destination, source }),
            old(self).wf() ==> final(self).wf(),
    {
        self.push_statement(Statement::Assign { destination, source });
    }

    /// Appends the validation of the value at `place`.
    pub fn validate(&mut self, place: PlaceExpr, fn_entry: bool)
        requires
            old(self).cur_block is Some,
        ensures
            old(self).pushed_into(*final(self), Statement::Validate { place, fn_entry }),
            old(self).wf() ==> final(self).wf(),
    {
        self.push_statement(Statement::Validate { place, fn_entry });
    }

    /// Declares a local of the type that `T` stands for and returns its name.
    pub fn declare_local<T: TypeConv>(&mut self) -> (name: LocalName)
        requires
            old(self).locals.len() < u32::MAX,
        ensures
            name.0.id == old(self).locals.len(),
            final(self).locals@.len() == old(self).locals@.len() + 1,
            final(self).locals@.drop_last() == old(self).locals@,
            T::converts_to(final(self).locals@.last()),
            final(self).blocks == old(self).blocks,
            final(self).cur_block == old(self).cur_block,
            final(self).next_block == old(self).next_block,
            old(self).wf() ==> final(self).wf(),
    {
        let name = self.declare_local_with_ty(T::get_type());
        proof {
            assert(final(self).locals@.drop_last() =~= old(self).locals@);
        }
        name
    }

    /// Declares a local of type `ty` that receives the next argument, and
    /// returns its name.
    pub fn declare_arg_with_ty(&mut self, ty: Type) -> (name: LocalName)
        requires
            old(self).locals.len() < u32::MAX,
        ensures
            name.0.id == old(self).locals.len(),
            final(self).locals@ == old(self).locals@.push(ty),
            final(self).args@ == old(self).args@.push(name),
            final(self).blocks == old(self).blocks,
            final(self).cur_block == old(self).cur_block,
            final(self).next_block == old(self).next_block,
            final(self).name == old(self).name,
            final(self).ret == old(self).ret,
            final(self).start == old(self).start,
            old(self).wf() ==> final(self).wf(),
    {
        let name = self.declare_local_with_ty(ty);
        self.args.push(name);
        name
    }

    /// Declares a local of type `ty` that holds the return value, and returns
    /// its name.
    pub fn declare_ret_with_ty(&mut self, ty: Type) -> (name: LocalName)
        requires
            old(self).locals.len() < u32::MAX,
        ensures
            name.0.id == old(self).locals.len(),
            final(self).locals@ == old(self).locals@.push(ty),
            final(self).ret == Some(name),
            final(self).blocks == old(self).blocks,
            final(self).cur_block == old(self).cur_block,
            final(self).next_block == old(self).next_block,
            final(self).name == old(self).name,
            final(self).args == old(self).args,
            final(self).start == old(self).start,
            old(self).wf() ==> final(self).wf(),
    {
        let name = self.declare_local_with_ty(ty);
        self.ret = Some(name);
        name
    }

    /// The function built: its closed blocks in the order in which they were
    /// closed.
    pub fn finish(self) -> (f: Function)
        requires
            self.cur_block is None,
        ensures
            f.locals == self.locals,
            f.args == self.args,
            f.ret == self.ret,
            f.blocks == self.blocks,
            f.start == self.start,
    {
        Function {
            locals: self.locals,
            args: self.args,
            ret: self.ret,
            blocks: self.blocks,
            start: self.start,
        }
    }
}

/// A block of kind `kind` made of `statements` and closed by `terminator`.
pub fn block(statements: Vec<Statement>, terminator: Terminator, kind: BbKind) -> (b: BasicBlock)
    ensures
        b == (BasicBlock { statements, terminator, kind }),
{
    BasicBlock { statements, terminator, kind }
}

/// Whether `named` holds the blocks of `blocks`, each under the name that is
/// its position.
pub open spec fn named_by_position(named: Seq<(BbName, BasicBlock)>, blocks: Seq<BasicBlock>) -> bool {
    &&& named.len() == blocks.len()
    &&& forall|i: int| 0 <= i < blocks.len() ==> (#[trigger] named[i]) == (bb(i as u32), blocks[i])
}

/// A function with the given locals whose blocks are named by their position;
/// it starts at the first block, its first `num_args` locals after the return
/// local receive the arguments, and local 0 holds the return value where
/// `has_ret` is set.
pub fn function(has_ret: bool, num_args: u32, locals: Vec<Type>, blocks: Vec<BasicBlock>) -> (f:
    Function)
    requires
        blocks.len() <= u32::MAX,
        num_args < u32::MAX,
    ensures
        f.locals == locals,
        named_by_position(f.blocks@, blocks@),
        f.start == bb(0),
        f.ret == if has_ret {
            Some(LocalName(Name { id: 0 }))
        } else {
            None
        },
        f.args@.len() == num_args,
        forall|i: int|
            0 <= i < num_args ==> (#[trigger] f.args@[i]).0.id == i + if has_ret {
                1int
            } else {
                0int
            },
{
    let first: u32 = if has_ret {
        1
    } else {
        0
    };
    let mut args: Vec<LocalName> = Vec::new();
    let mut a: u32 = 0;
    while a < num_args
        invariant
            a <= num_args < u32::MAX,
            first <= 1,
            args@.len() == a,
            forall|i: int| 0 <= i < a ==> (#[trigger] args@[i]).0.id == i + first,
        decreases num_args - a,
    {
        args.push(LocalName(Name::from_internal(a + first)));
        a += 1;
    }
    let ghost given = blocks@;
    let mut named: Vec<(BbName, BasicBlock)> = Vec::new();
    let mut rest = blocks;
    let mut i: u32 = 0;
    while rest.len() > 0
        invariant
            given.len() <= u32::MAX,
            i + rest.len() == given.len(),
            named@.len() == i,
            forall|j: int| 0 <= j < i ==> (#[trigger] named@[j]) == (bb(j as u32), given[j]),
            rest@ == given.subrange(i as int, given.len() as int),
        decreases rest.len(),
    {
        let b = rest.remove(0);
        named.push((BbName(Name::from_internal(i)), b));
        i += 1;
    }
    Function {
        locals,
        args,
        ret: if has_ret {
            Some(LocalName(Name::from_internal(0)))
        } else {
            None
        },
        blocks: named,
        start: BbName(Name::from_internal(0)),
    }
}

/// Whether `named` holds the functions of `functions`, each under the name
/// that is its position.
pub open spec fn functions_by_position(
    named: Seq<(FnName, Function)>,
    functions: Seq<Function>,
) -> bool {
    &&& named.len() == functions.len()
    &&& forall|i: int|
        0 <= i < functions.len() ==> (#[trigger] named[i]) == (
            FnName(Name { id: i as u32 }),
            functions[i],
        )
}

/// A program made of `functions`, named by their position, that starts at the
/// first of them.
pub fn program(functions: Vec<Function>) -> (p: Program)
    requires
        functions.len() <= u32::MAX,
    ensures
        functions_by_position(p.functions@, functions@),
        p.start == FnName(Name { id: 0 }),
{
    let ghost given = functions@;
    let mut named: Vec<(FnName, Function)> = Vec::new();
    let mut rest = functions;
    let mut i: u32 = 0;
    while rest.len() > 0
        invariant
            given.len() <= u32::MAX,
            i + rest.len() == given.len(),
            named@.len() == i,
            forall|j: int|
                0 <= j < i ==> (#[trigger] named@[j]) == (FnName(Name { id: j as u32 }), given[j]),
            rest@ == given.subrange(i as int, given.len() as int),
        decreases rest.len(),
    {
        let f = rest.remove(0);
        named.push((FnName(Name::from_internal(i)), f));
        i += 1;
    }
    Program { functions: named, start: FnName(Name::from_internal(0)) }
}

/// A program under construction.
#[derive(Debug, PartialEq, Eq)]
pub struct ProgramBuilder {
    /// The functions finished so far.
    pub functions: Vec<(FnName, Function)>,
    /// The number of the next function name to hand out.
    pub next_fn: u32,
}

impl ProgramBuilder {
    /// A program without functions.
    pub fn new() -> (p: ProgramBuilder)
        ensures
            p.functions@.len() == 0,
            p.next_fn == 0,
    {
        ProgramBuilder { functions: Vec::new(), next_fn: 0 }
    }

    /// Begins a function under a fresh name.
    pub fn declare_function(&mut self) -> (f: FunctionBuilder)
        requires
            old(self).next_fn < u32::MAX,
        ensures
            final(self).next_fn == old(self).next_fn + 1,
            final(self).functions == old(self).functions,
            f.wf(),
            f.name == FnName(Name { id: old(self).next_fn }),
            f.blocks@.len() == 0,
            f.locals@.len() == 0,
            f.next_block == 1,
            f.at_start_of(bb(0), BbKind::Regular),
    {
        let name = FnName(Name::from_internal(self.next_fn));
        self.next_fn = self.next_fn + 1;
        FunctionBuilder::new(name)
    }

    /// Adds the function built by `f` to the program and returns its name.
    pub fn finish_function(&mut self, f: FunctionBuilder) -> (name: FnName)
        requires
            f.cur_block is None,
        ensures
            name == f.name,
            final(self).next_fn == old(self).next_fn,
            final(self).functions@.len() == old(self).functions@.len() + 1,
            final(self).functions@.drop_last() == old(self).functions@,
            final(self).functions@.last().0 == f.name,
            final(self).functions@.last().1.blocks == f.blocks,
            final(self).functions@.last().1.locals == f.locals,
            final(self).functions@.last().1.args == f.args,
            final(self).functions@.last().1.ret == f.ret,
            final(self).functions@.last().1.start == f.start,
    {
        let name = f.name;
        let function = f.finish();
        self.functions.push((name, function));
        proof {
            assert(final(self).functions@.drop_last() =~= old(self).functions@);
        }
        name
    }

    /// The program built, which starts at `start`.
    pub fn finish_program(self, start: FnName) -> (p: Program)
        ensures
            p.functions == self.functions,
            p.start == start,
    {
        Program { functions: self.functions, start }
    }
}

} // verus!
