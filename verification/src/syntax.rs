//! Programs: functions made of basic blocks, each a list of statements closed
//! by a terminator.

use vstd::prelude::*;
use crate::names::{BbName, FnName, LocalName};
use crate::ty::{Int, IntType, PtrType, Type};

verus! {

/// The unwind state a basic block belongs to.
#[derive(Clone, Copy, Debug, PartialEq, Eq, Structural)]
pub enum BbKind {
    /// Ordinary control flow.
    Regular,
    /// Runs while an unwind is in flight.
    Cleanup,
    /// Absorbs an unwind; nothing may unwind out of it.
    Catch,
    /// Reached when an unwind cannot be handled.
    Terminate,
}

#[derive(Clone, Copy, Debug, PartialEq, Eq, Structural)]
pub enum CallingConvention {
    Rust,
    C,
}

#[derive(Clone, Copy, Debug, PartialEq, Eq, Structural)]
pub enum IntBinOp {
    Add,
    Sub,
    Mul,
    Div,
    Rem,
}

#[derive(Clone, Copy, Debug, PartialEq, Eq, Structural)]
pub enum RelOp {
    Lt,
    Le,
    Gt,
    Ge,
    Eq,
    Ne,
}

#[derive(Debug, PartialEq, Eq)]
pub enum CastOp {
    /// Converts an integer to another integer type.
    IntToInt(IntType),
    /// Converts a boolean to 0 or 1 of an integer type.
    BoolToInt(IntType),
    /// Reinterprets the bytes of the operand at another type.
    Transmute(Type),
}

#[derive(Debug, PartialEq, Eq)]
pub enum UnOp {
    Neg,
    Cast(CastOp),
    GetThinPointer,
    GetMetadata,
}

#[derive(Debug, PartialEq, Eq)]
pub enum BinOp {
    Int(IntBinOp),
    Rel(RelOp),
    ConstructWidePointer(PtrType),
}

#[derive(Clone, Copy, Debug, PartialEq, Eq, Structural)]
pub enum Constant {
    Int(Int),
    Bool(bool),
    FnPointer(FnName),
    /// A pointer without provenance that is valid for zero-sized accesses.
    DanglingPointer,
}

#[allow(inconsistent_fields)]
#[derive(Debug, PartialEq, Eq)]
pub enum ValueExpr {
    Constant(Constant, Type),
    Tuple(Vec<ValueExpr>, Type),
    Load { source: Box<PlaceExpr> },
    AddrOf { target: Box<PlaceExpr>, ptr_ty: PtrType },
    UnOp { operator: UnOp, operand: Box<ValueExpr> },
    BinOp { operator: BinOp, left: Box<ValueExpr>, right: Box<ValueExpr> },
}

#[allow(inconsistent_fields)]
#[derive(Debug, PartialEq, Eq)]
pub enum PlaceExpr {
    Local(LocalName),
    Deref { operand: Box<ValueExpr>, ty: Type },
    Field { root: Box<PlaceExpr>, field: u64 },
    Index { root: Box<PlaceExpr>, index: Box<ValueExpr> },
}

#[derive(Debug, PartialEq, Eq)]
pub enum ArgumentExpr {
    ByValue(ValueExpr),
    InPlace(PlaceExpr),
}

#[derive(Debug, PartialEq, Eq)]
pub enum Statement {
    Assign { destination: PlaceExpr, source: ValueExpr },
    PlaceMention(PlaceExpr),
    Validate { place: PlaceExpr, fn_entry: bool },
    StorageLive(LocalName),
    StorageDead(LocalName),
}

#[derive(Clone, Copy, Debug, PartialEq, Eq, Structural)]
pub enum IntrinsicLockOp {
    Create,
    Acquire,
    Release,
}

#[derive(Clone, Copy, Debug, PartialEq, Eq, Structural)]
pub enum IntrinsicOp {
    Assume,
    Exit,
    Abort,
    PrintStdout,
    PrintStderr,
    Allocate,
    Deallocate,
    Spawn,
    Join,
    RawEq,
    AtomicStore,
    AtomicLoad,
    AtomicCompareExchange,
    AtomicFetchAndOp(IntBinOp),
    Lock(IntrinsicLockOp),
    PointerExposeProvenance,
    PointerWithExposedProvenance,
    GetUnwindPayload,
}

#[allow(inconsistent_fields)]
#[derive(Debug, PartialEq, Eq)]
pub enum Terminator {
    Goto(BbName),
    Switch { value: ValueExpr, cases: Vec<(Int, BbName)>, fallback: BbName },
    Unreachable,
    Intrinsic {
        intrinsic: IntrinsicOp,
        arguments: Vec<ValueExpr>,
        ret: PlaceExpr,
        next_block: Option<BbName>,
    },
    Call {
        callee: ValueExpr,
        calling_convention: CallingConvention,
        arguments: Vec<ArgumentExpr>,
        ret: PlaceExpr,
        next_block: Option<BbName>,
        unwind_block: Option<BbName>,
    },
    Return,
    StartUnwind { unwind_payload: ValueExpr, unwind_block: BbName },
    StopUnwind(BbName),
    ResumeUnwind,
}

#[derive(Debug, PartialEq, Eq)]
pub struct BasicBlock {
    pub statements: Vec<Statement>,
    pub terminator: Terminator,
    pub kind: BbKind,
}

#[derive(Debug, PartialEq, Eq)]
pub struct Function {
    /// The types of the locals; a local's name is its position here.
    pub locals: Vec<Type>,
    /// The locals that receive the arguments, in order.
    pub args: Vec<LocalName>,
    /// The local that holds the return value, if the function returns one.
    pub ret: Option<LocalName>,
    /// The blocks under their names; where a name occurs twice, the first holds.
    pub blocks: Vec<(BbName, BasicBlock)>,
    pub start: BbName,
}

#[derive(Debug, PartialEq, Eq)]
pub struct Program {
    pub functions: Vec<(FnName, Function)>,
    pub start: FnName,
}

/// The kind of the first block named `name` at or after position `from`.
pub open spec fn kind_from(blocks: Seq<(BbName, BasicBlock)>, name: BbName, from: int) -> Option<
    BbKind,
>
    decreases blocks.len() - from,
{
    if from < 0 || from >= blocks.len() {
        None
    } else if blocks[from].0 == name {
        Some(blocks[from].1.kind)
    } else {
        kind_from(blocks, name, from + 1)
    }
}

/// The kind of the block that `name` refers to, if there is one.
pub open spec fn kind_of(blocks: Seq<(BbName, BasicBlock)>, name: BbName) -> Option<BbKind> {
    kind_from(blocks, name, 0)
}

/// Looks up the kind of the block that `name` refers to.
pub fn block_kind(blocks: &Vec<(BbName, BasicBlock)>, name: BbName) -> (res: Option<BbKind>)
    ensures
        res == kind_of(blocks@, name),
{
    let mut i: usize = 0;
    while i < blocks.len()
        invariant
            i <= blocks.len(),
            kind_of(blocks@, name) == kind_from(blocks@, name, i as int),
        decreases blocks.len() - i,
    {
        if blocks[i].0 == name {
            return Some(blocks[i].1.kind);
        }
        i += 1;
    }
    None
}

/// No block named `name` means no kind, and a kind means some block has it.
pub proof fn lemma_kind_of_some(blocks: Seq<(BbName, BasicBlock)>, name: BbName, from: int)
    requires
        0 <= from,
    ensures
        kind_from(blocks, name, from) is Some <==> exists|i: int|
            from <= i < blocks.len() && (#[trigger] blocks[i]).0 == name,
    decreases blocks.len() - from,
{
    if from < blocks.len() {
        if blocks[from].0 == name {
        } else {
            lemma_kind_of_some(blocks, name, from + 1);
        }
    }
}

} // verus!
