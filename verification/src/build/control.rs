//! Builder methods that lay out branches: each branch is a caller's closure
//! that fills the block it is given.

use vstd::prelude::*;
use crate::build::expr::{bool_to_int, is_bool_to_int};
use crate::build::function::{CurBlock, FunctionBuilder};
use crate::names::{bb, BbName};
use crate::syntax::{kind_from, kind_of, BasicBlock, BbKind, Terminator, ValueExpr};
use crate::ty::Int;

verus! {

/// Whether the block at position `at` of `blocks` is the block `cur` closed
/// with a jump to `target`.
pub open spec fn jumps_at(
    blocks: Seq<(BbName, BasicBlock)>,
    at: int,
    cur: CurBlock,
    target: BbName,
) -> bool {
    &&& 0 <= at < blocks.len()
    &&& blocks[at].0 == cur.name
    &&& blocks[at].1.statements == cur.statements
    &&& blocks[at].1.kind == cur.kind
    &&& blocks[at].1.terminator == Terminator::Goto(target)
}

/// Whether `blocks` holds a block named `name` of kind `kind`.
pub open spec fn closed_with_kind(blocks: Seq<(BbName, BasicBlock)>, name: BbName, kind: BbKind) -> bool {
    exists|i: int| 0 <= i < blocks.len() && (#[trigger] blocks[i]).0 == name && blocks[i].1.kind == kind
}

/// Whether `blocks` holds a block named `name` of kind `kind` that has no
/// statements and jumps to `target`.
pub open spec fn jumps_from(
    blocks: Seq<(BbName, BasicBlock)>,
    name: BbName,
    kind: BbKind,
    target: BbName,
) -> bool {
    exists|i: int|
        0 <= i < blocks.len() && (#[trigger] blocks[i]).0 == name && blocks[i].1.kind == kind
            && blocks[i].1.statements@.len() == 0 && blocks[i].1.terminator == Terminator::Goto(
            target,
        )
}

/// Whether a block of `blocks` at a position behind `behind` jumps to `target`.
pub open spec fn jumps_to(blocks: Seq<(BbName, BasicBlock)>, behind: int, target: BbName) -> bool {
    exists|i: int|
        behind < i < blocks.len() && (#[trigger] blocks[i]).1.terminator == Terminator::Goto(target)
}

/// Whether `longer` begins with `shorter`.
pub open spec fn begins_with(longer: Seq<(BbName, BasicBlock)>, shorter: Seq<(BbName, BasicBlock)>) -> bool {
    shorter.len() <= longer.len() && longer.subrange(0, shorter.len() as int) == shorter
}

/// A list that begins with a second, which begins with a third, begins with
/// the third.
pub proof fn lemma_begins_with_trans(
    a: Seq<(BbName, BasicBlock)>,
    b: Seq<(BbName, BasicBlock)>,
    c: Seq<(BbName, BasicBlock)>,
)
    requires
        begins_with(a, b),
        begins_with(b, c),
    ensures
        begins_with(a, c),
        forall|i: int| 0 <= i < b.len() ==> a[i] == b[i],
{
    assert forall|i: int| 0 <= i < b.len() implies a[i] == b[i] by {
        assert(a.subrange(0, b.len() as int)[i] == a[i]);
    }
    assert forall|i: int| 0 <= i < c.len() implies a[i] == c[i] by {
        assert(b.subrange(0, c.len() as int)[i] == b[i]);
    }
    assert(a.subrange(0, c.len() as int) =~= c);
}

/// A block that is closed stays closed when more blocks are.
pub proof fn lemma_closed_with_kind_extends(
    blocks: Seq<(BbName, BasicBlock)>,
    more: Seq<(BbName, BasicBlock)>,
    name: BbName,
    kind: BbKind,
)
    requires
        closed_with_kind(blocks, name, kind),
        begins_with(more, blocks),
    ensures
        closed_with_kind(more, name, kind),
{
    let i = choose|i: int|
        0 <= i < blocks.len() && (#[trigger] blocks[i]).0 == name && blocks[i].1.kind == kind;
    assert(more.subrange(0, blocks.len() as int)[i] == more[i]);
}

/// A jump that is there stays there when more blocks are closed.
pub proof fn lemma_jumps_to_extends(
    blocks: Seq<(BbName, BasicBlock)>,
    more: Seq<(BbName, BasicBlock)>,
    behind: int,
    target: BbName,
)
    requires
        -1 <= behind,
        jumps_to(blocks, behind, target),
        begins_with(more, blocks),
    ensures
        jumps_to(more, behind, target),
{
    let i = choose|i: int|
        behind < i < blocks.len() && (#[trigger] blocks[i]).1.terminator == Terminator::Goto(
            target,
        );
    assert(more.subrange(0, blocks.len() as int)[i] == more[i]);
}

/// Among blocks with pairwise distinct names, the kind found under the name
/// of a block is the kind of that block.
pub proof fn lemma_kind_of_closed(blocks: Seq<(BbName, BasicBlock)>, name: BbName, kind: BbKind)
    requires
        forall|i: int, j: int|
            0 <= i < j < blocks.len() ==> (#[trigger] blocks[i]).0 != (#[trigger] blocks[j]).0,
        closed_with_kind(blocks, name, kind),
    ensures
        kind_of(blocks, name) == Some(kind),
{
    let i = choose|i: int|
        0 <= i < blocks.len() && (#[trigger] blocks[i]).0 == name && blocks[i].1.kind == kind;
    lemma_kind_from_first(blocks, name, 0, i);
}

/// The kind found from `from` on is that of the first block of that name.
pub proof fn lemma_kind_from_first(blocks: Seq<(BbName, BasicBlock)>, name: BbName, from: int, at: int)
    requires
        0 <= from <= at < blocks.len(),
        blocks[at].0 == name,
        forall|j: int| from <= j < at ==> (#[trigger] blocks[j]).0 != name,
    ensures
        kind_from(blocks, name, from) == Some(blocks[at].1.kind),
    decreases at - from,
{
    if from < at {
        lemma_kind_from_first(blocks, name, from + 1, at);
    }
}

impl FunctionBuilder {
    /// Whether a block named `name` may be closed from this state on: it is
    /// the current block, or its name has not been handed out yet.
    pub open spec fn may_close(self, name: BbName) -> bool {
        ||| self.cur_block is Some && name == self.cur_block.unwrap().name
        ||| name.0.id >= self.next_block
    }

    /// Whether `after` is reached from `self` by building on: the closed
    /// blocks of `self` come first in `after`, every block closed since bears
    /// a name that might be closed, and so does the current block of `after`.
    pub open spec fn extended_into(self, after: Self) -> bool {
        &&& after.wf()
        &&& after.name == self.name
        &&& after.start == self.start
        &&& after.next_block >= self.next_block
        &&& after.blocks@.len() >= self.blocks@.len()
        &&& after.blocks@.subrange(0, self.blocks@.len() as int) == self.blocks@
        &&& forall|i: int|
            self.blocks@.len() <= i < after.blocks@.len() ==> self.may_close(
                (#[trigger] after.blocks@[i]).0,
            )
        &&& after.cur_block is Some ==> self.may_close(after.cur_block.unwrap().name)
    }

    /// What a branch is given: a well-formed builder with a current block.
    pub open spec fn branch_entry(self) -> bool {
        self.can_finish()
    }

    /// Whether the current block of `self` is still the current block of
    /// `after`, or is among the blocks closed since, with its kind either way.
    pub open spec fn given_block_kept(self, after: Self) -> bool {
        &&& self.cur_block is Some
        &&& {
            ||| after.cur_block is Some && after.cur_block.unwrap().name
                == self.cur_block.unwrap().name && after.cur_block.unwrap().kind
                == self.cur_block.unwrap().kind
            ||| exists|i: int|
                self.blocks@.len() <= i < after.blocks@.len() && (#[trigger] after.blocks@[i]).0
                    == self.cur_block.unwrap().name && after.blocks@[i].1.kind
                    == self.cur_block.unwrap().kind
        }
    }

    /// What a branch leaves: a builder that was built on, in which the block
    /// that the branch was given is closed or still current, and that, where
    /// the branch took block names, has one to spare.
    pub open spec fn branch_exit(self, after: Self) -> bool {
        &&& self.extended_into(after)
        &&& self.given_block_kept(after)
        &&& after.next_block == self.next_block || after.next_block < u32::MAX
    }

    /// The cases of the switch that closes the block at position `at`.
    pub open spec fn switch_cases_at(self, at: int) -> Seq<(Int, BbName)> {
        self.blocks@[at].1.terminator->Switch_cases@
    }

    /// The name of the current block, if there is one.
    pub open spec fn cur_name(self) -> Option<BbName> {
        match self.cur_block {
            Some(cur) => Some(cur.name),
            None => None,
        }
    }

    /// Whether `blocks` holds what a branch built that was entered in the
    /// state `self`, at the start of the block `block` of kind `kind`, and
    /// that left the state `exit`: the closed blocks of `exit` come first,
    /// and where `exit` has a current block, that block follows them, closed
    /// with a jump to the block `join`.
    pub open spec fn built_by(
        self,
        exit: Self,
        block: BbName,
        kind: BbKind,
        blocks: Seq<(BbName, BasicBlock)>,
        join: Option<BbName>,
    ) -> bool {
        &&& self.wf()
        &&& self.at_start_of(block, kind)
        &&& begins_with(blocks, exit.blocks@)
        &&& exit.cur_block is Some ==> join is Some && jumps_at(
            blocks,
            exit.blocks@.len() as int,
            exit.cur_block.unwrap(),
            join.unwrap(),
        )
    }

    /// What was built stays built when more blocks are closed and a join
    /// block, once there, stays the same.
    pub proof fn lemma_built_by_extends(
        self,
        exit: Self,
        block: BbName,
        kind: BbKind,
        blocks: Seq<(BbName, BasicBlock)>,
        join: Option<BbName>,
        more: Seq<(BbName, BasicBlock)>,
        later: Option<BbName>,
    )
        requires
            self.built_by(exit, block, kind, blocks, join),
            begins_with(more, blocks),
            join is Some ==> later == join,
        ensures
            self.built_by(exit, block, kind, more, later),
    {
        lemma_begins_with_trans(more, blocks, exit.blocks@);
    }

    /// Fills the declared block `block`, of kind `kind`, by `branch`. Where
    /// the branch leaves a block unfinished, that block jumps to the block
    /// `join`, which is declared for it where there is none yet. Returns the
    /// join block, if there is one now.
    fn run_branch<F: Fn(&mut FunctionBuilder)>(
        &mut self,
        block: BbName,
        kind: BbKind,
        branch: &F,
        join: Option<BbName>,
    ) -> (res: Option<BbName>)
        requires
            old(self).wf(),
            old(self).cur_block is None,
            join is None ==> old(self).next_block < u32::MAX,
            block.0.id < old(self).next_block,
            old(self).is_open(block),
            join is Some ==> join.unwrap().0.id < old(self).next_block && old(self).is_open(
                join.unwrap(),
            ) && join.unwrap() != block,
            forall|b: &mut FunctionBuilder| b.branch_entry() ==> #[trigger] call_requires(*branch, (b,)),
            forall|b: &mut FunctionBuilder| #[trigger]
                call_ensures(*branch, (b,), ()) ==> b.branch_exit(*final(b)),
        ensures
            final(self).wf(),
            final(self).cur_block is None,
            res is None ==> final(self).next_block < u32::MAX,
            final(self).next_block >= old(self).next_block,
            final(self).name == old(self).name,
            final(self).start == old(self).start,
            final(self).blocks@.len() >= old(self).blocks@.len(),
            final(self).blocks@.subrange(0, old(self).blocks@.len() as int) == old(self).blocks@,
            forall|name: BbName|
                old(self).is_open(name) && name != block && name.0.id < old(self).next_block
                    ==> final(self).is_open(name),
            join is Some ==> res == join,
            res is Some ==> res.unwrap().0.id < final(self).next_block && final(self).is_open(
                res.unwrap(),
            ) && res.unwrap() != block,
            res is Some && join is None ==> res.unwrap().0.id >= old(self).next_block,
            exists|b: &mut FunctionBuilder| #[trigger]
                call_ensures(*branch, (b,), ()) && b.blocks == old(self).blocks && b.built_by(
                    *final(b),
                    block,
                    kind,
                    final(self).blocks@,
                    res,
                ),
            closed_with_kind(final(self).blocks@, block, kind),
            (forall|b: &mut FunctionBuilder| #[trigger]
                call_ensures(*branch, (b,), ()) ==> final(b).cur_block is Some) ==> res is Some,
            (forall|b: &mut FunctionBuilder| #[trigger]
                call_ensures(*branch, (b,), ()) ==> final(b).cur_block is None) ==> res == join,
            res is Some && join is None ==> final(self).blocks@.len() > old(self).blocks@.len()
                && final(self).blocks@.last().1.terminator == Terminator::Goto(res.unwrap()),
    {
        self.set_cur_block(block, kind);
        let ghost entry = *self;
        (*branch)(self);
        let ghost exit = *self;
        assert(exists|b: &mut FunctionBuilder| #[trigger]
            call_ensures(*branch, (b,), ()) && *b == entry && *final(b) == exit);
        proof {
            assert forall|name: BbName|
                old(self).is_open(name) && name != block && name.0.id < old(
                    self,
                ).next_block implies exit.is_open(name) by {
                assert forall|i: int| 0 <= i < exit.blocks.len() implies (#[trigger] exit.blocks[i]).0
                    != name by {
                    if i < entry.blocks.len() {
                        assert(exit.blocks@.subrange(0, entry.blocks@.len() as int)[i]
                            == exit.blocks[i]);
                    } else {
                        assert(entry.may_close(exit.blocks@[i].0));
                    }
                }
            }
        }
        if self.has_cur_block() {
            let target = match join {
                Some(j) => j,
                None => self.declare_block(),
            };
            let ghost before = *self;
            self.goto(target);
            proof {
                assert forall|name: BbName|
                    old(self).is_open(name) && name != block && name.0.id < old(
                        self,
                    ).next_block implies self.is_open(name) by {
                    assert(exit.is_open(name));
                    assert forall|i: int| 0 <= i < self.blocks.len() implies (
                    #[trigger] self.blocks[i]).0 != name by {
                        if i < before.blocks.len() {
                            assert(self.blocks@.drop_last()[i] == self.blocks[i]);
                        }
                    }
                }
                assert(self.is_open(target)) by {
                    assert forall|i: int| 0 <= i < self.blocks.len() implies (
                    #[trigger] self.blocks[i]).0 != target by {
                        if i < before.blocks.len() {
                            assert(self.blocks@.drop_last()[i] == self.blocks[i]);
                            if join is Some {
                                assert(exit.is_open(target));
                            }
                        }
                    }
                }
                assert(self.blocks@.subrange(0, old(self).blocks@.len() as int) =~= old(
                    self,
                ).blocks@) by {
                    assert forall|i: int| 0 <= i < old(self).blocks@.len() implies self.blocks@[i]
                        == old(self).blocks@[i] by {
                        assert(self.blocks@.drop_last()[i] == self.blocks[i]);
                        assert(exit.blocks@.subrange(0, entry.blocks@.len() as int)[i]
                            == exit.blocks[i]);
                    }
                }
            }
            proof {
                assert(self.blocks@.subrange(0, exit.blocks@.len() as int) =~= exit.blocks@);
                assert(self.blocks@.last() == self.blocks@[exit.blocks@.len() as int]);
                assert(entry.built_by(exit, block, kind, self.blocks@, Some(target)));
            }
            Some(target)
        } else {
            proof {
                assert(self.blocks@.subrange(0, exit.blocks@.len() as int) =~= exit.blocks@);
                assert(entry.built_by(exit, block, kind, self.blocks@, join));
            }
            join
        }
    }

    /// Whether the block that closes `self` is the block at its place in
    /// `after` and the blocks closed before it are unchanged.
    pub open spec fn closed_within(self, after: Self) -> bool {
        &&& self.cur_block is Some
        &&& after.blocks@.len() > self.blocks@.len()
        &&& after.blocks@.subrange(0, self.blocks@.len() as int) == self.blocks@
        &&& after.blocks@[self.blocks@.len() as int].0 == self.cur_block.unwrap().name
        &&& after.blocks@[self.blocks@.len() as int].1.statements
            == self.cur_block.unwrap().statements
        &&& after.blocks@[self.blocks@.len() as int].1.kind == self.cur_block.unwrap().kind
    }

    /// Fills the declared blocks `blocks[from..]`, each by the closure of its
    /// case, in order; see [`FunctionBuilder::run_branch`]. Returns the join
    /// block, if there is one now.
    fn run_cases<F: Fn(&mut FunctionBuilder)>(
        &mut self,
        blocks: &Vec<BbName>,
        cases: &Vec<(Int, F)>,
        from: usize,
        kind: BbKind,
        join: Option<BbName>,
    ) -> (res: Option<BbName>)
        requires
            from <= cases.len(),
            blocks@.len() == cases@.len(),
            old(self).wf(),
            old(self).cur_block is None,
            join is None ==> old(self).next_block < u32::MAX,
            forall|j: int|
                from <= j < blocks@.len() ==> (#[trigger] blocks@[j]).0.id < old(self).next_block
                    && old(self).is_open(blocks@[j]),
            forall|i: int, j: int|
                from <= i < j < blocks@.len() ==> (#[trigger] blocks@[i]) != (#[trigger] blocks@[j]),
            join is Some ==> join.unwrap().0.id < old(self).next_block && old(self).is_open(
                join.unwrap(),
            ) && forall|j: int| from <= j < blocks@.len() ==> (#[trigger] blocks@[j]) != join.unwrap(),
            forall|i: int, b: &mut FunctionBuilder|
                0 <= i < cases.len() && b.branch_entry() ==> #[trigger] call_requires(
                    cases[i].1,
                    (b,),
                ),
            forall|i: int, b: &mut FunctionBuilder|
                0 <= i < cases.len() && #[trigger] call_ensures(cases[i].1, (b,), ())
                    ==> b.branch_exit(*final(b)),
        ensures
            final(self).wf(),
            final(self).cur_block is None,
            res is None ==> final(self).next_block < u32::MAX,
            final(self).next_block >= old(self).next_block,
            final(self).name == old(self).name,
            final(self).start == old(self).start,
            begins_with(final(self).blocks@, old(self).blocks@),
            forall|name: BbName|
                old(self).is_open(name) && name.0.id < old(self).next_block && (forall|j: int|
                    from <= j < blocks@.len() ==> (#[trigger] blocks@[j]) != name) ==> final(self).is_open(name),
            join is Some ==> res == join,
            res is Some ==> res.unwrap().0.id < final(self).next_block && final(self).is_open(
                res.unwrap(),
            ),
            res is Some && join is None ==> res.unwrap().0.id >= old(self).next_block && jumps_to(
                final(self).blocks@,
                old(self).blocks@.len() - 1,
                res.unwrap(),
            ),
            forall|j: int|
                from <= j < blocks@.len() ==> closed_with_kind(
                    final(self).blocks@,
                    #[trigger] blocks@[j],
                    kind,
                ) && (exists|b: &mut FunctionBuilder| #[trigger]
                    call_ensures(cases@[j].1, (b,), ()) && b.built_by(
                        *final(b),
                        blocks@[j],
                        kind,
                        final(self).blocks@,
                        res,
                    )) && ((forall|b: &mut FunctionBuilder| #[trigger]
                    call_ensures(cases@[j].1, (b,), ()) ==> final(b).cur_block is Some) ==> res
                    is Some),
            (forall|j: int, b: &mut FunctionBuilder|
                from <= j < cases@.len() && #[trigger] call_ensures(cases@[j].1, (b,), ())
                    ==> final(b).cur_block is None) ==> res == join,
        decreases cases.len() - from,
    {
        if from < cases.len() {
            assert(old(self).is_open(blocks@[from as int]));
            let first = self.run_branch(blocks[from], kind, &cases[from].1, join);
            let ghost mid = *self;
            proof {
                assert(begins_with(mid.blocks@, old(self).blocks@));
                assert forall|j: int| from + 1 <= j < blocks@.len() implies (
                #[trigger] blocks@[j]).0.id < mid.next_block && mid.is_open(blocks@[j]) by {
                    assert(blocks@[from as int] != blocks@[j]);
                }
                if first is Some {
                    assert forall|j: int| from + 1 <= j < blocks@.len() implies (
                    #[trigger] blocks@[j]) != first.unwrap() by {}
                }
            }
            let res = self.run_cases(blocks, cases, from + 1, kind, first);
            proof {
                lemma_begins_with_trans(self.blocks@, mid.blocks@, old(self).blocks@);
                assert forall|name: BbName|
                    old(self).is_open(name) && name.0.id < old(self).next_block && (forall|j: int|
                        from <= j < blocks@.len() ==> (#[trigger] blocks@[j]) != name) implies self.is_open(
                    name,
                ) by {
                    assert(blocks@[from as int] != name);
                    assert(mid.is_open(name));
                }
                assert forall|entry: FunctionBuilder, exit: FunctionBuilder, blk: BbName| #[trigger]
                    entry.built_by(exit, blk, kind, mid.blocks@, first) implies entry.built_by(
                    exit,
                    blk,
                    kind,
                    self.blocks@,
                    res,
                ) by {
                    entry.lemma_built_by_extends(
                        exit,
                        blk,
                        kind,
                        mid.blocks@,
                        first,
                        self.blocks@,
                        res,
                    );
                }
                lemma_closed_with_kind_extends(
                    mid.blocks@,
                    self.blocks@,
                    blocks@[from as int],
                    kind,
                );
                assert(cases@[from as int].1 == cases[from as int].1);
                if res is Some && join is None {
                    if first is Some {
                        assert(mid.blocks@.last() == mid.blocks@[mid.blocks@.len() - 1]);
                        assert(jumps_to(mid.blocks@, old(self).blocks@.len() - 1, first.unwrap()));
                        lemma_jumps_to_extends(
                            mid.blocks@,
                            self.blocks@,
                            old(self).blocks@.len() - 1,
                            res.unwrap(),
                        );
                    } else {
                        let i = choose|i: int|
                            mid.blocks@.len() - 1 < i < self.blocks@.len() && (
                            #[trigger] self.blocks@[i]).1.terminator == Terminator::Goto(
                                res.unwrap(),
                            );
                        assert(jumps_to(
                            self.blocks@,
                            old(self).blocks@.len() - 1,
                            res.unwrap(),
                        ));
                    }
                }
            }
            res
        } else {
            proof {
                assert(self.blocks@.subrange(0, self.blocks@.len() as int) =~= self.blocks@);
            }
            join
        }
    }

    /// Closes the current block with a switch on `value` and builds one block
    /// for each case, in order, and one for the fallback, each filled by its
    /// closure. The blocks get the next block names in that order. A branch
    /// that leaves a block unfinished jumps to a common block behind the
    /// switch, which then becomes the current block; where every branch
    /// finishes its blocks, there is no current block afterwards.
    pub fn switch_int<F: Fn(&mut FunctionBuilder), G: Fn(&mut FunctionBuilder)>(
        &mut self,
        value: ValueExpr,
        cases: &Vec<(Int, F)>,
        fallback: G,
    )
        requires
            old(self).can_finish(),
            old(self).next_block + cases.len() + 1 < u32::MAX,
            forall|i: int, b: &mut FunctionBuilder|
                0 <= i < cases.len() && b.branch_entry() ==> #[trigger] call_requires(
                    cases[i].1,
                    (b,),
                ),
            forall|i: int, b: &mut FunctionBuilder|
                0 <= i < cases.len() && #[trigger] call_ensures(cases[i].1, (b,), ())
                    ==> b.branch_exit(*final(b)),
            forall|b: &mut FunctionBuilder|
                b.branch_entry() ==> #[trigger] call_requires(fallback, (b,)),
            forall|b: &mut FunctionBuilder| #[trigger]
                call_ensures(fallback, (b,), ()) ==> b.branch_exit(*final(b)),
        ensures
            final(self).wf(),
            final(self).name == old(self).name,
            final(self).start == old(self).start,
            old(self).closed_within(*final(self)),
            final(self).blocks@[old(self).blocks@.len() as int].1.terminator matches Terminator::Switch {
                value: v,
                cases: c,
                fallback: f,
            } && v == value && c@.len() == cases@.len() && (forall|i: int|
                0 <= i < cases@.len() ==> (#[trigger] c@[i]) == (
                    cases@[i].0,
                    bb((old(self).next_block + i) as u32),
                )) && f == bb((old(self).next_block + cases@.len()) as u32),
            final(self).cur_block is Some ==> final(self).at_start_of(
                final(self).cur_block.unwrap().name,
                old(self).cur_block.unwrap().kind,
            ) && final(self).cur_block.unwrap().name.0.id > old(self).next_block + cases@.len(),
            final(self).next_block > old(self).next_block + cases@.len(),
            forall|i: int|
                0 <= i <= cases@.len() ==> kind_of(
                    final(self).blocks@,
                    #[trigger] bb((old(self).next_block + i) as u32),
                ) == Some(old(self).cur_block.unwrap().kind),
            forall|i: int|
                0 <= i < cases@.len() ==> final(self).switch_cases_at(
                    old(self).blocks@.len() as int,
                )[i] == ((#[trigger] cases@[i]).0, bb((old(self).next_block + i) as u32))
                    && closed_with_kind(
                    final(self).blocks@,
                    bb((old(self).next_block + i) as u32),
                    old(self).cur_block.unwrap().kind,
                ) && (exists|b: &mut FunctionBuilder| #[trigger]
                    call_ensures(cases@[i].1, (b,), ()) && b.built_by(
                        *final(b),
                        bb((old(self).next_block + i) as u32),
                        old(self).cur_block.unwrap().kind,
                        final(self).blocks@,
                        final(self).cur_name(),
                    )) && ((forall|b: &mut FunctionBuilder| #[trigger]
                    call_ensures(cases@[i].1, (b,), ()) ==> final(b).cur_block is Some) ==> final(self).cur_block is Some),
            exists|b: &mut FunctionBuilder| #[trigger]
                call_ensures(fallback, (b,), ()) && b.built_by(
                    *final(b),
                    bb((old(self).next_block + cases@.len()) as u32),
                    old(self).cur_block.unwrap().kind,
                    final(self).blocks@,
                    final(self).cur_name(),
                ),
            (forall|b: &mut FunctionBuilder| #[trigger]
                call_ensures(fallback, (b,), ()) ==> final(b).cur_block is Some) ==> final(self).cur_block is Some,
            (forall|i: int, b: &mut FunctionBuilder|
                0 <= i < cases@.len() && #[trigger] call_ensures(cases@[i].1, (b,), ()) ==> final(b).cur_block is None) && (forall|b: &mut FunctionBuilder| #[trigger]
                call_ensures(fallback, (b,), ()) ==> final(b).cur_block is None) ==> final(self).cur_block is None,
            final(self).cur_block is Some ==> jumps_to(
                final(self).blocks@,
                old(self).blocks@.len() as int,
                final(self).cur_block.unwrap().name,
            ),
    {
        let block_kind = self.cur_block_kind();
        let ghost first = self.next_block;
        let mut edges: Vec<(Int, BbName)> = Vec::new();
        let mut i: usize = 0;
        while i < cases.len()
            invariant
                i <= cases.len(),
                first + cases.len() + 1 < u32::MAX,
                self.next_block == first + i,
                self.wf(),
                self.blocks == old(self).blocks,
                self.cur_block == old(self).cur_block,
                old(self).same_signature(*self),
                edges@.len() == i,
                forall|j: int|
                    0 <= j < i ==> (#[trigger] edges@[j]) == (cases@[j].0, bb((first + j) as u32)),
            decreases cases.len() - i,
        {
            let block = self.declare_block();
            edges.push((cases[i].0, block));
            i += 1;
        }
        let fallback_block = self.declare_block();
        let ghost edge_names = edges@;
        let mut blocks: Vec<BbName> = Vec::new();
        let mut c: usize = 0;
        while c < edges.len()
            invariant
                c <= edges.len(),
                blocks@.len() == c,
                forall|j: int| 0 <= j < c ==> (#[trigger] blocks@[j]) == edges@[j].1,
            decreases edges.len() - c,
        {
            blocks.push(edges[c].1);
            c += 1;
        }
        self.finish_block(Terminator::Switch { value, cases: edges, fallback: fallback_block });
        let ghost switched = *self;
        proof {
            assert(switched.blocks@.subrange(0, old(self).blocks@.len() as int) =~= old(
                self,
            ).blocks@) by {
                assert forall|j: int| 0 <= j < old(self).blocks@.len() implies switched.blocks@[j]
                    == old(self).blocks@[j] by {
                    assert(switched.blocks@.drop_last()[j] == switched.blocks@[j]);
                }
            }
            assert forall|j: int| 0 <= j <= cases.len() implies switched.is_open(
                #[trigger] bb((first + j) as u32),
            ) by {
                assert forall|k: int| 0 <= k < switched.blocks.len() implies (
                #[trigger] switched.blocks[k]).0 != bb((first + j) as u32) by {
                    if k < old(self).blocks.len() {
                        assert(switched.blocks@.drop_last()[k] == switched.blocks@[k]);
                        assert(old(self).blocks[k].0.0.id < first);
                    }
                }
            }
        }
        let after_cases = self.run_cases(&blocks, cases, 0, block_kind, None);
        let ghost before = *self;
        proof {
            lemma_begins_with_trans(before.blocks@, switched.blocks@, old(self).blocks@);
            assert(before.is_open(fallback_block)) by {
                assert(switched.is_open(bb((first + cases.len()) as u32)));
                assert forall|j: int| 0 <= j < cases.len() implies (#[trigger] blocks@[j])
                    != fallback_block by {}
            }
        }
        let join = self.run_branch(fallback_block, block_kind, &fallback, after_cases);
        proof {
            lemma_begins_with_trans(self.blocks@, before.blocks@, switched.blocks@);
            lemma_begins_with_trans(self.blocks@, switched.blocks@, old(self).blocks@);
            assert(switched.blocks@.last() == switched.blocks@[old(self).blocks@.len() as int]);
            assert(self.blocks@[old(self).blocks@.len() as int] == switched.blocks@.last());
            assert forall|entry: FunctionBuilder, exit: FunctionBuilder, blk: BbName| #[trigger]
                entry.built_by(
                    exit,
                    blk,
                    block_kind,
                    before.blocks@,
                    after_cases,
                ) implies entry.built_by(exit, blk, block_kind, self.blocks@, join) by {
                entry.lemma_built_by_extends(
                    exit,
                    blk,
                    block_kind,
                    before.blocks@,
                    after_cases,
                    self.blocks@,
                    join,
                );
            }
            let targets = self.switch_cases_at(old(self).blocks@.len() as int);
            assert forall|j: int| 0 <= j < cases.len() implies closed_with_kind(
                self.blocks@,
                (#[trigger] targets[j]).1,
                block_kind,
            ) && (exists|b: &mut FunctionBuilder| #[trigger]
                call_ensures(cases@[j].1, (b,), ()) && b.built_by(
                    *final(b),
                    targets[j].1,
                    block_kind,
                    self.blocks@,
                    join,
                )) && ((forall|b: &mut FunctionBuilder| #[trigger]
                call_ensures(cases@[j].1, (b,), ()) ==> final(b).cur_block is Some) ==> join
                is Some) by {
                assert(targets[j].1 == blocks@[j]);
                lemma_closed_with_kind_extends(
                    before.blocks@,
                    self.blocks@,
                    blocks@[j],
                    block_kind,
                );
            }
            assert forall|j: int| 0 <= j <= cases.len() implies kind_of(
                self.blocks@,
                #[trigger] bb((first + j) as u32),
            ) == Some(block_kind) by {
                if j < cases.len() {
                    assert(blocks@[j] == bb((first + j) as u32));
                    lemma_closed_with_kind_extends(
                        before.blocks@,
                        self.blocks@,
                        bb((first + j) as u32),
                        block_kind,
                    );
                }
                lemma_kind_of_closed(self.blocks@, bb((first + j) as u32), block_kind);
            }
            if after_cases is Some {
                lemma_jumps_to_extends(
                    before.blocks@,
                    self.blocks@,
                    old(self).blocks@.len() as int,
                    join.unwrap(),
                );
            } else if join is Some {
                assert(self.blocks@.last() == self.blocks@[self.blocks@.len() - 1]);
            }
        }
        let ghost done = *self;
        if let Some(after_switch_block) = join {
            self.set_cur_block(after_switch_block, block_kind);
        }
        proof {
            assert(self.blocks@ == done.blocks@);
            assert(self.cur_name() == join);
            let targets = self.switch_cases_at(old(self).blocks@.len() as int);
            assert(block_kind == old(self).cur_block.unwrap().kind);
            assert forall|i: int| 0 <= i < cases@.len() implies self.switch_cases_at(
                old(self).blocks@.len() as int,
            )[i] == ((#[trigger] cases@[i]).0, bb((old(self).next_block + i) as u32))
                && closed_with_kind(
                self.blocks@,
                bb((old(self).next_block + i) as u32),
                old(self).cur_block.unwrap().kind,
            ) && (exists|b: &mut FunctionBuilder| #[trigger]
                call_ensures(cases@[i].1, (b,), ()) && b.built_by(
                    *final(b),
                    bb((old(self).next_block + i) as u32),
                    old(self).cur_block.unwrap().kind,
                    self.blocks@,
                    self.cur_name(),
                )) by {
                let j = i;
                assert(bb((old(self).next_block + i) as u32) == blocks@[j]);
                lemma_closed_with_kind_extends(
                    before.blocks@,
                    self.blocks@,
                    blocks@[j],
                    block_kind,
                );
            }
        }
    }

    /// Closes the current block with a switch on `condition` and builds the
    /// block of `then_branch`, which gets the next block name, and the block
    /// of `else_branch`, which gets the one after; see
    /// [`FunctionBuilder::switch_int`].
    pub fn if_<F: Fn(&mut FunctionBuilder), G: Fn(&mut FunctionBuilder)>(
        &mut self,
        condition: ValueExpr,
        then_branch: F,
        else_branch: G,
    )
        requires
            old(self).can_finish(),
            old(self).next_block + 2 < u32::MAX,
            forall|b: &mut FunctionBuilder|
                b.branch_entry() ==> #[trigger] call_requires(then_branch, (b,)),
            forall|b: &mut FunctionBuilder| #[trigger]
                call_ensures(then_branch, (b,), ()) ==> b.branch_exit(*final(b)),
            forall|b: &mut FunctionBuilder|
                b.branch_entry() ==> #[trigger] call_requires(else_branch, (b,)),
            forall|b: &mut FunctionBuilder| #[trigger]
                call_ensures(else_branch, (b,), ()) ==> b.branch_exit(*final(b)),
        ensures
            final(self).wf(),
            final(self).name == old(self).name,
            final(self).start == old(self).start,
            old(self).closed_within(*final(self)),
            final(self).blocks@[old(self).blocks@.len() as int].1.terminator matches Terminator::Switch {
                value,
                cases,
                fallback,
            } && is_bool_to_int::<u8>(value, condition) && cases@ == seq![
                (1i128, bb(old(self).next_block)),
            ] && fallback == bb((old(self).next_block + 1) as u32),
            final(self).cur_block is Some ==> final(self).at_start_of(
                final(self).cur_block.unwrap().name,
                old(self).cur_block.unwrap().kind,
            ) && final(self).cur_block.unwrap().name.0.id > old(self).next_block + 1,
            final(self).next_block > old(self).next_block + 1,
            kind_of(final(self).blocks@, bb(old(self).next_block)) == Some(
                old(self).cur_block.unwrap().kind,
            ),
            kind_of(final(self).blocks@, bb((old(self).next_block + 1) as u32)) == Some(
                old(self).cur_block.unwrap().kind,
            ),
            exists|b: &mut FunctionBuilder| #[trigger]
                call_ensures(then_branch, (b,), ()) && b.built_by(
                    *final(b),
                    bb(old(self).next_block),
                    old(self).cur_block.unwrap().kind,
                    final(self).blocks@,
                    final(self).cur_name(),
                ),
            exists|b: &mut FunctionBuilder| #[trigger]
                call_ensures(else_branch, (b,), ()) && b.built_by(
                    *final(b),
                    bb((old(self).next_block + 1) as u32),
                    old(self).cur_block.unwrap().kind,
                    final(self).blocks@,
                    final(self).cur_name(),
                ),
            (forall|b: &mut FunctionBuilder| #[trigger]
                call_ensures(then_branch, (b,), ()) ==> final(b).cur_block is Some) ==> final(self).cur_block is Some,
            (forall|b: &mut FunctionBuilder| #[trigger]
                call_ensures(else_branch, (b,), ()) ==> final(b).cur_block is Some) ==> final(self).cur_block is Some,
            (forall|b: &mut FunctionBuilder| #[trigger]
                call_ensures(then_branch, (b,), ()) ==> final(b).cur_block is None) && (forall|b: &mut FunctionBuilder| #[trigger]
                call_ensures(else_branch, (b,), ()) ==> final(b).cur_block is None) ==> final(self).cur_block is None,
            final(self).cur_block is Some ==> jumps_to(
                final(self).blocks@,
                old(self).blocks@.len() as int,
                final(self).cur_block.unwrap().name,
            ),
    {
        let mut cases: Vec<(Int, F)> = Vec::new();
        cases.push((1, then_branch));
        self.switch_int(bool_to_int::<u8>(condition), &cases, else_branch);
        proof {
            let t = self.blocks@[old(self).blocks@.len() as int].1.terminator;
            assert(t->Switch_cases@ =~= seq![(1i128, bb(old(self).next_block))]);
            assert(cases@[0].1 == then_branch);
            assert(bb((old(self).next_block + 0) as u32) == bb(old(self).next_block));
            assert(bb((old(self).next_block + cases@.len()) as u32) == bb(
                (old(self).next_block + 1) as u32,
            ));
        }
    }

    /// Builds a loop: the current block jumps to a fresh block that holds the
    /// test of `condition` alone; where it holds, the blocks of `body` run and
    /// jump back to the test, and where it does not, control goes on in a
    /// block behind the loop, which becomes the current block.
    pub fn while_<F: Fn(&mut FunctionBuilder)>(&mut self, condition: ValueExpr, body: F)
        requires
            old(self).can_finish(),
            old(self).next_block + 3 < u32::MAX,
            forall|b: &mut FunctionBuilder| b.branch_entry() ==> #[trigger] call_requires(body, (b,)),
            forall|b: &mut FunctionBuilder| #[trigger]
                call_ensures(body, (b,), ()) ==> b.branch_exit(*final(b)),
        ensures
            final(self).wf(),
            final(self).name == old(self).name,
            final(self).start == old(self).start,
            old(self).closed_within(*final(self)),
            final(self).blocks@[old(self).blocks@.len() as int].1.terminator == Terminator::Goto(
                bb(old(self).next_block),
            ),
            final(self).blocks@.len() > old(self).blocks@.len() + 1,
            final(self).blocks@[old(self).blocks@.len() as int + 1].0 == bb(old(self).next_block),
            final(self).blocks@[old(self).blocks@.len() as int + 1].1.kind == old(
                self,
            ).cur_block.unwrap().kind,
            final(self).blocks@[old(self).blocks@.len() as int + 1].1.statements@.len() == 0,
            final(self).blocks@[old(self).blocks@.len() as int + 1].1.terminator matches Terminator::Switch {
                value,
                cases,
                fallback,
            } && is_bool_to_int::<u8>(value, condition) && cases@ == seq![
                (1i128, bb((old(self).next_block + 1) as u32)),
            ] && fallback == bb((old(self).next_block + 2) as u32),
            final(self).cur_block is Some,
            final(self).at_start_of(
                final(self).cur_block.unwrap().name,
                old(self).cur_block.unwrap().kind,
            ),
            final(self).cur_block.unwrap().name.0.id > old(self).next_block + 2,
            kind_of(final(self).blocks@, bb((old(self).next_block + 1) as u32)) == Some(
                old(self).cur_block.unwrap().kind,
            ),
            kind_of(final(self).blocks@, bb((old(self).next_block + 2) as u32)) == Some(
                old(self).cur_block.unwrap().kind,
            ),
            jumps_from(
                final(self).blocks@,
                bb((old(self).next_block + 2) as u32),
                old(self).cur_block.unwrap().kind,
                final(self).cur_block.unwrap().name,
            ),
            exists|b: &mut FunctionBuilder| #[trigger]
                call_ensures(body, (b,), ()) && b.built_by(
                    *final(b),
                    bb((old(self).next_block + 1) as u32),
                    old(self).cur_block.unwrap().kind,
                    final(self).blocks@,
                    Some(bb(old(self).next_block)),
                ),
    {
        let cond = self.declare_block();
        let block_kind = self.cur_block_kind();
        self.goto(cond);
        let ghost jumped = *self;
        proof {
            assert forall|i: int| 0 <= i < self.blocks.len() implies (#[trigger] self.blocks[i]).0
                != cond by {
                if i < old(self).blocks.len() {
                    assert(self.blocks@.drop_last()[i] == self.blocks[i]);
                    assert(old(self).blocks[i].0.0.id < old(self).next_block);
                }
            }
        }
        self.set_cur_block(cond, block_kind);
        let ghost tested = *self;
        let body_ref = &body;
        let then_branch = |f: &mut FunctionBuilder|
                requires
                    old(f).branch_entry(),
                    forall|b: &mut FunctionBuilder|
                        b.branch_entry() ==> #[trigger] call_requires(*body_ref, (b,)),
                    forall|b: &mut FunctionBuilder| #[trigger]
                        call_ensures(*body_ref, (b,), ()) ==> b.branch_exit(*final(b)),
                ensures
                    old(f).branch_exit(*final(f)),
                    final(f).cur_block is None,
                    exists|b: &mut FunctionBuilder| #[trigger]
                        call_ensures(*body_ref, (b,), ()) && *b == *old(f) && begins_with(
                            final(f).blocks@,
                            final(b).blocks@,
                        ) && (final(b).cur_block is Some ==> jumps_at(
                            final(f).blocks@,
                            final(b).blocks@.len() as int,
                            final(b).cur_block.unwrap(),
                            cond,
                        ))
                {
                    let ghost entry = *f;
                    (*body_ref)(f);
                    let ghost mid = *f;
                    proof {
                        assert(mid.blocks@.subrange(0, mid.blocks@.len() as int) =~= mid.blocks@);
                    }
                    if f.has_cur_block() {
                        f.goto(cond);
                        proof {
                            assert(f.blocks@.subrange(0, entry.blocks@.len() as int)
                                =~= entry.blocks@) by {
                                assert forall|i: int|
                                    0 <= i < entry.blocks@.len() implies f.blocks@[i]
                                    == entry.blocks@[i] by {
                                    assert(f.blocks@.drop_last()[i] == f.blocks@[i]);
                                    assert(mid.blocks@.subrange(0, entry.blocks@.len() as int)[i]
                                        == mid.blocks@[i]);
                                }
                            }
                            assert forall|i: int|
                                entry.blocks@.len() <= i < f.blocks@.len() implies entry.may_close(
                                (#[trigger] f.blocks@[i]).0,
                            ) by {
                                if i < mid.blocks@.len() {
                                    assert(f.blocks@.drop_last()[i] == f.blocks@[i]);
                                }
                            }
                            assert(f.blocks@.subrange(0, mid.blocks@.len() as int) =~= mid.blocks@);
                            assert(f.blocks@.last() == f.blocks@[mid.blocks@.len() as int]);
                        }
                    }
                };
        let else_branch = |f: &mut FunctionBuilder|
                requires
                    old(f).branch_entry(),
                ensures
                    old(f).branch_exit(*final(f)),
                    *final(f) == *old(f)
                {
                    proof {
                        assert(f.blocks@.subrange(0, f.blocks@.len() as int) =~= f.blocks@);
                    }
                };
        self.if_(condition, then_branch, else_branch);
        proof {
            let b1 = choose|b: &mut FunctionBuilder| #[trigger]
                call_ensures(then_branch, (b,), ()) && b.built_by(
                    *final(b),
                    bb(tested.next_block),
                    block_kind,
                    self.blocks@,
                    self.cur_name(),
                );
            let b2 = choose|b: &mut FunctionBuilder| #[trigger]
                call_ensures(body, (b,), ()) && *b == *b1 && begins_with(
                    final(b1).blocks@,
                    final(b).blocks@,
                ) && (final(b).cur_block is Some ==> jumps_at(
                    final(b1).blocks@,
                    final(b).blocks@.len() as int,
                    final(b).cur_block.unwrap(),
                    cond,
                ));
            lemma_begins_with_trans(self.blocks@, final(b1).blocks@, final(b2).blocks@);
            assert(b2.built_by(
                *final(b2),
                bb(tested.next_block),
                block_kind,
                self.blocks@,
                Some(cond),
            ));
        }
        proof {
            let n = old(self).blocks@.len() as int;
            assert(tested.blocks@ == jumped.blocks@);
            assert forall|j: int| 0 <= j <= n implies self.blocks@[j] == jumped.blocks@[j] by {
                assert(self.blocks@.subrange(0, tested.blocks@.len() as int)[j] == self.blocks@[j]);
            }
            assert forall|j: int| 0 <= j < n implies self.blocks@[j] == old(self).blocks@[j] by {
                assert(jumped.blocks@.drop_last()[j] == jumped.blocks@[j]);
            }
            assert(self.blocks@.subrange(0, n) =~= old(self).blocks@);
            assert(jumped.blocks@.last() == jumped.blocks@[n]);
            assert(bb((tested.next_block + 1) as u32) == bb((old(self).next_block + 2) as u32));
            assert(bb(tested.next_block) == bb((old(self).next_block + 1) as u32));
        }
    }

    /// Builds a block of kind `kind` under a fresh name, filled by `f`, and
    /// returns to the current block. The closure has to finish every block
    /// that it begins.
    fn side_block<F: FnOnce(&mut FunctionBuilder)>(&mut self, kind: BbKind, f: F) -> (name: BbName)
        requires
            old(self).can_continue(),
            forall|b: &mut FunctionBuilder| b.branch_entry() ==> #[trigger] call_requires(f, (b,)),
            forall|b: &mut FunctionBuilder| #[trigger]
                call_ensures(f, (b,), ()) ==> b.extended_into(*final(b)) && final(b).cur_block
                    is None,
        ensures
            name == bb(old(self).next_block),
            final(self).wf(),
            final(self).cur_block == old(self).cur_block,
            final(self).name == old(self).name,
            final(self).start == old(self).start,
            final(self).next_block > old(self).next_block,
            final(self).blocks@.len() >= old(self).blocks@.len(),
            final(self).blocks@.subrange(0, old(self).blocks@.len() as int) == old(self).blocks@,
            exists|b: &mut FunctionBuilder| #[trigger]
                call_ensures(f, (b,), ()) && b.wf() && b.at_start_of(name, kind) && b.blocks
                    == old(self).blocks && final(b).blocks == final(self).blocks && final(b).next_block
                    == final(self).next_block,
            (forall|b: &mut FunctionBuilder| #[trigger]
                call_ensures(f, (b,), ()) ==> b.given_block_kept(*final(b))) ==> kind_of(
                final(self).blocks@,
                name,
            ) == Some(kind),
    {
        let saved = self.cur_block.take();
        assert(self.wf());
        let name = self.declare_block();
        assert(self.is_open(name));
        self.set_cur_block(name, kind);
        let ghost entry = *self;
        f(self);
        proof {
            let cur = old(self).cur_block.unwrap().name;
            assert forall|i: int| 0 <= i < self.blocks.len() implies (#[trigger] self.blocks[i]).0
                != cur by {
                if i < entry.blocks.len() {
                    assert(self.blocks@.subrange(0, entry.blocks@.len() as int)[i]
                        == self.blocks[i]);
                } else {
                    assert(entry.may_close(self.blocks@[i].0));
                }
            }
        }
        let ghost exit = *self;
        self.cur_block = saved;
        proof {
            if entry.given_block_kept(exit) {
                assert(closed_with_kind(self.blocks@, name, kind));
                lemma_kind_of_closed(self.blocks@, name, kind);
            }
        }
        name
    }

    /// Builds a cleanup block under a fresh name, filled by `f`, and returns
    /// to the current block. The closure has to finish every block that it
    /// begins.
    pub fn cleanup_block<F: FnOnce(&mut FunctionBuilder)>(&mut self, f: F) -> (name: BbName)
        requires
            old(self).can_continue(),
            forall|b: &mut FunctionBuilder| b.branch_entry() ==> #[trigger] call_requires(f, (b,)),
            forall|b: &mut FunctionBuilder| #[trigger]
                call_ensures(f, (b,), ()) ==> b.extended_into(*final(b)) && final(b).cur_block
                    is None,
        ensures
            name == bb(old(self).next_block),
            final(self).wf(),
            final(self).cur_block == old(self).cur_block,
            final(self).name == old(self).name,
            final(self).start == old(self).start,
            final(self).next_block > old(self).next_block,
            final(self).blocks@.len() >= old(self).blocks@.len(),
            final(self).blocks@.subrange(0, old(self).blocks@.len() as int) == old(self).blocks@,
            exists|b: &mut FunctionBuilder| #[trigger]
                call_ensures(f, (b,), ()) && b.wf() && b.at_start_of(name, BbKind::Cleanup) && b.blocks
                    == old(self).blocks && final(b).blocks == final(self).blocks && final(b).next_block
                    == final(self).next_block,
            (forall|b: &mut FunctionBuilder| #[trigger]
                call_ensures(f, (b,), ()) ==> b.given_block_kept(*final(b))) ==> kind_of(
                final(self).blocks@,
                name,
            ) == Some(BbKind::Cleanup),
    {
        self.side_block(BbKind::Cleanup, f)
    }

    /// Builds a catch block under a fresh name, filled by `f`, and returns to
    /// the current block. The closure has to finish every block that it
    /// begins.
    pub fn catch_block<F: FnOnce(&mut FunctionBuilder)>(&mut self, f: F) -> (name: BbName)
        requires
            old(self).can_continue(),
            forall|b: &mut FunctionBuilder| b.branch_entry() ==> #[trigger] call_requires(f, (b,)),
            forall|b: &mut FunctionBuilder| #[trigger]
                call_ensures(f, (b,), ()) ==> b.extended_into(*final(b)) && final(b).cur_block
                    is None,
        ensures
            name == bb(old(self).next_block),
            final(self).wf(),
            final(self).cur_block == old(self).cur_block,
            final(self).name == old(self).name,
            final(self).start == old(self).start,
            final(self).next_block > old(self).next_block,
            final(self).blocks@.len() >= old(self).blocks@.len(),
            final(self).blocks@.subrange(0, old(self).blocks@.len() as int) == old(self).blocks@,
            exists|b: &mut FunctionBuilder| #[trigger]
                call_ensures(f, (b,), ()) && b.wf() && b.at_start_of(name, BbKind::Catch) && b.blocks
                    == old(self).blocks && final(b).blocks == final(self).blocks && final(b).next_block
                    == final(self).next_block,
            (forall|b: &mut FunctionBuilder| #[trigger]
                call_ensures(f, (b,), ()) ==> b.given_block_kept(*final(b))) ==> kind_of(
                final(self).blocks@,
                name,
            ) == Some(BbKind::Catch),
    {
        self.side_block(BbKind::Catch, f)
    }
}

} // verus!
