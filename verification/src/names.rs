//! Names of the entities a program refers to: blocks, functions, locals and traits.

use vstd::prelude::*;

verus! {

/// An opaque identifier. Two names are the same exactly when their numbers are.
#[derive(Clone, Copy, Debug, PartialEq, Eq, Structural, Hash)]
pub struct Name {
    pub id: u32,
}

impl Name {
    /// The name with the given number.
    pub fn from_internal(id: u32) -> (name: Name)
        ensures
            name == (Name { id }),
    {
        Name { id }
    }

    /// The number behind this name.
    pub fn get_internal(&self) -> (id: u32)
        ensures
            id == self.id,
    {
        self.id
    }
}

/// The name of a basic block, unique within its function.
#[derive(Clone, Copy, Debug, PartialEq, Eq, Structural, Hash)]
pub struct BbName(pub Name);

/// The name of a function, unique within its program.
#[derive(Clone, Copy, Debug, PartialEq, Eq, Structural, Hash)]
pub struct FnName(pub Name);

/// The name of a local variable: its position among the function's locals.
#[derive(Clone, Copy, Debug, PartialEq, Eq, Structural, Hash)]
pub struct LocalName(pub Name);

/// The name of a trait.
#[derive(Clone, Copy, Debug, PartialEq, Eq, Structural, Hash)]
pub struct TraitName(pub Name);

/// The number behind a block name.
pub fn bbname_into_u32(name: BbName) -> (id: u32)
    ensures
        id == name.0.id,
{
    name.0.id
}

/// The block name with the given number.
pub open spec fn bb(id: u32) -> BbName {
    BbName(Name { id })
}

} // verus!
