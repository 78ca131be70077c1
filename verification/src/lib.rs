//! Static semantics of a small mid-level intermediate representation: its
//! types and their layout, its programs, and the well-formedness checker.

pub mod build;
pub mod copy;
pub mod fmt;
pub mod laws;
pub mod names;
pub mod same;
pub mod syntax;
pub mod ty;
pub mod wf;
