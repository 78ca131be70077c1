//! Construction of types and programs, block by block.

pub mod control;
pub mod expr;
pub mod function;
pub mod terminator;
pub mod ty;
pub mod ty_conv;
