//! Intermediate representation for a memoizing UI compiler: instructions,
//! operands annotated with effects, per-identifier mutable ranges and
//! reactive scopes, and the control-flow graph of a function.
pub mod ids;
pub mod value;
pub mod effect;
pub mod function;
pub mod instruction;
pub mod identifier;
pub mod construction;
