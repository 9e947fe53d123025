use vstd::prelude::*;

verus! {

/// Position of an instruction; strictly increasing in reverse-postorder
/// visitation order, used as the bounds of mutable ranges.
#[derive(Clone, Copy, PartialEq, Eq, Structural, PartialOrd, Ord, Hash, Debug)]
pub struct InstructionId(pub u32);

/// Index of an instruction in a function's instruction sequence.
#[derive(Clone, Copy, PartialEq, Eq, Structural, PartialOrd, Ord, Hash, Debug)]
pub struct InstrIx(pub u32);

/// Unique id of an identifier; also its slot in an `IdentifierTable`.
#[derive(Clone, Copy, PartialEq, Eq, Structural, PartialOrd, Ord, Hash, Debug)]
pub struct IdentifierId(pub u32);

/// Id of a reactive scope.
#[derive(Clone, Copy, PartialEq, Eq, Structural, PartialOrd, Ord, Hash, Debug)]
pub struct ScopeId(pub u32);

/// Id of a basic block.
#[derive(Clone, Copy, PartialEq, Eq, Structural, PartialOrd, Ord, Hash, Debug)]
pub struct BlockId(pub u32);

/// Type of a value, as filled in by type inference; opaque to this layer.
#[derive(Clone, Copy, PartialEq, Eq, Structural, Hash, Debug)]
pub enum Type {
    /// Not yet inferred.
    Unknown,
    /// A type variable of the inference pass.
    Var(u32),
}

} // verus!
