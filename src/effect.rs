use vstd::prelude::*;

use crate::ids::{InstructionId, ScopeId, Type};

verus! {

/// How one use of a value may affect it.
#[derive(Clone, Copy, PartialEq, Eq, Structural, PartialOrd, Ord, Hash, Debug)]
pub enum Effect {
    /// The use freezes the value (codegen emits a freeze here).
    Freeze,
    /// The use reads the value.
    Read,
    /// The use reads and stores the value.
    Capture,
    /// The use may mutate the value; no error when the value is immutable.
    ConditionallyMutate,
    /// The use mutates the value; an immutable value here is invalid input.
    Mutate,
    /// The use may alias the value.
    Store,
}

impl Effect {
    pub open spec fn spec_is_mutable(self) -> bool {
        match self {
            Effect::Capture | Effect::Store | Effect::ConditionallyMutate | Effect::Mutate => true,
            Effect::Read | Effect::Freeze => false,
        }
    }

    /// Whether this use may write to the value.
    #[verifier::when_used_as_spec(spec_is_mutable)]
    pub fn is_mutable(self) -> (r: bool)
        ensures
            r <==> (self == Effect::Capture || self == Effect::Store
                || self == Effect::ConditionallyMutate || self == Effect::Mutate),
            !r <==> (self == Effect::Read || self == Effect::Freeze),
    {
        match self {
            Effect::Capture | Effect::Store | Effect::ConditionallyMutate | Effect::Mutate => true,
            Effect::Read | Effect::Freeze => false,
        }
    }

    pub open spec fn spec_name(self) -> Seq<char> {
        match self {
            Effect::Capture => "capture"@,
            Effect::ConditionallyMutate => "mutate?"@,
            Effect::Freeze => "freeze"@,
            Effect::Mutate => "mutate"@,
            Effect::Read => "read"@,
            Effect::Store => "store"@,
        }
    }

    /// The name under which the effect is printed.
    pub fn as_str(self) -> (r: &'static str)
        ensures
            r@ == self.spec_name(),
    {
        match self {
            Effect::Capture => "capture",
            Effect::ConditionallyMutate => "mutate?",
            Effect::Freeze => "freeze",
            Effect::Mutate => "mutate",
            Effect::Read => "read",
            Effect::Store => "store",
        }
    }
}

/// How an lvalue binds its identifier.
#[derive(Clone, Copy, PartialEq, Eq, Structural, PartialOrd, Ord, Hash, Debug)]
pub enum InstructionKind {
    /// `const` declaration
    Const,
    /// `let` declaration
    Let,
    /// Reassignment from `=` or an assignment-update (`+=` etc)
    Reassign,
}

impl InstructionKind {
    pub open spec fn spec_name(self) -> Seq<char> {
        match self {
            InstructionKind::Const => "Const"@,
            InstructionKind::Let => "Let"@,
            InstructionKind::Reassign => "Reassign"@,
        }
    }

    /// The name under which the kind is printed.
    pub fn as_str(self) -> (r: &'static str)
        ensures
            r@ == self.spec_name(),
    {
        match self {
            InstructionKind::Const => "Const",
            InstructionKind::Let => "Let",
            InstructionKind::Reassign => "Reassign",
        }
    }
}

/// The span of instructions over which a value may still change: `start` is
/// inclusive, `end` exclusive (the first instruction at which the value is
/// immutable).
#[derive(Clone, Copy, PartialEq, Eq, Structural, Debug)]
pub struct MutableRange {
    pub start: InstructionId,
    pub end: InstructionId,
}

impl MutableRange {
    pub open spec fn wf(self) -> bool {
        self.start.0 <= self.end.0
    }

    /// The range after a mutable use at instruction `at` was seen.
    pub open spec fn extended(self, at: InstructionId) -> MutableRange {
        MutableRange {
            start: self.start,
            end: if at.0 > self.end.0 { at } else { self.end },
        }
    }

    /// The range after `extended` with each of `ats` in turn.
    pub open spec fn extended_all(self, ats: Seq<InstructionId>) -> MutableRange
        decreases ats.len(),
    {
        if ats.len() == 0 {
            self
        } else {
            self.extended_all(ats.drop_last()).extended(ats.last())
        }
    }

    /// The empty range at the first instruction, not yet observed.
    pub fn new() -> (r: MutableRange)
        ensures
            r.start.0 == 0,
            r.end.0 == 0,
    {
        MutableRange { start: InstructionId(0), end: InstructionId(0) }
    }

    /// The range of a value declared at `start`: it begins empty there.
    pub fn starting_at(start: InstructionId) -> (r: MutableRange)
        ensures
            r.start == start,
            r.end == start,
    {
        MutableRange { start, end: start }
    }

    /// Widens the range so that instruction `at` lies before its end; never
    /// narrows it.
    pub fn extend_to(&mut self, at: InstructionId)
        ensures
            *final(self) == old(self).extended(at),
    {
        if at.0 > self.end.0 {
            self.end = at;
        }
    }
}

impl Default for MutableRange {
    fn default() -> (r: MutableRange)
        ensures
            r.start.0 == 0,
            r.end.0 == 0,
    {
        MutableRange::new()
    }
}

pub open spec fn max_id(base: u32, ats: Seq<InstructionId>) -> u32
    decreases ats.len(),
{
    if ats.len() == 0 {
        base
    } else {
        let m = max_id(base, ats.drop_last());
        if ats.last().0 > m { ats.last().0 } else { m }
    }
}

/// Extending a well-formed range keeps it well formed, keeps its start, and
/// never moves its end backwards.
pub proof fn lemma_extend_preserves_order(r: MutableRange, at: InstructionId)
    requires
        r.wf(),
    ensures
        r.extended(at).wf(),
        r.extended(at).start == r.start,
        r.extended(at).end.0 >= r.end.0,
        r.extended(at).end.0 >= at.0,
{
}

/// Extending a fresh range (end equal to start) to each of `ats`, any number
/// of times, leaves its end at the largest of `ats` and its start, and the
/// range well formed.
pub proof fn lemma_extend_all_is_max(r: MutableRange, ats: Seq<InstructionId>)
    requires
        r.start == r.end,
    ensures
        r.extended_all(ats).start == r.start,
        r.extended_all(ats).end.0 == max_id(r.start.0, ats),
        r.extended_all(ats).wf(),
    decreases ats.len(),
{
    if ats.len() > 0 {
        lemma_extend_all_is_max(r, ats.drop_last());
    }
}

/// A group of instructions whose values are memoized together.
#[derive(Clone, Copy, PartialEq, Eq, Structural, Debug)]
pub struct ReactiveScope {
    pub id: ScopeId,
    pub range: MutableRange,
}

/// Data of an identifier that later passes fill in.
#[derive(Clone, Copy, PartialEq, Eq, Structural, Debug)]
pub struct IdentifierData {
    pub mutable_range: MutableRange,
    pub scope: Option<ReactiveScope>,
    pub type_: Type,
}

} // verus!
