use vstd::prelude::*;

verus! {

/// A number of the analyzed language, held as its 64-bit IEEE-754 pattern so
/// that equality is bitwise: every NaN payload is kept and `-0` differs from `0`.
#[derive(Clone, Copy, PartialEq, Eq, Structural, PartialOrd, Ord, Hash, Debug)]
pub struct Number(u64);

impl Number {
    /// The bit pattern this number holds.
    pub closed spec fn bits(self) -> u64 {
        self.0
    }

    pub fn from_bits(bits: u64) -> (r: Number)
        ensures
            r.bits() == bits,
    {
        Number(bits)
    }

    pub fn to_bits(self) -> (r: u64)
        ensures
            r == self.bits(),
    {
        self.0
    }

    /// Two numbers are the same exactly when their bit patterns are.
    pub proof fn lemma_bits_injective(a: Number, b: Number)
        ensures
            a == b <==> a.bits() == b.bits(),
    {
    }
}

/// The value of a literal.
#[derive(Clone, PartialEq, Eq, Debug)]
pub enum JsValue {
    Boolean(bool),
    Null,
    Number(Number),
    String(String),
    Undefined,
}

/// Operator of a binary expression.
#[derive(Clone, Copy, PartialEq, Eq, Structural, Hash, Debug)]
pub enum BinaryOperator {
    Equals,
    NotEquals,
    StrictEquals,
    StrictNotEquals,
    LessThan,
    LessThanOrEqual,
    GreaterThan,
    GreaterThanOrEqual,
    ShiftLeft,
    ShiftRight,
    UnsignedShiftRight,
    Add,
    Subtract,
    Multiply,
    Divide,
    Modulo,
    Exponent,
    BitwiseOr,
    BitwiseXor,
    BitwiseAnd,
    In,
    Instanceof,
}

} // verus!
