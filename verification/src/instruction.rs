//! The instruction data model: one operation selector and two signed 64-bit
//! operands, together with the error taxonomy of the evaluator.

use vstd::prelude::*;

verus! {

/// A decoded calculator instruction.
///
/// `operation` selects one of six arithmetic operations:
/// 0 = add, 1 = subtract, 2 = multiply, 3 = divide, 4 = modulo, 5 = power.
/// Every other selector value is rejected by the evaluator.
#[derive(Clone, Copy, Debug, PartialEq, Eq, Structural)]
pub struct CalculatorInstruction {
    pub operation: u8,
    pub left: i64,
    pub right: i64,
}

/// The terminal failures of one decode-and-evaluate call.
#[derive(Clone, Copy, Debug, PartialEq, Eq, Structural)]
pub enum CalcError {
    /// The payload is not a well-formed 17-byte instruction encoding.
    DecodeError,
    /// The operation selector is outside {0, 1, 2, 3, 4, 5}.
    UnknownOperation,
    /// Divide or modulo was requested with a zero right-hand operand.
    DivisionByZero,
    /// Power was requested with a negative exponent.
    NegativeExponent,
    /// The mathematical result does not fit in a signed 64-bit integer.
    ArithmeticOverflow,
}

} // verus!
