//! A small calculator program core: it decodes a fixed-layout 17-byte
//! instruction payload into an operation selector and two signed 64-bit
//! operands, performs the selected arithmetic operation, and returns the
//! result or a structured error.
//!
//! Overflow policy: arithmetic is trapping. Whenever the mathematical result
//! of the selected operation does not fit in a signed 64-bit integer, the
//! evaluator returns `CalcError::ArithmeticOverflow` instead of wrapping.

use vstd::prelude::*;

pub mod codec;
pub mod eval;
pub mod instruction;

pub use codec::PAYLOAD_LEN;
pub use instruction::CalcError;
pub use instruction::CalculatorInstruction;

verus! {

/// What one full call returns for every payload: decode, then evaluate.
pub open spec fn spec_process(payload: Seq<u8>) -> Result<i64, CalcError> {
    match codec::spec_decode(payload) {
        Ok(instr) => eval::spec_eval(instr),
        Err(e) => Err(e),
    }
}

/// Processes one raw instruction payload: decodes it into a
/// `CalculatorInstruction` and evaluates it, returning the computed
/// value or the first error met. This is the complete computation of one
/// call; emitting the diagnostic trace lines is left to the host.
pub fn process_instruction(instruction_data: &[u8]) -> (r: Result<i64, CalcError>)
    ensures
        r == spec_process(instruction_data@),
{
    let instr = match CalculatorInstruction::decode(instruction_data) {
        Ok(i) => i,
        Err(e) => {
            return Err(e);
        },
    };
    instr.evaluate()
}

} // verus!
