//! The wire codec: an instruction is encoded as exactly 17 bytes, the
//! operation selector at offset 0 followed by the two operands as
//! little-endian two's-complement signed 64-bit integers at offsets 1 and 9.

use vstd::prelude::*;
use vstd::bytes::lemma_auto_spec_u64_to_from_le_bytes;
use vstd::bytes::spec_u64_from_le_bytes;
use vstd::bytes::spec_u64_to_le_bytes;
use vstd::bytes::u64_from_le_bytes;
use vstd::bytes::u64_to_le_bytes;
use vstd::slice::slice_subrange;
use crate::instruction::CalcError;
use crate::instruction::CalculatorInstruction;

verus! {

/// The exact length of a well-formed payload: 1 selector byte plus two
/// 8-byte operands.
pub const PAYLOAD_LEN: usize = 17;

/// The signed 64-bit value represented by the two's-complement bit
/// pattern `u`.
pub open spec fn to_signed(u: u64) -> i64 {
    if u < 0x8000_0000_0000_0000 {
        u as i64
    } else {
        ((u as int) - 0x1_0000_0000_0000_0000) as i64
    }
}

/// The two's-complement bit pattern of the signed 64-bit value `x`.
pub open spec fn to_unsigned(x: i64) -> u64 {
    if x >= 0 {
        x as u64
    } else {
        ((x as int) + 0x1_0000_0000_0000_0000) as u64
    }
}

/// What a payload decodes to: the instruction on well-formed 17-byte
/// payloads, `DecodeError` on every payload of any other length. Every
/// 17-byte pattern is a valid encoding, so length is the only way a
/// payload can be malformed.
pub open spec fn spec_decode(payload: Seq<u8>) -> Result<CalculatorInstruction, CalcError> {
    if payload.len() == 17 {
        Ok(
            CalculatorInstruction {
                operation: payload[0],
                left: to_signed(spec_u64_from_le_bytes(payload.subrange(1, 9))),
                right: to_signed(spec_u64_from_le_bytes(payload.subrange(9, 17))),
            },
        )
    } else {
        Err(CalcError::DecodeError)
    }
}

/// The 17-byte wire encoding of an instruction.
pub open spec fn spec_encode(instr: CalculatorInstruction) -> Seq<u8> {
    seq![instr.operation] + spec_u64_to_le_bytes(to_unsigned(instr.left)) + spec_u64_to_le_bytes(
        to_unsigned(instr.right),
    )
}

fn u64_to_i64(u: u64) -> (x: i64)
    ensures
        x == to_signed(u),
{
    if u < 0x8000_0000_0000_0000 {
        u as i64
    } else {
        ((u - 0x8000_0000_0000_0000) as i64) + i64::MIN
    }
}

fn i64_to_u64(x: i64) -> (u: u64)
    ensures
        u == to_unsigned(x),
{
    if x >= 0 {
        x as u64
    } else {
        ((x - i64::MIN) as u64) + 0x8000_0000_0000_0000
    }
}

impl CalculatorInstruction {
    /// Decodes a raw payload, accepting exactly the well-formed 17-byte
    /// encodings and rejecting every other length with `DecodeError`.
    pub fn decode(payload: &[u8]) -> (r: Result<CalculatorInstruction, CalcError>)
        ensures
            r == spec_decode(payload@),
    {
        if payload.len() != PAYLOAD_LEN {
            return Err(CalcError::DecodeError);
        }
        let operation = payload[0];
        let left = u64_to_i64(u64_from_le_bytes(slice_subrange(payload, 1, 9)));
        let right = u64_to_i64(u64_from_le_bytes(slice_subrange(payload, 9, 17)));
        Ok(CalculatorInstruction { operation, left, right })
    }

    /// Encodes the instruction into its 17-byte wire form.
    pub fn encode(&self) -> (r: Vec<u8>)
        ensures
            r@ == spec_encode(*self),
            r@.len() == 17,
    {
        let mut out: Vec<u8> = Vec::new();
        out.push(self.operation);
        let mut left_bytes = u64_to_le_bytes(i64_to_u64(self.left));
        out.append(&mut left_bytes);
        let mut right_bytes = u64_to_le_bytes(i64_to_u64(self.right));
        out.append(&mut right_bytes);
        proof {
            assert(out@ =~= spec_encode(*self));
        }
        out
    }
}

/// Round-trip law: decoding the encoding of any instruction yields the
/// identical instruction, for all field combinations.
pub proof fn lemma_encode_decode_round_trip(instr: CalculatorInstruction)
    ensures
        spec_decode(spec_encode(instr)) == Ok::<CalculatorInstruction, CalcError>(instr),
{
    lemma_auto_spec_u64_to_from_le_bytes();
    let enc = spec_encode(instr);
    assert(enc.len() == 17);
    assert(enc[0] == instr.operation);
    assert(enc.subrange(1, 9) =~= spec_u64_to_le_bytes(to_unsigned(instr.left)));
    assert(enc.subrange(9, 17) =~= spec_u64_to_le_bytes(to_unsigned(instr.right)));
}

/// Length law: a payload whose length is not exactly 17 bytes always
/// decodes to `DecodeError`.
pub proof fn lemma_wrong_length_rejected(payload: Seq<u8>)
    requires
        payload.len() != 17,
    ensures
        spec_decode(payload) == Err::<CalculatorInstruction, CalcError>(CalcError::DecodeError),
{
}

} // verus!
