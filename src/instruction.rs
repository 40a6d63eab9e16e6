//! Instruction types and their wire format
use crate::error::{swap_failure, ProgramError, SwapError};
use vstd::bytes::{
    lemma_auto_spec_u64_to_from_le_bytes, spec_u64_from_le_bytes, spec_u64_to_le_bytes,
    u64_from_le_bytes, u64_to_le_bytes,
};
use vstd::prelude::*;

verus! {

/// Initialize instruction data
#[derive(Clone, Copy, Debug, PartialEq, Eq, Structural)]
pub struct InitializeData {
    pub nonce: u8,
    /// Rate of token A
    pub rate_a: u64,
    /// Rate of token B
    pub rate_b: u64,
    /// Fee
    pub fee: u64,
}

/// Swap instruction data
#[derive(Clone, Copy, Debug, PartialEq, Eq, Structural)]
pub struct SwapData {
    pub amount_in: u64,
}

/// The instructions the program understands.
#[derive(Clone, Copy, Debug, PartialEq, Eq, Structural)]
pub enum SwapInstruction {
    /// Initializes a new swap pool
    Initialize(InitializeData),
    /// Swaps tokens
    Swap(SwapData),
}

/// The error for bytes that are no instruction.
pub open spec fn invalid_instruction() -> ProgramError {
    swap_failure(SwapError::InvalidInstruction)
}

impl SwapInstruction {
    /// The wire form: a tag byte, then the fields in order, integers as
    /// eight little-endian bytes.
    pub open spec fn spec_pack(self) -> Seq<u8> {
        match self {
            SwapInstruction::Initialize(d) => seq![0u8, d.nonce] + spec_u64_to_le_bytes(d.rate_a)
                + spec_u64_to_le_bytes(d.rate_b) + spec_u64_to_le_bytes(d.fee),
            SwapInstruction::Swap(d) => seq![1u8] + spec_u64_to_le_bytes(d.amount_in),
        }
    }

    /// The instruction that a byte string starts with, if any; bytes past
    /// its fields are ignored.
    pub open spec fn spec_unpack(s: Seq<u8>) -> Option<SwapInstruction> {
        if s.len() >= 26 && s[0] == 0 {
            Some(
                SwapInstruction::Initialize(
                    InitializeData {
                        nonce: s[1],
                        rate_a: spec_u64_from_le_bytes(s.subrange(2, 10)),
                        rate_b: spec_u64_from_le_bytes(s.subrange(10, 18)),
                        fee: spec_u64_from_le_bytes(s.subrange(18, 26)),
                    },
                ),
            )
        } else if s.len() >= 9 && s[0] == 1 {
            Some(
                SwapInstruction::Swap(
                    SwapData { amount_in: spec_u64_from_le_bytes(s.subrange(1, 9)) },
                ),
            )
        } else {
            None
        }
    }

    /// Decodes an instruction from its wire form.
    pub fn unpack(input: &[u8]) -> (r: Result<Self, ProgramError>)
        ensures
            r == match Self::spec_unpack(input@) {
                Some(x) => Ok(x),
                None => Err(invalid_instruction()),
            },
    {
        if input.len() == 0 {
            return Err(ProgramError::from(SwapError::InvalidInstruction));
        }
        let tag = input[0];
        let (_, rest) = input.split_at(1);
        assert(rest@ =~= input@.subrange(1, input@.len() as int));
        if tag == 0 {
            if rest.len() == 0 {
                return Err(ProgramError::from(SwapError::InvalidInstruction));
            }
            let nonce = rest[0];
            let (_, rest) = rest.split_at(1);
            assert(rest@ =~= input@.subrange(2, input@.len() as int));
            let (rate_a, rest) = match unpack_u64(rest) {
                Ok(v) => v,
                Err(e) => return Err(e),
            };
            assert(rest@ =~= input@.subrange(10, input@.len() as int));
            let (rate_b, rest) = match unpack_u64(rest) {
                Ok(v) => v,
                Err(e) => return Err(e),
            };
            assert(rest@ =~= input@.subrange(18, input@.len() as int));
            let (fee, _rest) = match unpack_u64(rest) {
                Ok(v) => v,
                Err(e) => return Err(e),
            };
            assert(input@.subrange(2, 10) =~= input@.subrange(2, input@.len() as int).subrange(0, 8));
            assert(input@.subrange(10, 18) =~= input@.subrange(10, input@.len() as int).subrange(0, 8));
            assert(input@.subrange(18, 26) =~= input@.subrange(18, input@.len() as int).subrange(0, 8));
            Ok(SwapInstruction::Initialize(InitializeData { nonce, rate_a, rate_b, fee }))
        } else if tag == 1 {
            let (amount_in, _rest) = match unpack_u64(rest) {
                Ok(v) => v,
                Err(e) => return Err(e),
            };
            assert(input@.subrange(1, 9) =~= rest@.subrange(0, 8));
            Ok(SwapInstruction::Swap(SwapData { amount_in }))
        } else {
            Err(ProgramError::from(SwapError::InvalidInstruction))
        }
    }

    /// Encodes an instruction in its wire form.
    pub fn pack(&self) -> (r: Vec<u8>)
        ensures
            r@ == self.spec_pack(),
    {
        let mut buf: Vec<u8> = Vec::new();
        match *self {
            SwapInstruction::Initialize(InitializeData { nonce, rate_a, rate_b, fee }) => {
                buf.push(0);
                buf.push(nonce);
                let mut a = u64_to_le_bytes(rate_a);
                buf.append(&mut a);
                let mut b = u64_to_le_bytes(rate_b);
                buf.append(&mut b);
                let mut f = u64_to_le_bytes(fee);
                buf.append(&mut f);
                assert(buf@ =~= self.spec_pack());
            },
            SwapInstruction::Swap(SwapData { amount_in }) => {
                buf.push(1);
                let mut a = u64_to_le_bytes(amount_in);
                buf.append(&mut a);
                assert(buf@ =~= self.spec_pack());
            },
        }
        buf
    }

    /// An empty buffer, an unknown tag, and a buffer too short for its
    /// tag's fields are no instruction.
    pub proof fn lemma_unpack_rejects(s: Seq<u8>)
        ensures
            s.len() == 0 ==> Self::spec_unpack(s) is None,
            s.len() > 0 && s[0] > 1 ==> Self::spec_unpack(s) is None,
            s.len() > 0 && s[0] == 0 && s.len() < 26 ==> Self::spec_unpack(s) is None,
            s.len() > 0 && s[0] == 1 && s.len() < 9 ==> Self::spec_unpack(s) is None,
    {
    }

    /// Decoding the encoding of any instruction gives that instruction back.
    pub proof fn lemma_round_trip(x: SwapInstruction)
        ensures
            Self::spec_unpack(x.spec_pack()) == Some(x),
    {
        lemma_auto_spec_u64_to_from_le_bytes();
        let s = x.spec_pack();
        match x {
            SwapInstruction::Initialize(d) => {
                assert(s.subrange(2, 10) =~= spec_u64_to_le_bytes(d.rate_a));
                assert(s.subrange(10, 18) =~= spec_u64_to_le_bytes(d.rate_b));
                assert(s.subrange(18, 26) =~= spec_u64_to_le_bytes(d.fee));
            },
            SwapInstruction::Swap(d) => {
                assert(s.subrange(1, 9) =~= spec_u64_to_le_bytes(d.amount_in));
            },
        }
    }
}

/// Reads a little-endian `u64` from the front of `input`, returning it and
/// the bytes after it.
pub fn unpack_u64(input: &[u8]) -> (r: Result<(u64, &[u8]), ProgramError>)
    ensures
        input@.len() >= 8 ==> (r matches Ok((v, rest)) && v == spec_u64_from_le_bytes(
            input@.subrange(0, 8),
        ) && rest@ == input@.subrange(8, input@.len() as int)),
        input@.len() < 8 ==> r == Err::<(u64, &[u8]), ProgramError>(invalid_instruction()),
{
    if input.len() >= 8 {
        let (amount, rest) = input.split_at(8);
        let amount = u64_from_le_bytes(amount);
        Ok((amount, rest))
    } else {
        Err(ProgramError::from(SwapError::InvalidInstruction))
    }
}

} // verus!
