//! The persisted pool record and its fixed byte layout
use crate::error::ProgramError;
use crate::pubkey::Pubkey;
use vstd::bytes::{
    lemma_auto_spec_u64_to_from_le_bytes, spec_u64_from_le_bytes, spec_u64_to_le_bytes,
    u64_from_le_bytes, u64_to_le_bytes,
};
use vstd::prelude::*;

verus! {

/// The configuration of one exchange pool.
#[derive(Clone, Copy, Debug, PartialEq, Eq)]
pub struct SwapInfo {
    /// Initialized state
    pub is_initialized: bool,
    /// The nonce the pool's authority address is derived with
    pub nonce: u8,
    /// Token A
    pub token_a: Pubkey,
    /// Token B
    pub token_b: Pubkey,
    /// Public key of the admin token account to receive fees
    pub admin_key: Pubkey,
    /// Rate of token A
    pub rate_a: u64,
    /// Rate of token B
    pub rate_b: u64,
    /// Fee
    pub fee: u64,
}

/// Whether `s` has the length of a record and a valid initialized flag.
pub open spec fn is_record_encoding(s: Seq<u8>) -> bool {
    s.len() == 122 && (s[0] == 0 || s[0] == 1)
}

/// The record that a valid encoding decodes to: the one whose layout it is.
pub open spec fn spec_decode(s: Seq<u8>) -> SwapInfo {
    choose|info: SwapInfo| info.spec_pack() == s
}

/// Reads 32 bytes of `input` from `start` as an address.
fn read_key(input: &[u8], start: usize) -> (k: Pubkey)
    requires
        start + 32 <= input@.len(),
    ensures
        k@ == input@.subrange(start as int, start + 32),
{
    let n = input.len();
    let mut bytes = [0u8; 32];
    let mut j: usize = 0;
    while j < 32
        invariant
            j <= 32,
            n == input@.len(),
            start + 32 <= input@.len(),
            bytes@.len() == 32,
            forall|i: int| 0 <= i < j ==> bytes@[i] == input@[start + i],
        decreases 32 - j,
    {
        bytes[j] = input[start + j];
        j = j + 1;
    }
    assert(bytes@ =~= input@.subrange(start as int, start + 32));
    Pubkey::new_from_array(bytes)
}

impl SwapInfo {
    /// The length of an encoded record.
    pub const LEN: usize = 122;

    /// The layout: initialized flag (1 byte, 0 or 1), nonce (1), token A (32),
    /// token B (32), admin key (32), then `rate_a`, `rate_b` and `fee` as
    /// eight little-endian bytes each.
    pub open spec fn spec_pack(self) -> Seq<u8> {
        seq![if self.is_initialized { 1u8 } else { 0u8 }, self.nonce] + self.token_a@
            + self.token_b@ + self.admin_key@ + spec_u64_to_le_bytes(self.rate_a)
            + spec_u64_to_le_bytes(self.rate_b) + spec_u64_to_le_bytes(self.fee)
    }

    pub fn is_initialized(&self) -> (r: bool)
        ensures
            r == self.is_initialized,
    {
        self.is_initialized
    }

    /// Decodes a record from exactly `LEN` bytes.
    pub fn unpack_from_slice(input: &[u8]) -> (r: Result<SwapInfo, ProgramError>)
        requires
            input@.len() == 122,
        ensures
            r is Ok <==> is_record_encoding(input@),
            r matches Ok(info) ==> info.spec_pack() == input@ && info == spec_decode(input@),
            r matches Err(e) ==> e == ProgramError::InvalidAccountData,
    {
        let is_initialized = if input[0] == 0 {
            false
        } else if input[0] == 1 {
            true
        } else {
            return Err(ProgramError::InvalidAccountData);
        };
        let nonce = input[1];
        let token_a = read_key(input, 2);
        let token_b = read_key(input, 34);
        let admin_key = read_key(input, 66);
        let (_, tail) = input.split_at(98);
        let (ra, tail) = tail.split_at(8);
        let (rb, f) = tail.split_at(8);
        let rate_a = u64_from_le_bytes(ra);
        let rate_b = u64_from_le_bytes(rb);
        let fee = u64_from_le_bytes(f);
        let info = SwapInfo {
            is_initialized,
            nonce,
            token_a,
            token_b,
            admin_key,
            rate_a,
            rate_b,
            fee,
        };
        proof {
            lemma_auto_spec_u64_to_from_le_bytes();
            assert(ra@ =~= input@.subrange(98, 106));
            assert(rb@ =~= input@.subrange(106, 114));
            assert(f@ =~= input@.subrange(114, 122));
            assert(spec_u64_to_le_bytes(spec_u64_from_le_bytes(ra@)) == ra@);
            assert(spec_u64_to_le_bytes(spec_u64_from_le_bytes(rb@)) == rb@);
            assert(spec_u64_to_le_bytes(spec_u64_from_le_bytes(f@)) == f@);
            assert(info.spec_pack() =~= input@);
            Self::lemma_pack_injective(info, spec_decode(input@));
        }
        Ok(info)
    }

    /// Encodes the record in its `LEN`-byte layout.
    pub fn encode(&self) -> (r: Vec<u8>)
        ensures
            r@ == self.spec_pack(),
            r@.len() == 122,
    {
        let mut buf: Vec<u8> = Vec::new();
        buf.push(if self.is_initialized { 1u8 } else { 0u8 });
        buf.push(self.nonce);
        buf.extend_from_slice(self.token_a.bytes.as_slice());
        buf.extend_from_slice(self.token_b.bytes.as_slice());
        buf.extend_from_slice(self.admin_key.bytes.as_slice());
        let mut a = u64_to_le_bytes(self.rate_a);
        buf.append(&mut a);
        let mut b = u64_to_le_bytes(self.rate_b);
        buf.append(&mut b);
        let mut f = u64_to_le_bytes(self.fee);
        buf.append(&mut f);
        assert(buf@ =~= self.spec_pack());
        buf
    }

    /// Writes the record into exactly `LEN` bytes.
    pub fn pack_into_slice(&self, output: &mut [u8])
        requires
            old(output)@.len() == 122,
        ensures
            final(output)@ == self.spec_pack(),
    {
        let bytes = self.encode();
        let mut j: usize = 0;
        while j < 122
            invariant
                j <= 122,
                bytes@ == self.spec_pack(),
                bytes@.len() == 122,
                output@.len() == 122,
                forall|i: int| 0 <= i < j ==> output@[i] == bytes@[i],
            decreases 122 - j,
        {
            output[j] = bytes[j];
            j = j + 1;
        }
        assert(output@ =~= bytes@);
    }

    /// Writes `src` into `dst`, which must be exactly `LEN` bytes long.
    pub fn pack(src: SwapInfo, dst: &mut [u8]) -> (r: Result<(), ProgramError>)
        ensures
            r is Ok <==> old(dst)@.len() == 122,
            r is Ok ==> final(dst)@ == src.spec_pack(),
            r matches Err(e) ==> e == ProgramError::InvalidAccountData && final(dst)@ == old(
                dst,
            )@,
    {
        if dst.len() != Self::LEN {
            return Err(ProgramError::InvalidAccountData);
        }
        src.pack_into_slice(dst);
        Ok(())
    }

    /// Decodes a record, initialized or not.
    pub fn unpack_unchecked(input: &[u8]) -> (r: Result<SwapInfo, ProgramError>)
        ensures
            r is Ok <==> is_record_encoding(input@),
            r matches Ok(info) ==> info.spec_pack() == input@ && info == spec_decode(input@),
            r matches Err(e) ==> e == ProgramError::InvalidAccountData,
    {
        if input.len() != Self::LEN {
            return Err(ProgramError::InvalidAccountData);
        }
        Self::unpack_from_slice(input)
    }

    /// Decodes a record that must be initialized.
    pub fn unpack(input: &[u8]) -> (r: Result<SwapInfo, ProgramError>)
        ensures
            r is Ok <==> is_record_encoding(input@) && input@[0] == 1,
            r matches Ok(info) ==> info.spec_pack() == input@ && info == spec_decode(input@)
                && info.is_initialized,
            !is_record_encoding(input@) ==> r == Err::<SwapInfo, ProgramError>(
                ProgramError::InvalidAccountData,
            ),
            is_record_encoding(input@) && input@[0] == 0 ==> r == Err::<SwapInfo, ProgramError>(
                ProgramError::UninitializedAccount,
            ),
    {
        let info = match Self::unpack_unchecked(input) {
            Ok(info) => info,
            Err(e) => return Err(e),
        };
        if !info.is_initialized {
            return Err(ProgramError::UninitializedAccount);
        }
        Ok(info)
    }

    /// Two records with the same encoding are the same record.
    pub proof fn lemma_pack_injective(a: SwapInfo, b: SwapInfo)
        requires
            a.spec_pack() == b.spec_pack(),
        ensures
            a == b,
    {
        lemma_auto_spec_u64_to_from_le_bytes();
        let s = a.spec_pack();
        let t = b.spec_pack();
        assert(s.subrange(2, 34) =~= a.token_a@);
        assert(t.subrange(2, 34) =~= b.token_a@);
        assert(s.subrange(34, 66) =~= a.token_b@);
        assert(t.subrange(34, 66) =~= b.token_b@);
        assert(s.subrange(66, 98) =~= a.admin_key@);
        assert(t.subrange(66, 98) =~= b.admin_key@);
        assert(s.subrange(98, 106) =~= spec_u64_to_le_bytes(a.rate_a));
        assert(t.subrange(98, 106) =~= spec_u64_to_le_bytes(b.rate_a));
        assert(s.subrange(106, 114) =~= spec_u64_to_le_bytes(a.rate_b));
        assert(t.subrange(106, 114) =~= spec_u64_to_le_bytes(b.rate_b));
        assert(s.subrange(114, 122) =~= spec_u64_to_le_bytes(a.fee));
        assert(t.subrange(114, 122) =~= spec_u64_to_le_bytes(b.fee));
        assert(s[0] == (if a.is_initialized { 1u8 } else { 0u8 }));
        assert(t[0] == (if b.is_initialized { 1u8 } else { 0u8 }));
        assert(s[1] == a.nonce);
        assert(t[1] == b.nonce);
        assert(spec_u64_from_le_bytes(spec_u64_to_le_bytes(a.rate_a)) == a.rate_a);
        assert(spec_u64_from_le_bytes(spec_u64_to_le_bytes(b.rate_a)) == b.rate_a);
        assert(spec_u64_from_le_bytes(spec_u64_to_le_bytes(a.rate_b)) == a.rate_b);
        assert(spec_u64_from_le_bytes(spec_u64_to_le_bytes(b.rate_b)) == b.rate_b);
        assert(spec_u64_from_le_bytes(spec_u64_to_le_bytes(a.fee)) == a.fee);
        assert(spec_u64_from_le_bytes(spec_u64_to_le_bytes(b.fee)) == b.fee);
        Pubkey::lemma_view_injective(a.token_a, b.token_a);
        Pubkey::lemma_view_injective(a.token_b, b.token_b);
        Pubkey::lemma_view_injective(a.admin_key, b.admin_key);
    }

    /// Every record encodes to exactly `LEN` bytes that decode successfully,
    /// and the only record they decode to is the one encoded.
    pub proof fn lemma_round_trip(x: SwapInfo)
        ensures
            x.spec_pack().len() == 122,
            is_record_encoding(x.spec_pack()),
            forall|y: SwapInfo| #[trigger] y.spec_pack() == x.spec_pack() ==> y == x,
            spec_decode(x.spec_pack()) == x,
    {
        lemma_auto_spec_u64_to_from_le_bytes();
        assert forall|y: SwapInfo| #[trigger] y.spec_pack() == x.spec_pack() implies y == x by {
            Self::lemma_pack_injective(y, x);
        }
        Self::lemma_pack_injective(spec_decode(x.spec_pack()), x);
    }
}

} // verus!
