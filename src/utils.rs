//! Derivation of the program-controlled authority address
use crate::error::SwapError;
use crate::pubkey::Pubkey;
use vstd::prelude::*;

verus! {

/// The address derived for the program `program` from the seeds `pool` and
/// `[nonce]`, or `None` where that derivation yields no valid program address.
pub uninterp spec fn program_address(pool: Seq<u8>, nonce: u8, program: Seq<u8>) -> Option<
    Seq<u8>,
>;

/// Relies on solana_program's `Pubkey::create_program_address` over the two
/// seeds `pool` (32 bytes) and `[nonce]`: a deterministic function of the
/// seeds and the program id, which fails only where the derived bytes are a
/// valid curve point. Both seeds are within its limits of 16 seeds of at most
/// 32 bytes, so the length error cannot occur.
#[verifier::external_body]
fn create_program_address(pool: &[u8; 32], nonce: u8, program: &[u8; 32]) -> (r: Option<[u8; 32]>)
    ensures
        match program_address(pool@, nonce, program@) {
            Some(a) => r matches Some(k) && k@ == a,
            None => r is None,
        },
{
    let program_id = solana_program::pubkey::Pubkey::new_from_array(*program);
    let seeds: [&[u8]; 2] = [&pool[..], &[nonce]];
    match solana_program::pubkey::Pubkey::create_program_address(&seeds, &program_id) {
        Ok(k) => Some(k.to_bytes()),
        Err(_) => None,
    }
}

/// Calculates the authority address of the pool `my_info` from its nonce.
pub fn authority_id(program_id: &Pubkey, my_info: &Pubkey, nonce: u8) -> (r: Result<Pubkey, SwapError>)
    ensures
        match program_address(my_info@, nonce, program_id@) {
            Some(a) => r matches Ok(k) && k@ == a,
            None => r == Err::<Pubkey, SwapError>(SwapError::InvalidProgramAddress),
        },
{
    let pool = my_info.to_bytes();
    let program = program_id.to_bytes();
    match create_program_address(&pool, nonce, &program) {
        Some(k) => Ok(Pubkey::new_from_array(k)),
        None => Err(SwapError::InvalidProgramAddress),
    }
}

} // verus!
