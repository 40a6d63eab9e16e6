//! The swap state machine: pool initialization and swap execution
use crate::error::{swap_failure, ProgramError, SwapError};
use crate::instruction::{invalid_instruction, InitializeData, SwapData, SwapInstruction};
use crate::pubkey::Pubkey;
use crate::state::{is_record_encoding, spec_decode, SwapInfo};
use crate::utils::{authority_id, program_address};
use vstd::prelude::*;

verus! {

/// A token transfer that the pool's authority signs, to be carried out by
/// the token program on the program's behalf.
#[derive(Clone, Copy, Debug, PartialEq, Eq)]
pub struct TransferRequest {
    /// The pool whose address and nonce are the authority's seeds
    pub pool: Pubkey,
    /// The token program that carries out the transfer
    pub token_program: Pubkey,
    /// The account debited
    pub source: Pubkey,
    /// The account credited
    pub destination: Pubkey,
    /// The derived authority that signs
    pub authority: Pubkey,
    /// The nonce of the authority's derivation
    pub nonce: u8,
    /// The amount moved
    pub amount: u64,
}

/// Program state handler.
pub struct Processor {}

/// A transfer from account `from` to account `to` of a swap's account list.
pub open spec fn swap_transfer(
    accounts: Seq<Pubkey>,
    nonce: u8,
    from: int,
    to: int,
    amount: u64,
) -> TransferRequest {
    TransferRequest {
        pool: accounts[0],
        token_program: accounts[5],
        source: accounts[from],
        destination: accounts[to],
        authority: accounts[1],
        nonce,
        amount,
    }
}

/// How much of the other token `amount_in` buys at the pool's rates,
/// truncated toward zero.
pub open spec fn token_amount(amount_in: u64, rate_a: u64, rate_b: u64) -> int
    recommends
        rate_b != 0,
{
    (amount_in * rate_a) / (rate_b as int)
}

/// The outcome of a swap of `amount_in` against the pool `info`, where
/// `derived` is the pool's authority address as derived from its nonce.
/// The accounts are: pool, claimed authority, admin, source, destination,
/// token program.
pub open spec fn swap_outcome(
    info: SwapInfo,
    derived: Option<Seq<u8>>,
    accounts: Seq<Pubkey>,
    amount_in: u64,
) -> Result<Seq<TransferRequest>, ProgramError> {
    match derived {
        None => Err(swap_failure(SwapError::InvalidProgramAddress)),
        Some(a) => if a != accounts[1]@ {
            Err(swap_failure(SwapError::InvalidProgramAddress))
        } else if info.rate_b == 0 {
            Err(ProgramError::InvalidAccountData)
        } else if amount_in * info.rate_a > u64::MAX {
            Err(ProgramError::ArithmeticOverflow)
        } else {
            Ok(
                seq![
                    swap_transfer(accounts, info.nonce, 3, 4, token_amount(amount_in, info.rate_a, info.rate_b) as u64),
                    swap_transfer(accounts, info.nonce, 4, 2, info.fee),
                ],
            )
        },
    }
}

/// The pool record an initialization writes.
pub open spec fn initialized_record(
    nonce: u8,
    rate_a: u64,
    rate_b: u64,
    fee: u64,
    accounts: Seq<Pubkey>,
) -> SwapInfo {
    SwapInfo {
        is_initialized: true,
        nonce,
        token_a: accounts[2],
        token_b: accounts[3],
        admin_key: accounts[1],
        rate_a,
        rate_b,
        fee,
    }
}

/// The outcome of an initialization on the record `data`: the new record's
/// bytes, or the error. The accounts are: pool, admin, token A, token B.
pub open spec fn initialize_outcome(
    nonce: u8,
    rate_a: u64,
    rate_b: u64,
    fee: u64,
    accounts: Seq<Pubkey>,
    data: Seq<u8>,
) -> Result<Seq<u8>, ProgramError> {
    if accounts.len() < 4 {
        Err(ProgramError::NotEnoughAccountKeys)
    } else if !is_record_encoding(data) {
        Err(ProgramError::InvalidAccountData)
    } else if data[0] == 1 {
        Err(swap_failure(SwapError::AlreadyInUse))
    } else if rate_b == 0 {
        Err(ProgramError::InvalidArgument)
    } else {
        Ok(initialized_record(nonce, rate_a, rate_b, fee, accounts).spec_pack())
    }
}

/// The outcome of a swap on the record `data` for the program `program_id`.
pub open spec fn process_swap_outcome(
    program_id: Pubkey,
    amount_in: u64,
    accounts: Seq<Pubkey>,
    data: Seq<u8>,
) -> Result<Seq<TransferRequest>, ProgramError> {
    if accounts.len() < 6 {
        Err(ProgramError::NotEnoughAccountKeys)
    } else if !is_record_encoding(data) {
        Err(ProgramError::InvalidAccountData)
    } else if data[0] == 0 {
        Err(ProgramError::UninitializedAccount)
    } else {
        let info = spec_decode(data);
        swap_outcome(
            info,
            program_address(accounts[0]@, info.nonce, program_id@),
            accounts,
            amount_in,
        )
    }
}

/// A result holding a vector, seen as a result holding its contents.
pub open spec fn result_view(r: Result<Vec<TransferRequest>, ProgramError>) -> Result<
    Seq<TransferRequest>,
    ProgramError,
> {
    match r {
        Ok(v) => Ok(v@),
        Err(e) => Err(e),
    }
}

/// The outcome of an instruction's bytes: the transfers requested, and the
/// pool record after it.
pub open spec fn instruction_outcome(
    program_id: Pubkey,
    accounts: Seq<Pubkey>,
    data: Seq<u8>,
    input: Seq<u8>,
) -> (Result<Seq<TransferRequest>, ProgramError>, Seq<u8>) {
    match SwapInstruction::spec_unpack(input) {
        None => (Err(invalid_instruction()), data),
        Some(SwapInstruction::Initialize(d)) => match initialize_outcome(
            d.nonce,
            d.rate_a,
            d.rate_b,
            d.fee,
            accounts,
            data,
        ) {
            Ok(new_data) => (Ok(Seq::empty()), new_data),
            Err(e) => (Err(e), data),
        },
        Some(SwapInstruction::Swap(d)) => (
            process_swap_outcome(program_id, d.amount_in, accounts, data),
            data,
        ),
    }
}

/// Once an initialization has filled a record, a second one on that record
/// fails with `AlreadyInUse`, whatever its arguments; a failed
/// initialization leaves the record as it was.
pub proof fn lemma_initialize_twice(
    first: InitializeData,
    second: InitializeData,
    first_accounts: Seq<Pubkey>,
    second_accounts: Seq<Pubkey>,
    data: Seq<u8>,
)
    requires
        initialize_outcome(
            first.nonce,
            first.rate_a,
            first.rate_b,
            first.fee,
            first_accounts,
            data,
        ) is Ok,
        second_accounts.len() >= 4,
    ensures
        initialize_outcome(
            second.nonce,
            second.rate_a,
            second.rate_b,
            second.fee,
            second_accounts,
            initialize_outcome(
                first.nonce,
                first.rate_a,
                first.rate_b,
                first.fee,
                first_accounts,
                data,
            )->Ok_0,
        ) == Err::<Seq<u8>, ProgramError>(swap_failure(SwapError::AlreadyInUse)),
{
    let rec = initialized_record(first.nonce, first.rate_a, first.rate_b, first.fee, first_accounts);
    SwapInfo::lemma_round_trip(rec);
    assert(rec.spec_pack()[0] == 1);
}

/// A swap on an initialized pool whose claimed authority is not the address
/// derived from the pool, its nonce and the program fails with
/// `InvalidProgramAddress`, and so requests no transfer.
pub proof fn lemma_wrong_authority_rejected(
    program_id: Pubkey,
    amount_in: u64,
    accounts: Seq<Pubkey>,
    data: Seq<u8>,
)
    requires
        accounts.len() >= 6,
        is_record_encoding(data),
        data[0] == 1,
        program_address(accounts[0]@, spec_decode(data).nonce, program_id@) != Some(accounts[1]@),
    ensures
        process_swap_outcome(program_id, amount_in, accounts, data) == Err::<
            Seq<TransferRequest>,
            ProgramError,
        >(swap_failure(SwapError::InvalidProgramAddress)),
{
}

impl Processor {
    /// Initializes the pool record `pool_data` of `accounts[0]`, with
    /// `accounts[1]` as admin and `accounts[2]`, `accounts[3]` as the tokens.
    /// On an error the record is left as it was.
    pub fn process_initialize(
        nonce: u8,
        rate_a: u64,
        rate_b: u64,
        fee: u64,
        accounts: &[Pubkey],
        pool_data: &mut [u8],
    ) -> (r: Result<(), ProgramError>)
        ensures
            match initialize_outcome(nonce, rate_a, rate_b, fee, accounts@, old(pool_data)@) {
                Ok(new_data) => r is Ok && final(pool_data)@ == new_data,
                Err(e) => r == Err::<(), ProgramError>(e) && final(pool_data)@ == old(pool_data)@,
            },
    {
        if accounts.len() < 4 {
            return Err(ProgramError::NotEnoughAccountKeys);
        }
        let token_swap = match SwapInfo::unpack_unchecked(pool_data) {
            Ok(info) => info,
            Err(e) => return Err(e),
        };
        if token_swap.is_initialized {
            return Err(ProgramError::from(SwapError::AlreadyInUse));
        }
        if rate_b == 0 {
            return Err(ProgramError::InvalidArgument);
        }
        let obj = SwapInfo {
            is_initialized: true,
            nonce,
            token_a: accounts[2],
            token_b: accounts[3],
            admin_key: accounts[1],
            rate_a,
            rate_b,
            fee,
        };
        SwapInfo::pack(obj, pool_data)
    }

    /// Decides a swap of `amount_in` against the pool `info`, given the
    /// result of deriving the pool's authority: checks the claimed authority
    /// `accounts[1]` against it and computes the two transfers, the converted
    /// amount from source to destination and then the fee from destination
    /// to the admin account.
    pub fn plan_swap(
        info: &SwapInfo,
        derived: Result<Pubkey, SwapError>,
        accounts: &[Pubkey],
        amount_in: u64,
    ) -> (r: Result<Vec<TransferRequest>, ProgramError>)
        requires
            accounts@.len() >= 6,
        ensures
            result_view(r) == swap_outcome(
                *info,
                match derived {
                    Ok(k) => Some(k@),
                    Err(_) => None,
                },
                accounts@,
                amount_in,
            ),
    {
        let expected = match derived {
            Ok(k) => k,
            Err(_) => return Err(ProgramError::from(SwapError::InvalidProgramAddress)),
        };
        if !expected.same_as(&accounts[1]) {
            return Err(ProgramError::from(SwapError::InvalidProgramAddress));
        }
        if info.rate_b == 0 {
            return Err(ProgramError::InvalidAccountData);
        }
        let product = match amount_in.checked_mul(info.rate_a) {
            Some(p) => p,
            None => return Err(ProgramError::ArithmeticOverflow),
        };
        let token_amount = product / info.rate_b;
        let mut requests: Vec<TransferRequest> = Vec::new();
        requests.push(
            TransferRequest {
                pool: accounts[0],
                token_program: accounts[5],
                source: accounts[3],
                destination: accounts[4],
                authority: accounts[1],
                nonce: info.nonce,
                amount: token_amount,
            },
        );
        requests.push(
            TransferRequest {
                pool: accounts[0],
                token_program: accounts[5],
                source: accounts[4],
                destination: accounts[2],
                authority: accounts[1],
                nonce: info.nonce,
                amount: info.fee,
            },
        );
        assert(requests@ =~= swap_outcome(*info, Some(expected@), accounts@, amount_in)->Ok_0);
        Ok(requests)
    }

    /// Swaps `amount_in` against the pool record `pool_data` of
    /// `accounts[0]`. Accounts: pool, claimed authority, admin, source,
    /// destination, token program. The record is only read.
    pub fn process_swap(
        program_id: &Pubkey,
        amount_in: u64,
        accounts: &[Pubkey],
        pool_data: &[u8],
    ) -> (r: Result<Vec<TransferRequest>, ProgramError>)
        ensures
            result_view(r) == process_swap_outcome(*program_id, amount_in, accounts@, pool_data@),
    {
        if accounts.len() < 6 {
            return Err(ProgramError::NotEnoughAccountKeys);
        }
        let token_swap = match SwapInfo::unpack(pool_data) {
            Ok(info) => info,
            Err(e) => return Err(e),
        };
        let derived = authority_id(program_id, &accounts[0], token_swap.nonce);
        Self::plan_swap(&token_swap, derived, accounts, amount_in)
    }

    /// Decodes `input` and runs the instruction on the pool record
    /// `pool_data` of `accounts[0]`, returning the transfers to carry out.
    pub fn process_swap_instruction(
        program_id: &Pubkey,
        accounts: &[Pubkey],
        pool_data: &mut [u8],
        input: &[u8],
    ) -> (r: Result<Vec<TransferRequest>, ProgramError>)
        ensures
            (result_view(r), final(pool_data)@) == instruction_outcome(
                *program_id,
                accounts@,
                old(pool_data)@,
                input@,
            ),
    {
        let instruction = match SwapInstruction::unpack(input) {
            Ok(i) => i,
            Err(e) => return Err(e),
        };
        match instruction {
            SwapInstruction::Initialize(InitializeData { nonce, rate_a, rate_b, fee }) => {
                match Self::process_initialize(nonce, rate_a, rate_b, fee, accounts, pool_data) {
                    Ok(()) => {
                        let none: Vec<TransferRequest> = Vec::new();
                        assert(none@ =~= Seq::<TransferRequest>::empty());
                        Ok(none)
                    },
                    Err(e) => Err(e),
                }
            },
            SwapInstruction::Swap(SwapData { amount_in }) => {
                Self::process_swap(program_id, amount_in, accounts, pool_data)
            },
        }
    }
}

} // verus!
