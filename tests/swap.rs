use swap_program::error::{ProgramError, SwapError};
use swap_program::instruction::{unpack_u64, InitializeData, SwapData, SwapInstruction};
use swap_program::processor::{Processor, TransferRequest};
use swap_program::pubkey::Pubkey;
use swap_program::state::SwapInfo;
use swap_program::utils::authority_id;

fn key(b: u8) -> Pubkey {
    Pubkey::new_from_array([b; 32])
}

fn sample_info() -> SwapInfo {
    SwapInfo {
        is_initialized: true,
        nonce: 1,
        token_a: key(1),
        token_b: key(2),
        admin_key: key(3),
        rate_a: 1,
        rate_b: 2,
        fee: 50,
    }
}

#[test]
fn test_swap_info_packing() {
    let is_initialized = true;
    let token_a_raw = [1u8; 32];
    let token_b_raw = [2u8; 32];
    let admin_key_raw = [3u8; 32];
    let rate_a = 1u64;
    let rate_b = 2u64;
    let fee = 50u64;
    let nonce = 1u8;
    let token_a = Pubkey::new_from_array(token_a_raw);
    let token_b = Pubkey::new_from_array(token_b_raw);
    let admin_key = Pubkey::new_from_array(admin_key_raw);
    let swap_info = SwapInfo {
        is_initialized,
        nonce,
        token_a,
        token_b,
        admin_key,
        rate_a,
        rate_b,
        fee,
    };

    let mut packed = [0u8; SwapInfo::LEN];
    SwapInfo::pack(swap_info, &mut packed).unwrap();
    let unpacked = SwapInfo::unpack(&packed).unwrap();
    assert_eq!(swap_info, unpacked);
}

#[test]
fn record_layout_is_little_endian_at_fixed_offsets() {
    let mut info = sample_info();
    info.nonce = 7;
    info.rate_a = 0x0102030405060708;
    info.rate_b = 2;
    info.fee = 0xff;
    let bytes = info.encode();
    assert_eq!(bytes.len(), 122);
    assert_eq!(bytes[0], 1);
    assert_eq!(bytes[1], 7);
    assert_eq!(&bytes[2..34], &[1u8; 32][..]);
    assert_eq!(&bytes[34..66], &[2u8; 32][..]);
    assert_eq!(&bytes[66..98], &[3u8; 32][..]);
    assert_eq!(&bytes[98..106], &[8, 7, 6, 5, 4, 3, 2, 1][..]);
    assert_eq!(&bytes[106..114], &[2, 0, 0, 0, 0, 0, 0, 0][..]);
    assert_eq!(&bytes[114..122], &[0xff, 0, 0, 0, 0, 0, 0, 0][..]);
    assert_eq!(SwapInfo::unpack_unchecked(&bytes), Ok(info));
}

#[test]
fn record_round_trip_uninitialized() {
    let mut info = sample_info();
    info.is_initialized = false;
    let mut packed = [9u8; SwapInfo::LEN];
    SwapInfo::pack(info, &mut packed).unwrap();
    assert_eq!(packed[0], 0);
    assert_eq!(SwapInfo::unpack_unchecked(&packed), Ok(info));
    assert_eq!(SwapInfo::unpack(&packed), Err(ProgramError::UninitializedAccount));
}

#[test]
fn record_rejects_bad_flag_and_length() {
    let mut bytes = sample_info().encode();
    bytes[0] = 2;
    assert_eq!(SwapInfo::unpack_unchecked(&bytes), Err(ProgramError::InvalidAccountData));
    assert_eq!(SwapInfo::unpack_unchecked(&[0u8; 121]), Err(ProgramError::InvalidAccountData));
    assert_eq!(SwapInfo::unpack_unchecked(&[0u8; 123]), Err(ProgramError::InvalidAccountData));
    let mut short = [0u8; 121];
    assert_eq!(SwapInfo::pack(sample_info(), &mut short), Err(ProgramError::InvalidAccountData));
    assert_eq!(short, [0u8; 121]);
}

#[test]
fn instruction_initialize_wire_form() {
    let ix = SwapInstruction::Initialize(InitializeData { nonce: 5, rate_a: 1, rate_b: 258, fee: 3 });
    let bytes = ix.pack();
    let mut expected = vec![0u8, 5];
    expected.extend_from_slice(&1u64.to_le_bytes());
    expected.extend_from_slice(&258u64.to_le_bytes());
    expected.extend_from_slice(&3u64.to_le_bytes());
    assert_eq!(bytes, expected);
    assert_eq!(SwapInstruction::unpack(&bytes), Ok(ix));
}

#[test]
fn instruction_swap_wire_form() {
    let ix = SwapInstruction::Swap(SwapData { amount_in: 1000 });
    let bytes = ix.pack();
    assert_eq!(bytes, vec![1u8, 0xe8, 3, 0, 0, 0, 0, 0, 0]);
    assert_eq!(SwapInstruction::unpack(&bytes), Ok(ix));
}

#[test]
fn instruction_round_trip_extremes() {
    let cases = [
        SwapInstruction::Initialize(InitializeData { nonce: 255, rate_a: u64::MAX, rate_b: 0, fee: u64::MAX }),
        SwapInstruction::Initialize(InitializeData { nonce: 0, rate_a: 0, rate_b: 1, fee: 0 }),
        SwapInstruction::Swap(SwapData { amount_in: 0 }),
        SwapInstruction::Swap(SwapData { amount_in: u64::MAX }),
    ];
    for ix in cases.iter() {
        assert_eq!(SwapInstruction::unpack(&ix.pack()), Ok(*ix));
    }
}

#[test]
fn instruction_rejections() {
    let invalid = Err(ProgramError::Custom(0));
    assert_eq!(SwapInstruction::unpack(&[]), invalid);
    assert_eq!(SwapInstruction::unpack(&[2, 0, 0, 0, 0, 0, 0, 0, 0]), invalid);
    assert_eq!(SwapInstruction::unpack(&[0]), invalid);
    assert_eq!(SwapInstruction::unpack(&[0, 5, 1, 0, 0]), invalid);
    let mut short_init = vec![0u8; 25];
    short_init[0] = 0;
    assert_eq!(SwapInstruction::unpack(&short_init), invalid);
    assert_eq!(SwapInstruction::unpack(&[1, 1, 2, 3, 4, 5, 6, 7]), invalid);
}

#[test]
fn instruction_trailing_bytes_ignored() {
    let r = SwapInstruction::unpack(&[1, 7, 0, 0, 0, 0, 0, 0, 0, 99, 98]);
    assert_eq!(r, Ok(SwapInstruction::Swap(SwapData { amount_in: 7 })));
}

#[test]
fn unpack_u64_reads_front() {
    let (v, rest) = unpack_u64(&[1, 1, 0, 0, 0, 0, 0, 0, 9]).unwrap();
    assert_eq!(v, 257);
    assert_eq!(rest, &[9u8][..]);
    assert_eq!(unpack_u64(&[1, 2, 3]), Err(ProgramError::Custom(0)));
}

#[test]
fn error_codes() {
    assert_eq!(SwapError::InvalidInstruction.code(), 0);
    assert_eq!(SwapError::AlreadyInUse.code(), 1);
    assert_eq!(SwapError::ExpectedAccount.code(), 2);
    assert_eq!(SwapError::InvalidProgramAddress.code(), 3);
    assert_eq!(ProgramError::from(SwapError::AlreadyInUse), ProgramError::Custom(1));
}

fn init_accounts() -> Vec<Pubkey> {
    vec![key(10), key(11), key(12), key(13)]
}

#[test]
fn initialize_writes_record() {
    let accounts = init_accounts();
    let mut data = [0u8; SwapInfo::LEN];
    Processor::process_initialize(5, 1, 1, 0, &accounts, &mut data).unwrap();
    let info = SwapInfo::unpack(&data).unwrap();
    assert!(info.is_initialized);
    assert_eq!(info.nonce, 5);
    assert_eq!(info.rate_a, 1);
    assert_eq!(info.rate_b, 1);
    assert_eq!(info.fee, 0);
    assert_eq!(info.admin_key, key(11));
    assert_eq!(info.token_a, key(12));
    assert_eq!(info.token_b, key(13));
}

#[test]
fn initialize_twice_fails() {
    let accounts = init_accounts();
    let mut data = [0u8; SwapInfo::LEN];
    Processor::process_initialize(5, 1, 1, 0, &accounts, &mut data).unwrap();
    let after_first = data;
    let r = Processor::process_initialize(6, 2, 3, 4, &accounts, &mut data);
    assert_eq!(r, Err(ProgramError::Custom(1)));
    assert_eq!(data, after_first);
}

#[test]
fn initialize_rejects_zero_rate_b() {
    let accounts = init_accounts();
    let mut data = [0u8; SwapInfo::LEN];
    let r = Processor::process_initialize(5, 1, 0, 0, &accounts, &mut data);
    assert_eq!(r, Err(ProgramError::InvalidArgument));
    assert_eq!(data, [0u8; SwapInfo::LEN]);
}

#[test]
fn initialize_needs_four_accounts_and_a_record() {
    let mut data = [0u8; SwapInfo::LEN];
    let r = Processor::process_initialize(5, 1, 1, 0, &init_accounts()[..3], &mut data);
    assert_eq!(r, Err(ProgramError::NotEnoughAccountKeys));
    let mut short = [0u8; 10];
    let r = Processor::process_initialize(5, 1, 1, 0, &init_accounts(), &mut short);
    assert_eq!(r, Err(ProgramError::InvalidAccountData));
}

fn program() -> Pubkey {
    key(42)
}

/// Sets up an initialized pool with a nonce for which derivation succeeds;
/// returns its accounts and record.
fn pool(rate_a: u64, rate_b: u64, fee: u64) -> (Vec<Pubkey>, [u8; SwapInfo::LEN], u8) {
    let pool_key = key(20);
    let mut nonce = 0u8;
    let authority = loop {
        if let Ok(a) = authority_id(&program(), &pool_key, nonce) {
            break a;
        }
        nonce += 1;
    };
    let accounts = vec![pool_key, authority, key(21), key(22), key(23), key(24)];
    let mut data = [0u8; SwapInfo::LEN];
    let info = SwapInfo {
        is_initialized: true,
        nonce,
        token_a: key(30),
        token_b: key(31),
        admin_key: key(21),
        rate_a,
        rate_b,
        fee,
    };
    SwapInfo::pack(info, &mut data).unwrap();
    (accounts, data, nonce)
}

fn request(accounts: &[Pubkey], nonce: u8, from: usize, to: usize, amount: u64) -> TransferRequest {
    TransferRequest {
        pool: accounts[0],
        token_program: accounts[5],
        source: accounts[from],
        destination: accounts[to],
        authority: accounts[1],
        nonce,
        amount,
    }
}

#[test]
fn authority_is_deterministic_and_per_pool() {
    let a1 = authority_id(&program(), &key(20), 7);
    let a2 = authority_id(&program(), &key(20), 7);
    assert_eq!(a1, a2);
    let (accounts, _, nonce) = pool(1, 1, 0);
    let a = authority_id(&program(), &accounts[0], nonce).unwrap();
    assert_ne!(a, accounts[0]);
    assert_ne!(a, program());
    let other = authority_id(&program(), &key(25), nonce);
    assert_ne!(other, Ok(a));
}

#[test]
fn swap_requests_two_transfers() {
    let (accounts, data, nonce) = pool(1, 2, 10);
    let r = Processor::process_swap(&program(), 1000, &accounts, &data).unwrap();
    assert_eq!(r, vec![request(&accounts, nonce, 3, 4, 500), request(&accounts, nonce, 4, 2, 10)]);
}

#[test]
fn swap_amount_truncates() {
    let (accounts, data, _) = pool(1, 2, 0);
    let r = Processor::process_swap(&program(), 100, &accounts, &data).unwrap();
    assert_eq!(r[0].amount, 50);
    let r = Processor::process_swap(&program(), 3, &accounts, &data).unwrap();
    assert_eq!(r[0].amount, 1);
}

#[test]
fn swap_rejects_wrong_authority() {
    let (mut accounts, data, _) = pool(1, 2, 10);
    accounts[1] = key(99);
    let r = Processor::process_swap(&program(), 1000, &accounts, &data);
    assert_eq!(r, Err(ProgramError::Custom(3)));
}

#[test]
fn swap_rejects_overflow() {
    let (accounts, data, _) = pool(3, 1, 0);
    let r = Processor::process_swap(&program(), u64::MAX / 2, &accounts, &data);
    assert_eq!(r, Err(ProgramError::ArithmeticOverflow));
}

#[test]
fn swap_rejects_uninitialized_pool_and_missing_accounts() {
    let (accounts, _, _) = pool(1, 2, 0);
    let data = [0u8; SwapInfo::LEN];
    let r = Processor::process_swap(&program(), 1, &accounts, &data);
    assert_eq!(r, Err(ProgramError::UninitializedAccount));
    let (accounts, data, _) = pool(1, 2, 0);
    let r = Processor::process_swap(&program(), 1, &accounts[..5], &data);
    assert_eq!(r, Err(ProgramError::NotEnoughAccountKeys));
}

#[test]
fn plan_swap_takes_derivation_result() {
    let info = sample_info();
    let accounts = vec![key(20), key(40), key(21), key(22), key(23), key(24)];
    let r = Processor::plan_swap(&info, Ok(key(40)), &accounts, 3);
    assert_eq!(r, Ok(vec![request(&accounts, 1, 3, 4, 1), request(&accounts, 1, 4, 2, 50)]));
    let r = Processor::plan_swap(&info, Ok(key(41)), &accounts, 3);
    assert_eq!(r, Err(ProgramError::Custom(3)));
    let r = Processor::plan_swap(&info, Err(SwapError::InvalidProgramAddress), &accounts, 3);
    assert_eq!(r, Err(ProgramError::Custom(3)));
    let mut zero = info;
    zero.rate_b = 0;
    let r = Processor::plan_swap(&zero, Ok(key(40)), &accounts, 3);
    assert_eq!(r, Err(ProgramError::InvalidAccountData));
}

#[test]
fn dispatch_initialize_then_swap() {
    let (accounts, _, nonce) = pool(1, 1, 0);
    let mut data = [0u8; SwapInfo::LEN];
    let init = SwapInstruction::Initialize(InitializeData { nonce, rate_a: 1, rate_b: 2, fee: 10 }).pack();
    let init_accounts = vec![accounts[0], accounts[2], key(30), key(31)];
    let r = Processor::process_swap_instruction(&program(), &init_accounts, &mut data, &init);
    assert_eq!(r, Ok(vec![]));
    let before = data;
    let swap = SwapInstruction::Swap(SwapData { amount_in: 1000 }).pack();
    let r = Processor::process_swap_instruction(&program(), &accounts, &mut data, &swap);
    assert_eq!(r, Ok(vec![request(&accounts, nonce, 3, 4, 500), request(&accounts, nonce, 4, 2, 10)]));
    assert_eq!(data, before);
    let r = Processor::process_swap_instruction(&program(), &init_accounts, &mut data, &init);
    assert_eq!(r, Err(ProgramError::Custom(1)));
    assert_eq!(data, before);
    let r = Processor::process_swap_instruction(&program(), &accounts, &mut data, &[7]);
    assert_eq!(r, Err(ProgramError::Custom(0)));
    assert_eq!(data, before);
}
