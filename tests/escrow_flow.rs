use escrow::error::{EscrowError, ProcessError};
use escrow::ledger::{derive_authority, token_account_amount, TokenCall};
use escrow::processor::{AccountRef, EscrowInstruction, Plan, Processor};
use escrow::state::{Address, Escrow, ESCROW_LEN};

fn addr(b: u8) -> Address {
    Address::new_from_array([b; 32])
}

fn token_program() -> Address {
    Address::new_from_array(spl_token::id().to_bytes())
}

fn program_id() -> Address {
    addr(200)
}

fn account(key: Address, is_signer: bool, lamports: u64, data: Vec<u8>) -> AccountRef {
    AccountRef { key, owner: token_program(), is_signer, lamports, data }
}

fn token_account_data(amount: u64, state: u8) -> Vec<u8> {
    let mut d = vec![0u8; 165];
    d[64..72].copy_from_slice(&amount.to_le_bytes());
    d[108] = state;
    d
}

fn init_accounts(storage: Vec<u8>, storage_lamports: u64) -> Vec<AccountRef> {
    vec![
        account(addr(1), true, 10, vec![]),
        account(addr(2), false, 0, token_account_data(1000, 1)),
        account(addr(3), false, 0, token_account_data(0, 1)),
        account(addr(4), false, storage_lamports, storage),
        account(addr(5), false, 0, vec![]),
        account(token_program(), false, 0, vec![]),
    ]
}

fn exchange_accounts(custody: u64, storage: Vec<u8>) -> Vec<AccountRef> {
    let authority = derive_authority(&program_id()).unwrap();
    vec![
        account(addr(9), true, 0, vec![]),
        account(addr(10), false, 0, token_account_data(700, 1)),
        account(addr(11), false, 0, token_account_data(0, 1)),
        account(addr(2), false, 0, token_account_data(custody, 1)),
        account(addr(1), false, 50, vec![]),
        account(addr(3), false, 0, token_account_data(0, 1)),
        account(addr(4), false, 30, storage),
        account(token_program(), false, 0, vec![]),
        account(authority.address, false, 0, vec![]),
    ]
}

fn sample_record() -> Escrow {
    Escrow {
        is_initialized: true,
        initializer_pubkey: addr(1),
        temp_token_account_pubkey: addr(2),
        initializer_token_to_receive_account_pubkey: addr(3),
        expected_ammount: 0x0102_0304_0506_0708,
    }
}

#[test]
fn pack_layout_is_fixed() {
    let mut buf = vec![0u8; ESCROW_LEN];
    Escrow::pack(sample_record(), &mut buf).unwrap();
    assert_eq!(buf[0], 1);
    assert_eq!(&buf[1..33], &[1u8; 32]);
    assert_eq!(&buf[33..65], &[2u8; 32]);
    assert_eq!(&buf[65..97], &[3u8; 32]);
    assert_eq!(&buf[97..105], &[8, 7, 6, 5, 4, 3, 2, 1]);
}

#[test]
fn unpack_of_pack_gives_record_back() {
    let r = sample_record();
    let mut buf = vec![0u8; ESCROW_LEN];
    Escrow::pack(r, &mut buf).unwrap();
    let d = Escrow::unpack(&buf).unwrap();
    assert!(d.is_initialized);
    assert!(d.initializer_pubkey == r.initializer_pubkey);
    assert!(d.temp_token_account_pubkey == r.temp_token_account_pubkey);
    assert!(d.initializer_token_to_receive_account_pubkey == r.initializer_token_to_receive_account_pubkey);
    assert_eq!(d.expected_ammount, r.expected_ammount);
}

#[test]
fn bad_flag_byte_is_refused() {
    for flag in [2u8, 7, 255] {
        let mut buf = vec![0u8; ESCROW_LEN];
        buf[0] = flag;
        assert_eq!(Escrow::unpack(&buf).unwrap_err(), ProcessError::InvalidAccountData);
        assert_eq!(Escrow::unpack_unchecked(&buf).unwrap_err(), ProcessError::InvalidAccountData);
        assert_eq!(Escrow::unpack_from_slice(&buf).unwrap_err(), ProcessError::InvalidAccountData);
    }
}

#[test]
fn wrong_length_and_uninitialized_records() {
    assert_eq!(Escrow::unpack(&[0u8; 104]).unwrap_err(), ProcessError::InvalidAccountData);
    assert_eq!(Escrow::unpack(&[]).unwrap_err(), ProcessError::InvalidAccountData);
    assert_eq!(Escrow::unpack(&[0u8; ESCROW_LEN]).unwrap_err(), ProcessError::UninitializedAccount);
    let blank = Escrow::unpack_unchecked(&[0u8; ESCROW_LEN]).unwrap();
    assert!(!blank.is_initialized());
    let mut short = vec![0u8; 10];
    assert_eq!(Escrow::pack(sample_record(), &mut short), Err(ProcessError::InvalidAccountData));
    assert_eq!(short, vec![0u8; 10]);
}

#[test]
fn error_codes() {
    assert_eq!(EscrowError::InvalidInstruction.code(), 0);
    assert_eq!(EscrowError::NotRentExempt.code(), 1);
    assert_eq!(EscrowError::InvalidAmount.code(), 2);
    assert_eq!(EscrowError::AmountOverflow.code(), 3);
}

#[test]
fn instruction_decoding() {
    let mut data = vec![0u8];
    data.extend_from_slice(&500u64.to_le_bytes());
    assert_eq!(EscrowInstruction::unpack(&data), Ok(EscrowInstruction::InitEscrow { amount: 500 }));
    data[0] = 1;
    assert_eq!(EscrowInstruction::unpack(&data), Ok(EscrowInstruction::Exchange { amount: 500 }));
    data[0] = 2;
    let bad = Err(ProcessError::Escrow(EscrowError::InvalidInstruction));
    assert_eq!(EscrowInstruction::unpack(&data), bad);
    assert_eq!(EscrowInstruction::unpack(&[0u8, 1, 2]), bad);
}

#[test]
fn authority_derivation_is_deterministic() {
    let a = derive_authority(&program_id()).unwrap();
    let b = derive_authority(&program_id()).unwrap();
    assert!(a.address == b.address);
    assert_eq!(a.bump_seed, b.bump_seed);
    let (pda, bump) = solana_program::pubkey::Pubkey::find_program_address(
        &[b"escrow"],
        &solana_program::pubkey::Pubkey::new_from_array([200u8; 32]),
    );
    assert_eq!(a.address.to_bytes(), pda.to_bytes());
    assert_eq!(a.bump_seed, bump);
    let other = derive_authority(&addr(201)).unwrap();
    assert!(!(other.address == a.address));
}

#[test]
fn token_balance_is_read() {
    assert_eq!(token_account_amount(&token_account_data(1000, 1)), Ok(1000));
    assert_eq!(token_account_amount(&token_account_data(5, 2)), Ok(5));
    assert_eq!(token_account_amount(&token_account_data(5, 0)), Err(ProcessError::UninitializedAccount));
    assert_eq!(token_account_amount(&token_account_data(5, 3)), Err(ProcessError::InvalidAccountData));
    assert_eq!(token_account_amount(&[0u8; 100]), Err(ProcessError::InvalidAccountData));
}

#[test]
fn init_records_terms_and_hands_over_custody() {
    let accounts = init_accounts(vec![0u8; ESCROW_LEN], 1_000_000);
    let plan = Processor::process_init_escrow(&accounts, 500, &program_id(), Some(1_000_000)).unwrap();
    assert!(plan.record.is_initialized);
    assert_eq!(plan.record.expected_ammount, 500);
    assert!(plan.record.initializer_pubkey == addr(1));
    assert!(plan.record.temp_token_account_pubkey == addr(2));
    assert!(plan.record.initializer_token_to_receive_account_pubkey == addr(3));
    let mut expected = vec![0u8; ESCROW_LEN];
    Escrow::pack(plan.record, &mut expected).unwrap();
    assert_eq!(plan.escrow_data, expected);
    let authority = derive_authority(&program_id()).unwrap();
    match plan.set_owner {
        TokenCall::SetOwner { account, new_owner, owner } => {
            assert!(account == addr(2));
            assert!(new_owner == authority.address);
            assert!(owner == addr(1));
        }
        _ => panic!("expected an owner change"),
    }
}

#[test]
fn init_failures() {
    let pid = program_id();
    let mut accounts = init_accounts(vec![0u8; ESCROW_LEN], 100);
    assert_eq!(
        Processor::process_init_escrow(&accounts, 5, &pid, Some(101)).unwrap_err(),
        ProcessError::Escrow(EscrowError::NotRentExempt)
    );
    assert!(Processor::process_init_escrow(&accounts, 5, &pid, Some(100)).is_ok());
    accounts[3].data = vec![0u8; 104];
    assert_eq!(Processor::process_init_escrow(&accounts, 5, &pid, Some(0)).unwrap_err(), ProcessError::InvalidAccountData);
    accounts[3].data = vec![0u8; ESCROW_LEN];
    accounts[5].key = addr(77);
    assert_eq!(Processor::process_init_escrow(&accounts, 5, &pid, Some(0)).unwrap_err(), ProcessError::IncorrectProgramId);
    accounts[2].owner = addr(77);
    assert_eq!(Processor::process_init_escrow(&accounts, 5, &pid, Some(0)).unwrap_err(), ProcessError::IncorrectProgramId);
    accounts[0].is_signer = false;
    assert_eq!(Processor::process_init_escrow(&accounts, 5, &pid, Some(0)).unwrap_err(), ProcessError::MissingRequiredSignature);
    assert_eq!(Processor::process_init_escrow(&[], 5, &pid, Some(0)).unwrap_err(), ProcessError::NotEnoughAccountKeys);
    let few = init_accounts(vec![0u8; ESCROW_LEN], 100);
    assert_eq!(Processor::process_init_escrow(&few[..4], 5, &pid, Some(0)).unwrap_err(), ProcessError::NotEnoughAccountKeys);
}

#[test]
fn init_then_exchange_moves_both_legs_and_closes() {
    let pid = program_id();
    let init = init_accounts(vec![0u8; ESCROW_LEN], 1_000_000);
    let plan = Processor::process_init_escrow(&init, 500, &pid, Some(0)).unwrap();
    let accounts = exchange_accounts(1000, plan.escrow_data.clone());
    let ex = Processor::process_exchange(&accounts, 1000, &pid).unwrap();
    let authority = derive_authority(&pid).unwrap();
    assert!(!ex.calls[0].signed_by_authority);
    assert!(ex.calls[1].signed_by_authority);
    assert!(ex.calls[2].signed_by_authority);
    match ex.calls[0].call {
        TokenCall::Transfer { source, destination, authority: a, amount } => {
            assert!(source == addr(10));
            assert!(destination == addr(3));
            assert!(a == addr(9));
            assert_eq!(amount, 500);
        }
        _ => panic!("expected a transfer"),
    }
    match ex.calls[1].call {
        TokenCall::Transfer { source, destination, authority: a, amount } => {
            assert!(source == addr(2));
            assert!(destination == addr(11));
            assert!(a == authority.address);
            assert_eq!(amount, 1000);
        }
        _ => panic!("expected a transfer"),
    }
    match ex.calls[2].call {
        TokenCall::CloseAccount { account, destination, owner } => {
            assert!(account == addr(2));
            assert!(destination == addr(1));
            assert!(owner == authority.address);
        }
        _ => panic!("expected a close"),
    }
    assert_eq!(ex.authority.bump_seed, authority.bump_seed);
    let mut init_lamports = accounts[4].lamports;
    let mut escrow_lamports = accounts[6].lamports;
    let mut data = accounts[6].data.clone();
    Processor::close_escrow(&mut init_lamports, &mut escrow_lamports, &mut data).unwrap();
    assert_eq!(init_lamports, 80);
    assert_eq!(escrow_lamports, 0);
    assert!(data.is_empty());
}

#[test]
fn exchange_with_mismatched_amount_fails() {
    let pid = program_id();
    let plan = Processor::process_init_escrow(&init_accounts(vec![0u8; ESCROW_LEN], 1), 500, &pid, Some(0)).unwrap();
    for declared in [0u64, 999, 1001, u64::MAX] {
        let accounts = exchange_accounts(1000, plan.escrow_data.clone());
        assert_eq!(
            Processor::process_exchange(&accounts, declared, &pid).unwrap_err(),
            ProcessError::Escrow(EscrowError::InvalidAmount)
        );
    }
}

#[test]
fn exchange_with_wrong_party_fails() {
    let pid = program_id();
    let plan = Processor::process_init_escrow(&init_accounts(vec![0u8; ESCROW_LEN], 1), 500, &pid, Some(0)).unwrap();
    let mut accounts = exchange_accounts(1000, plan.escrow_data.clone());
    accounts[4].key = addr(66);
    assert_eq!(Processor::process_exchange(&accounts, 1000, &pid).unwrap_err(), ProcessError::InvalidAccountData);
    let mut accounts = exchange_accounts(1000, plan.escrow_data.clone());
    accounts[5].key = addr(66);
    assert_eq!(Processor::process_exchange(&accounts, 1000, &pid).unwrap_err(), ProcessError::InvalidAccountData);
}

#[test]
fn exchange_other_failures() {
    let pid = program_id();
    let plan = Processor::process_init_escrow(&init_accounts(vec![0u8; ESCROW_LEN], 1), 500, &pid, Some(0)).unwrap();
    let mut accounts = exchange_accounts(1000, plan.escrow_data.clone());
    accounts[7].key = addr(66);
    assert_eq!(Processor::process_exchange(&accounts, 1000, &pid).unwrap_err(), ProcessError::IncorrectProgramId);
    let accounts = exchange_accounts(1000, vec![0u8; ESCROW_LEN]);
    assert_eq!(Processor::process_exchange(&accounts, 1000, &pid).unwrap_err(), ProcessError::UninitializedAccount);
    let mut accounts = exchange_accounts(1000, plan.escrow_data.clone());
    accounts[0].is_signer = false;
    assert_eq!(Processor::process_exchange(&accounts, 1000, &pid).unwrap_err(), ProcessError::MissingRequiredSignature);
    let accounts = exchange_accounts(1000, plan.escrow_data.clone());
    assert_eq!(Processor::process_exchange(&accounts[..8], 1000, &pid).unwrap_err(), ProcessError::NotEnoughAccountKeys);
}

#[test]
fn closing_credit_overflow_changes_nothing() {
    let mut init_lamports = u64::MAX - 5;
    let mut escrow_lamports = 6u64;
    let mut data = vec![1u8, 2, 3];
    assert_eq!(
        Processor::close_escrow(&mut init_lamports, &mut escrow_lamports, &mut data),
        Err(ProcessError::Escrow(EscrowError::AmountOverflow))
    );
    assert_eq!(init_lamports, u64::MAX - 5);
    assert_eq!(escrow_lamports, 6);
    assert_eq!(data, vec![1u8, 2, 3]);
    let mut escrow_lamports = 5u64;
    assert_eq!(Processor::close_escrow(&mut init_lamports, &mut escrow_lamports, &mut data), Ok(()));
    assert_eq!(init_lamports, u64::MAX);
    assert_eq!(escrow_lamports, 0);
}

#[test]
fn process_dispatches_on_the_tag() {
    let pid = program_id();
    let mut data = vec![0u8];
    data.extend_from_slice(&500u64.to_le_bytes());
    let init = init_accounts(vec![0u8; ESCROW_LEN], 10);
    let storage = match Processor::process(&pid, &init, &data, Some(10)).unwrap() {
        Plan::Init(p) => p.escrow_data,
        Plan::Exchange(_) => panic!("expected Init"),
    };
    let mut data = vec![1u8];
    data.extend_from_slice(&1000u64.to_le_bytes());
    let accounts = exchange_accounts(1000, storage);
    assert!(matches!(Processor::process(&pid, &accounts, &data, None), Ok(Plan::Exchange(_))));
    assert_eq!(
        Processor::process(&pid, &accounts, &[9u8], None).unwrap_err(),
        ProcessError::Escrow(EscrowError::InvalidInstruction)
    );
}

fn metas(ix: &escrow::ledger::LedgerInstruction) -> Vec<([u8; 32], bool, bool)> {
    ix.accounts.iter().map(|m| (m.key.to_bytes(), m.is_signer, m.is_writable)).collect()
}

#[test]
fn transfer_call_becomes_ledger_instruction() {
    let call = TokenCall::Transfer { source: addr(1), destination: addr(2), authority: addr(3), amount: 1000 };
    let ix = call.to_instruction(&token_program()).unwrap();
    assert!(ix.program_id == token_program());
    let mut data = vec![3u8];
    data.extend_from_slice(&1000u64.to_le_bytes());
    assert_eq!(ix.data, data);
    assert_eq!(
        metas(&ix),
        vec![([1u8; 32], false, true), ([2u8; 32], false, true), ([3u8; 32], false, false), ([3u8; 32], true, false)]
    );
    assert_eq!(call.to_instruction(&addr(4)).unwrap_err(), ProcessError::IncorrectProgramId);
}

#[test]
fn close_call_becomes_ledger_instruction() {
    let close = TokenCall::CloseAccount { account: addr(1), destination: addr(2), owner: addr(3) };
    let ix = close.to_instruction(&token_program()).unwrap();
    assert!(ix.program_id == token_program());
    assert_eq!(ix.data, vec![9u8]);
    assert_eq!(
        metas(&ix),
        vec![([1u8; 32], false, true), ([2u8; 32], false, true), ([3u8; 32], false, false), ([3u8; 32], true, false)]
    );
    assert_eq!(close.to_instruction(&addr(4)).unwrap_err(), ProcessError::IncorrectProgramId);
}

#[test]
fn set_owner_call_becomes_ledger_instruction() {
    let set = TokenCall::SetOwner { account: addr(1), new_owner: addr(2), owner: addr(3) };
    let ix = set.to_instruction(&token_program()).unwrap();
    assert!(ix.program_id == token_program());
    let mut data = vec![6u8, 2, 1];
    data.extend_from_slice(&[2u8; 32]);
    assert_eq!(ix.data, data);
    assert_eq!(metas(&ix), vec![([1u8; 32], false, true), ([3u8; 32], false, false), ([3u8; 32], true, false)]);
    assert_eq!(set.to_instruction(&addr(4)).unwrap_err(), ProcessError::IncorrectProgramId);
}

#[test]
fn init_refuses_storage_with_live_record() {
    let pid = program_id();
    let first = Processor::process_init_escrow(&init_accounts(vec![0u8; ESCROW_LEN], 1), 500, &pid, Some(0)).unwrap();
    let mut accounts = init_accounts(first.escrow_data.clone(), 1);
    accounts[0].key = addr(40);
    accounts[2].key = addr(41);
    assert_eq!(
        Processor::process_init_escrow(&accounts, 900, &pid, Some(0)).unwrap_err(),
        ProcessError::AccountAlreadyInitialized
    );
}

#[test]
fn init_needs_the_rent_sysvar() {
    let accounts = init_accounts(vec![0u8; ESCROW_LEN], 1);
    assert_eq!(
        Processor::process_init_escrow(&accounts, 5, &program_id(), None).unwrap_err(),
        ProcessError::InvalidArgument
    );
}
