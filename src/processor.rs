//! The two operations of the escrow, as decisions over what the transaction
//! supplies: which error ends the instruction, or which record to store and
//! which token ledger calls to make.
use crate::error::{EscrowError, ProcessError};
use crate::ledger::{
    derive_authority, derives_authority, spec_derive_authority, spec_token_amount,
    spec_token_program_id, token_account_amount, token_program_id, Authority, TokenCall,
};
use crate::state::{le_bytes, u64_from_le, Address, Escrow, ESCROW_LEN};
use vstd::prelude::*;

verus! {

/// What the processor reads of one account that the transaction supplies.
#[derive(Debug, Clone)]
pub struct AccountRef {
    pub key: Address,
    /// The program that owns the account.
    pub owner: Address,
    pub is_signer: bool,
    pub lamports: u64,
    pub data: Vec<u8>,
}

/// What a successful Init does: store `escrow_data` (the stored form of
/// `record`) in the escrow storage account, then make `set_owner`, signed by
/// the initializer.
#[derive(Debug, Clone)]
pub struct InitPlan {
    pub record: Escrow,
    pub escrow_data: Vec<u8>,
    pub set_owner: TokenCall,
}

/// A token ledger call, and whether the program signs it as the custody
/// authority (with the authority's seed and bump seed).
#[derive(Debug, Clone, Copy)]
pub struct LedgerCall {
    pub call: TokenCall,
    pub signed_by_authority: bool,
}

/// What a successful Exchange does: the ledger calls in `calls`, in order,
/// then `Processor::close_escrow` on the storage account.
#[derive(Debug, Clone, Copy)]
pub struct ExchangePlan {
    pub calls: [LedgerCall; 3],
    pub authority: Authority,
}

/// The commands the processor accepts.
#[derive(Debug, Clone, Copy, PartialEq, Eq, Structural)]
pub enum EscrowInstruction {
    /// Lock the custody account and record the terms, demanding `amount`.
    InitEscrow { amount: u64 },
    /// Complete the trade, declaring `amount` as the custody balance.
    Exchange { amount: u64 },
}

/// What one instruction does.
#[derive(Debug, Clone)]
pub enum Plan {
    Init(InitPlan),
    Exchange(ExchangePlan),
}

/// The escrow program's instruction processor.
pub struct Processor;

/// The error that ends an Init, or `None` where Init goes through.
/// Accounts: initializer, custody, initializer's receive account, escrow
/// storage, rent sysvar, token ledger program.
pub open spec fn init_error(
    accounts: Seq<AccountRef>,
    program_id: Seq<u8>,
    rent_minimum: Option<u64>,
) -> Option<ProcessError> {
    if accounts.len() < 1 {
        Some(ProcessError::NotEnoughAccountKeys)
    } else if !accounts[0].is_signer {
        Some(ProcessError::MissingRequiredSignature)
    } else if accounts.len() < 3 {
        Some(ProcessError::NotEnoughAccountKeys)
    } else if accounts[2].owner@ != spec_token_program_id() {
        Some(ProcessError::IncorrectProgramId)
    } else if accounts.len() < 5 {
        Some(ProcessError::NotEnoughAccountKeys)
    } else if rent_minimum is None {
        Some(ProcessError::InvalidArgument)
    } else if accounts[3].lamports < rent_minimum->Some_0 {
        Some(ProcessError::Escrow(EscrowError::NotRentExempt))
    } else if Escrow::spec_unpack_unchecked(accounts[3].data@) is Err {
        Some(ProcessError::InvalidAccountData)
    } else if Escrow::spec_unpack_unchecked(accounts[3].data@)->Ok_0.is_initialized {
        Some(ProcessError::AccountAlreadyInitialized)
    } else if spec_derive_authority(program_id) is Err {
        Some(ProcessError::InvalidSeeds)
    } else if accounts.len() < 6 {
        Some(ProcessError::NotEnoughAccountKeys)
    } else if accounts[5].key@ != spec_token_program_id() {
        Some(ProcessError::IncorrectProgramId)
    } else {
        None
    }
}

/// What a successful Init yields: the record of the trade terms, its stored
/// form, and the call that hands the custody account to the authority.
pub open spec fn init_done(
    accounts: Seq<AccountRef>,
    amount: u64,
    program_id: Seq<u8>,
    p: InitPlan,
) -> bool {
    &&& p.record == (Escrow {
        is_initialized: true,
        initializer_pubkey: accounts[0].key,
        temp_token_account_pubkey: accounts[1].key,
        initializer_token_to_receive_account_pubkey: accounts[2].key,
        expected_ammount: amount,
    })
    &&& p.escrow_data@ == p.record.spec_bytes()
    &&& p.set_owner matches TokenCall::SetOwner { account, new_owner, owner }
    &&& account == accounts[1].key
    &&& owner == accounts[0].key
    &&& spec_derive_authority(program_id) matches Ok((a, _))
    &&& new_owner@ == a
}

/// The error that ends an Exchange, or `None` where Exchange goes through.
/// Accounts: taker, taker's send account, taker's receive account, custody,
/// initializer's main account, initializer's receive account, escrow
/// storage, token ledger program, custody authority.
pub open spec fn exchange_error(
    accounts: Seq<AccountRef>,
    amount: u64,
    program_id: Seq<u8>,
) -> Option<ProcessError> {
    if accounts.len() < 1 {
        Some(ProcessError::NotEnoughAccountKeys)
    } else if !accounts[0].is_signer {
        Some(ProcessError::MissingRequiredSignature)
    } else if accounts.len() < 9 {
        Some(ProcessError::NotEnoughAccountKeys)
    } else {
        match spec_token_amount(accounts[3].data@) {
            Err(e) => Some(e),
            Ok(held) => if held != amount {
                Some(ProcessError::Escrow(EscrowError::InvalidAmount))
            } else {
                match Escrow::spec_unpack(accounts[6].data@) {
                    Err(e) => Some(e),
                    Ok(rec) => if rec.initializer_pubkey@ != accounts[4].key@ {
                        Some(ProcessError::InvalidAccountData)
                    } else if rec.initializer_token_to_receive_account_pubkey@
                        != accounts[5].key@ {
                        Some(ProcessError::InvalidAccountData)
                    } else if spec_derive_authority(program_id) is Err {
                        Some(ProcessError::InvalidSeeds)
                    } else if accounts[7].key@ != spec_token_program_id() {
                        Some(ProcessError::IncorrectProgramId)
                    } else {
                        None
                    },
                }
            },
        }
    }
}

/// What a successful Exchange yields, in this order: the expected amount to
/// the initializer, signed by the taker; the whole custody balance to the
/// taker, then the custody account closed in favour of the initializer, both
/// signed as the custody authority.
pub open spec fn exchange_done(
    accounts: Seq<AccountRef>,
    amount: u64,
    program_id: Seq<u8>,
    p: ExchangePlan,
) -> bool {
    let rec = Escrow::spec_unpack(accounts[6].data@)->Ok_0;
    &&& derives_authority(program_id, Ok(p.authority))
    &&& p.calls@[0] == (LedgerCall {
        call: TokenCall::Transfer {
            source: accounts[1].key,
            destination: accounts[5].key,
            authority: accounts[0].key,
            amount: rec.expected_ammount,
        },
        signed_by_authority: false,
    })
    &&& p.calls@[1] == (LedgerCall {
        call: TokenCall::Transfer {
            source: accounts[3].key,
            destination: accounts[2].key,
            authority: p.authority.address,
            amount,
        },
        signed_by_authority: true,
    })
    &&& p.calls@[2] == (LedgerCall {
        call: TokenCall::CloseAccount {
            account: accounts[3].key,
            destination: accounts[4].key,
            owner: p.authority.address,
        },
        signed_by_authority: true,
    })
}

/// The balances of the initializer's main account and of the escrow
/// storage after the storage's balance is credited to the initializer.
pub open spec fn spec_close_escrow(initializer_lamports: u64, escrow_lamports: u64) -> Result<
    (u64, u64),
    ProcessError,
> {
    if initializer_lamports + escrow_lamports > u64::MAX {
        Err(ProcessError::Escrow(EscrowError::AmountOverflow))
    } else {
        Ok(((initializer_lamports + escrow_lamports) as u64, 0u64))
    }
}

impl EscrowInstruction {
    /// What decoding an instruction payload gives: a tag byte (0 for Init,
    /// 1 for Exchange) followed by the amount in eight little-endian bytes;
    /// bytes after those are ignored.
    pub open spec fn spec_unpack(input: Seq<u8>) -> Result<EscrowInstruction, ProcessError> {
        if input.len() < 9 || input[0] > 1 {
            Err(ProcessError::Escrow(EscrowError::InvalidInstruction))
        } else {
            let amount = choose|v: u64| le_bytes(v) == input.subrange(1, 9);
            if input[0] == 0 {
                Ok(EscrowInstruction::InitEscrow { amount })
            } else {
                Ok(EscrowInstruction::Exchange { amount })
            }
        }
    }

    /// Decodes an instruction payload.
    pub fn unpack(input: &[u8]) -> (r: Result<EscrowInstruction, ProcessError>)
        ensures
            r == Self::spec_unpack(input@),
    {
        if input.len() < 9 || input[0] > 1 {
            return Err(ProcessError::Escrow(EscrowError::InvalidInstruction));
        }
        let amount = u64_from_le(input, 1);
        proof {
            let c = choose|v: u64| le_bytes(v) == input@.subrange(1, 9);
            crate::state::lemma_le_bytes_injective(amount, c);
        }
        if input[0] == 0 {
            Ok(EscrowInstruction::InitEscrow { amount })
        } else {
            Ok(EscrowInstruction::Exchange { amount })
        }
    }
}

impl Processor {
    /// Init: checks the accounts, builds the escrow record, and names the
    /// call that hands the custody account to the program's authority.
    /// `rent_minimum` is the least balance at which the escrow storage
    /// account is rent-exempt, as the host's rent rules give it, or `None`
    /// where the rent account could not be read as the rent sysvar.
    pub fn process_init_escrow(
        accounts: &[AccountRef],
        amount: u64,
        program_id: &Address,
        rent_minimum: Option<u64>,
    ) -> (r: Result<InitPlan, ProcessError>)
        ensures
            match init_error(accounts@, program_id@, rent_minimum) {
                Some(e) => r == Err::<InitPlan, ProcessError>(e),
                None => r matches Ok(p) && init_done(accounts@, amount, program_id@, p),
            },
    {
        if accounts.len() < 1 {
            return Err(ProcessError::NotEnoughAccountKeys);
        }
        if !accounts[0].is_signer {
            return Err(ProcessError::MissingRequiredSignature);
        }
        if accounts.len() < 3 {
            return Err(ProcessError::NotEnoughAccountKeys);
        }
        let token_id = token_program_id();
        if accounts[2].owner != token_id {
            return Err(ProcessError::IncorrectProgramId);
        }
        if accounts.len() < 5 {
            return Err(ProcessError::NotEnoughAccountKeys);
        }
        let minimum = match rent_minimum {
            Some(m) => m,
            None => {
                return Err(ProcessError::InvalidArgument);
            },
        };
        if accounts[3].lamports < minimum {
            return Err(ProcessError::Escrow(EscrowError::NotRentExempt));
        }
        let mut record = match Escrow::unpack_unchecked(accounts[3].data.as_slice()) {
            Ok(e) => e,
            Err(e) => {
                return Err(e);
            },
        };
        if record.is_initialized() {
            return Err(ProcessError::AccountAlreadyInitialized);
        }
        record.is_initialized = true;
        record.initializer_pubkey = accounts[0].key;
        record.temp_token_account_pubkey = accounts[1].key;
        record.initializer_token_to_receive_account_pubkey = accounts[2].key;
        record.expected_ammount = amount;
        let mut escrow_data: Vec<u8> = vec![0u8; ESCROW_LEN];
        let packed = Escrow::pack(record, escrow_data.as_mut_slice());
        if packed.is_err() {
            return Err(ProcessError::InvalidAccountData);
        }
        let authority = match derive_authority(program_id) {
            Ok(a) => a,
            Err(e) => {
                return Err(e);
            },
        };
        if accounts.len() < 6 {
            return Err(ProcessError::NotEnoughAccountKeys);
        }
        if accounts[5].key != token_id {
            return Err(ProcessError::IncorrectProgramId);
        }
        let set_owner = TokenCall::SetOwner {
            account: accounts[1].key,
            new_owner: authority.address,
            owner: accounts[0].key,
        };
        Ok(InitPlan { record, escrow_data, set_owner })
    }

    /// Exchange: checks the accounts against the stored record and the
    /// custody balance, and names the three token ledger calls that complete
    /// the swap.
    pub fn process_exchange(accounts: &[AccountRef], amount: u64, program_id: &Address) -> (r:
        Result<ExchangePlan, ProcessError>)
        ensures
            match exchange_error(accounts@, amount, program_id@) {
                Some(e) => r == Err::<ExchangePlan, ProcessError>(e),
                None => r matches Ok(p) && exchange_done(accounts@, amount, program_id@, p),
            },
    {
        if accounts.len() < 1 {
            return Err(ProcessError::NotEnoughAccountKeys);
        }
        if !accounts[0].is_signer {
            return Err(ProcessError::MissingRequiredSignature);
        }
        if accounts.len() < 9 {
            return Err(ProcessError::NotEnoughAccountKeys);
        }
        let held = match token_account_amount(accounts[3].data.as_slice()) {
            Ok(v) => v,
            Err(e) => {
                return Err(e);
            },
        };
        if held != amount {
            return Err(ProcessError::Escrow(EscrowError::InvalidAmount));
        }
        let record = match Escrow::unpack(accounts[6].data.as_slice()) {
            Ok(e) => e,
            Err(e) => {
                return Err(e);
            },
        };
        if record.initializer_pubkey != accounts[4].key {
            return Err(ProcessError::InvalidAccountData);
        }
        if record.initializer_token_to_receive_account_pubkey != accounts[5].key {
            return Err(ProcessError::InvalidAccountData);
        }
        let authority = match derive_authority(program_id) {
            Ok(a) => a,
            Err(e) => {
                return Err(e);
            },
        };
        let token_id = token_program_id();
        if accounts[7].key != token_id {
            return Err(ProcessError::IncorrectProgramId);
        }
        let pay_initializer = LedgerCall {
            call: TokenCall::Transfer {
                source: accounts[1].key,
                destination: accounts[5].key,
                authority: accounts[0].key,
                amount: record.expected_ammount,
            },
            signed_by_authority: false,
        };
        let release_to_taker = LedgerCall {
            call: TokenCall::Transfer {
                source: accounts[3].key,
                destination: accounts[2].key,
                authority: authority.address,
                amount,
            },
            signed_by_authority: true,
        };
        let close_custody = LedgerCall {
            call: TokenCall::CloseAccount {
                account: accounts[3].key,
                destination: accounts[4].key,
                owner: authority.address,
            },
            signed_by_authority: true,
        };
        Ok(ExchangePlan { calls: [pay_initializer, release_to_taker, close_custody], authority })
    }

    /// The last step of Exchange: credits the escrow storage's balance to the
    /// initializer's main account, then empties the storage. On overflow
    /// nothing changes.
    pub fn close_escrow(
        initializer_lamports: &mut u64,
        escrow_lamports: &mut u64,
        escrow_data: &mut Vec<u8>,
    ) -> (r: Result<(), ProcessError>)
        ensures
            match spec_close_escrow(*old(initializer_lamports), *old(escrow_lamports)) {
                Ok((i, e)) => r is Ok && *final(initializer_lamports) == i && *final(
                    escrow_lamports) == e && final(escrow_data)@.len() == 0,
                Err(x) => r == Err::<(), ProcessError>(x) && *final(initializer_lamports) == *old(
                    initializer_lamports) && *final(escrow_lamports) == *old(escrow_lamports)
                    && final(escrow_data)@ == old(escrow_data)@,
            },
    {
        let credited = match initializer_lamports.checked_add(*escrow_lamports) {
            Some(v) => v,
            None => {
                return Err(ProcessError::Escrow(EscrowError::AmountOverflow));
            },
        };
        *initializer_lamports = credited;
        *escrow_lamports = 0;
        *escrow_data = Vec::new();
        Ok(())
    }

    /// Decodes the instruction and runs the operation it names.
    pub fn process(
        program_id: &Address,
        accounts: &[AccountRef],
        instruction_data: &[u8],
        rent_minimum: Option<u64>,
    ) -> (r: Result<Plan, ProcessError>)
        ensures
            match EscrowInstruction::spec_unpack(instruction_data@) {
                Err(e) => r == Err::<Plan, ProcessError>(e),
                Ok(EscrowInstruction::InitEscrow { amount }) => match init_error(
                    accounts@,
                    program_id@,
                    rent_minimum,
                ) {
                    Some(e) => r == Err::<Plan, ProcessError>(e),
                    None => r matches Ok(Plan::Init(p)) && init_done(
                        accounts@,
                        amount,
                        program_id@,
                        p,
                    ),
                },
                Ok(EscrowInstruction::Exchange { amount }) => match exchange_error(
                    accounts@,
                    amount,
                    program_id@,
                ) {
                    Some(e) => r == Err::<Plan, ProcessError>(e),
                    None => r matches Ok(Plan::Exchange(p)) && exchange_done(
                        accounts@,
                        amount,
                        program_id@,
                        p,
                    ),
                },
            },
    {
        let instruction = match EscrowInstruction::unpack(instruction_data) {
            Ok(i) => i,
            Err(e) => {
                return Err(e);
            },
        };
        match instruction {
            EscrowInstruction::InitEscrow { amount } => {
                match Self::process_init_escrow(accounts, amount, program_id, rent_minimum) {
                    Ok(p) => Ok(Plan::Init(p)),
                    Err(e) => Err(e),
                }
            },
            EscrowInstruction::Exchange { amount } => {
                match Self::process_exchange(accounts, amount, program_id) {
                    Ok(p) => Ok(Plan::Exchange(p)),
                    Err(e) => Err(e),
                }
            },
        }
    }
}

/// Init followed at once by Exchange goes through: when Exchange is given the
/// record that Init stored, the parties that Init recorded, a signing taker,
/// the token ledger program, and a custody balance equal to the declared
/// amount, it fails on no check and reads back the record Init built; and
/// where the two balances fit together, closing leaves the storage with none.
pub proof fn lemma_init_then_exchange(
    init_accounts: Seq<AccountRef>,
    amount: u64,
    program_id: Seq<u8>,
    rent_minimum: Option<u64>,
    plan: InitPlan,
    exchange_accounts: Seq<AccountRef>,
    declared: u64,
    initializer_lamports: u64,
    escrow_lamports: u64,
)
    requires
        init_error(init_accounts, program_id, rent_minimum) is None,
        init_done(init_accounts, amount, program_id, plan),
        exchange_accounts.len() >= 9,
        exchange_accounts[0].is_signer,
        spec_token_amount(exchange_accounts[3].data@) == Ok::<u64, ProcessError>(declared),
        exchange_accounts[4].key == init_accounts[0].key,
        exchange_accounts[5].key == init_accounts[2].key,
        exchange_accounts[6].data@ == plan.escrow_data@,
        exchange_accounts[7].key@ == spec_token_program_id(),
        initializer_lamports + escrow_lamports <= u64::MAX,
    ensures
        exchange_error(exchange_accounts, declared, program_id) is None,
        Escrow::spec_unpack(exchange_accounts[6].data@) == Ok::<Escrow, ProcessError>(plan.record),
        plan.record.expected_ammount == amount,
        spec_close_escrow(initializer_lamports, escrow_lamports) == Ok::<(u64, u64), ProcessError>(
            ((initializer_lamports + escrow_lamports) as u64, 0u64),
        ),
{
    Escrow::lemma_round_trip(plan.record, plan.record);
}

/// Init never replaces a live escrow: when the storage account already
/// holds an initialized record and every earlier check passes, Init fails
/// with `AccountAlreadyInitialized`.
pub proof fn lemma_init_refuses_live_record(
    accounts: Seq<AccountRef>,
    program_id: Seq<u8>,
    rent_minimum: Option<u64>,
    record: Escrow,
)
    requires
        accounts.len() >= 5,
        accounts[0].is_signer,
        accounts[2].owner@ == spec_token_program_id(),
        rent_minimum matches Some(m) && accounts[3].lamports >= m,
        accounts[3].data@ == record.spec_bytes(),
        record.is_initialized,
    ensures
        init_error(accounts, program_id, rent_minimum) == Some(
            ProcessError::AccountAlreadyInitialized,
        ),
{
    Escrow::lemma_round_trip(record, record);
}

/// Exchange fails with `InvalidAmount` whenever the custody balance differs
/// from the declared amount, once the signer and account count are right.
pub proof fn lemma_amount_mismatch(
    accounts: Seq<AccountRef>,
    amount: u64,
    program_id: Seq<u8>,
    held: u64,
)
    requires
        accounts.len() >= 9,
        accounts[0].is_signer,
        spec_token_amount(accounts[3].data@) == Ok::<u64, ProcessError>(held),
        held != amount,
    ensures
        exchange_error(accounts, amount, program_id) == Some(
            ProcessError::Escrow(EscrowError::InvalidAmount),
        ),
{
}

/// Exchange fails with `InvalidAccountData` when the supplied initializer or
/// receive account is not the one the stored record names.
pub proof fn lemma_wrong_party(
    accounts: Seq<AccountRef>,
    amount: u64,
    program_id: Seq<u8>,
    record: Escrow,
)
    requires
        accounts.len() >= 9,
        accounts[0].is_signer,
        spec_token_amount(accounts[3].data@) == Ok::<u64, ProcessError>(amount),
        Escrow::spec_unpack(accounts[6].data@) == Ok::<Escrow, ProcessError>(record),
        record.initializer_pubkey != accounts[4].key
            || record.initializer_token_to_receive_account_pubkey != accounts[5].key,
    ensures
        exchange_error(accounts, amount, program_id) == Some(ProcessError::InvalidAccountData),
{
    if record.initializer_pubkey@ == accounts[4].key@ {
        Address::lemma_view_injective(record.initializer_pubkey, accounts[4].key);
        if record.initializer_token_to_receive_account_pubkey@ == accounts[5].key@ {
            Address::lemma_view_injective(
                record.initializer_token_to_receive_account_pubkey,
                accounts[5].key,
            );
        }
    }
}

} // verus!
