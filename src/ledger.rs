//! What the escrow needs from the host and from the token ledger program: the
//! ledger's identity, the balance a token account holds, and the derivation of
//! the program's custody authority.
use crate::error::ProcessError;
use crate::state::{le_bytes, Address};
use solana_program::program_error::ProgramError;
use solana_program::program_pack::Pack;
use solana_program::pubkey::Pubkey;
use vstd::prelude::*;

verus! {

/// The token ledger program's address
/// (`TokenkegQfeZyiNwAJbNbGKPFXCWuBvf9Ss623VQ5DA` in base58).
pub open spec fn spec_token_program_id() -> Seq<u8> {
    seq![
        6u8, 221, 246, 225, 215, 101, 161, 147, 217, 203, 225, 70, 206, 235, 121, 172,
        28, 180, 133, 237, 95, 91, 55, 145, 58, 140, 245, 133, 126, 255, 0, 169,
    ]
}

/// Relies on `spl_token::id`: the ledger program's declared address.
#[verifier::external_body]
pub(crate) fn token_program_id() -> (r: Address)
    ensures
        r@ == spec_token_program_id(),
{
    Address { bytes: spl_token::id().to_bytes() }
}

/// The length of a token ledger account's data.
pub const TOKEN_ACCOUNT_LEN: usize = 165;

/// Whether the four bytes at `at` are a valid option tag (`[0,0,0,0]` or `[1,0,0,0]`).
pub open spec fn option_tag_ok(s: Seq<u8>, at: int) -> bool {
    (s[at] == 0 || s[at] == 1) && s[at + 1] == 0 && s[at + 2] == 0 && s[at + 3] == 0
}

/// What reading a token ledger account's balance from its data gives.
/// The data is 165 bytes: mint (0..32), owner (32..64), balance (64..72,
/// little-endian), optional delegate (72..108), state (108: 0 uninitialized,
/// 1 initialized, 2 frozen), optional native reserve (109..121), delegated
/// amount (121..129), optional close authority (129..165).
pub open spec fn spec_token_amount(s: Seq<u8>) -> Result<u64, ProcessError> {
    if s.len() != TOKEN_ACCOUNT_LEN {
        Err(ProcessError::InvalidAccountData)
    } else if !option_tag_ok(s, 72) || s[108] > 2 || !option_tag_ok(s, 109) || !option_tag_ok(
        s,
        129,
    ) {
        Err(ProcessError::InvalidAccountData)
    } else if s[108] == 0 {
        Err(ProcessError::UninitializedAccount)
    } else {
        Ok(choose|v: u64| le_bytes(v) == s.subrange(64, 72))
    }
}

/// Relies on `spl_token::state::Account::unpack`: it checks the length,
/// the option tags and the state byte, refuses an uninitialized account,
/// and reads the balance as a little-endian integer.
#[verifier::external_body]
fn unpack_token_amount(data: &[u8]) -> (r: Result<u64, ProcessError>)
    ensures
        r == spec_token_amount(data@),
{
    match spl_token::state::Account::unpack(data) {
        Ok(account) => Ok(account.amount),
        Err(ProgramError::UninitializedAccount) => Err(ProcessError::UninitializedAccount),
        Err(_) => Err(ProcessError::InvalidAccountData),
    }
}

/// The balance held by the token ledger account whose data is `data`.
pub fn token_account_amount(data: &[u8]) -> (r: Result<u64, ProcessError>)
    ensures
        r == spec_token_amount(data@),
        r matches Ok(v) ==> le_bytes(v) == data@.subrange(64, 72),
{
    let r = unpack_token_amount(data);
    proof {
        if r is Ok {
            crate::state::lemma_le_bytes_onto(data@.subrange(64, 72));
        }
    }
    r
}

/// The seed from which the custody authority is derived: the bytes of "escrow".
pub open spec fn spec_authority_seed() -> Seq<u8> {
    seq![101u8, 115, 99, 114, 111, 119]
}

/// The seed from which the custody authority is derived.
pub fn authority_seed() -> (r: [u8; 6])
    ensures
        r@ == spec_authority_seed(),
{
    let seed: [u8; 6] = [101, 115, 99, 114, 111, 119];
    assert(seed@ =~= spec_authority_seed());
    seed
}

/// The program-derived address, with its bump seed, that the host finds for
/// one seed under a program's identity; `None` where it finds none.
pub uninterp spec fn program_address(seed: Seq<u8>, program_id: Seq<u8>) -> Option<(Seq<u8>, u8)>;

/// Relies on `Pubkey::try_find_program_address`: a hash of the seed, the
/// bump seed and the program id, tried from bump 255 downwards; the result
/// depends on the seed and the program id alone.
#[verifier::external_body]
fn find_program_address(seed: &[u8], program_id: &Address) -> (r: Option<(Address, u8)>)
    ensures
        match r {
            Some((a, b)) => program_address(seed@, program_id@) == Some((a@, b)),
            None => program_address(seed@, program_id@) is None,
        },
{
    Pubkey::try_find_program_address(&[seed], &Pubkey::new_from_array(program_id.bytes)).map(
        |(key, bump)| (Address { bytes: key.to_bytes() }, bump),
    )
}

/// The identity under which the program custodies deposits, and the bump
/// seed that lets the program sign as it.
#[derive(Debug, Clone, Copy)]
pub struct Authority {
    pub address: Address,
    pub bump_seed: u8,
}

/// The authority derived from a program's identity, or `InvalidSeeds` where
/// none can be derived.
pub open spec fn spec_derive_authority(program_id: Seq<u8>) -> Result<(Seq<u8>, u8), ProcessError> {
    match program_address(spec_authority_seed(), program_id) {
        Some(p) => Ok(p),
        None => Err(ProcessError::InvalidSeeds),
    }
}

/// Whether `r` is what `spec_derive_authority` gives for `program_id`.
pub open spec fn derives_authority(program_id: Seq<u8>, r: Result<Authority, ProcessError>) -> bool {
    match r {
        Ok(a) => spec_derive_authority(program_id) == Ok::<(Seq<u8>, u8), ProcessError>(
            (a.address@, a.bump_seed),
        ),
        Err(e) => spec_derive_authority(program_id) == Err::<(Seq<u8>, u8), ProcessError>(e),
    }
}

/// Derives the custody authority from the program's identity.
pub fn derive_authority(program_id: &Address) -> (r: Result<Authority, ProcessError>)
    ensures
        derives_authority(program_id@, r),
{
    let seed = authority_seed();
    match find_program_address(seed.as_slice(), program_id) {
        Some((address, bump_seed)) => Ok(Authority { address, bump_seed }),
        None => Err(ProcessError::InvalidSeeds),
    }
}

/// Derivation is deterministic: two derivations from the same program
/// identity agree on the address and on the bump seed.
pub proof fn lemma_authority_deterministic(
    program_id: Address,
    first: Result<Authority, ProcessError>,
    second: Result<Authority, ProcessError>,
)
    requires
        derives_authority(program_id@, first),
        derives_authority(program_id@, second),
    ensures
        first == second,
{
    if first is Ok && second is Ok {
        crate::state::Address::lemma_view_injective(
            first->Ok_0.address,
            second->Ok_0.address,
        );
    }
}

/// One account that a ledger instruction names, with how it is used.
#[derive(Debug, Clone, Copy)]
pub struct AccountMetaRef {
    pub key: Address,
    pub is_signer: bool,
    pub is_writable: bool,
}

impl AccountMetaRef {
    pub fn new(key: [u8; 32], is_signer: bool, is_writable: bool) -> (r: AccountMetaRef)
        ensures
            r.key.bytes == key,
            r.is_signer == is_signer,
            r.is_writable == is_writable,
    {
        AccountMetaRef { key: Address { bytes: key }, is_signer, is_writable }
    }
}

/// The account entry `key` with the given signer and writable flags.
pub open spec fn meta(key: Address, is_signer: bool, is_writable: bool) -> AccountMetaRef {
    AccountMetaRef { key, is_signer, is_writable }
}

/// An instruction for the token ledger: the program it goes to, the
/// accounts it names in order, and its payload.
#[derive(Debug, Clone)]
pub struct LedgerInstruction {
    pub program_id: Address,
    pub accounts: Vec<AccountMetaRef>,
    pub data: Vec<u8>,
}

/// Whether `r` is the ledger instruction with the given accounts and data
/// sent to `token_program`, or `IncorrectProgramId` where that is not the
/// ledger's id.
pub open spec fn builds(
    r: Result<LedgerInstruction, ProcessError>,
    token_program: Address,
    accounts: Seq<AccountMetaRef>,
    data: Seq<u8>,
) -> bool {
    match r {
        Ok(ix) => token_program@ == spec_token_program_id() && ix.program_id == token_program
            && ix.accounts@ == accounts && ix.data@ == data,
        Err(e) => token_program@ != spec_token_program_id() && e
            == ProcessError::IncorrectProgramId,
    }
}

/// Relies on `spl_token::instruction::set_authority` with the account-owner
/// authority type and `owner` as the one signer: it refuses any program id
/// but the ledger's with `IncorrectProgramId`; otherwise the accounts are
/// `account` (writable), `owner` (read-only), `owner` (read-only, signer),
/// and the data is 6, 2, then 1 and the new owner's 32 bytes.
#[verifier::external_body]
fn set_owner_instruction(
    token_program: &Address,
    account: &Address,
    new_owner: &Address,
    owner: &Address,
) -> (r: Result<LedgerInstruction, ProcessError>)
    ensures
        builds(
            r,
            *token_program,
            seq![meta(*account, false, true), meta(*owner, false, false), meta(*owner, true, false)],
            seq![6u8, 2u8, 1u8] + new_owner@,
        ),
{
    let key = |a: &Address| Pubkey::new_from_array(a.bytes);
    let owner = key(owner);
    let kind = spl_token::instruction::AuthorityType::AccountOwner;
    match spl_token::instruction::set_authority(
        &key(token_program), &key(account), Some(&key(new_owner)), kind, &owner, &[&owner]) {
        Ok(ix) => Ok(LedgerInstruction {
            program_id: Address { bytes: ix.program_id.to_bytes() },
            accounts: ix.accounts.iter().map(
                |m| AccountMetaRef::new(m.pubkey.to_bytes(), m.is_signer, m.is_writable)).collect(),
            data: ix.data,
        }),
        Err(_) => Err(ProcessError::IncorrectProgramId),
    }
}

/// Relies on `spl_token::instruction::transfer` with `authority` as the one
/// signer: it refuses any program id but the ledger's with
/// `IncorrectProgramId`; otherwise the accounts are `source` and
/// `destination` (writable), `authority` (read-only), `authority`
/// (read-only, signer), and the data is 3 then the amount's eight
/// little-endian bytes.
#[verifier::external_body]
fn transfer_instruction(
    token_program: &Address,
    source: &Address,
    destination: &Address,
    authority: &Address,
    amount: u64,
) -> (r: Result<LedgerInstruction, ProcessError>)
    ensures
        builds(
            r,
            *token_program,
            seq![
                meta(*source, false, true),
                meta(*destination, false, true),
                meta(*authority, false, false),
                meta(*authority, true, false),
            ],
            seq![3u8] + le_bytes(amount),
        ),
{
    let key = |a: &Address| Pubkey::new_from_array(a.bytes);
    let authority = key(authority);
    match spl_token::instruction::transfer(
        &key(token_program), &key(source), &key(destination), &authority, &[&authority], amount) {
        Ok(ix) => Ok(LedgerInstruction {
            program_id: Address { bytes: ix.program_id.to_bytes() },
            accounts: ix.accounts.iter().map(
                |m| AccountMetaRef::new(m.pubkey.to_bytes(), m.is_signer, m.is_writable)).collect(),
            data: ix.data,
        }),
        Err(_) => Err(ProcessError::IncorrectProgramId),
    }
}

/// Relies on `spl_token::instruction::close_account` with `owner` as the one
/// signer: it refuses any program id but the ledger's with
/// `IncorrectProgramId`; otherwise the accounts are `account` and
/// `destination` (writable), `owner` (read-only), `owner` (read-only,
/// signer), and the data is the single byte 9.
#[verifier::external_body]
fn close_account_instruction(
    token_program: &Address,
    account: &Address,
    destination: &Address,
    owner: &Address,
) -> (r: Result<LedgerInstruction, ProcessError>)
    ensures
        builds(
            r,
            *token_program,
            seq![
                meta(*account, false, true),
                meta(*destination, false, true),
                meta(*owner, false, false),
                meta(*owner, true, false),
            ],
            seq![9u8],
        ),
{
    let key = |a: &Address| Pubkey::new_from_array(a.bytes);
    let owner = key(owner);
    match spl_token::instruction::close_account(
        &key(token_program), &key(account), &key(destination), &owner, &[&owner]) {
        Ok(ix) => Ok(LedgerInstruction {
            program_id: Address { bytes: ix.program_id.to_bytes() },
            accounts: ix.accounts.iter().map(
                |m| AccountMetaRef::new(m.pubkey.to_bytes(), m.is_signer, m.is_writable)).collect(),
            data: ix.data,
        }),
        Err(_) => Err(ProcessError::IncorrectProgramId),
    }
}

/// One call into the token ledger program.
#[derive(Debug, Clone, Copy)]
pub enum TokenCall {
    /// Make `new_owner` the owner of `account`, authorized by its current `owner`.
    SetOwner { account: Address, new_owner: Address, owner: Address },
    /// Move `amount` from `source` to `destination`, authorized by `authority`.
    Transfer { source: Address, destination: Address, authority: Address, amount: u64 },
    /// Close `account`, paying its balance to `destination`, authorized by `owner`.
    CloseAccount { account: Address, destination: Address, owner: Address },
}

impl TokenCall {
    /// The accounts that the ledger instruction for this call names.
    pub open spec fn spec_accounts(self) -> Seq<AccountMetaRef> {
        match self {
            TokenCall::SetOwner { account, owner, .. } => seq![
                meta(account, false, true),
                meta(owner, false, false),
                meta(owner, true, false),
            ],
            TokenCall::Transfer { source, destination, authority, .. } => seq![
                meta(source, false, true),
                meta(destination, false, true),
                meta(authority, false, false),
                meta(authority, true, false),
            ],
            TokenCall::CloseAccount { account, destination, owner } => seq![
                meta(account, false, true),
                meta(destination, false, true),
                meta(owner, false, false),
                meta(owner, true, false),
            ],
        }
    }

    /// The payload of the ledger instruction for this call.
    pub open spec fn spec_data(self) -> Seq<u8> {
        match self {
            TokenCall::SetOwner { new_owner, .. } => seq![6u8, 2u8, 1u8] + new_owner@,
            TokenCall::Transfer { amount, .. } => seq![3u8] + le_bytes(amount),
            TokenCall::CloseAccount { .. } => seq![9u8],
        }
    }

    /// The ledger instruction that makes this call through the program at
    /// `token_program`; only the ledger's own id is accepted.
    pub fn to_instruction(&self, token_program: &Address) -> (r: Result<
        LedgerInstruction,
        ProcessError,
    >)
        ensures
            builds(r, *token_program, self.spec_accounts(), self.spec_data()),
    {
        match self {
            TokenCall::SetOwner { account, new_owner, owner } => {
                set_owner_instruction(token_program, account, new_owner, owner)
            },
            TokenCall::Transfer { source, destination, authority, amount } => {
                transfer_instruction(token_program, source, destination, authority, *amount)
            },
            TokenCall::CloseAccount { account, destination, owner } => {
                close_account_instruction(token_program, account, destination, owner)
            },
        }
    }
}

} // verus!
