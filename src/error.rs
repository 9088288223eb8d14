use vstd::prelude::*;

verus! {

/// Failures that belong to the escrow program itself.
#[derive(Debug, Clone, Copy, PartialEq, Eq, Structural)]
pub enum EscrowError {
    /// The instruction payload does not name a known command.
    InvalidInstruction,
    /// The escrow storage account holds too little to be rent-exempt.
    NotRentExempt,
    /// The custody balance differs from the amount the taker declared.
    InvalidAmount,
    /// Crediting the reclaimed rent would overflow the initializer's balance.
    AmountOverflow,
}

impl EscrowError {
    /// The custom error code under which the host reports this error.
    pub open spec fn spec_code(self) -> u32 {
        match self {
            EscrowError::InvalidInstruction => 0,
            EscrowError::NotRentExempt => 1,
            EscrowError::InvalidAmount => 2,
            EscrowError::AmountOverflow => 3,
        }
    }

    pub fn code(&self) -> (r: u32)
        ensures
            r == self.spec_code(),
    {
        match self {
            EscrowError::InvalidInstruction => 0,
            EscrowError::NotRentExempt => 1,
            EscrowError::InvalidAmount => 2,
            EscrowError::AmountOverflow => 3,
        }
    }
}

/// Every way an instruction can fail: the host's own error kinds that this
/// program raises, and the program's custom errors.
#[derive(Debug, Clone, Copy, PartialEq, Eq, Structural)]
pub enum ProcessError {
    /// Fewer accounts were supplied than the operation reads.
    NotEnoughAccountKeys,
    /// The acting party did not sign the transaction.
    MissingRequiredSignature,
    /// An account is not owned by, or is not, the token ledger program.
    IncorrectProgramId,
    /// An account's data has the wrong length or shape, or names the wrong party.
    InvalidAccountData,
    /// An account's data is well formed but not yet initialized.
    UninitializedAccount,
    /// The escrow storage account already holds a live record.
    AccountAlreadyInitialized,
    /// An account is not what the operation reads it as (the rent sysvar).
    InvalidArgument,
    /// No custody authority could be derived from the program's identity.
    InvalidSeeds,
    /// A program-specific failure.
    Escrow(EscrowError),
}

} // verus!
