use vstd::prelude::*;

verus! {

/// Why the lifecycle rules of a cave, or of a tunnel, turn an operation down.
#[derive(Clone, Copy, Debug, PartialEq, Eq, Structural)]
pub enum TokenCaveError {
    /// The operation needs an unlock request, and none is on record.
    DidNotRequestUnlock,
    /// The caller is not the identity that controls this operation.
    Unauthorized,
    /// The lock has not run out yet.
    LockIsActive,
    /// An unlock was requested before and is still on record.
    UnlockAlreadyActive,
    /// The requested lock is longer than the longest one allowed.
    DurationExceedsMaximum,
    /// The token account offered for the backup does not belong to the backup identity.
    IncorrectBackupTokenAccount,
}

impl TokenCaveError {
    pub open spec fn spec_message(&self) -> Seq<char> {
        match self {
            TokenCaveError::DidNotRequestUnlock => "Depositor did not request unlock"@,
            TokenCaveError::Unauthorized => "You are not the depositor"@,
            TokenCaveError::LockIsActive => "The lock duration has not yet elapsed"@,
            TokenCaveError::UnlockAlreadyActive => "There is already an unlock happening"@,
            TokenCaveError::DurationExceedsMaximum => "The maximum allowed lock duration is MAX_TIMELOCK_DURATION. Refer to IDL"@,
            TokenCaveError::IncorrectBackupTokenAccount => "You supplied a token account that does not belong to the backup address"@,
        }
    }

    /// The sentence shown to a caller for this error.
    pub fn message(&self) -> (text: &'static str)
        ensures
            text@ == self.spec_message(),
    {
        match self {
            TokenCaveError::DidNotRequestUnlock => "Depositor did not request unlock",
            TokenCaveError::Unauthorized => "You are not the depositor",
            TokenCaveError::LockIsActive => "The lock duration has not yet elapsed",
            TokenCaveError::UnlockAlreadyActive => "There is already an unlock happening",
            TokenCaveError::DurationExceedsMaximum => "The maximum allowed lock duration is MAX_TIMELOCK_DURATION. Refer to IDL",
            TokenCaveError::IncorrectBackupTokenAccount => "You supplied a token account that does not belong to the backup address",
        }
    }
}

/// Why the accounts handed to an operation are turned down before its rules are looked at.
#[derive(Clone, Copy, Debug, PartialEq, Eq, Structural)]
pub enum AccountError {
    /// A record was expected at the address, and there is none.
    AccountNotInitialized,
    /// A record is to be created at the address, and one is there already.
    AccountAlreadyInitialized,
    /// An account's address does not follow from the seeds it is declared with.
    ConstraintSeeds,
    /// A token account is not controlled by the account that must control it.
    ConstraintTokenOwner,
    /// A token account holds another asset than the one named.
    ConstraintTokenMint,
    /// An account is not at the address that the caller announced.
    ConstraintAddress,
}

/// What an operation can fail with: its accounts are wrong, or its rules say no.
#[derive(Clone, Copy, Debug, PartialEq, Eq, Structural)]
pub enum Error {
    Account(AccountError),
    Program(TokenCaveError),
}

} // verus!
