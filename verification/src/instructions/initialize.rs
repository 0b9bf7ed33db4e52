use vstd::prelude::*;
use crate::constraints::{check_opening, opening_rule};
use crate::error::{AccountError, TokenCaveError};
use crate::pubkey::Pubkey;
use crate::token::{TokenAccount, Transfer};

verus! {

/// The longest lock that a cave can be opened with, in seconds: seven days.
pub const MAX_LOCK_DURATION: u32 = 7 * 24 * 60 * 60;

/// The bytes that the ledger sets aside for the record of a cave.
pub const CAVE_INFO_SIZE: usize = 86;

/// The record of a cave: who deposited, where the tokens go if the withdrawal is aborted,
/// how long the lock lasts, and whether and when an unlock was requested.
#[derive(Clone, Copy, Debug, PartialEq, Eq)]
pub struct CaveInfo {
    /// Backup address in case things go south.
    pub backup_address: Option<Pubkey>,
    /// The only identity that may unlock, withdraw or abort.
    pub depositor: Pubkey,
    /// Seconds that must pass between the unlock request and the withdrawal.
    pub timelock_duration: u32,
    /// Time of the unlock request; `i64::MIN` while none was made.
    pub unlock_request_time: i64,
    /// Whether an unlock was requested.
    pub unlocking: bool,
}

impl CaveInfo {
    /// What holds of every record that the operations make from a sound clock: the lock is
    /// within the limit, and an unlock is on record exactly when its time is.
    pub open spec fn wf(&self) -> bool {
        &&& self.timelock_duration <= MAX_LOCK_DURATION
        &&& (self.unlocking <==> self.unlock_request_time != i64::MIN)
    }

    /// The last second at which the cave is still locked.
    pub open spec fn earliest_withdraw_time(&self) -> int {
        self.unlock_request_time + self.timelock_duration
    }

    /// The record as a cave is opened with.
    pub open spec fn opened(
        depositor: Pubkey,
        backup_address: Option<Pubkey>,
        timelock_duration: u32,
    ) -> CaveInfo {
        CaveInfo {
            backup_address,
            depositor,
            timelock_duration,
            unlock_request_time: i64::MIN,
            unlocking: false,
        }
    }

    /// Whether `account` is the backup that the record names.
    pub fn is_backup(&self, account: &Pubkey) -> (named: bool)
        ensures
            named == (self.backup_address == Some(*account)),
    {
        if let Some(backup) = self.backup_address {
            backup == *account
        } else {
            false
        }
    }
}

/// The accounts that opening a cave names.
#[derive(Clone, Copy, Debug, PartialEq, Eq)]
pub struct Initialize {
    /// Where the cave will be: the token account that holds the deposit.
    pub cave: Pubkey,
    /// Where the cave's record will be.
    pub cave_info: Pubkey,
    /// The asset.
    pub mint: Pubkey,
    /// Who opens the cave.
    pub depositor: Pubkey,
    /// The token account that the deposit comes from.
    pub depositor_token_account: TokenAccount,
}

impl Initialize {
    pub open spec fn accounts_rule(&self, program_id: Pubkey) -> Result<(), AccountError> {
        opening_rule(program_id, self.depositor_token_account.key, self.cave, self.cave_info)
    }

    /// Holds the accounts against the addresses that the deposit's source gives.
    pub fn check(&self, program_id: &Pubkey) -> (checked: Result<(), AccountError>)
        ensures
            checked == self.accounts_rule(*program_id),
    {
        check_opening(program_id, &self.depositor_token_account.key, &self.cave, &self.cave_info)
    }
}

/// A cave as it is opened: its record, and the request that brings the deposit in.
#[derive(Clone, Copy, Debug, PartialEq, Eq)]
pub struct Deposit {
    pub cave_info: CaveInfo,
    pub transfer: Transfer,
}

/// What opening a cave comes to.
pub open spec fn outcome(
    ctx: Initialize,
    deposit_amount: u64,
    backup_address: Option<Pubkey>,
    timelock_duration: u32,
) -> Result<Deposit, TokenCaveError> {
    if timelock_duration > MAX_LOCK_DURATION {
        Err(TokenCaveError::DurationExceedsMaximum)
    } else {
        Ok(
            Deposit {
                cave_info: CaveInfo::opened(ctx.depositor, backup_address, timelock_duration),
                transfer: Transfer {
                    from: ctx.depositor_token_account.key,
                    to: ctx.cave,
                    authority: ctx.depositor,
                    amount: deposit_amount,
                    signer: None,
                },
            },
        )
    }
}

/// Opens a cave: refuses a lock longer than `MAX_LOCK_DURATION`, and otherwise gives the
/// new record, locked and without an unlock request, and the request that moves
/// `deposit_amount` from the depositor's token account into the cave on the depositor's
/// own authority.
pub fn handler(
    ctx: &Initialize,
    deposit_amount: u64,
    backup_address: Option<Pubkey>,
    timelock_duration: u32,
) -> (res: Result<Deposit, TokenCaveError>)
    ensures
        res == outcome(*ctx, deposit_amount, backup_address, timelock_duration),
        res is Err <==> timelock_duration > MAX_LOCK_DURATION,
        res is Err ==> res == Err::<Deposit, TokenCaveError>(TokenCaveError::DurationExceedsMaximum),
        res matches Ok(deposit) ==> deposit.cave_info.wf(),
{
    if timelock_duration > MAX_LOCK_DURATION {
        return Err(TokenCaveError::DurationExceedsMaximum);
    }
    let cave_info = CaveInfo {
        backup_address,
        depositor: ctx.depositor,
        timelock_duration,
        unlock_request_time: i64::MIN,
        unlocking: false,
    };
    let transfer = Transfer {
        from: ctx.depositor_token_account.key,
        to: ctx.cave,
        authority: ctx.depositor,
        amount: deposit_amount,
        signer: None,
    };
    Ok(Deposit { cave_info, transfer })
}

} // verus!
