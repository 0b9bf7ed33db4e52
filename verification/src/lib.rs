//! A time-locked cave for tokens, and a prepaid tunnel.
//!
//! A cave takes a deposit and gives it back to the depositor only after an unlock request
//! and the wait that the depositor chose; from the unlock request on, the depositor can
//! instead abort and send the tokens to a backup named at the start. A tunnel takes a
//! payment for a service and releases it to a payee after a fixed wait.
//!
//! The operations decide and say what is to be done; they move no tokens themselves. Each
//! takes the record of a cave or tunnel as the ledger holds it (`None` where there is
//! none), the accounts that the caller names, and the time, and gives back the requests
//! for the custody service. Whoever runs an operation carries these out, and keeps the
//! record as the operation left it only if they all went through.
use vstd::prelude::*;

pub mod constraints;
pub mod error;
pub mod instructions;
pub mod laws;
pub mod pda;
pub mod pubkey;
pub mod token;
pub mod tunnel;

use crate::error::{AccountError, Error};
use crate::instructions::abort::Abort;
use crate::instructions::initialize::{CaveInfo, Initialize};
use crate::instructions::unlock::Unlock;
use crate::instructions::withdraw::Withdraw;
use crate::pubkey::Pubkey;
use crate::constraints::lemma_holding_rule_binds;
use crate::token::{release_is_authorized, Closure, Transfer};

verus! {

/// What opening a cave comes to, and the record that it leaves.
pub open spec fn initialize_outcome(
    program_id: Pubkey,
    record: Option<CaveInfo>,
    accounts: Initialize,
    deposit_amount: u64,
    backup_address: Option<Pubkey>,
    timelock_duration: u32,
) -> (Option<CaveInfo>, Result<Transfer, Error>) {
    if let Err(e) = accounts.accounts_rule(program_id) {
        (record, Err(Error::Account(e)))
    } else if record is Some {
        (record, Err(Error::Account(AccountError::AccountAlreadyInitialized)))
    } else {
        match instructions::initialize::outcome(
            accounts,
            deposit_amount,
            backup_address,
            timelock_duration,
        ) {
            Err(e) => (record, Err(Error::Program(e))),
            Ok(deposit) => (Some(deposit.cave_info), Ok(deposit.transfer)),
        }
    }
}

/// Opens a cave where there is none: checks the accounts, then the lock's length, and
/// leaves the new record in `record`. A refusal leaves `record` as it was.
pub fn initialize(
    program_id: &Pubkey,
    record: &mut Option<CaveInfo>,
    accounts: &Initialize,
    deposit_amount: u64,
    backup_address: Option<Pubkey>,
    timelock_duration: u32,
) -> (res: Result<Transfer, Error>)
    ensures
        (*final(record), res) == initialize_outcome(
            *program_id,
            *old(record),
            *accounts,
            deposit_amount,
            backup_address,
            timelock_duration,
        ),
        res is Err ==> *final(record) == *old(record),
        res is Ok ==> (*final(record) matches Some(cave_info) && cave_info.wf()),
{
    if let Err(e) = accounts.check(program_id) {
        return Err(Error::Account(e));
    }
    if record.is_some() {
        return Err(Error::Account(AccountError::AccountAlreadyInitialized));
    }
    match instructions::initialize::handler(
        accounts,
        deposit_amount,
        backup_address,
        timelock_duration,
    ) {
        Err(e) => Err(Error::Program(e)),
        Ok(deposit) => {
            *record = Some(deposit.cave_info);
            Ok(deposit.transfer)
        },
    }
}

/// What an unlock request comes to, and the record that it leaves.
pub open spec fn unlock_outcome(
    program_id: Pubkey,
    record: Option<CaveInfo>,
    accounts: Unlock,
    now: i64,
) -> (Option<CaveInfo>, Result<(), Error>) {
    match record {
        None => (record, Err(Error::Account(AccountError::AccountNotInitialized))),
        Some(cave_info) => match accounts.accounts_rule(program_id) {
            Err(e) => (record, Err(Error::Account(e))),
            Ok(_) => match instructions::unlock::outcome(cave_info, accounts, now) {
                Err(e) => (record, Err(Error::Program(e))),
                Ok(next) => (Some(next), Ok(())),
            },
        },
    }
}

/// Requests the unlock of the cave in `record` at the time `now`. A refusal leaves
/// `record` as it was.
pub fn unlock(program_id: &Pubkey, record: &mut Option<CaveInfo>, accounts: &Unlock, now: i64) -> (res:
    Result<(), Error>)
    ensures
        (*final(record), res) == unlock_outcome(*program_id, *old(record), *accounts, now),
        res is Err ==> *final(record) == *old(record),
{
    match record {
        None => Err(Error::Account(AccountError::AccountNotInitialized)),
        Some(cave_info) => {
            if let Err(e) = accounts.check(program_id) {
                return Err(Error::Account(e));
            }
            let mut next = *cave_info;
            match instructions::unlock::handler(accounts, &mut next, now) {
                Err(e) => Err(Error::Program(e)),
                Ok(()) => {
                    *record = Some(next);
                    Ok(())
                },
            }
        },
    }
}

/// What a withdrawal comes to, and the record that it leaves.
pub open spec fn withdraw_outcome(
    program_id: Pubkey,
    record: Option<CaveInfo>,
    accounts: Withdraw,
    now: i64,
) -> (Option<CaveInfo>, Result<Closure, Error>) {
    match record {
        None => (record, Err(Error::Account(AccountError::AccountNotInitialized))),
        Some(cave_info) => match accounts.accounts_rule(program_id) {
            Err(e) => (record, Err(Error::Account(e))),
            Ok(bump) => match instructions::withdraw::outcome(cave_info, accounts, bump, now) {
                Err(e) => (record, Err(Error::Program(e))),
                Ok(release) => (None, Ok(Closure { release, refund_to: accounts.depositor })),
            },
        },
    }
}

/// Withdraws from the cave in `record` at the time `now`. Where it goes through, the cave
/// is released to the depositor's token account and `record` is empty: the record is
/// closed, and its storage deposit goes to the depositor. A refusal leaves `record` as it
/// was.
pub fn withdraw(program_id: &Pubkey, record: &mut Option<CaveInfo>, accounts: &Withdraw, now: i64) -> (res:
    Result<Closure, Error>)
    requires
        *old(record) matches Some(cave_info) ==> (instructions::withdraw::reaches_deadline(
            cave_info,
            *accounts,
        ) ==> cave_info.earliest_withdraw_time() <= i64::MAX),
    ensures
        (*final(record), res) == withdraw_outcome(*program_id, *old(record), *accounts, now),
        res is Err ==> *final(record) == *old(record),
        res is Ok ==> *final(record) is None,
        res matches Ok(closure) ==> release_is_authorized(
            closure.release,
            accounts.cave,
            *program_id,
        ),
{
    match record {
        None => Err(Error::Account(AccountError::AccountNotInitialized)),
        Some(cave_info) => {
            let bump = match accounts.check(program_id) {
                Err(e) => { return Err(Error::Account(e)); },
                Ok(bump) => bump,
            };
            proof {
                lemma_holding_rule_binds(
                    *program_id,
                    accounts.depositor_token_account.key,
                    accounts.cave,
                    accounts.cave_info,
                    accounts.mint,
                );
            }
            match instructions::withdraw::handler(accounts, cave_info, bump, now) {
                Err(e) => Err(Error::Program(e)),
                Ok(release) => {
                    *record = None;
                    Ok(Closure { release, refund_to: accounts.depositor })
                },
            }
        },
    }
}

/// What an abort comes to, and the record that it leaves.
pub open spec fn abort_outcome(program_id: Pubkey, record: Option<CaveInfo>, accounts: Abort) -> (
    Option<CaveInfo>,
    Result<Closure, Error>,
) {
    match record {
        None => (record, Err(Error::Account(AccountError::AccountNotInitialized))),
        Some(cave_info) => match accounts.accounts_rule(program_id) {
            Err(e) => (record, Err(Error::Account(e))),
            Ok(bump) => match instructions::abort::outcome(cave_info, accounts, bump) {
                Err(e) => (record, Err(Error::Program(e))),
                Ok(release) => (None, Ok(Closure { release, refund_to: accounts.depositor })),
            },
        },
    }
}

/// Aborts the withdrawal from the cave in `record`. Where it goes through, the cave is
/// released to the backup's token account and `record` is empty: the record is closed, and
/// its storage deposit goes to the depositor. A refusal leaves `record` as it was.
pub fn abort(program_id: &Pubkey, record: &mut Option<CaveInfo>, accounts: &Abort) -> (res: Result<
    Closure,
    Error,
>)
    ensures
        (*final(record), res) == abort_outcome(*program_id, *old(record), *accounts),
        res is Err ==> *final(record) == *old(record),
        res is Ok ==> *final(record) is None,
        res matches Ok(closure) ==> release_is_authorized(
            closure.release,
            accounts.cave,
            *program_id,
        ),
{
    match record {
        None => Err(Error::Account(AccountError::AccountNotInitialized)),
        Some(cave_info) => {
            let bump = match accounts.check(program_id) {
                Err(e) => { return Err(Error::Account(e)); },
                Ok(bump) => bump,
            };
            proof {
                lemma_holding_rule_binds(
                    *program_id,
                    accounts.depositor_token_account.key,
                    accounts.cave,
                    accounts.cave_info,
                    accounts.mint,
                );
            }
            match instructions::abort::handler(accounts, cave_info, bump) {
                Err(e) => Err(Error::Program(e)),
                Ok(release) => {
                    *record = None;
                    Ok(Closure { release, refund_to: accounts.depositor })
                },
            }
        },
    }
}

} // verus!
