//! What holds of the operations taken together. Each law is stated over the outcomes that
//! the operations' own contracts are stated over.
use vstd::prelude::*;
use crate::constraints::lemma_holding_rule_binds;
use crate::error::{AccountError, Error, TokenCaveError};
use crate::instructions::abort::Abort;
use crate::instructions::initialize::{CaveInfo, Initialize, MAX_LOCK_DURATION};
use crate::instructions::unlock::Unlock;
use crate::instructions::withdraw::Withdraw;
use crate::instructions;
use crate::pubkey::Pubkey;
use crate::token::{release_is_authorized, release_to, Closure};
use crate::tunnel::payment::{CaveTunnelInfo, TIMELOCK_DURATION};
use crate::tunnel::payout::Payout;
use crate::tunnel::payout_outcome;
use crate::{abort_outcome, initialize_outcome, unlock_outcome, withdraw_outcome};

verus! {

/// A refusal by the rules of a cave or of a tunnel.
pub open spec fn refused_as(rule: TokenCaveError) -> Error {
    Error::Program(rule)
}

/// The refusal of an operation that finds no record.
pub open spec fn no_record() -> Error {
    Error::Account(AccountError::AccountNotInitialized)
}

/// A cave is opened exactly with a lock that is not longer than `MAX_LOCK_DURATION`: a
/// longer one is refused as `DurationExceedsMaximum` whatever else is asked, and the
/// longest one allowed is accepted. Where the accounts are in order and no cave is there
/// yet, the same holds of the whole operation, which then leaves no record for a lock
/// that is too long.
pub proof fn lemma_duration_bound(
    program_id: Pubkey,
    accounts: Initialize,
    deposit_amount: u64,
    backup_address: Option<Pubkey>,
    timelock_duration: u32,
)
    ensures
        ({
            let opening = instructions::initialize::outcome(
                accounts,
                deposit_amount,
                backup_address,
                timelock_duration,
            );
            &&& timelock_duration > MAX_LOCK_DURATION ==> opening is Err && opening->Err_0
                == TokenCaveError::DurationExceedsMaximum
            &&& timelock_duration <= MAX_LOCK_DURATION ==> opening is Ok
        }),
        instructions::initialize::outcome(
            accounts,
            deposit_amount,
            backup_address,
            MAX_LOCK_DURATION,
        ) is Ok,
        accounts.accounts_rule(program_id) is Ok ==> ({
            let (record, res) = initialize_outcome(
                program_id,
                None,
                accounts,
                deposit_amount,
                backup_address,
                timelock_duration,
            );
            &&& timelock_duration > MAX_LOCK_DURATION ==> record is None && res is Err
                && res->Err_0 == refused_as(TokenCaveError::DurationExceedsMaximum)
            &&& timelock_duration <= MAX_LOCK_DURATION ==> record is Some && res is Ok
        }),
{
}

/// A withdrawal for the depositor, from a cave whose accounts are in order, fails with
/// `DidNotRequestUnlock` whenever no unlock is on record; with `LockIsActive` whenever one
/// is and `now` is not later than its time plus the lock; and otherwise goes through,
/// asks for the cave's whole balance to go to the depositor's token account, and leaves
/// no record. A refusal leaves the record as it is.
pub proof fn lemma_withdraw_gating(
    program_id: Pubkey,
    cave_info: CaveInfo,
    accounts: Withdraw,
    now: i64,
)
    requires
        accounts.accounts_rule(program_id) is Ok,
        accounts.depositor == cave_info.depositor,
    ensures
        ({
            let (record, res) = withdraw_outcome(program_id, Some(cave_info), accounts, now);
            let deadline = cave_info.unlock_request_time + cave_info.timelock_duration;
            &&& !cave_info.unlocking ==> record == Some(cave_info) && res is Err && res->Err_0
                == refused_as(TokenCaveError::DidNotRequestUnlock)
            &&& cave_info.unlocking && now <= deadline ==> record == Some(cave_info) && res is Err
                && res->Err_0 == refused_as(TokenCaveError::LockIsActive)
            &&& cave_info.unlocking && now > deadline ==> record is None && res == Ok::<
                Closure,
                Error,
            >(
                Closure {
                    release: release_to(
                        accounts.cave,
                        accounts.cave_info,
                        accounts.accounts_rule(program_id)->Ok_0,
                        accounts.depositor_token_account.key,
                    ),
                    refund_to: accounts.depositor,
                },
            )
            &&& res matches Ok(closure) ==> closure.release.transfer.amount
                == accounts.cave.amount
        }),
{
}

/// An abort goes through right after an unlock request, whatever the time of the request
/// and however little time has passed: no time enters an abort. It takes that the abort's
/// accounts are in order, that the depositor aborts and names the backup on record, and
/// that the token account offered belongs to that backup. The cave's whole balance is
/// then asked to go to that token account, and no record is left.
pub proof fn lemma_abort_follows_unlock(
    program_id: Pubkey,
    record: Option<CaveInfo>,
    unlock_accounts: Unlock,
    request_time: i64,
    abort_accounts: Abort,
)
    requires
        unlock_outcome(program_id, record, unlock_accounts, request_time).1 is Ok,
        abort_accounts.accounts_rule(program_id) is Ok,
        record matches Some(cave_info) && abort_accounts.depositor == cave_info.depositor
            && cave_info.backup_address == Some(abort_accounts.backup),
        abort_accounts.backup_spl_account.owner == abort_accounts.backup,
    ensures
        ({
            let requested = unlock_outcome(program_id, record, unlock_accounts, request_time).0;
            let (left, res) = abort_outcome(program_id, requested, abort_accounts);
            &&& left is None
            &&& res == Ok::<Closure, Error>(
                Closure {
                    release: release_to(
                        abort_accounts.cave,
                        abort_accounts.cave_info,
                        abort_accounts.accounts_rule(program_id)->Ok_0,
                        abort_accounts.backup_spl_account.key,
                    ),
                    refund_to: abort_accounts.depositor,
                },
            )
        }),
{
}

/// A withdrawal or an abort that goes through leaves no record, and where there is no
/// record, no unlock request, withdrawal or abort goes through, at any time and with any
/// accounts: each fails with `AccountNotInitialized` and leaves no record. So a cave is
/// emptied at most once, by one of the two. (Opening a cave where none is left is the
/// beginning of another cave.)
pub proof fn lemma_closed_cave_is_final(
    program_id: Pubkey,
    record: Option<CaveInfo>,
    withdraw_accounts: Withdraw,
    abort_accounts: Abort,
    now: i64,
    next_unlock: Unlock,
    next_withdraw: Withdraw,
    next_abort: Abort,
    later: i64,
)
    ensures
        ({
            let withdrawn = withdraw_outcome(program_id, record, withdraw_accounts, now);
            withdrawn.1 is Ok ==> withdrawn.0 is None
        }),
        ({
            let aborted = abort_outcome(program_id, record, abort_accounts);
            aborted.1 is Ok ==> aborted.0 is None
        }),
        ({
            let (left, res) = unlock_outcome(program_id, None, next_unlock, later);
            left is None && res is Err && res->Err_0 == no_record()
        }),
        ({
            let (left, res) = withdraw_outcome(program_id, None, next_withdraw, later);
            left is None && res is Err && res->Err_0 == no_record()
        }),
        ({
            let (left, res) = abort_outcome(program_id, None, next_abort);
            left is None && res is Err && res->Err_0 == no_record()
        }),
{
}

/// Only the depositor on record gets an unlock request, a withdrawal or an abort past the
/// first rule: for anyone else each of the three fails with `Unauthorized`, whatever the
/// time and the state of the cave. An abort by the depositor that names the backup on
/// record still fails, with `IncorrectBackupTokenAccount`, where the token account
/// offered is not the backup's.
pub proof fn lemma_only_the_depositor(
    cave_info: CaveInfo,
    unlock_accounts: Unlock,
    withdraw_accounts: Withdraw,
    abort_accounts: Abort,
    bump: u8,
    now: i64,
)
    ensures
        unlock_accounts.depositor != cave_info.depositor ==> ({
            let res = instructions::unlock::outcome(cave_info, unlock_accounts, now);
            res is Err && res->Err_0 == TokenCaveError::Unauthorized
        }),
        withdraw_accounts.depositor != cave_info.depositor ==> ({
            let res = instructions::withdraw::outcome(cave_info, withdraw_accounts, bump, now);
            res is Err && res->Err_0 == TokenCaveError::Unauthorized
        }),
        abort_accounts.depositor != cave_info.depositor ==> ({
            let res = instructions::abort::outcome(cave_info, abort_accounts, bump);
            res is Err && res->Err_0 == TokenCaveError::Unauthorized
        }),
        abort_accounts.depositor == cave_info.depositor && cave_info.backup_address == Some(
            abort_accounts.backup,
        ) && abort_accounts.backup_spl_account.owner != abort_accounts.backup ==> ({
            let res = instructions::abort::outcome(cave_info, abort_accounts, bump);
            res is Err && res->Err_0 == TokenCaveError::IncorrectBackupTokenAccount
        }),
{
}

/// The same of the whole operations: on a cave that is there, with accounts in order,
/// anyone but the depositor is refused as `Unauthorized`, and the record stays as it is.
pub proof fn lemma_only_the_depositor_operates(
    program_id: Pubkey,
    cave_info: CaveInfo,
    unlock_accounts: Unlock,
    withdraw_accounts: Withdraw,
    abort_accounts: Abort,
    now: i64,
)
    ensures
        unlock_accounts.accounts_rule(program_id) is Ok && unlock_accounts.depositor
            != cave_info.depositor ==> ({
            let (left, res) = unlock_outcome(program_id, Some(cave_info), unlock_accounts, now);
            left == Some(cave_info) && res is Err && res->Err_0 == refused_as(
                TokenCaveError::Unauthorized,
            )
        }),
        withdraw_accounts.accounts_rule(program_id) is Ok && withdraw_accounts.depositor
            != cave_info.depositor ==> ({
            let (left, res) = withdraw_outcome(
                program_id,
                Some(cave_info),
                withdraw_accounts,
                now,
            );
            left == Some(cave_info) && res is Err && res->Err_0 == refused_as(
                TokenCaveError::Unauthorized,
            )
        }),
        abort_accounts.accounts_rule(program_id) is Ok && abort_accounts.depositor
            != cave_info.depositor ==> ({
            let (left, res) = abort_outcome(program_id, Some(cave_info), abort_accounts);
            left == Some(cave_info) && res is Err && res->Err_0 == refused_as(
                TokenCaveError::Unauthorized,
            )
        }),
{
}

/// The record of a cave stays sound: one that an opening leaves is sound, and so is one
/// that an unlock request leaves, if the record was sound before and the clock does not
/// show the one time that stands for "no request". A refusal leaves the record untouched.
pub proof fn lemma_record_stays_sound(
    program_id: Pubkey,
    record: Option<CaveInfo>,
    opening: Initialize,
    deposit_amount: u64,
    backup_address: Option<Pubkey>,
    timelock_duration: u32,
    unlock_accounts: Unlock,
    now: i64,
)
    ensures
        ({
            let opened = initialize_outcome(
                program_id,
                record,
                opening,
                deposit_amount,
                backup_address,
                timelock_duration,
            );
            &&& opened.1 is Ok ==> (opened.0 matches Some(cave_info) && cave_info.wf())
            &&& opened.1 is Err ==> opened.0 == record
        }),
        ({
            let requested = unlock_outcome(program_id, record, unlock_accounts, now);
            &&& (record matches Some(cave_info) && cave_info.wf()) && now != i64::MIN ==> (
            requested.0 matches Some(next) && next.wf())
            &&& requested.1 is Err ==> requested.0 == record
        }),
{
}

/// Only the record moves what a cave or a tunnel holds, and it can: whenever a withdrawal,
/// an abort or a payout goes through, what it asks of the custody service is the release
/// of the holding account named, whole, on the authority of that account's owner, shown
/// by the seeds that make the owner's address under the program.
pub proof fn lemma_release_is_authorized(
    program_id: Pubkey,
    record: Option<CaveInfo>,
    withdraw_accounts: Withdraw,
    abort_accounts: Abort,
    tunnel_record: Option<CaveTunnelInfo>,
    payout_accounts: Payout,
    payee_pubkey: Pubkey,
    now: i64,
)
    ensures
        withdraw_outcome(program_id, record, withdraw_accounts, now).1 matches Ok(closure)
            ==> release_is_authorized(closure.release, withdraw_accounts.cave, program_id)
            && closure.release.transfer.to == withdraw_accounts.depositor_token_account.key,
        abort_outcome(program_id, record, abort_accounts).1 matches Ok(closure)
            ==> release_is_authorized(closure.release, abort_accounts.cave, program_id)
            && closure.release.transfer.to == abort_accounts.backup_spl_account.key,
        payout_outcome(program_id, tunnel_record, payout_accounts, payee_pubkey, now).1 matches Ok(
            closure,
        ) ==> release_is_authorized(closure.release, payout_accounts.cave_tunnel, program_id)
            && closure.release.transfer.to == payout_accounts.payee_token_account.key,
{
    lemma_holding_rule_binds(
        program_id,
        withdraw_accounts.depositor_token_account.key,
        withdraw_accounts.cave,
        withdraw_accounts.cave_info,
        withdraw_accounts.mint,
    );
    lemma_holding_rule_binds(
        program_id,
        abort_accounts.depositor_token_account.key,
        abort_accounts.cave,
        abort_accounts.cave_info,
        abort_accounts.mint,
    );
    if let Some(cave_tunnel_info) = tunnel_record {
        lemma_holding_rule_binds(
            program_id,
            cave_tunnel_info.payer,
            payout_accounts.cave_tunnel,
            payout_accounts.cave_tunnel_info,
            payout_accounts.mint,
        );
    }
}

/// A tunnel is paid out at most once: a payout that goes through leaves no record, and
/// where there is no record, no payout goes through.
pub proof fn lemma_one_payout(
    program_id: Pubkey,
    record: Option<CaveTunnelInfo>,
    accounts: Payout,
    payee_pubkey: Pubkey,
    now: i64,
    next: Payout,
    next_payee: Pubkey,
    later: i64,
)
    ensures
        ({
            let paid = payout_outcome(program_id, record, accounts, payee_pubkey, now);
            paid.1 is Ok ==> paid.0 is None
        }),
        ({
            let (left, res) = payout_outcome(program_id, None, next, next_payee, later);
            left is None && res is Err && res->Err_0 == no_record()
        }),
{
}

/// A payout with accounts in order goes through exactly when `now` is later than the
/// payment by more than `TIMELOCK_DURATION`, and then asks for the tunnel's whole
/// balance, whatever was paid in; at the second the delay ends and before, it fails with
/// `LockIsActive` and leaves the record. Accounts are in order only if the token account
/// paid into belongs to the payee announced; who authorizes does not matter.
pub proof fn lemma_payout_waits(
    program_id: Pubkey,
    cave_tunnel_info: CaveTunnelInfo,
    accounts: Payout,
    payee_pubkey: Pubkey,
    now: i64,
)
    requires
        accounts.accounts_rule(program_id, cave_tunnel_info, payee_pubkey) is Ok,
    ensures
        accounts.payee_token_account.owner == payee_pubkey,
        ({
            let (left, res) = payout_outcome(
                program_id,
                Some(cave_tunnel_info),
                accounts,
                payee_pubkey,
                now,
            );
            let deadline = cave_tunnel_info.payment_time + TIMELOCK_DURATION;
            &&& now <= deadline ==> left == Some(cave_tunnel_info) && res is Err && res->Err_0
                == refused_as(TokenCaveError::LockIsActive)
            &&& now > deadline ==> left is None && res is Ok
            &&& res matches Ok(closure) ==> closure.release.transfer.amount
                == accounts.cave_tunnel.amount && closure.refund_to
                == accounts.placeholder_for_threshold_signature
        }),
{
}

} // verus!
