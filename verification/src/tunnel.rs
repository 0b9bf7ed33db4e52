//! The prepaid tunnel: a payer puts the price of a service into a holding account, and
//! after a fixed wait the payment is released to a payee.
use vstd::prelude::*;

pub mod payment;
pub mod payout;

use crate::error::{AccountError, Error};
use crate::pubkey::Pubkey;
use crate::constraints::lemma_holding_rule_binds;
use crate::token::{release_is_authorized, Closure, Transfer};
use crate::tunnel::payment::{CaveTunnelInfo, Payment};
use crate::tunnel::payout::Payout;

verus! {

/// What a payment comes to, and the record that it leaves.
pub open spec fn payment_outcome(
    program_id: Pubkey,
    record: Option<CaveTunnelInfo>,
    accounts: Payment,
    service_time: u32,
    now: i64,
) -> (Option<CaveTunnelInfo>, Result<Transfer, Error>) {
    if let Err(e) = accounts.accounts_rule(program_id) {
        (record, Err(Error::Account(e)))
    } else if record is Some {
        (record, Err(Error::Account(AccountError::AccountAlreadyInitialized)))
    } else {
        let paid = payment::outcome(accounts, service_time, now);
        (Some(paid.cave_tunnel_info), Ok(paid.transfer))
    }
}

/// Opens a tunnel where there is none, at the time `now`: checks the accounts and leaves
/// the new record in `record`. A refusal leaves `record` as it was.
pub fn payment(
    program_id: &Pubkey,
    record: &mut Option<CaveTunnelInfo>,
    accounts: &Payment,
    service_time: u32,
    now: i64,
) -> (res: Result<Transfer, Error>)
    ensures
        (*final(record), res) == payment_outcome(
            *program_id,
            *old(record),
            *accounts,
            service_time,
            now,
        ),
        res is Err ==> *final(record) == *old(record),
{
    if let Err(e) = accounts.check(program_id) {
        return Err(Error::Account(e));
    }
    if record.is_some() {
        return Err(Error::Account(AccountError::AccountAlreadyInitialized));
    }
    let paid = payment::handler(accounts, service_time, now);
    *record = Some(paid.cave_tunnel_info);
    Ok(paid.transfer)
}

/// What a payout comes to, and the record that it leaves.
pub open spec fn payout_outcome(
    program_id: Pubkey,
    record: Option<CaveTunnelInfo>,
    accounts: Payout,
    payee_pubkey: Pubkey,
    now: i64,
) -> (Option<CaveTunnelInfo>, Result<Closure, Error>) {
    match record {
        None => (record, Err(Error::Account(AccountError::AccountNotInitialized))),
        Some(cave_tunnel_info) => match accounts.accounts_rule(
            program_id,
            cave_tunnel_info,
            payee_pubkey,
        ) {
            Err(e) => (record, Err(Error::Account(e))),
            Ok(bump) => match payout::outcome(cave_tunnel_info, accounts, bump, now) {
                Err(e) => (record, Err(Error::Program(e))),
                Ok(release) => (
                    None,
                    Ok(
                        Closure {
                            release,
                            refund_to: accounts.placeholder_for_threshold_signature,
                        },
                    ),
                ),
            },
        },
    }
}

/// Pays out the tunnel in `record` to the payee announced as `payee_pubkey`, at the time
/// `now`. Where it goes through, the tunnel is released to the payee's token account and
/// `record` is empty: the record is closed, and its storage deposit goes to whoever
/// authorized the payout, not to the payer. A refusal leaves `record` as it was.
pub fn payout(
    program_id: &Pubkey,
    record: &mut Option<CaveTunnelInfo>,
    accounts: &Payout,
    payee_pubkey: Pubkey,
    now: i64,
) -> (res: Result<Closure, Error>)
    requires
        *old(record) matches Some(cave_tunnel_info) ==> cave_tunnel_info.earliest_payout_time()
            <= i64::MAX,
    ensures
        (*final(record), res) == payout_outcome(
            *program_id,
            *old(record),
            *accounts,
            payee_pubkey,
            now,
        ),
        res is Err ==> *final(record) == *old(record),
        res is Ok ==> *final(record) is None,
        res matches Ok(closure) ==> release_is_authorized(
            closure.release,
            accounts.cave_tunnel,
            *program_id,
        ),
{
    match record {
        None => Err(Error::Account(AccountError::AccountNotInitialized)),
        Some(cave_tunnel_info) => {
            let bump = match accounts.check(program_id, cave_tunnel_info, &payee_pubkey) {
                Err(e) => { return Err(Error::Account(e)); },
                Ok(bump) => bump,
            };
            proof {
                lemma_holding_rule_binds(
                    *program_id,
                    cave_tunnel_info.payer,
                    accounts.cave_tunnel,
                    accounts.cave_tunnel_info,
                    accounts.mint,
                );
            }
            match payout::handler(accounts, cave_tunnel_info, bump, now) {
                Err(e) => Err(Error::Program(e)),
                Ok(release) => {
                    *record = None;
                    Ok(
                        Closure {
                            release,
                            refund_to: accounts.placeholder_for_threshold_signature,
                        },
                    )
                },
            }
        },
    }
}

} // verus!
