use vstd::prelude::*;
use crate::constraints::{check_opening, opening_rule};
use crate::error::AccountError;
use crate::pubkey::Pubkey;
use crate::token::{TokenAccount, Transfer};

verus! {

/// The bytes that the ledger sets aside for the record of a tunnel.
pub const CAVE_TUNNEL_INFO_SIZE: usize = 56;

/// Delay period before receiving payment, in seconds.
pub const TIMELOCK_DURATION: usize = 5;

/// What one second of service costs, in the asset's smallest unit.
pub const COST_OF_SERVICE_PER_SECOND: u64 = 1_000_000;

/// The record of a tunnel: who paid, when, and for how long a service.
#[derive(Clone, Copy, Debug, PartialEq, Eq)]
pub struct CaveTunnelInfo {
    /// Payer.
    pub payer: Pubkey,
    /// Time of the payment.
    pub payment_time: i64,
    /// Seconds of service that the payment covers.
    pub service_time: u32,
}

impl CaveTunnelInfo {
    /// The last second at which the payment is still held back.
    pub open spec fn earliest_payout_time(&self) -> int {
        self.payment_time + TIMELOCK_DURATION
    }
}

/// The price of `service_time` seconds of service.
pub open spec fn cost(service_time: u32) -> int {
    service_time * COST_OF_SERVICE_PER_SECOND
}

/// The accounts that a payment names.
#[derive(Clone, Copy, Debug, PartialEq, Eq)]
pub struct Payment {
    /// Where the tunnel will be: the token account that holds the payment.
    pub cave_tunnel: Pubkey,
    /// Where the tunnel's record will be.
    pub cave_tunnel_info: Pubkey,
    /// The asset.
    pub mint: Pubkey,
    /// Who pays.
    pub payer: Pubkey,
    /// The token account that the payment comes from.
    pub payer_token_account: TokenAccount,
}

impl Payment {
    pub open spec fn accounts_rule(&self, program_id: Pubkey) -> Result<(), AccountError> {
        opening_rule(program_id, self.payer, self.cave_tunnel, self.cave_tunnel_info)
    }

    /// Holds the accounts against the addresses that the payer's identity gives.
    pub fn check(&self, program_id: &Pubkey) -> (checked: Result<(), AccountError>)
        ensures
            checked == self.accounts_rule(*program_id),
    {
        check_opening(program_id, &self.payer, &self.cave_tunnel, &self.cave_tunnel_info)
    }
}

/// A tunnel as it is paid into: its record, and the request that brings the payment in.
#[derive(Clone, Copy, Debug, PartialEq, Eq)]
pub struct Paid {
    pub cave_tunnel_info: CaveTunnelInfo,
    pub transfer: Transfer,
}

/// What a payment at `now` comes to.
pub open spec fn outcome(ctx: Payment, service_time: u32, now: i64) -> Paid {
    Paid {
        cave_tunnel_info: CaveTunnelInfo { payer: ctx.payer, payment_time: now, service_time },
        transfer: Transfer {
            from: ctx.payer_token_account.key,
            to: ctx.cave_tunnel,
            authority: ctx.payer,
            amount: cost(service_time) as u64,
            signer: None,
        },
    }
}

/// Pays for `service_time` seconds of service at the time `now`: gives the tunnel's record
/// and the request that moves the price, `service_time` times
/// `COST_OF_SERVICE_PER_SECOND`, from the payer's token account into the tunnel on the
/// payer's own authority. No length of service is refused.
pub fn handler(ctx: &Payment, service_time: u32, now: i64) -> (paid: Paid)
    ensures
        paid == outcome(*ctx, service_time, now),
        paid.transfer.amount == service_time * COST_OF_SERVICE_PER_SECOND,
{
    let cave_tunnel_info = CaveTunnelInfo { payer: ctx.payer, payment_time: now, service_time };
    let transfer = Transfer {
        from: ctx.payer_token_account.key,
        to: ctx.cave_tunnel,
        authority: ctx.payer,
        amount: service_time as u64 * COST_OF_SERVICE_PER_SECOND,
        signer: None,
    };
    Paid { cave_tunnel_info, transfer }
}

} // verus!
