use vstd::prelude::*;
use crate::constraints::{check_holding, holding_rule};
use crate::error::{AccountError, TokenCaveError};
use crate::pubkey::Pubkey;
use crate::token::{release, release_to, Release, TokenAccount};
use crate::tunnel::payment::{CaveTunnelInfo, TIMELOCK_DURATION};

verus! {

/// The accounts that a payout names.
#[derive(Clone, Copy, Debug, PartialEq, Eq)]
pub struct Payout {
    /// The tunnel: the token account that holds the payment.
    pub cave_tunnel: TokenAccount,
    /// Where the tunnel's record is.
    pub cave_tunnel_info: Pubkey,
    /// The asset.
    pub mint: Pubkey,
    /// Stands where the signature of several parties belongs. It is taken as it comes:
    /// nothing holds it against the record or against anything else.
    pub placeholder_for_threshold_signature: Pubkey,
    /// The identity that is paid.
    pub payee: Pubkey,
    /// The token account that is paid into.
    pub payee_token_account: TokenAccount,
}

impl Payout {
    /// The rule for the accounts of a payout, looked at in this order: the rule for an open
    /// pair, with the payer on record as the source; the payee is the one announced; the
    /// token account to be paid into belongs to the payee; it holds the asset named.
    pub open spec fn accounts_rule(
        &self,
        program_id: Pubkey,
        cave_tunnel_info: CaveTunnelInfo,
        payee_pubkey: Pubkey,
    ) -> Result<u8, AccountError> {
        match holding_rule(
            program_id,
            cave_tunnel_info.payer,
            self.cave_tunnel,
            self.cave_tunnel_info,
            self.mint,
        ) {
            Err(e) => Err(e),
            Ok(bump) => if self.payee != payee_pubkey {
                Err(AccountError::ConstraintAddress)
            } else if self.payee_token_account.owner != self.payee {
                Err(AccountError::ConstraintTokenOwner)
            } else if self.payee_token_account.mint != self.mint {
                Err(AccountError::ConstraintTokenMint)
            } else {
                Ok(bump)
            },
        }
    }

    /// Holds the accounts against the rule; gives the record's nonce.
    pub fn check(
        &self,
        program_id: &Pubkey,
        cave_tunnel_info: &CaveTunnelInfo,
        payee_pubkey: &Pubkey,
    ) -> (checked: Result<u8, AccountError>)
        ensures
            checked == self.accounts_rule(*program_id, *cave_tunnel_info, *payee_pubkey),
    {
        match check_holding(
            program_id,
            &cave_tunnel_info.payer,
            &self.cave_tunnel,
            &self.cave_tunnel_info,
            &self.mint,
        ) {
            Err(e) => Err(e),
            Ok(bump) => {
                if self.payee != *payee_pubkey {
                    Err(AccountError::ConstraintAddress)
                } else if self.payee_token_account.owner != self.payee {
                    Err(AccountError::ConstraintTokenOwner)
                } else if self.payee_token_account.mint != self.mint {
                    Err(AccountError::ConstraintTokenMint)
                } else {
                    Ok(bump)
                }
            },
        }
    }
}

/// What a payout at `now` comes to: the release of the tunnel to the payee's token
/// account, or why it is refused.
pub open spec fn outcome(cave_tunnel_info: CaveTunnelInfo, ctx: Payout, bump: u8, now: i64) -> Result<
    Release,
    TokenCaveError,
> {
    if now <= cave_tunnel_info.earliest_payout_time() {
        Err(TokenCaveError::LockIsActive)
    } else {
        Ok(release_to(ctx.cave_tunnel, ctx.cave_tunnel_info, bump, ctx.payee_token_account.key))
    }
}

/// Pays a tunnel out at the time `now`, if `now` is later than the payment by more than
/// `TIMELOCK_DURATION`: the second at which the delay ends is still refused. Who
/// authorizes the payout is not looked at. The tunnel's whole balance goes to the payee's
/// token account and the tunnel is closed, both on the record's authority, shown by the
/// tunnel's address and `bump`.
pub fn handler(ctx: &Payout, cave_tunnel_info: &CaveTunnelInfo, bump: u8, now: i64) -> (res: Result<
    Release,
    TokenCaveError,
>)
    requires
        cave_tunnel_info.earliest_payout_time() <= i64::MAX,
    ensures
        res == outcome(*cave_tunnel_info, *ctx, bump, now),
        res == Err::<Release, TokenCaveError>(TokenCaveError::LockIsActive) <==> now
            <= cave_tunnel_info.payment_time + TIMELOCK_DURATION,
        res is Ok <==> now > cave_tunnel_info.payment_time + TIMELOCK_DURATION,
        res matches Ok(out) ==> out.transfer.amount == ctx.cave_tunnel.amount && out.transfer.from
            == ctx.cave_tunnel.key && out.transfer.to == ctx.payee_token_account.key,
{
    let earliest_withdraw_time: i64 = cave_tunnel_info.payment_time + TIMELOCK_DURATION as i64;
    if now <= earliest_withdraw_time {
        return Err(TokenCaveError::LockIsActive);
    }
    Ok(release(&ctx.cave_tunnel, &ctx.cave_tunnel_info, bump, &ctx.payee_token_account.key))
}

} // verus!
