use vstd::prelude::*;
use crate::constraints::{check_holding, holding_rule};
use crate::error::{AccountError, TokenCaveError};
use crate::instructions::initialize::CaveInfo;
use crate::pubkey::Pubkey;
use crate::token::{release, release_to, Release, TokenAccount};

verus! {

/// The accounts that a withdrawal names.
#[derive(Clone, Copy, Debug, PartialEq, Eq)]
pub struct Withdraw {
    /// The cave: the token account that holds the deposit.
    pub cave: TokenAccount,
    /// Where the cave's record is.
    pub cave_info: Pubkey,
    /// The asset.
    pub mint: Pubkey,
    /// Who the withdrawal is for.
    pub depositor: Pubkey,
    /// The token account that the deposit came from, and goes back to.
    pub depositor_token_account: TokenAccount,
}

impl Withdraw {
    pub open spec fn accounts_rule(&self, program_id: Pubkey) -> Result<u8, AccountError> {
        holding_rule(
            program_id,
            self.depositor_token_account.key,
            self.cave,
            self.cave_info,
            self.mint,
        )
    }

    /// Holds the accounts against the rule for an open cave; gives the record's nonce.
    pub fn check(&self, program_id: &Pubkey) -> (checked: Result<u8, AccountError>)
        ensures
            checked == self.accounts_rule(*program_id),
    {
        check_holding(
            program_id,
            &self.depositor_token_account.key,
            &self.cave,
            &self.cave_info,
            &self.mint,
        )
    }
}

/// The withdrawal reaches the comparison of times, for which the end of the lock must be a
/// time that the clock can show.
pub open spec fn reaches_deadline(cave_info: CaveInfo, ctx: Withdraw) -> bool {
    ctx.depositor == cave_info.depositor && cave_info.unlocking
}

/// What a withdrawal at `now` comes to: the release of the cave to the depositor's token
/// account, or why it is refused.
pub open spec fn outcome(cave_info: CaveInfo, ctx: Withdraw, bump: u8, now: i64) -> Result<
    Release,
    TokenCaveError,
> {
    if ctx.depositor != cave_info.depositor {
        Err(TokenCaveError::Unauthorized)
    } else if !cave_info.unlocking {
        Err(TokenCaveError::DidNotRequestUnlock)
    } else if now <= cave_info.earliest_withdraw_time() {
        Err(TokenCaveError::LockIsActive)
    } else {
        Ok(release_to(ctx.cave, ctx.cave_info, bump, ctx.depositor_token_account.key))
    }
}

/// Withdraws from a cave at the time `now`. The rules are looked at in this order: the
/// withdrawal is for the depositor; an unlock was requested; `now` is later than the
/// request by more than the lock, so that the second at which the lock ends is still
/// refused. Where all hold, the cave's whole balance goes to the depositor's token
/// account and the cave is closed, both on the record's authority, shown by the cave's
/// address and `bump`.
pub fn handler(ctx: &Withdraw, cave_info: &CaveInfo, bump: u8, now: i64) -> (res: Result<
    Release,
    TokenCaveError,
>)
    requires
        reaches_deadline(*cave_info, *ctx) ==> cave_info.earliest_withdraw_time() <= i64::MAX,
    ensures
        res == outcome(*cave_info, *ctx, bump, now),
        res == Err::<Release, TokenCaveError>(TokenCaveError::Unauthorized) <==> ctx.depositor
            != cave_info.depositor,
        res == Err::<Release, TokenCaveError>(TokenCaveError::DidNotRequestUnlock) <==> ctx.depositor
            == cave_info.depositor && !cave_info.unlocking,
        res == Err::<Release, TokenCaveError>(TokenCaveError::LockIsActive) <==> ctx.depositor
            == cave_info.depositor && cave_info.unlocking && now
            <= cave_info.unlock_request_time + cave_info.timelock_duration,
        res is Ok <==> ctx.depositor == cave_info.depositor && cave_info.unlocking && now
            > cave_info.unlock_request_time + cave_info.timelock_duration,
        res matches Ok(out) ==> out.transfer.amount == ctx.cave.amount && out.transfer.from
            == ctx.cave.key && out.transfer.to == ctx.depositor_token_account.key,
{
    if ctx.depositor != cave_info.depositor {
        return Err(TokenCaveError::Unauthorized);
    }
    if !cave_info.unlocking {
        return Err(TokenCaveError::DidNotRequestUnlock);
    }
    let earliest_withdraw_time: i64 = cave_info.unlock_request_time
        + cave_info.timelock_duration as i64;
    if now <= earliest_withdraw_time {
        return Err(TokenCaveError::LockIsActive);
    }
    Ok(release(&ctx.cave, &ctx.cave_info, bump, &ctx.depositor_token_account.key))
}

} // verus!
