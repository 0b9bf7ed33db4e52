use vstd::prelude::*;
use crate::constraints::{check_holding, holding_rule};
use crate::error::{AccountError, TokenCaveError};
use crate::instructions::initialize::CaveInfo;
use crate::pubkey::Pubkey;
use crate::token::TokenAccount;

verus! {

/// The accounts that an unlock request names.
#[derive(Clone, Copy, Debug, PartialEq, Eq)]
pub struct Unlock {
    /// The cave: the token account that holds the deposit.
    pub cave: TokenAccount,
    /// Where the cave's record is.
    pub cave_info: Pubkey,
    /// The asset.
    pub mint: Pubkey,
    /// Who asks.
    pub depositor: Pubkey,
    /// The token account that the deposit came from.
    pub depositor_token_account: TokenAccount,
}

impl Unlock {
    pub open spec fn accounts_rule(&self, program_id: Pubkey) -> Result<u8, AccountError> {
        holding_rule(
            program_id,
            self.depositor_token_account.key,
            self.cave,
            self.cave_info,
            self.mint,
        )
    }

    /// Holds the accounts against the rule for an open cave; gives the record's nonce.
    pub fn check(&self, program_id: &Pubkey) -> (checked: Result<u8, AccountError>)
        ensures
            checked == self.accounts_rule(*program_id),
    {
        check_holding(
            program_id,
            &self.depositor_token_account.key,
            &self.cave,
            &self.cave_info,
            &self.mint,
        )
    }
}

/// The record after an unlock request at `now`.
pub open spec fn unlocked(cave_info: CaveInfo, now: i64) -> CaveInfo {
    CaveInfo { unlock_request_time: now, unlocking: true, ..cave_info }
}

/// What an unlock request comes to: the record that it leaves, or why it is refused.
pub open spec fn outcome(cave_info: CaveInfo, ctx: Unlock, now: i64) -> Result<
    CaveInfo,
    TokenCaveError,
> {
    if ctx.depositor != cave_info.depositor {
        Err(TokenCaveError::Unauthorized)
    } else if cave_info.unlocking {
        Err(TokenCaveError::UnlockAlreadyActive)
    } else {
        Ok(unlocked(cave_info, now))
    }
}

/// Requests the unlock of a cave at the time `now`. Only the depositor may ask, and only
/// once: a second request is refused and leaves the first one's time in place. A refusal
/// changes nothing.
pub fn handler(ctx: &Unlock, cave_info: &mut CaveInfo, now: i64) -> (res: Result<
    (),
    TokenCaveError,
>)
    ensures
        match outcome(*old(cave_info), *ctx, now) {
            Ok(next) => res is Ok && *final(cave_info) == next,
            Err(e) => res == Err::<(), TokenCaveError>(e) && *final(cave_info) == *old(cave_info),
        },
        res == Err::<(), TokenCaveError>(TokenCaveError::Unauthorized) <==> ctx.depositor != old(
            cave_info,
        ).depositor,
        res == Err::<(), TokenCaveError>(TokenCaveError::UnlockAlreadyActive) <==> ctx.depositor
            == old(cave_info).depositor && old(cave_info).unlocking,
        res is Ok <==> ctx.depositor == old(cave_info).depositor && !old(cave_info).unlocking,
        res is Ok ==> *final(cave_info) == unlocked(*old(cave_info), now),
        old(cave_info).wf() && now != i64::MIN ==> final(cave_info).wf(),
{
    if ctx.depositor != cave_info.depositor {
        return Err(TokenCaveError::Unauthorized);
    }
    if cave_info.unlocking {
        return Err(TokenCaveError::UnlockAlreadyActive);
    }
    cave_info.unlock_request_time = now;
    cave_info.unlocking = true;
    Ok(())
}

} // verus!
