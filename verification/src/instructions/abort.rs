use vstd::prelude::*;
use crate::constraints::{check_holding, holding_rule};
use crate::error::{AccountError, TokenCaveError};
use crate::instructions::initialize::CaveInfo;
use crate::pubkey::Pubkey;
use crate::token::{release, release_to, Release, TokenAccount};

verus! {

/// The accounts that an abort names.
#[derive(Clone, Copy, Debug, PartialEq, Eq)]
pub struct Abort {
    /// The cave: the token account that holds the deposit.
    pub cave: TokenAccount,
    /// Where the cave's record is.
    pub cave_info: Pubkey,
    /// The asset.
    pub mint: Pubkey,
    /// Who aborts.
    pub depositor: Pubkey,
    /// The identity that the tokens are to go to.
    pub backup: Pubkey,
    /// The token account that the deposit came from.
    pub depositor_token_account: TokenAccount,
    /// The token account that the tokens are to go to.
    pub backup_spl_account: TokenAccount,
}

impl Abort {
    pub open spec fn accounts_rule(&self, program_id: Pubkey) -> Result<u8, AccountError> {
        holding_rule(
            program_id,
            self.depositor_token_account.key,
            self.cave,
            self.cave_info,
            self.mint,
        )
    }

    /// Holds the accounts against the rule for an open cave; gives the record's nonce.
    pub fn check(&self, program_id: &Pubkey) -> (checked: Result<u8, AccountError>)
        ensures
            checked == self.accounts_rule(*program_id),
    {
        check_holding(
            program_id,
            &self.depositor_token_account.key,
            &self.cave,
            &self.cave_info,
            &self.mint,
        )
    }
}

/// The caller is the depositor and names the backup that the record names.
pub open spec fn authorized(cave_info: CaveInfo, ctx: Abort) -> bool {
    ctx.depositor == cave_info.depositor && cave_info.backup_address == Some(ctx.backup)
}

/// What an abort comes to: the release of the cave to the backup's token account, or why
/// it is refused. No time enters.
pub open spec fn outcome(cave_info: CaveInfo, ctx: Abort, bump: u8) -> Result<
    Release,
    TokenCaveError,
> {
    if !authorized(cave_info, ctx) {
        Err(TokenCaveError::Unauthorized)
    } else if ctx.backup_spl_account.owner != ctx.backup {
        Err(TokenCaveError::IncorrectBackupTokenAccount)
    } else if !cave_info.unlocking {
        Err(TokenCaveError::DidNotRequestUnlock)
    } else {
        Ok(release_to(ctx.cave, ctx.cave_info, bump, ctx.backup_spl_account.key))
    }
}

/// Aborts a withdrawal and sends the cave's tokens to the backup. The rules are looked at
/// in this order: the caller is the depositor and names the backup on record; the token
/// account offered belongs to that backup; an unlock was requested. The clock is not
/// asked: an abort is open from the unlock request on, for as long as the cave exists.
/// Where all hold, the cave's whole balance goes to the backup's token account and the
/// cave is closed, both on the record's authority.
pub fn handler(ctx: &Abort, cave_info: &CaveInfo, bump: u8) -> (res: Result<
    Release,
    TokenCaveError,
>)
    ensures
        res == outcome(*cave_info, *ctx, bump),
        res == Err::<Release, TokenCaveError>(TokenCaveError::Unauthorized) <==> !authorized(
            *cave_info,
            *ctx,
        ),
        res == Err::<Release, TokenCaveError>(TokenCaveError::IncorrectBackupTokenAccount)
            <==> authorized(*cave_info, *ctx) && ctx.backup_spl_account.owner != ctx.backup,
        res == Err::<Release, TokenCaveError>(TokenCaveError::DidNotRequestUnlock) <==> authorized(
            *cave_info,
            *ctx,
        ) && ctx.backup_spl_account.owner == ctx.backup && !cave_info.unlocking,
        res is Ok <==> authorized(*cave_info, *ctx) && ctx.backup_spl_account.owner == ctx.backup
            && cave_info.unlocking,
        res matches Ok(out) ==> out.transfer.amount == ctx.cave.amount && out.transfer.from
            == ctx.cave.key && out.transfer.to == ctx.backup_spl_account.key,
{
    if !(ctx.depositor == cave_info.depositor && cave_info.is_backup(&ctx.backup)) {
        return Err(TokenCaveError::Unauthorized);
    }
    if ctx.backup_spl_account.owner != ctx.backup {
        return Err(TokenCaveError::IncorrectBackupTokenAccount);
    }
    if !cave_info.unlocking {
        return Err(TokenCaveError::DidNotRequestUnlock);
    }
    Ok(release(&ctx.cave, &ctx.cave_info, bump, &ctx.backup_spl_account.key))
}

} // verus!
