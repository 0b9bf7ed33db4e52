use vstd::prelude::*;
use crate::error::AccountError;
use crate::pda::{check_seeds, created_address, lemma_seeds_rule_binds, seeds_rule};
use crate::pubkey::Pubkey;
use crate::token::TokenAccount;

verus! {

/// The rule for opening a pair: the holding account must sit at the address that the
/// source gives, and the record at the address that the holding account gives.
pub open spec fn opening_rule(
    program_id: Pubkey,
    source: Pubkey,
    holding: Pubkey,
    record: Pubkey,
) -> Result<(), AccountError> {
    if seeds_rule(source, program_id, holding) is Err {
        Err(AccountError::ConstraintSeeds)
    } else if seeds_rule(holding, program_id, record) is Err {
        Err(AccountError::ConstraintSeeds)
    } else {
        Ok(())
    }
}

pub fn check_opening(program_id: &Pubkey, source: &Pubkey, holding: &Pubkey, record: &Pubkey) -> (
    checked: Result<(), AccountError>)
    ensures
        checked == opening_rule(*program_id, *source, *holding, *record),
{
    if check_seeds(source, program_id, holding).is_err() {
        return Err(AccountError::ConstraintSeeds);
    }
    if check_seeds(holding, program_id, record).is_err() {
        return Err(AccountError::ConstraintSeeds);
    }
    Ok(())
}

/// The rule for a pair that is open, looked at in this order: the holding account sits at
/// the address that the source gives; the record alone controls it; it holds the asset
/// named; the record sits at the address that the holding account gives. Where all four
/// hold, the outcome is the record's nonce.
pub open spec fn holding_rule(
    program_id: Pubkey,
    source: Pubkey,
    holding: TokenAccount,
    record: Pubkey,
    mint: Pubkey,
) -> Result<u8, AccountError> {
    if seeds_rule(source, program_id, holding.key) is Err {
        Err(AccountError::ConstraintSeeds)
    } else if holding.owner != record {
        Err(AccountError::ConstraintTokenOwner)
    } else if holding.mint != mint {
        Err(AccountError::ConstraintTokenMint)
    } else {
        seeds_rule(holding.key, program_id, record)
    }
}

/// A pair that passes the rule for an open pair is bound together: the record controls the
/// holding account, which holds the asset named, and the holding account's address with
/// the nonce returned makes the record's address.
pub proof fn lemma_holding_rule_binds(
    program_id: Pubkey,
    source: Pubkey,
    holding: TokenAccount,
    record: Pubkey,
    mint: Pubkey,
)
    ensures
        holding_rule(program_id, source, holding, record, mint) matches Ok(bump) ==> {
            &&& seeds_rule(source, program_id, holding.key) is Ok
            &&& holding.owner == record
            &&& holding.mint == mint
            &&& created_address(holding.key@, bump, program_id@) == Some(record@)
        },
{
    lemma_seeds_rule_binds(holding.key, program_id, record);
}

pub fn check_holding(
    program_id: &Pubkey,
    source: &Pubkey,
    holding: &TokenAccount,
    record: &Pubkey,
    mint: &Pubkey,
) -> (checked: Result<u8, AccountError>)
    ensures
        checked == holding_rule(*program_id, *source, *holding, *record, *mint),
{
    if check_seeds(source, program_id, &holding.key).is_err() {
        return Err(AccountError::ConstraintSeeds);
    }
    if holding.owner != *record {
        return Err(AccountError::ConstraintTokenOwner);
    }
    if holding.mint != *mint {
        return Err(AccountError::ConstraintTokenMint);
    }
    check_seeds(&holding.key, program_id, record)
}

} // verus!
