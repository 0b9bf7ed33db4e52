use vstd::prelude::*;
use crate::error::AccountError;
use crate::pubkey::Pubkey;

verus! {

/// The address that the ledger makes for a program from one 32-byte seed and a nonce;
/// `None` where these give no address that a program can hold.
pub uninterp spec fn created_address(seed: Seq<u8>, bump: u8, program_id: Seq<u8>) -> Option<
    Seq<u8>,
>;

/// Calls `Pubkey::create_program_address` of solana-program (through anchor-lang's
/// re-export) with the two seeds `seed` and `[bump]` and the program `program_id`, and
/// drops the reason of a failure. Nothing is claimed of the address but that it depends on
/// these three values alone: it is `created_address` of them.
#[verifier::external_body]
fn create_program_address(seed: &Pubkey, bump: u8, program_id: &Pubkey) -> (made: Option<Pubkey>)
    ensures
        match made {
            Some(address) => created_address(seed@, bump, program_id@) == Some(address@),
            None => created_address(seed@, bump, program_id@) is None,
        },
{
    let program = anchor_lang::prelude::Pubkey::new_from_array(program_id.bytes);
    anchor_lang::prelude::Pubkey::create_program_address(&[&seed.bytes[..], &[bump]], &program)
        .ok()
        .map(|address| Pubkey { bytes: address.to_bytes() })
}

/// The first address met, with its nonce, when the nonces are tried from `from` down to 1.
pub open spec fn search(seed: Seq<u8>, program_id: Seq<u8>, from: u8) -> Option<(Seq<u8>, u8)>
    decreases from,
{
    if from == 0 {
        None
    } else {
        match created_address(seed, from, program_id) {
            Some(address) => Some((address, from)),
            None => search(seed, program_id, (from - 1) as u8),
        }
    }
}

/// The address of a seed under a program: the one made with the greatest nonce, from 255
/// down to 1, that makes any. The nonce 0 is not tried.
pub open spec fn program_address(seed: Seq<u8>, program_id: Seq<u8>) -> Option<(Seq<u8>, u8)> {
    search(seed, program_id, 255)
}

/// `address` with `bump` is what one seed gives under a program.
pub open spec fn derives(seed: Pubkey, program_id: Pubkey, address: Pubkey, bump: u8) -> bool {
    program_address(seed@, program_id@) == Some((address@, bump))
}

/// A search ends on the greatest nonce that makes an address, and on none only where no
/// nonce does.
pub proof fn lemma_search_finds_greatest(seed: Seq<u8>, program_id: Seq<u8>, from: u8)
    ensures
        match search(seed, program_id, from) {
            Some((address, bump)) => {
                &&& 1 <= bump <= from
                &&& created_address(seed, bump, program_id) == Some(address)
                &&& forall|b: u8| bump < b <= from ==> created_address(seed, b, program_id) is None
            },
            None => forall|b: u8| 1 <= b <= from ==> created_address(seed, b, program_id) is None,
        },
    decreases from,
{
    if from != 0 {
        lemma_search_finds_greatest(seed, program_id, (from - 1) as u8);
    }
}

/// Searches the address of `seed` under `program_id`: tries the nonces from 255 down to 1
/// and stops at the first that makes an address.
pub fn find_program_address(seed: &Pubkey, program_id: &Pubkey) -> (found: Option<(Pubkey, u8)>)
    ensures
        match found {
            Some((address, bump)) => {
                &&& derives(*seed, *program_id, address, bump)
                &&& 1 <= bump
                &&& created_address(seed@, bump, program_id@) == Some(address@)
                &&& forall|b: u8| bump < b ==> created_address(seed@, b, program_id@) is None
            },
            None => {
                &&& program_address(seed@, program_id@) is None
                &&& forall|b: u8| 1 <= b ==> created_address(seed@, b, program_id@) is None
            },
        },
{
    let mut bump: u8 = 255;
    while bump > 0
        invariant
            search(seed@, program_id@, bump) == program_address(seed@, program_id@),
        decreases bump,
    {
        if let Some(address) = create_program_address(seed, bump, program_id) {
            proof {
                lemma_search_finds_greatest(seed@, program_id@, 255);
            }
            return Some((address, bump));
        }
        bump -= 1;
    }
    proof {
        lemma_search_finds_greatest(seed@, program_id@, 255);
    }
    None
}

/// The two addresses that belong to one source: the holding account, derived from the
/// source, and its record, derived from the holding account; each with its nonce.
#[derive(Clone, Copy, Debug, PartialEq, Eq)]
pub struct DerivedPair {
    pub holding: Pubkey,
    pub holding_bump: u8,
    pub record: Pubkey,
    pub record_bump: u8,
}

impl DerivedPair {
    /// The pair is the one that `source` gives under `program_id`.
    pub open spec fn belongs_to(&self, source: Pubkey, program_id: Pubkey) -> bool {
        &&& derives(source, program_id, self.holding, self.holding_bump)
        &&& derives(self.holding, program_id, self.record, self.record_bump)
    }
}

/// Whether a source has a pair at all under a program.
pub open spec fn has_pair(source: Seq<u8>, program_id: Seq<u8>) -> bool {
    match program_address(source, program_id) {
        Some((holding, _)) => program_address(holding, program_id) is Some,
        None => false,
    }
}

/// Derives the holding account of `source` and, from it, the record.
pub fn find_pair(source: &Pubkey, program_id: &Pubkey) -> (found: Option<DerivedPair>)
    ensures
        found is Some <==> has_pair(source@, program_id@),
        found matches Some(pair) ==> pair.belongs_to(*source, *program_id),
{
    match find_program_address(source, program_id) {
        Some((holding, holding_bump)) => {
            match find_program_address(&holding, program_id) {
                Some((record, record_bump)) => Some(
                    DerivedPair { holding, holding_bump, record, record_bump },
                ),
                None => None,
            }
        },
        None => None,
    }
}

/// What the seeds rule makes of a derivation and the account that was handed in: the nonce
/// where the account sits at the derived address, a refusal otherwise.
pub open spec fn seeds_outcome(found: Option<(Pubkey, u8)>, account: Pubkey) -> Result<
    u8,
    AccountError,
> {
    match found {
        Some((address, bump)) => if address == account {
            Ok(bump)
        } else {
            Err(AccountError::ConstraintSeeds)
        },
        None => Err(AccountError::ConstraintSeeds),
    }
}

/// Holds an account against the outcome of a derivation.
pub fn check_derived(found: Option<(Pubkey, u8)>, account: &Pubkey) -> (checked: Result<
    u8,
    AccountError,
>)
    ensures
        checked == seeds_outcome(found, *account),
{
    match found {
        Some((address, bump)) => {
            if address == *account {
                Ok(bump)
            } else {
                Err(AccountError::ConstraintSeeds)
            }
        },
        None => Err(AccountError::ConstraintSeeds),
    }
}

/// The seeds rule over the ledger's derivation: `account` must be the address that `seed`
/// gives under `program_id`.
pub open spec fn seeds_rule(seed: Pubkey, program_id: Pubkey, account: Pubkey) -> Result<
    u8,
    AccountError,
> {
    match program_address(seed@, program_id@) {
        Some((address, bump)) => if address == account@ {
            Ok(bump)
        } else {
            Err(AccountError::ConstraintSeeds)
        },
        None => Err(AccountError::ConstraintSeeds),
    }
}

/// Where the seeds rule lets an account pass, the account's address is the one that the
/// seed and the nonce returned make under the program.
pub proof fn lemma_seeds_rule_binds(seed: Pubkey, program_id: Pubkey, account: Pubkey)
    ensures
        seeds_rule(seed, program_id, account) matches Ok(bump) ==> 1 <= bump && created_address(
            seed@,
            bump,
            program_id@,
        ) == Some(account@),
        seeds_rule(seed, program_id, account) is Ok <==> (program_address(
            seed@,
            program_id@,
        ) matches Some((address, _)) && address == account@),
{
    lemma_search_finds_greatest(seed@, program_id@, 255);
}

/// Derives the address of `seed` and holds `account` against it.
pub fn check_seeds(seed: &Pubkey, program_id: &Pubkey, account: &Pubkey) -> (checked: Result<
    u8,
    AccountError,
>)
    ensures
        checked == seeds_rule(*seed, *program_id, *account),
{
    let found = find_program_address(seed, program_id);
    proof {
        if let Some((address, _)) = found {
            Pubkey::lemma_eq_by_bytes(address, *account);
        }
    }
    check_derived(found, account)
}

} // verus!
