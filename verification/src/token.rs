use vstd::prelude::*;
use crate::pda::created_address;
use crate::pubkey::Pubkey;

verus! {

/// What the rules read of a token account that the custody service holds.
#[derive(Clone, Copy, Debug, PartialEq, Eq)]
pub struct TokenAccount {
    /// The account's own address.
    pub key: Pubkey,
    /// The asset that the account holds.
    pub mint: Pubkey,
    /// The identity that may move the balance.
    pub owner: Pubkey,
    /// The balance.
    pub amount: u64,
}

/// Proof of authority for an account derived from a seed: the seed and the nonce that,
/// together with the program's identity, give the authority's address again.
#[derive(Clone, Copy, Debug, PartialEq, Eq)]
pub struct SignerSeeds {
    pub seed: Pubkey,
    pub bump: u8,
}

/// A request to the custody service: move `amount` from one token account to another.
#[derive(Clone, Copy, Debug, PartialEq, Eq)]
pub struct Transfer {
    pub from: Pubkey,
    pub to: Pubkey,
    pub authority: Pubkey,
    pub amount: u64,
    /// Absent where the authority signed the operation itself.
    pub signer: Option<SignerSeeds>,
}

/// A request to the custody service: close a token account and hand what its storage
/// was paid with to `destination`.
#[derive(Clone, Copy, Debug, PartialEq, Eq)]
pub struct CloseAccount {
    pub account: Pubkey,
    pub destination: Pubkey,
    pub authority: Pubkey,
    pub signer: SignerSeeds,
}

/// The two requests that empty a holding account for good: the whole balance leaves, then
/// the account is closed.
#[derive(Clone, Copy, Debug, PartialEq, Eq)]
pub struct Release {
    pub transfer: Transfer,
    pub close: CloseAccount,
}

/// What a final operation leaves to be done: the release of the holding account, and the
/// closing of its record, whose storage deposit goes to `refund_to`.
#[derive(Clone, Copy, Debug, PartialEq, Eq)]
pub struct Closure {
    pub release: Release,
    pub refund_to: Pubkey,
}

/// The release of a holding account to one token account, under the authority of the
/// record that the holding account belongs to.
pub open spec fn release_to(
    holding: TokenAccount,
    record: Pubkey,
    bump: u8,
    recipient: Pubkey,
) -> Release {
    let signer = SignerSeeds { seed: holding.key, bump };
    Release {
        transfer: Transfer {
            from: holding.key,
            to: recipient,
            authority: record,
            amount: holding.amount,
            signer: Some(signer),
        },
        close: CloseAccount {
            account: holding.key,
            destination: recipient,
            authority: record,
            signer,
        },
    }
}

/// The seeds show authority under a program: with the nonce, the seed makes the
/// authority's address.
pub open spec fn proves_authority(signer: SignerSeeds, program_id: Pubkey, authority: Pubkey) -> bool {
    created_address(signer.seed@, signer.bump, program_id@) == Some(authority@)
}

/// The release is one that the custody service carries out: it takes the holding
/// account's whole balance on the authority of the account's owner, closes the same
/// account on the same authority, and shows that authority by seeds that make the owner's
/// address from the holding account's own.
pub open spec fn release_is_authorized(out: Release, holding: TokenAccount, program_id: Pubkey) -> bool {
    &&& out.transfer.from == holding.key
    &&& out.transfer.amount == holding.amount
    &&& out.transfer.authority == holding.owner
    &&& out.transfer.signer == Some(out.close.signer)
    &&& out.close.account == holding.key
    &&& out.close.authority == holding.owner
    &&& out.close.destination == out.transfer.to
    &&& out.close.signer.seed == holding.key
    &&& proves_authority(out.close.signer, program_id, holding.owner)
}

pub fn release(holding: &TokenAccount, record: &Pubkey, bump: u8, recipient: &Pubkey) -> (out:
    Release)
    ensures
        out == release_to(*holding, *record, bump, *recipient),
{
    let signer = SignerSeeds { seed: holding.key, bump };
    Release {
        transfer: Transfer {
            from: holding.key,
            to: *recipient,
            authority: *record,
            amount: holding.amount,
            signer: Some(signer),
        },
        close: CloseAccount {
            account: holding.key,
            destination: *recipient,
            authority: *record,
            signer,
        },
    }
}

} // verus!
