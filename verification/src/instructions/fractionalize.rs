//! Fractionalization: the asset goes into custody and claims are minted
//! against it.

use anchor_lang::prelude::Pubkey;
use vstd::prelude::*;

use crate::constant::{ASSET_UNITS, MIN_FRACTIONAL_AMOUNT};
use crate::error::ArteonError;
use crate::state::{same_key, Vault};

verus! {

/// What the ledger has to move for an accepted fractionalization:
/// `asset_units` of the asset from the caller into the vault's custody, and
/// `minted` new claims to the caller.
#[derive(Clone, Copy, Debug, PartialEq, Eq, Structural)]
pub struct Deposit {
    pub asset_units: u64,
    pub minted: u64,
}

/// The first gate that a fractionalization fails, if any, in the order in
/// which they are checked: the caller is the vault's authority; the vault is
/// neither closed nor locked; the amount is at least the minimum; the caller
/// holds the asset; the new supply fits in 64 bits.
pub open spec fn fractionalize_rejection(
    vault: Vault,
    authority: Pubkey,
    user_nft_amount: u64,
    amount: u64,
) -> Option<ArteonError> {
    if authority != vault.authority {
        Some(ArteonError::UnauthorizedAccess)
    } else if vault.is_closed {
        Some(ArteonError::VaultClosed)
    } else if vault.is_locked {
        Some(ArteonError::VaultLockedForBuyout)
    } else if amount < MIN_FRACTIONAL_AMOUNT {
        Some(ArteonError::InvalidFractionAmount)
    } else if user_nft_amount == 0 {
        Some(ArteonError::NftNotInVault)
    } else if vault.total_supply + amount > u64::MAX {
        Some(ArteonError::InvalidFractionAmount)
    } else {
        None
    }
}

/// The vault after `amount` claims have been minted against it.
pub open spec fn fractionalized(vault: Vault, amount: u64) -> Vault {
    Vault { total_supply: (vault.total_supply + amount) as u64, ..vault }
}

/// Accounts for a fractionalization of `amount` claims by `authority`, who
/// holds `user_nft_amount` units of the asset.
///
/// On success the result says what the ledger has to move: the asset into
/// custody and `amount` new claims to the caller; the vault's supply has
/// grown by exactly `amount`. On rejection nothing has changed.
pub fn fractionalize(
    vault: &mut Vault,
    authority: &Pubkey,
    user_nft_amount: u64,
    amount: u64,
) -> (result: Result<Deposit, ArteonError>)
    ensures
        match result {
            Ok(deposit) => {
                &&& fractionalize_rejection(*old(vault), *authority, user_nft_amount, amount)
                    is None
                &&& deposit == (Deposit { asset_units: ASSET_UNITS, minted: amount })
                &&& *final(vault) == fractionalized(*old(vault), amount)
                &&& final(vault).total_supply == old(vault).total_supply + amount
            },
            Err(e) => {
                &&& fractionalize_rejection(*old(vault), *authority, user_nft_amount, amount)
                    == Some(e)
                &&& *final(vault) == *old(vault)
            },
        },
        old(vault).wf() ==> final(vault).wf(),
{
    if !same_key(authority, &vault.authority) {
        return Err(ArteonError::UnauthorizedAccess);
    }
    if vault.is_closed {
        return Err(ArteonError::VaultClosed);
    }
    if vault.is_locked {
        return Err(ArteonError::VaultLockedForBuyout);
    }
    if amount < MIN_FRACTIONAL_AMOUNT {
        return Err(ArteonError::InvalidFractionAmount);
    }
    if user_nft_amount == 0 {
        return Err(ArteonError::NftNotInVault);
    }
    match vault.total_supply.checked_add(amount) {
        Some(supply) => {
            vault.total_supply = supply;
            Ok(Deposit { asset_units: ASSET_UNITS, minted: amount })
        },
        None => Err(ArteonError::InvalidFractionAmount),
    }
}

} // verus!
