//! Settlement of a buyout that has won its vote.

use vstd::prelude::*;

use crate::constant::ASSET_UNITS;
use crate::error::ArteonError;
use crate::fees::{fee_split, quorum_reached, quorum_threshold_of, split_fees, split_rejection};
use crate::state::Vault;

verus! {

/// What the ledger has to move to settle a buyout: the buyer pays
/// `buyout_price`, of which the platform receives `platform_fee`, the
/// artist `artist_royalty` and the vault `net_to_vault`; `asset_units` of
/// the asset go from the vault's custody to the buyer.
#[derive(Clone, Copy, Debug, PartialEq, Eq, Structural)]
pub struct Settlement {
    pub buyout_price: u64,
    pub platform_fee: u64,
    pub artist_royalty: u64,
    pub net_to_vault: u64,
    pub asset_units: u64,
}

/// The first gate that a settlement fails, if any, in the order in which
/// they are checked: the vault is open; a buyout is on offer; its voting
/// window has ended at `now`; the "for" votes reach quorum; the buyer can
/// pay the price; the price can be split at the vault's rates.
pub open spec fn buyout_rejection(vault: Vault, now: i64, buyer_lamports: u64) -> Option<
    ArteonError,
> {
    if vault.is_closed {
        Some(ArteonError::VaultClosed)
    } else if vault.buyout_price is None {
        Some(ArteonError::BuyoutVoteNotActive)
    } else if vault.buyout_vote_end is None || now < vault.buyout_vote_end->0 {
        Some(ArteonError::BuyoutVoteNotActive)
    } else if !quorum_reached(vault.total_votes as nat, vault.total_supply as nat) {
        Some(ArteonError::QuorumNotReached)
    } else if buyer_lamports < vault.buyout_price->0 {
        Some(ArteonError::InsufficientTokenBalance)
    } else {
        split_rejection(vault.buyout_price->0, vault.platform_fee_bps, vault.artist_royalty_bps)
    }
}

/// The payments that settle the buyout on offer at `vault`.
pub open spec fn settlement_of(vault: Vault) -> Settlement {
    let price = vault.buyout_price->0;
    let split = fee_split(price, vault.platform_fee_bps, vault.artist_royalty_bps);
    Settlement {
        buyout_price: price,
        platform_fee: split.platform_fee,
        artist_royalty: split.artist_royalty,
        net_to_vault: split.net,
        asset_units: ASSET_UNITS,
    }
}

/// The vault after settlement: closed for good, unlocked, with the offer,
/// its window and the tally cleared.
pub open spec fn settled(vault: Vault) -> Vault {
    Vault {
        is_closed: true,
        is_locked: false,
        buyout_price: None,
        buyout_vote_start: None,
        buyout_vote_end: None,
        total_votes: 0,
        ..vault
    }
}

/// Settles the buyout on offer at `now`, for a buyer who can pay
/// `buyer_lamports`.
///
/// On success the vault is closed and the result says what the ledger has
/// to move; platform fee, artist royalty and the vault's net add up to the
/// price exactly. On rejection nothing has changed.
pub fn buyout(vault: &mut Vault, now: i64, buyer_lamports: u64) -> (result: Result<
    Settlement,
    ArteonError,
>)
    ensures
        match result {
            Ok(settlement) => {
                &&& buyout_rejection(*old(vault), now, buyer_lamports) is None
                &&& settlement == settlement_of(*old(vault))
                &&& settlement.platform_fee + settlement.artist_royalty + settlement.net_to_vault
                    == settlement.buyout_price
                &&& settlement.buyout_price <= buyer_lamports
                &&& *final(vault) == settled(*old(vault))
            },
            Err(e) => {
                &&& buyout_rejection(*old(vault), now, buyer_lamports) == Some(e)
                &&& *final(vault) == *old(vault)
            },
        },
        old(vault).wf() ==> final(vault).wf(),
{
    if vault.is_closed {
        return Err(ArteonError::VaultClosed);
    }
    let buyout_price = match vault.buyout_price {
        Some(price) => price,
        None => {
            return Err(ArteonError::BuyoutVoteNotActive);
        },
    };
    let window_elapsed = match vault.buyout_vote_end {
        Some(end) => now >= end,
        None => false,
    };
    if !window_elapsed {
        return Err(ArteonError::BuyoutVoteNotActive);
    }
    if vault.total_votes < quorum_threshold_of(vault.total_supply) {
        return Err(ArteonError::QuorumNotReached);
    }
    if buyer_lamports < buyout_price {
        return Err(ArteonError::InsufficientTokenBalance);
    }
    let split = match split_fees(buyout_price, vault.platform_fee_bps, vault.artist_royalty_bps) {
        Ok(split) => split,
        Err(e) => {
            return Err(e);
        },
    };
    vault.is_closed = true;
    vault.is_locked = false;
    vault.buyout_price = None;
    vault.buyout_vote_start = None;
    vault.buyout_vote_end = None;
    vault.total_votes = 0;
    Ok(
        Settlement {
            buyout_price,
            platform_fee: split.platform_fee,
            artist_royalty: split.artist_royalty,
            net_to_vault: split.net,
            asset_units: ASSET_UNITS,
        },
    )
}

} // verus!
