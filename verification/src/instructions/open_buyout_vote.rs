//! Opening of a buyout vote: the step that puts a price on offer and
//! starts the voting window.
//!
//! Anyone may put an offer to the holders. A vault takes one offer at a
//! time, and stays locked from the moment the vote opens until a settlement
//! closes it.

use vstd::prelude::*;

use crate::constant::VOTE_DURATION;
use crate::error::ArteonError;
use crate::state::{Config, Vault};

verus! {

/// The first gate that opening a vote fails, if any, in the order in which
/// they are checked: the vault is open; no vote is in progress and no offer
/// stands; the price is at least the platform's minimum; the end of the
/// window, `VOTE_DURATION` after `now`, is a representable time.
pub open spec fn open_vote_rejection(vault: Vault, config: Config, buyout_price: u64, now: i64) -> Option<
    ArteonError,
> {
    if vault.is_closed {
        Some(ArteonError::VaultClosed)
    } else if vault.is_locked || vault.buyout_price is Some {
        Some(ArteonError::VaultLockedForBuyout)
    } else if buyout_price < config.min_buyout_price {
        Some(ArteonError::InvalidBuyoutPrice)
    } else if now + VOTE_DURATION > i64::MAX {
        Some(ArteonError::BuyoutVoteNotActive)
    } else {
        None
    }
}

/// The vault once a vote on `buyout_price` has opened at `now`: locked,
/// the price on offer, the window from `now` to `now + VOTE_DURATION`, and
/// the tally at zero.
pub open spec fn vote_opened(vault: Vault, buyout_price: u64, now: i64) -> Vault {
    Vault {
        buyout_price: Some(buyout_price),
        buyout_vote_start: Some(now),
        buyout_vote_end: Some((now + VOTE_DURATION) as i64),
        total_votes: 0,
        is_locked: true,
        ..vault
    }
}

/// Opens a vote on a buyout of the vault for `buyout_price`, at `now`.
///
/// On success the vault is locked, carries the offer and its window, and
/// its tally starts from zero. On rejection nothing has changed.
pub fn open_buyout_vote(vault: &mut Vault, config: &Config, buyout_price: u64, now: i64) -> (result:
    Result<(), ArteonError>)
    ensures
        match result {
            Ok(_) => {
                &&& open_vote_rejection(*old(vault), *config, buyout_price, now) is None
                &&& *final(vault) == vote_opened(*old(vault), buyout_price, now)
            },
            Err(e) => {
                &&& open_vote_rejection(*old(vault), *config, buyout_price, now) == Some(e)
                &&& *final(vault) == *old(vault)
            },
        },
        old(vault).wf() ==> final(vault).wf(),
{
    if vault.is_closed {
        return Err(ArteonError::VaultClosed);
    }
    if vault.is_locked || vault.buyout_price.is_some() {
        return Err(ArteonError::VaultLockedForBuyout);
    }
    if buyout_price < config.min_buyout_price {
        return Err(ArteonError::InvalidBuyoutPrice);
    }
    let vote_end = match now.checked_add(VOTE_DURATION) {
        Some(end) => end,
        None => {
            return Err(ArteonError::BuyoutVoteNotActive);
        },
    };
    vault.buyout_price = Some(buyout_price);
    vault.buyout_vote_start = Some(now);
    vault.buyout_vote_end = Some(vote_end);
    vault.total_votes = 0;
    vault.is_locked = true;
    Ok(())
}

} // verus!
