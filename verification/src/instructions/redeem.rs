//! Redemption: claims are burned for a pro-rata share of the buyout price.

use vstd::prelude::*;

use crate::constant::MIN_FRACTIONAL_AMOUNT;
use crate::error::ArteonError;
use crate::fees::{fee_split, lemma_pro_rata_bounded, pro_rata, pro_rata_share, split_fees, split_rejection};
use crate::state::Vault;

verus! {

/// What the ledger has to move for an accepted redemption: `burned` claims
/// of the holder are destroyed and `payout` is paid to the holder from the
/// vault's balance.
#[derive(Clone, Copy, Debug, PartialEq, Eq, Structural)]
pub struct Redemption {
    pub burned: u64,
    pub payout: u64,
}

/// The share of the price on offer that falls to `amount` claims, before
/// fees: `price * amount / total_supply`, rounded down.
pub open spec fn gross_share(vault: Vault, amount: u64) -> u64 {
    pro_rata(vault.buyout_price->0 as nat, amount as nat, vault.total_supply as nat) as u64
}

/// The first gate that a redemption fails, if any, in the order in which
/// they are checked: the vault is not closed with every claim redeemed; it
/// is not locked; the amount is at least the minimum; the holder owns that
/// many claims; the vault has that many outstanding; where a price is on
/// offer, the holder's share of it can be split at the vault's rates.
pub open spec fn redeem_rejection(vault: Vault, user_balance: u64, amount: u64) -> Option<
    ArteonError,
> {
    if vault.is_closed && vault.total_supply == 0 {
        Some(ArteonError::VaultClosed)
    } else if vault.is_locked {
        Some(ArteonError::VaultLockedForBuyout)
    } else if amount < MIN_FRACTIONAL_AMOUNT {
        Some(ArteonError::InvalidFractionAmount)
    } else if user_balance < amount {
        Some(ArteonError::InsufficientTokenBalance)
    } else if amount > vault.total_supply {
        Some(ArteonError::InvalidFractionAmount)
    } else if vault.buyout_price is Some {
        split_rejection(gross_share(vault, amount), vault.platform_fee_bps, vault.artist_royalty_bps)
    } else {
        None
    }
}

/// What a redemption of `amount` claims pays out: with a price on offer,
/// the holder's gross share less platform fee and artist royalty; with
/// none, nothing.
pub open spec fn redemption_payout(vault: Vault, amount: u64) -> u64 {
    if vault.buyout_price is Some {
        fee_split(gross_share(vault, amount), vault.platform_fee_bps, vault.artist_royalty_bps).net
    } else {
        0
    }
}

/// The vault after `amount` claims have been burned.
pub open spec fn redeemed(vault: Vault, amount: u64) -> Vault {
    Vault { total_supply: (vault.total_supply - amount) as u64, ..vault }
}

/// Accounts for the redemption of `amount` claims by a holder who owns
/// `user_balance` of them.
///
/// On success the result says what the ledger has to move: `amount` claims
/// to burn and the payout, which is zero while no price is on offer; the
/// vault's supply has shrunk by exactly `amount`. A closed vault still
/// redeems while claims are outstanding. On rejection nothing has changed.
pub fn redeem(vault: &mut Vault, user_balance: u64, amount: u64) -> (result: Result<
    Redemption,
    ArteonError,
>)
    ensures
        match result {
            Ok(redemption) => {
                &&& redeem_rejection(*old(vault), user_balance, amount) is None
                &&& redemption == (Redemption {
                    burned: amount,
                    payout: redemption_payout(*old(vault), amount),
                })
                &&& *final(vault) == redeemed(*old(vault), amount)
                &&& final(vault).total_supply == old(vault).total_supply - amount
            },
            Err(e) => {
                &&& redeem_rejection(*old(vault), user_balance, amount) == Some(e)
                &&& *final(vault) == *old(vault)
            },
        },
        old(vault).wf() ==> final(vault).wf(),
{
    if vault.is_closed && vault.total_supply == 0 {
        return Err(ArteonError::VaultClosed);
    }
    if vault.is_locked {
        return Err(ArteonError::VaultLockedForBuyout);
    }
    if amount < MIN_FRACTIONAL_AMOUNT {
        return Err(ArteonError::InvalidFractionAmount);
    }
    if user_balance < amount {
        return Err(ArteonError::InsufficientTokenBalance);
    }
    if amount > vault.total_supply {
        return Err(ArteonError::InvalidFractionAmount);
    }
    let payout = match vault.buyout_price {
        Some(price) => {
            proof {
                lemma_pro_rata_bounded(price as nat, amount as nat, vault.total_supply as nat);
            }
            let gross = pro_rata_share(price, amount, vault.total_supply);
            match split_fees(gross, vault.platform_fee_bps, vault.artist_royalty_bps) {
                Ok(split) => split.net,
                Err(e) => {
                    return Err(e);
                },
            }
        },
        None => 0,
    };
    vault.total_supply = vault.total_supply - amount;
    Ok(Redemption { burned: amount, payout })
}

} // verus!
