//! Voting on the buyout that is on offer.

use anchor_lang::prelude::Pubkey;
use vstd::prelude::*;

use crate::error::ArteonError;
use crate::state::{same_key, Vault, Vote};

verus! {

/// The first gate that a ballot fails, if any, in the order in which they
/// are checked: the vault is open; a buyout is on offer and carries its
/// voting window; the window has not ended at `now`; the voter holds claims;
/// the voter's ballot for this vault has not been cast yet; with a "for"
/// ballot, the tally stays within the outstanding supply. Weight that would
/// carry the tally past the supply can only be claims counted before, so
/// such a ballot is turned away whole.
pub open spec fn vote_rejection(
    vault: Vault,
    vault_key: Pubkey,
    vote: Vote,
    voter: Pubkey,
    token_balance: u64,
    now: i64,
    vote_for_buyout: bool,
) -> Option<ArteonError> {
    if vault.is_closed {
        Some(ArteonError::VaultClosed)
    } else if vault.buyout_price is None {
        Some(ArteonError::BuyoutVoteNotActive)
    } else if vault.buyout_vote_start is None || vault.buyout_vote_end is None {
        Some(ArteonError::BuyoutVoteNotActive)
    } else if now >= vault.buyout_vote_end->0 {
        Some(ArteonError::BuyoutVoteExpired)
    } else if token_balance == 0 {
        Some(ArteonError::InsufficientTokenBalance)
    } else if vote.vault == vault_key && vote.voter == voter && vote.token_amount != 0 {
        Some(ArteonError::UserAlreadyVoted)
    } else if vote_for_buyout && vault.total_votes + token_balance > vault.total_supply {
        Some(ArteonError::InvalidFractionAmount)
    } else {
        None
    }
}

/// The ballot that a successful vote records: the voter's balance at the
/// moment of voting and the direction.
pub open spec fn ballot(
    vault_key: Pubkey,
    voter: Pubkey,
    token_balance: u64,
    vote_for_buyout: bool,
    bump: u8,
) -> Vote {
    Vote { vault: vault_key, voter, token_amount: token_balance, vote_for_buyout, bump }
}

/// The vault after a ballot of weight `token_balance`: a "for" ballot adds
/// its weight to the tally, an "against" ballot changes nothing.
pub open spec fn tallied(vault: Vault, token_balance: u64, vote_for_buyout: bool) -> Vault {
    Vault {
        total_votes: if vote_for_buyout {
            (vault.total_votes + token_balance) as u64
        } else {
            vault.total_votes
        },
        ..vault
    }
}

/// The vault and the ballot record after an attempt to vote: updated where
/// the ballot is accepted, untouched where it is rejected.
pub open spec fn after_vote(
    vault: Vault,
    vault_key: Pubkey,
    vote: Vote,
    voter: Pubkey,
    token_balance: u64,
    now: i64,
    vote_for_buyout: bool,
    bump: u8,
) -> (Vault, Vote) {
    if vote_rejection(vault, vault_key, vote, voter, token_balance, now, vote_for_buyout) is None {
        (
            tallied(vault, token_balance, vote_for_buyout),
            ballot(vault_key, voter, token_balance, vote_for_buyout, bump),
        )
    } else {
        (vault, vote)
    }
}

/// Casts the ballot of `voter`, who holds `token_balance` claims at `now`,
/// on the vault stored under `vault_key`. `vote` is the voter's ballot
/// record for this vault, blank if none was cast before.
///
/// On success `vote` holds the ballot and the vault's tally has grown by
/// the balance if the ballot is "for"; the tally never falls, and a tally
/// within the supply stays within it. A ballot already cast is never
/// overwritten. On rejection neither record has changed.
pub fn vote_buyout(
    vault: &mut Vault,
    vault_key: &Pubkey,
    vote: &mut Vote,
    voter: &Pubkey,
    token_balance: u64,
    now: i64,
    vote_for_buyout: bool,
    bump: u8,
) -> (result: Result<(), ArteonError>)
    ensures
        match result {
            Ok(_) => {
                &&& vote_rejection(
                    *old(vault),
                    *vault_key,
                    *old(vote),
                    *voter,
                    token_balance,
                    now,
                    vote_for_buyout,
                ) is None
                &&& *final(vote) == ballot(*vault_key, *voter, token_balance, vote_for_buyout, bump)
                &&& *final(vault) == tallied(*old(vault), token_balance, vote_for_buyout)
            },
            Err(e) => {
                &&& vote_rejection(
                    *old(vault),
                    *vault_key,
                    *old(vote),
                    *voter,
                    token_balance,
                    now,
                    vote_for_buyout,
                ) == Some(e)
                &&& *final(vote) == *old(vote)
                &&& *final(vault) == *old(vault)
            },
        },
        (*final(vault), *final(vote)) == after_vote(
            *old(vault),
            *vault_key,
            *old(vote),
            *voter,
            token_balance,
            now,
            vote_for_buyout,
            bump,
        ),
        final(vault).total_votes >= old(vault).total_votes,
        final(vault).total_supply == old(vault).total_supply,
        old(vault).total_votes <= old(vault).total_supply
            ==> final(vault).total_votes <= final(vault).total_supply,
        old(vault).wf() ==> final(vault).wf(),
{
    if vault.is_closed {
        return Err(ArteonError::VaultClosed);
    }
    if vault.buyout_price.is_none() {
        return Err(ArteonError::BuyoutVoteNotActive);
    }
    let vote_end = match (vault.buyout_vote_start, vault.buyout_vote_end) {
        (Some(_), Some(end)) => end,
        _ => {
            return Err(ArteonError::BuyoutVoteNotActive);
        },
    };
    if now >= vote_end {
        return Err(ArteonError::BuyoutVoteExpired);
    }
    if token_balance == 0 {
        return Err(ArteonError::InsufficientTokenBalance);
    }
    if same_key(&vote.vault, vault_key) && same_key(&vote.voter, voter) && vote.token_amount != 0 {
        return Err(ArteonError::UserAlreadyVoted);
    }
    if vote_for_buyout {
        let tally = match vault.total_votes.checked_add(token_balance) {
            Some(tally) => tally,
            None => {
                return Err(ArteonError::InvalidFractionAmount);
            },
        };
        if tally > vault.total_supply {
            return Err(ArteonError::InvalidFractionAmount);
        }
        vault.total_votes = tally;
    }
    vote.vault = *vault_key;
    vote.voter = *voter;
    vote.token_amount = token_balance;
    vote.vote_for_buyout = vote_for_buyout;
    vote.bump = bump;
    Ok(())
}

} // verus!
