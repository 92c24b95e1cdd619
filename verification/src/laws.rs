//! What holds of the operations taken together, proved from the
//! definitions their contracts are stated in.

use anchor_lang::prelude::Pubkey;
use vstd::prelude::*;

use crate::constant::{BPS_DENOMINATOR, MIN_FRACTIONAL_AMOUNT, VOTE_DURATION};
use crate::error::ArteonError;
use crate::fees::{
    bps_share, fee_split, lemma_bounded_rates_leave_net, lemma_net_of_share_is_share_of_net,
    lemma_pro_rata_bounded, pro_rata, quorum_reached, quorum_threshold, split_rejection,
};
use crate::instructions::buyout::{buyout_rejection, settled, settlement_of};
use crate::instructions::fractionalize::{fractionalize_rejection, fractionalized};
use crate::instructions::open_buyout_vote::{open_vote_rejection, vote_opened};
use crate::instructions::redeem::{redeem_rejection, redeemed, redemption_payout};
use crate::instructions::vote_buyout::{after_vote, ballot, tallied, vote_rejection};
use crate::state::{Config, Vault, Vote};

verus! {

/// An accepted fractionalization raises the vault's supply by exactly the
/// minted amount. A claim ledger whose supply agreed with the vault's
/// before, and which mints that amount, agrees with it after.
pub proof fn law_fractionalize_keeps_supply_in_step(
    vault: Vault,
    authority: Pubkey,
    user_nft_amount: u64,
    amount: u64,
    ledger_supply: nat,
)
    requires
        fractionalize_rejection(vault, authority, user_nft_amount, amount) is None,
        ledger_supply == vault.total_supply,
    ensures
        fractionalized(vault, amount).total_supply == vault.total_supply + amount,
        fractionalized(vault, amount).total_supply == ledger_supply + amount,
{
}

/// An accepted redemption lowers the vault's supply by exactly the burned
/// amount. A claim ledger whose supply agreed with the vault's before, and
/// which burns that amount, agrees with it after.
pub proof fn law_redeem_keeps_supply_in_step(
    vault: Vault,
    user_balance: u64,
    amount: u64,
    ledger_supply: nat,
)
    requires
        redeem_rejection(vault, user_balance, amount) is None,
        ledger_supply == vault.total_supply,
    ensures
        amount <= vault.total_supply,
        redeemed(vault, amount).total_supply == vault.total_supply - amount,
        redeemed(vault, amount).total_supply == ledger_supply - amount,
{
}

/// Burning more claims than are outstanding is always rejected.
pub proof fn law_redeem_beyond_supply_rejected(vault: Vault, user_balance: u64, amount: u64)
    requires
        amount > vault.total_supply,
    ensures
        redeem_rejection(vault, user_balance, amount) is Some,
{
}

/// "For" votes worth three quarters of the supply always reach quorum.
pub proof fn law_three_quarters_reach_quorum(votes_for: nat, total_supply: nat)
    requires
        votes_for * 100 >= total_supply * 75,
    ensures
        quorum_reached(votes_for, total_supply),
{
}

/// Quorum is three quarters of the supply: it is reached exactly when
/// `votes_for * 100 >= total_supply * 75`.
///
/// The threshold is rounded down, so where three quarters of the supply is
/// not a whole number, a tally equal to the rounded threshold reaches
/// quorum although it is below three quarters; that one tally is left out.
pub proof fn law_quorum_is_three_quarters(votes_for: nat, total_supply: nat)
    requires
        (total_supply * 75) % 100 == 0 || votes_for != quorum_threshold(total_supply),
    ensures
        quorum_reached(votes_for, total_supply) <==> votes_for * 100 >= total_supply * 75,
{
}

/// With every other gate of a settlement passed, the settlement is accepted
/// exactly when the "for" votes are three quarters of the supply, and is
/// otherwise rejected for want of quorum. The tally left out is that of
/// `law_quorum_is_three_quarters`.
pub proof fn law_settlement_iff_quorum(vault: Vault, now: i64, buyer_lamports: u64)
    requires
        !vault.is_closed,
        vault.buyout_price is Some,
        vault.buyout_vote_end is Some,
        now >= vault.buyout_vote_end->0,
        buyer_lamports >= vault.buyout_price->0,
        split_rejection(vault.buyout_price->0, vault.platform_fee_bps, vault.artist_royalty_bps)
            is None,
        (vault.total_supply * 75) % 100 == 0 || vault.total_votes != quorum_threshold(
            vault.total_supply as nat,
        ),
    ensures
        buyout_rejection(vault, now, buyer_lamports) is None <==> vault.total_votes * 100
            >= vault.total_supply * 75,
        vault.total_votes * 100 < vault.total_supply * 75 ==> buyout_rejection(
            vault,
            now,
            buyer_lamports,
        ) == Some(ArteonError::QuorumNotReached),
{
}

/// One vote short of the threshold, an otherwise due settlement is rejected
/// for want of quorum.
pub proof fn law_one_vote_short_is_rejected(vault: Vault, now: i64, buyer_lamports: u64)
    requires
        !vault.is_closed,
        vault.buyout_price is Some,
        vault.buyout_vote_end is Some,
        now >= vault.buyout_vote_end->0,
        vault.total_votes + 1 == quorum_threshold(vault.total_supply as nat),
    ensures
        buyout_rejection(vault, now, buyer_lamports) == Some(ArteonError::QuorumNotReached),
{
}

/// Fee conservation: wherever an amount can be split, platform fee, artist
/// royalty and net add up to the amount exactly.
pub proof fn law_fee_split_conserves(amount: u64, platform_fee_bps: u64, artist_royalty_bps: u64)
    requires
        split_rejection(amount, platform_fee_bps, artist_royalty_bps) is None,
    ensures
        ({
            let split = fee_split(amount, platform_fee_bps, artist_royalty_bps);
            split.platform_fee + split.artist_royalty + split.net == amount
        }),
{
}

/// The rates of a well-formed vault never take more than the amount they
/// are taken from: its fee split can fail only on a product beyond 64
/// bits, and never does for amounts up to `u64::MAX / 10000`.
pub proof fn law_well_formed_rates_leave_net(vault: Vault, amount: u64)
    requires
        vault.wf(),
    ensures
        split_rejection(amount, vault.platform_fee_bps, vault.artist_royalty_bps) is None
            || split_rejection(amount, vault.platform_fee_bps, vault.artist_royalty_bps) == Some(
            ArteonError::InvalidBuyoutPrice,
        ),
        amount * BPS_DENOMINATOR <= u64::MAX ==> split_rejection(
            amount,
            vault.platform_fee_bps,
            vault.artist_royalty_bps,
        ) is None,
{
    lemma_bounded_rates_leave_net(amount, vault.platform_fee_bps, vault.artist_royalty_bps);
    let a = amount as int;
    let p = vault.platform_fee_bps as int;
    let r = vault.artist_royalty_bps as int;
    assert(a * p <= a * 10000 && a * r <= a * 10000) by (nonlinear_arith)
        requires
            0 <= a,
            0 <= p <= 10000,
            0 <= r <= 10000,
    ;
}

/// Redemption charges no fee twice: what an accepted redemption pays is, to
/// within two units of rounding, the holder's pro-rata share of what the
/// price on offer leaves after platform fee and artist royalty, and never
/// more than the holder's share of the price.
pub proof fn law_payout_is_share_of_net(vault: Vault, user_balance: u64, amount: u64)
    requires
        vault.wf(),
        vault.buyout_price is Some,
        redeem_rejection(vault, user_balance, amount) is None,
    ensures
        ({
            let price = vault.buyout_price->0 as nat;
            let supply = vault.total_supply as nat;
            let net = price - bps_share(price, vault.platform_fee_bps as nat) - bps_share(
                price,
                vault.artist_royalty_bps as nat,
            );
            let payout = redemption_payout(vault, amount);
            &&& 0 <= net <= price
            &&& payout <= pro_rata(price, amount as nat, supply) <= price
            &&& -2 <= payout - pro_rata(net as nat, amount as nat, supply) <= 2
        }),
{
    let price = vault.buyout_price->0 as nat;
    let supply = vault.total_supply as nat;
    lemma_pro_rata_bounded(price, amount as nat, supply);
    lemma_net_of_share_is_share_of_net(
        price,
        amount as nat,
        supply,
        vault.platform_fee_bps as nat,
        vault.artist_royalty_bps as nat,
    );
}

/// The payments of an accepted settlement add up to the price, which the
/// buyer can pay.
pub proof fn law_settlement_conserves(vault: Vault, now: i64, buyer_lamports: u64)
    requires
        buyout_rejection(vault, now, buyer_lamports) is None,
    ensures
        ({
            let settlement = settlement_of(vault);
            &&& settlement.buyout_price == vault.buyout_price->0
            &&& settlement.platform_fee + settlement.artist_royalty + settlement.net_to_vault
                == settlement.buyout_price
            &&& settlement.buyout_price <= buyer_lamports
        }),
{
}

/// Double votes are rejected: once a voter's ballot on a vault has been
/// accepted, a second ballot of the same voter with a nonzero balance,
/// while the window is still open, is rejected as already cast, and both
/// records stay as the first ballot left them.
pub proof fn law_double_vote_rejected(
    vault: Vault,
    vault_key: Pubkey,
    vote: Vote,
    voter: Pubkey,
    first_balance: u64,
    first_now: i64,
    first_direction: bool,
    first_bump: u8,
    second_balance: u64,
    second_now: i64,
    second_direction: bool,
    second_bump: u8,
)
    requires
        vote_rejection(vault, vault_key, vote, voter, first_balance, first_now, first_direction)
            is None,
        second_balance > 0,
        second_now < vault.buyout_vote_end->0,
    ensures
        ({
            let (vault_voted, vote_cast) = after_vote(
                vault,
                vault_key,
                vote,
                voter,
                first_balance,
                first_now,
                first_direction,
                first_bump,
            );
            &&& vote_cast.token_amount == first_balance
            &&& vote_rejection(
                vault_voted,
                vault_key,
                vote_cast,
                voter,
                second_balance,
                second_now,
                second_direction,
            ) == Some(ArteonError::UserAlreadyVoted)
            &&& after_vote(
                vault_voted,
                vault_key,
                vote_cast,
                voter,
                second_balance,
                second_now,
                second_direction,
                second_bump,
            ) == (vault_voted, vote_cast)
        }),
{
}

/// The tally of "for" votes never passes the outstanding supply and never
/// falls: an accepted ballot on a vault whose tally is within its supply
/// leaves it within the same supply, at or above where it was.
pub proof fn law_tally_stays_within_supply(
    vault: Vault,
    vault_key: Pubkey,
    vote: Vote,
    voter: Pubkey,
    token_balance: u64,
    now: i64,
    vote_for_buyout: bool,
)
    requires
        vault.total_votes <= vault.total_supply,
        vote_rejection(vault, vault_key, vote, voter, token_balance, now, vote_for_buyout) is None,
    ensures
        ({
            let voted = tallied(vault, token_balance, vote_for_buyout);
            &&& voted.total_supply == vault.total_supply
            &&& vault.total_votes <= voted.total_votes <= voted.total_supply
            &&& vote_for_buyout ==> voted.total_votes == vault.total_votes + token_balance
        }),
{
}

/// A "for" ballot that would carry the tally past the outstanding supply
/// is rejected, whoever casts it.
pub proof fn law_excess_weight_is_rejected(
    vault: Vault,
    vault_key: Pubkey,
    vote: Vote,
    voter: Pubkey,
    token_balance: u64,
    now: i64,
)
    requires
        vault.total_votes + token_balance > vault.total_supply,
    ensures
        vote_rejection(vault, vault_key, vote, voter, token_balance, now, true) is Some,
{
}

/// The tally does not depend on the order in which two ballots arrive:
/// where the weight of both fits the supply, each passes the tally's gate
/// whichever comes first, and the tallies agree.
pub proof fn law_tally_order_independent(
    vault: Vault,
    first_balance: u64,
    first_direction: bool,
    second_balance: u64,
    second_direction: bool,
)
    requires
        vault.total_votes + first_balance + second_balance <= vault.total_supply,
    ensures
        tallied(
            tallied(vault, first_balance, first_direction),
            second_balance,
            second_direction,
        ).total_votes <= vault.total_supply,
        tallied(tallied(vault, first_balance, first_direction), second_balance, second_direction)
            == tallied(
            tallied(vault, second_balance, second_direction),
            first_balance,
            first_direction,
        ),
{
}

/// A closed vault rejects every fractionalization, every ballot and every
/// further settlement.
pub proof fn law_closed_vault_rejects_changes(
    vault: Vault,
    authority: Pubkey,
    user_nft_amount: u64,
    amount: u64,
    vault_key: Pubkey,
    vote: Vote,
    voter: Pubkey,
    token_balance: u64,
    now: i64,
    vote_for_buyout: bool,
    buyer_lamports: u64,
)
    requires
        vault.is_closed,
    ensures
        fractionalize_rejection(vault, authority, user_nft_amount, amount) is Some,
        authority == vault.authority ==> fractionalize_rejection(
            vault,
            authority,
            user_nft_amount,
            amount,
        ) == Some(ArteonError::VaultClosed),
        vote_rejection(vault, vault_key, vote, voter, token_balance, now, vote_for_buyout) == Some(
            ArteonError::VaultClosed,
        ),
        buyout_rejection(vault, now, buyer_lamports) == Some(ArteonError::VaultClosed),
{
}

/// A closed vault takes no new offer either.
pub proof fn law_closed_vault_rejects_offers(vault: Vault, config: Config, buyout_price: u64, now: i64)
    requires
        vault.is_closed,
    ensures
        open_vote_rejection(vault, config, buyout_price, now) == Some(ArteonError::VaultClosed),
{
}

/// While a vote is in progress the supply cannot change and no second
/// offer is taken: from the moment a vote opens, fractionalization,
/// redemption and another opening are rejected because the vault is locked.
pub proof fn law_open_vote_locks_the_vault(
    vault: Vault,
    config: Config,
    buyout_price: u64,
    now: i64,
    user_nft_amount: u64,
    user_balance: u64,
    amount: u64,
    next_price: u64,
    later: i64,
)
    requires
        open_vote_rejection(vault, config, buyout_price, now) is None,
    ensures
        ({
            let voting = vote_opened(vault, buyout_price, now);
            &&& voting.is_locked && !voting.is_closed
            &&& voting.total_votes == 0
            &&& voting.total_supply == vault.total_supply
            &&& voting.buyout_price == Some(buyout_price)
            &&& voting.buyout_vote_end == Some((now + VOTE_DURATION) as i64)
            &&& fractionalize_rejection(voting, voting.authority, user_nft_amount, amount) == Some(
                ArteonError::VaultLockedForBuyout,
            )
            &&& redeem_rejection(voting, user_balance, amount) == Some(
                ArteonError::VaultLockedForBuyout,
            )
            &&& open_vote_rejection(voting, config, next_price, later) == Some(
                ArteonError::VaultLockedForBuyout,
            )
        }),
{
}

/// A vote that has opened runs for `VOTE_DURATION`: until then every holder
/// who has not voted can cast a ballot whose weight is within the supply,
/// and no settlement is accepted; from then on no ballot is.
pub proof fn law_open_vote_runs_its_window(
    vault: Vault,
    config: Config,
    buyout_price: u64,
    now: i64,
    vault_key: Pubkey,
    vote: Vote,
    voter: Pubkey,
    token_balance: u64,
    at: i64,
    vote_for_buyout: bool,
    buyer_lamports: u64,
)
    requires
        open_vote_rejection(vault, config, buyout_price, now) is None,
        token_balance > 0,
        vote.token_amount == 0,
        vote_for_buyout ==> token_balance <= vault.total_supply,
    ensures
        ({
            let voting = vote_opened(vault, buyout_price, now);
            &&& at < now + VOTE_DURATION ==> vote_rejection(
                voting,
                vault_key,
                vote,
                voter,
                token_balance,
                at,
                vote_for_buyout,
            ) is None
            &&& at < now + VOTE_DURATION ==> buyout_rejection(voting, at, buyer_lamports) == Some(
                ArteonError::BuyoutVoteNotActive,
            )
            &&& at >= now + VOTE_DURATION ==> vote_rejection(
                voting,
                vault_key,
                vote,
                voter,
                token_balance,
                at,
                vote_for_buyout,
            ) == Some(ArteonError::BuyoutVoteExpired)
        }),
{
}

/// A closed vault still redeems: any holder's redemption of at least the
/// minimum, within the holder's balance and the outstanding supply, is
/// accepted, and leaves the vault closed and well formed.
pub proof fn law_closed_vault_still_redeems(vault: Vault, user_balance: u64, amount: u64)
    requires
        vault.wf(),
        vault.is_closed,
        MIN_FRACTIONAL_AMOUNT <= amount,
        amount <= user_balance,
        amount <= vault.total_supply,
    ensures
        redeem_rejection(vault, user_balance, amount) is None,
        redemption_payout(vault, amount) == 0,
        redeemed(vault, amount).is_closed,
        redeemed(vault, amount).wf(),
        redeemed(vault, amount).total_supply == vault.total_supply - amount,
{
}

/// Once every claim of a closed vault has been redeemed, it rejects
/// redemptions too.
pub proof fn law_drained_vault_rejects_redeem(vault: Vault, user_balance: u64, amount: u64)
    requires
        vault.is_closed,
        vault.total_supply == 0,
    ensures
        redeem_rejection(vault, user_balance, amount) == Some(ArteonError::VaultClosed),
{
}

/// Settlement is final: the vault it leaves is closed, unlocked and
/// without an offer, with its supply untouched.
pub proof fn law_settlement_closes(vault: Vault, now: i64, buyer_lamports: u64)
    requires
        buyout_rejection(vault, now, buyer_lamports) is None,
    ensures
        settled(vault).is_closed,
        !settled(vault).is_locked,
        settled(vault).buyout_price is None,
        settled(vault).total_votes == 0,
        settled(vault).total_supply == vault.total_supply,
        vault.wf() ==> settled(vault).wf(),
{
}

} // verus!
