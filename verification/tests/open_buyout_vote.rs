use anchor_lang::prelude::Pubkey;
use arteon::constant::VOTE_DURATION;
use arteon::error::ArteonError;
use arteon::instructions::{
    buyout, fractionalize, initialize_vault, open_buyout_vote, redeem, vote_buyout,
};
use arteon::state::{Config, Vault, Vote};

fn bidder(byte: u8) -> Pubkey {
    Pubkey::new_from_array([byte; 32])
}

fn platform(min_buyout_price: u64) -> Config {
    Config {
        authority: bidder(50),
        platform_fee_account: bidder(51),
        default_platform_fee_bps: 250,
        max_artist_royalty_bps: 1_000,
        min_buyout_price,
        bump: 1,
    }
}

fn held_vault() -> Vault {
    let vault =
        initialize_vault(bidder(1), bidder(2), bidder(3), bidder(4), 500, None, 254).unwrap();
    Vault { total_supply: 10_000_000, ..vault }
}

fn empty_ballot() -> Vote {
    Vote {
        vault: Pubkey::new_from_array([0u8; 32]),
        voter: Pubkey::new_from_array([0u8; 32]),
        token_amount: 0,
        vote_for_buyout: false,
        bump: 0,
    }
}

#[test]
fn opening_a_vote_sets_the_offer_and_its_window() {
    let mut vault = held_vault();
    open_buyout_vote(&mut vault, &platform(1_000), 100_000, 5_000).unwrap();
    assert_eq!(
        vault,
        Vault {
            buyout_price: Some(100_000),
            buyout_vote_start: Some(5_000),
            buyout_vote_end: Some(5_000 + 604_800),
            total_votes: 0,
            is_locked: true,
            ..held_vault()
        }
    );
}

#[test]
fn opening_a_vote_resets_a_stale_tally() {
    let mut vault = Vault { total_votes: 77, ..held_vault() };
    open_buyout_vote(&mut vault, &platform(0), 1, -10).unwrap();
    assert_eq!(vault.total_votes, 0);
    assert_eq!(vault.buyout_vote_start, Some(-10));
    assert_eq!(vault.buyout_vote_end, Some(-10 + VOTE_DURATION));
}

#[test]
fn opening_a_vote_accepts_exactly_the_minimum_price() {
    let mut vault = held_vault();
    assert_eq!(
        open_buyout_vote(&mut vault, &platform(1_000), 999, 0),
        Err(ArteonError::InvalidBuyoutPrice)
    );
    assert_eq!(vault, held_vault());
    assert!(open_buyout_vote(&mut vault, &platform(1_000), 1_000, 0).is_ok());
    assert_eq!(vault.buyout_price, Some(1_000));
}

#[test]
fn opening_a_vote_on_a_closed_vault_is_rejected() {
    let mut vault = Vault { is_closed: true, ..held_vault() };
    assert_eq!(
        open_buyout_vote(&mut vault, &platform(0), 100_000, 0),
        Err(ArteonError::VaultClosed)
    );
    assert_eq!(vault.buyout_price, None);
}

#[test]
fn opening_a_second_vote_is_rejected() {
    let mut vault = held_vault();
    open_buyout_vote(&mut vault, &platform(0), 100_000, 5_000).unwrap();
    let voting = vault;
    assert_eq!(
        open_buyout_vote(&mut vault, &platform(0), 200_000, 6_000),
        Err(ArteonError::VaultLockedForBuyout)
    );
    // also once the window has ended without a settlement
    assert_eq!(
        open_buyout_vote(&mut vault, &platform(0), 200_000, 5_000 + VOTE_DURATION + 1),
        Err(ArteonError::VaultLockedForBuyout)
    );
    assert_eq!(vault, voting);
    // an offer that stands on an unlocked vault blocks a new one as well
    let mut offered = Vault { buyout_price: Some(5), ..held_vault() };
    assert_eq!(
        open_buyout_vote(&mut offered, &platform(0), 200_000, 6_000),
        Err(ArteonError::VaultLockedForBuyout)
    );
}

#[test]
fn opening_a_vote_whose_window_cannot_end_is_rejected() {
    let mut vault = held_vault();
    assert_eq!(
        open_buyout_vote(&mut vault, &platform(0), 100_000, i64::MAX - VOTE_DURATION + 1),
        Err(ArteonError::BuyoutVoteNotActive)
    );
    assert_eq!(vault, held_vault());
    assert!(open_buyout_vote(&mut vault, &platform(0), 100_000, i64::MAX - VOTE_DURATION).is_ok());
    assert_eq!(vault.buyout_vote_end, Some(i64::MAX));
}

#[test]
fn an_open_vote_blocks_minting_and_redeeming() {
    let mut vault = held_vault();
    open_buyout_vote(&mut vault, &platform(0), 100_000, 5_000).unwrap();
    assert_eq!(
        fractionalize(&mut vault, &bidder(1), 1, 1_000_000),
        Err(ArteonError::VaultLockedForBuyout)
    );
    assert_eq!(redeem(&mut vault, 1_000_000, 1_000_000), Err(ArteonError::VaultLockedForBuyout));
    assert_eq!(vault.total_supply, 10_000_000);
}

#[test]
fn a_vote_opened_voted_and_settled() {
    let mut vault = held_vault();
    let opened_at = 1_700_000_000;
    open_buyout_vote(&mut vault, &platform(50_000), 100_000, opened_at).unwrap();

    let mut ballot = empty_ballot();
    vote_buyout(&mut vault, &bidder(10), &mut ballot, &bidder(20), 7_500_000, opened_at, true, 3)
        .unwrap();
    let end = opened_at + VOTE_DURATION;
    let mut late = empty_ballot();
    assert_eq!(
        vote_buyout(&mut vault, &bidder(10), &mut late, &bidder(21), 1, end, true, 3),
        Err(ArteonError::BuyoutVoteExpired)
    );
    assert_eq!(buyout(&mut vault, end - 1, 100_000), Err(ArteonError::BuyoutVoteNotActive));

    let settlement = buyout(&mut vault, end, 100_000).unwrap();
    assert_eq!(settlement.net_to_vault, 92_500);
    assert!(vault.is_closed);
    assert_eq!(
        open_buyout_vote(&mut vault, &platform(0), 100_000, end),
        Err(ArteonError::VaultClosed)
    );
}
