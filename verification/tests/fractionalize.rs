use anchor_lang::prelude::Pubkey;
use arteon::constant::{MIN_FRACTIONAL_AMOUNT, PLATFORM_FEE_BPS};
use arteon::error::ArteonError;
use arteon::instructions::fractionalize::Deposit;
use arteon::instructions::{fractionalize, initialize_vault};
use arteon::state::Vault;

fn owner_key(byte: u8) -> Pubkey {
    Pubkey::new_from_array([byte; 32])
}

fn fresh_vault() -> Vault {
    initialize_vault(owner_key(1), owner_key(2), owner_key(3), owner_key(4), 500, None, 254).unwrap()
}

#[test]
fn initialize_vault_fills_every_field() {
    let vault = initialize_vault(owner_key(1), owner_key(2), owner_key(3), owner_key(4), 500, Some(77), 254).unwrap();
    assert_eq!(
        vault,
        Vault {
            authority: owner_key(1),
            nft_mint: owner_key(2),
            nft_account: owner_key(3),
            token_mint: owner_key(4),
            total_supply: 0,
            buyout_price: None,
            buyout_vote_start: None,
            buyout_vote_end: None,
            total_votes: 0,
            is_locked: false,
            is_closed: false,
            artist_royalty_bps: 500,
            platform_fee_bps: 250,
            rent_price_per_day: Some(77),
            is_rented: false,
            rent_start: None,
            rent_end: None,
            current_renter: None,
            bump: 254,
        }
    );
    assert_eq!(vault.platform_fee_bps, PLATFORM_FEE_BPS);
}

#[test]
fn initialize_vault_accepts_the_royalty_ceiling() {
    let vault = initialize_vault(owner_key(1), owner_key(2), owner_key(3), owner_key(4), 1_000, None, 0).unwrap();
    assert_eq!(vault.artist_royalty_bps, 1_000);
    let free = initialize_vault(owner_key(1), owner_key(2), owner_key(3), owner_key(4), 0, None, 0).unwrap();
    assert_eq!(free.artist_royalty_bps, 0);
}

#[test]
fn initialize_vault_rejects_a_royalty_above_the_ceiling() {
    assert_eq!(
        initialize_vault(owner_key(1), owner_key(2), owner_key(3), owner_key(4), 1_001, None, 0),
        Err(ArteonError::ArtistRoyaltyExceedsMaximum)
    );
    assert_eq!(
        initialize_vault(owner_key(1), owner_key(2), owner_key(3), owner_key(4), u64::MAX, Some(5), 9),
        Err(ArteonError::ArtistRoyaltyExceedsMaximum)
    );
}

#[test]
fn fractionalize_adds_the_minted_amount_to_the_supply() {
    let mut vault = fresh_vault();
    let deposit = fractionalize(&mut vault, &owner_key(1), 1, 5_000_000).unwrap();
    assert_eq!(deposit, Deposit { asset_units: 1, minted: 5_000_000 });
    assert_eq!(vault.total_supply, 5_000_000);
    let expected = Vault { total_supply: 5_000_000, ..fresh_vault() };
    assert_eq!(vault, expected);
}

#[test]
fn fractionalize_twice_accumulates() {
    let mut vault = fresh_vault();
    let mut ledger_supply: u64 = 0;
    for amount in [1_000_000u64, 2_500_000, 1_000_001] {
        let before = vault.total_supply;
        let deposit = fractionalize(&mut vault, &owner_key(1), 1, amount).unwrap();
        ledger_supply += deposit.minted;
        assert_eq!(vault.total_supply, before + amount);
        assert_eq!(vault.total_supply, ledger_supply);
    }
    assert_eq!(vault.total_supply, 4_500_001);
}

#[test]
fn fractionalize_accepts_exactly_the_minimum() {
    let mut vault = fresh_vault();
    assert!(fractionalize(&mut vault, &owner_key(1), 1, MIN_FRACTIONAL_AMOUNT).is_ok());
    assert_eq!(vault.total_supply, 1_000_000);
}

#[test]
fn fractionalize_rejects_an_amount_below_the_minimum() {
    let mut vault = fresh_vault();
    assert_eq!(
        fractionalize(&mut vault, &owner_key(1), 1, MIN_FRACTIONAL_AMOUNT - 1),
        Err(ArteonError::InvalidFractionAmount)
    );
    assert_eq!(fractionalize(&mut vault, &owner_key(1), 1, 0), Err(ArteonError::InvalidFractionAmount));
    assert_eq!(vault, fresh_vault());
}

#[test]
fn fractionalize_rejects_a_caller_who_is_not_the_authority() {
    let mut vault = fresh_vault();
    assert_eq!(
        fractionalize(&mut vault, &owner_key(9), 1, 5_000_000),
        Err(ArteonError::UnauthorizedAccess)
    );
    assert_eq!(vault, fresh_vault());
    // keys that differ in one byte only are different callers
    let mut near = [1u8; 32];
    near[31] = 2;
    assert_eq!(
        fractionalize(&mut vault, &Pubkey::new_from_array(near), 1, 5_000_000),
        Err(ArteonError::UnauthorizedAccess)
    );
    // an equal key built separately is the authority
    assert!(fractionalize(&mut vault, &Pubkey::new_from_array([1u8; 32]), 1, 5_000_000).is_ok());
}

#[test]
fn fractionalize_rejects_a_caller_without_the_asset() {
    let mut vault = fresh_vault();
    assert_eq!(fractionalize(&mut vault, &owner_key(1), 0, 5_000_000), Err(ArteonError::NftNotInVault));
    assert_eq!(vault, fresh_vault());
}

#[test]
fn fractionalize_rejects_a_locked_vault() {
    let mut vault = Vault { is_locked: true, ..fresh_vault() };
    assert_eq!(
        fractionalize(&mut vault, &owner_key(1), 1, 5_000_000),
        Err(ArteonError::VaultLockedForBuyout)
    );
    assert_eq!(vault.total_supply, 0);
}

#[test]
fn fractionalize_rejects_a_closed_vault() {
    let mut vault = Vault { is_closed: true, ..fresh_vault() };
    assert_eq!(fractionalize(&mut vault, &owner_key(1), 1, 5_000_000), Err(ArteonError::VaultClosed));
    // closed comes before locked
    let mut both = Vault { is_closed: true, is_locked: true, ..fresh_vault() };
    assert_eq!(fractionalize(&mut both, &owner_key(1), 1, 5_000_000), Err(ArteonError::VaultClosed));
    assert_eq!(vault.total_supply, 0);
}

#[test]
fn fractionalize_rejects_a_supply_beyond_64_bits() {
    let mut vault = Vault { total_supply: u64::MAX - 1_000_000, ..fresh_vault() };
    assert_eq!(
        fractionalize(&mut vault, &owner_key(1), 1, 1_000_001),
        Err(ArteonError::InvalidFractionAmount)
    );
    assert_eq!(vault.total_supply, u64::MAX - 1_000_000);
    assert!(fractionalize(&mut vault, &owner_key(1), 1, 1_000_000).is_ok());
    assert_eq!(vault.total_supply, u64::MAX);
}

#[test]
fn fractionalize_checks_its_gates_in_order() {
    // unauthorized comes before every state gate
    let mut vault = Vault { is_closed: true, is_locked: true, ..fresh_vault() };
    assert_eq!(fractionalize(&mut vault, &owner_key(9), 0, 0), Err(ArteonError::UnauthorizedAccess));
    // the amount comes before the asset
    let mut open = fresh_vault();
    assert_eq!(fractionalize(&mut open, &owner_key(1), 0, 0), Err(ArteonError::InvalidFractionAmount));
    // locked comes before the amount
    let mut locked = Vault { is_locked: true, ..fresh_vault() };
    assert_eq!(fractionalize(&mut locked, &owner_key(1), 0, 0), Err(ArteonError::VaultLockedForBuyout));
}
