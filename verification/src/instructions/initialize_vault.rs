//! Creation of a vault for an asset.

use anchor_lang::prelude::Pubkey;
use vstd::prelude::*;

use crate::constant::{MAX_ARTIST_ROYALTY_BPS, PLATFORM_FEE_BPS};
use crate::error::ArteonError;
use crate::state::Vault;

verus! {

/// The record of a vault that has just been created: no claims, no offer,
/// open and unlocked, the platform fee at its fixed rate.
pub open spec fn new_vault(
    authority: Pubkey,
    nft_mint: Pubkey,
    nft_account: Pubkey,
    token_mint: Pubkey,
    artist_royalty_bps: u64,
    rent_price_per_day: Option<u64>,
    bump: u8,
) -> Vault {
    Vault {
        authority,
        nft_mint,
        nft_account,
        token_mint,
        total_supply: 0,
        buyout_price: None,
        buyout_vote_start: None,
        buyout_vote_end: None,
        total_votes: 0,
        is_locked: false,
        is_closed: false,
        artist_royalty_bps,
        platform_fee_bps: PLATFORM_FEE_BPS,
        rent_price_per_day,
        is_rented: false,
        rent_start: None,
        rent_end: None,
        current_renter: None,
        bump,
    }
}

/// Creates the vault record of the asset `nft_mint` for `authority`.
///
/// Rejected with `ArtistRoyaltyExceedsMaximum` exactly when the royalty is
/// above `MAX_ARTIST_ROYALTY_BPS`; otherwise the result is `new_vault` of
/// the arguments, which is well formed.
pub fn initialize_vault(
    authority: Pubkey,
    nft_mint: Pubkey,
    nft_account: Pubkey,
    token_mint: Pubkey,
    artist_royalty_bps: u64,
    rent_price_per_day: Option<u64>,
    bump: u8,
) -> (result: Result<Vault, ArteonError>)
    ensures
        match result {
            Ok(vault) => {
                &&& artist_royalty_bps <= MAX_ARTIST_ROYALTY_BPS
                &&& vault == new_vault(
                    authority,
                    nft_mint,
                    nft_account,
                    token_mint,
                    artist_royalty_bps,
                    rent_price_per_day,
                    bump,
                )
                &&& vault.wf()
            },
            Err(e) => artist_royalty_bps > MAX_ARTIST_ROYALTY_BPS && e
                == ArteonError::ArtistRoyaltyExceedsMaximum,
        },
{
    if artist_royalty_bps > MAX_ARTIST_ROYALTY_BPS {
        return Err(ArteonError::ArtistRoyaltyExceedsMaximum);
    }
    Ok(
        Vault {
            authority,
            nft_mint,
            nft_account,
            token_mint,
            total_supply: 0,
            buyout_price: None,
            buyout_vote_start: None,
            buyout_vote_end: None,
            total_votes: 0,
            is_locked: false,
            is_closed: false,
            artist_royalty_bps,
            platform_fee_bps: PLATFORM_FEE_BPS,
            rent_price_per_day,
            is_rented: false,
            rent_start: None,
            rent_end: None,
            current_renter: None,
            bump,
        },
    )
}

} // verus!
