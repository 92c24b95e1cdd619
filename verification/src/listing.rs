//! Listed vaults: a metadata record that is fractionalized once, into its
//! whole supply, and can then receive buyout offers.

use anchor_lang::prelude::Pubkey;
use vstd::prelude::*;

use crate::error::ErrorCode;
use crate::state::same_key;

verus! {

/// Size in bytes of the account that holds a claim mint.
pub const MINT_ACCOUNT_SPACE: u64 = 82;

/// Decimals of the claim mint of a listed vault.
pub const MINT_DECIMALS: u8 = 9;

/// A listed vault.
#[derive(Debug, PartialEq, Eq)]
pub struct Vault {
    /// Creator of the vault.
    pub authority: Pubkey,
    /// Where the metadata of the asset is found.
    pub metadata_uri: String,
    /// Claims that fractionalization mints.
    pub total_supply: u64,
    /// Set once the vault has been fractionalized.
    pub is_fractionalized: bool,
    /// Reserved.
    pub buyout_status: u8,
    /// Mint of the claims, once the vault has been fractionalized.
    pub token_mint: Option<Pubkey>,
}

/// An offer to buy out a listed vault.
#[derive(Clone, Copy, Debug, PartialEq, Eq)]
pub struct BuyoutOffer {
    pub vault: Pubkey,
    pub buyer: Pubkey,
    pub offer_amount: u64,
    pub timestamp: i64,
}

/// What the ledger has to do to fractionalize a listed vault: create the
/// mint account with `mint_space` bytes, initialize the mint with
/// `decimals`, create the authority's claim account where
/// `create_token_account` is set, and mint `mint_amount` claims into it.
#[derive(Clone, Copy, Debug, PartialEq, Eq, Structural)]
pub struct MintPlan {
    pub mint_space: u64,
    pub decimals: u8,
    pub create_token_account: bool,
    pub mint_amount: u64,
}

/// Creates the record of a vault listed by `authority`: not yet
/// fractionalized, without a mint.
pub fn initialize_vault(authority: Pubkey, metadata_uri: String, total_supply: u64) -> (vault: Vault)
    ensures
        vault == (Vault {
            authority,
            metadata_uri,
            total_supply,
            is_fractionalized: false,
            buyout_status: 0,
            token_mint: None,
        }),
{
    Vault {
        authority,
        metadata_uri,
        total_supply,
        is_fractionalized: false,
        buyout_status: 0,
        token_mint: None,
    }
}

/// The first gate that fractionalizing a listed vault fails, if any: the
/// caller is the vault's authority; the vault has not been fractionalized.
pub open spec fn fractionalize_vault_rejection(vault: Vault, authority: Pubkey) -> Option<
    ErrorCode,
> {
    if authority != vault.authority {
        Some(ErrorCode::UnauthorizedAccess)
    } else if vault.is_fractionalized {
        Some(ErrorCode::VaultAlreadyFractionalized)
    } else {
        None
    }
}

/// Fractionalizes a listed vault into its whole supply, with `token_mint`
/// as the mint of its claims. `token_account_is_empty` says whether the
/// authority's claim account has yet to be created.
///
/// On success the vault is marked and records the mint, and the result
/// says what the ledger has to do. On rejection nothing has changed.
pub fn fractionalize_vault(
    vault: &mut Vault,
    authority: &Pubkey,
    token_mint: Pubkey,
    token_account_is_empty: bool,
) -> (result: Result<MintPlan, ErrorCode>)
    ensures
        match result {
            Ok(plan) => {
                &&& fractionalize_vault_rejection(*old(vault), *authority) is None
                &&& plan == (MintPlan {
                    mint_space: MINT_ACCOUNT_SPACE,
                    decimals: MINT_DECIMALS,
                    create_token_account: token_account_is_empty,
                    mint_amount: old(vault).total_supply,
                })
                &&& *final(vault) == (Vault {
                    is_fractionalized: true,
                    token_mint: Some(token_mint),
                    ..*old(vault)
                })
            },
            Err(e) => {
                &&& fractionalize_vault_rejection(*old(vault), *authority) == Some(e)
                &&& *final(vault) == *old(vault)
            },
        },
{
    if !same_key(authority, &vault.authority) {
        return Err(ErrorCode::UnauthorizedAccess);
    }
    if vault.is_fractionalized {
        return Err(ErrorCode::VaultAlreadyFractionalized);
    }
    let plan = MintPlan {
        mint_space: MINT_ACCOUNT_SPACE,
        decimals: MINT_DECIMALS,
        create_token_account: token_account_is_empty,
        mint_amount: vault.total_supply,
    };
    vault.is_fractionalized = true;
    vault.token_mint = Some(token_mint);
    Ok(plan)
}

/// The first gate that an offer fails, if any: the vault has been
/// fractionalized; the offer is above zero.
pub open spec fn initiate_buyout_rejection(vault: Vault, offer_amount: u64) -> Option<ErrorCode> {
    if !vault.is_fractionalized {
        Some(ErrorCode::VaultNotFractionalized)
    } else if offer_amount == 0 {
        Some(ErrorCode::InvalidOfferAmount)
    } else {
        None
    }
}

/// Records the offer of `buyer`, made at `now`, to buy out the listed
/// vault stored under `vault_key` for `offer_amount`.
pub fn initiate_buyout(
    vault: &Vault,
    vault_key: Pubkey,
    buyer: Pubkey,
    offer_amount: u64,
    now: i64,
) -> (result: Result<BuyoutOffer, ErrorCode>)
    ensures
        match result {
            Ok(offer) => {
                &&& initiate_buyout_rejection(*vault, offer_amount) is None
                &&& offer == (BuyoutOffer { vault: vault_key, buyer, offer_amount, timestamp: now })
            },
            Err(e) => initiate_buyout_rejection(*vault, offer_amount) == Some(e),
        },
{
    if !vault.is_fractionalized {
        return Err(ErrorCode::VaultNotFractionalized);
    }
    if offer_amount == 0 {
        return Err(ErrorCode::InvalidOfferAmount);
    }
    Ok(BuyoutOffer { vault: vault_key, buyer, offer_amount, timestamp: now })
}

} // verus!
