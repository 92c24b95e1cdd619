//! The persistent records: the vault, one ballot per voter, and the
//! platform configuration.

use anchor_lang::prelude::Pubkey;
use vstd::prelude::*;

use crate::constant::{BPS_DENOMINATOR, MAX_ARTIST_ROYALTY_BPS};

verus! {

/// `Pubkey` of `anchor_lang` (the 32-byte account address of
/// `solana_program`), carried through the records as an opaque identity.
#[verifier::external_type_specification]
#[verifier::external_body]
pub struct ExPubkey(anchor_lang::prelude::Pubkey);

/// Calls `Pubkey`'s `==`, which `solana_program` derives over the 32 address
/// bytes. Trusted: the answer is `true` exactly when the two keys are the
/// same identity.
#[verifier::external_body]
pub(crate) fn same_key(a: &Pubkey, b: &Pubkey) -> (same: bool)
    ensures
        same == (*a == *b),
{
    a == b
}

/// One vault per locked asset: lifecycle flags, the outstanding claim
/// supply, the running buyout and the fee rates fixed at creation.
#[derive(Clone, Copy, Debug, PartialEq, Eq)]
pub struct Vault {
    /// Creator of the vault.
    pub authority: Pubkey,
    /// Identity of the locked asset.
    pub nft_mint: Pubkey,
    /// Custody account that holds the asset while it is locked.
    pub nft_account: Pubkey,
    /// Mint of the fungible claims.
    pub token_mint: Pubkey,
    /// Claims outstanding.
    pub total_supply: u64,
    /// Price of the buyout on offer, while there is one.
    pub buyout_price: Option<u64>,
    /// Start of the voting window.
    pub buyout_vote_start: Option<i64>,
    /// End of the voting window.
    pub buyout_vote_end: Option<i64>,
    /// Claim weight that has voted for the buyout in this cycle.
    pub total_votes: u64,
    /// Set while a buyout vote is in progress.
    pub is_locked: bool,
    /// Set once a buyout has been settled; never cleared.
    pub is_closed: bool,
    /// Artist royalty in basis points.
    pub artist_royalty_bps: u64,
    /// Platform fee in basis points.
    pub platform_fee_bps: u64,
    /// Reserved for rentals.
    pub rent_price_per_day: Option<u64>,
    /// Reserved for rentals.
    pub is_rented: bool,
    /// Reserved for rentals.
    pub rent_start: Option<i64>,
    /// Reserved for rentals.
    pub rent_end: Option<i64>,
    /// Reserved for rentals.
    pub current_renter: Option<Pubkey>,
    /// Bump seed of the vault's derived address.
    pub bump: u8,
}

impl Vault {
    /// The invariant of a vault record. A closed vault is unlocked and
    /// carries no offer; an offer always carries its voting window; while
    /// a vote is in progress the tally of "for" votes is within the
    /// outstanding supply; the fee rates are within the bounds set at
    /// creation, so that fees never exceed the amount they are taken from.
    pub open spec fn wf(&self) -> bool {
        &&& self.is_closed ==> !self.is_locked && self.buyout_price is None
        &&& self.buyout_price is Some ==> self.buyout_vote_start is Some
            && self.buyout_vote_end is Some
        &&& self.is_locked ==> self.total_votes <= self.total_supply
        &&& self.artist_royalty_bps <= MAX_ARTIST_ROYALTY_BPS
        &&& self.platform_fee_bps + self.artist_royalty_bps <= BPS_DENOMINATOR
    }
}

/// The ballot of one voter on one vault.
#[derive(Clone, Copy, Debug, PartialEq, Eq)]
pub struct Vote {
    /// Vault the ballot belongs to.
    pub vault: Pubkey,
    /// Voter who cast it.
    pub voter: Pubkey,
    /// Claim balance of the voter at the moment of voting; zero while no
    /// ballot has been cast.
    pub token_amount: u64,
    /// Direction of the ballot.
    pub vote_for_buyout: bool,
    /// Bump seed of the ballot's derived address.
    pub bump: u8,
}

/// Platform-wide parameters, read-only to every operation.
#[derive(Clone, Copy, Debug, PartialEq, Eq)]
pub struct Config {
    /// Authority over the platform configuration.
    pub authority: Pubkey,
    /// Account that collects platform fees.
    pub platform_fee_account: Pubkey,
    /// Platform fee given to new vaults, in basis points.
    pub default_platform_fee_bps: u64,
    /// Ceiling on the artist royalty, in basis points.
    pub max_artist_royalty_bps: u64,
    /// Lowest buyout price that may be offered.
    pub min_buyout_price: u64,
    /// Bump seed of the configuration's derived address.
    pub bump: u8,
}

/// Lifecycle phase of a vault.
#[derive(Clone, Copy, Debug, PartialEq, Eq, Structural)]
pub enum VaultStatus {
    Active,
    BuyoutVoting,
    BuyoutCompleted,
    Closed,
    Rented,
}

} // verus!
