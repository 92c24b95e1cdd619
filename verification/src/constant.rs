//! Fixed parameters of the vault program.

use vstd::prelude::*;

verus! {

/// Share of the outstanding claims, in percent, that must have voted for a
/// buyout before it can be settled.
pub const QUORUM_PERCENTAGE: u64 = 75;

/// Length of a buyout voting window, in seconds (seven days).
pub const VOTE_DURATION: i64 = 7 * 24 * 60 * 60;

/// Smallest amount of claims that can be minted or redeemed in one
/// operation: one whole claim token at six decimals.
pub const MIN_FRACTIONAL_AMOUNT: u64 = 1_000_000;

/// An asset is indivisible: custody always moves exactly one unit of it.
pub const ASSET_UNITS: u64 = 1;

/// Decimals of the claim token.
pub const TOKEN_DECIMALS: u8 = 6;

/// Customary initial claim supply: one billion tokens.
pub const INITIAL_SUPPLY: u64 = 1_000_000_000;

/// Platform fee charged on a settlement, in basis points (2.5%).
pub const PLATFORM_FEE_BPS: u64 = 250;

/// Customary artist royalty, in basis points (5%).
pub const ARTIST_ROYALTY_BPS: u64 = 500;

/// Highest artist royalty a vault can be created with, in basis points (10%).
pub const MAX_ARTIST_ROYALTY_BPS: u64 = 1000;

/// One whole, in basis points.
pub const BPS_DENOMINATOR: u64 = 10000;

/// Shortest rental, in seconds (one day).
pub const MIN_RENT_DURATION: i64 = 24 * 60 * 60;

/// Longest rental, in seconds (thirty days).
pub const MAX_RENT_DURATION: i64 = 30 * 24 * 60 * 60;

} // verus!
