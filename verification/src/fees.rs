//! Integer arithmetic on amounts: basis-point shares, the fee split of a
//! payment, the quorum threshold and pro-rata shares. Every quotient is
//! rounded down; nothing here uses floating point.

use vstd::prelude::*;

use crate::constant::{BPS_DENOMINATOR, QUORUM_PERCENTAGE};
use crate::error::ArteonError;

verus! {

/// `bps` basis points of `amount`, rounded down.
pub open spec fn bps_share(amount: nat, bps: nat) -> nat {
    amount * bps / (BPS_DENOMINATOR as nat)
}

/// A payment parted into the platform's fee, the artist's royalty and what
/// is left for the recipient.
#[derive(Clone, Copy, Debug, PartialEq, Eq, Structural)]
pub struct FeeSplit {
    pub platform_fee: u64,
    pub artist_royalty: u64,
    pub net: u64,
}

/// Why `amount` cannot be split at the given rates, if it cannot.
///
/// A product `amount * rate` beyond 64 bits is an invalid price. A platform
/// fee above the amount, or a royalty above what the platform fee leaves,
/// is a rate beyond its maximum.
pub open spec fn split_rejection(
    amount: u64,
    platform_fee_bps: u64,
    artist_royalty_bps: u64,
) -> Option<ArteonError> {
    let platform_fee = bps_share(amount as nat, platform_fee_bps as nat);
    let artist_royalty = bps_share(amount as nat, artist_royalty_bps as nat);
    if amount * platform_fee_bps > u64::MAX || amount * artist_royalty_bps > u64::MAX {
        Some(ArteonError::InvalidBuyoutPrice)
    } else if platform_fee > amount {
        Some(ArteonError::PlatformFeeExceedsMaximum)
    } else if platform_fee + artist_royalty > amount {
        Some(ArteonError::ArtistRoyaltyExceedsMaximum)
    } else {
        None
    }
}

/// The split of `amount` at the given rates, where `split_rejection` is
/// `None`.
pub open spec fn fee_split(amount: u64, platform_fee_bps: u64, artist_royalty_bps: u64) -> FeeSplit {
    let platform_fee = bps_share(amount as nat, platform_fee_bps as nat);
    let artist_royalty = bps_share(amount as nat, artist_royalty_bps as nat);
    FeeSplit {
        platform_fee: platform_fee as u64,
        artist_royalty: artist_royalty as u64,
        net: (amount - platform_fee - artist_royalty) as u64,
    }
}

/// Splits `amount` into platform fee, artist royalty and net.
///
/// Succeeds exactly when `split_rejection` is `None`; the three parts then
/// add up to `amount` with nothing lost to rounding.
pub fn split_fees(amount: u64, platform_fee_bps: u64, artist_royalty_bps: u64) -> (result: Result<
    FeeSplit,
    ArteonError,
>)
    ensures
        match result {
            Ok(split) => {
                &&& split_rejection(amount, platform_fee_bps, artist_royalty_bps) is None
                &&& split == fee_split(amount, platform_fee_bps, artist_royalty_bps)
                &&& split.platform_fee + split.artist_royalty + split.net == amount
            },
            Err(e) => split_rejection(amount, platform_fee_bps, artist_royalty_bps) == Some(e),
        },
{
    let platform_product = match amount.checked_mul(platform_fee_bps) {
        Some(product) => product,
        None => {
            return Err(ArteonError::InvalidBuyoutPrice);
        },
    };
    let royalty_product = match amount.checked_mul(artist_royalty_bps) {
        Some(product) => product,
        None => {
            return Err(ArteonError::InvalidBuyoutPrice);
        },
    };
    let platform_fee = platform_product / BPS_DENOMINATOR;
    let artist_royalty = royalty_product / BPS_DENOMINATOR;
    let after_platform = match amount.checked_sub(platform_fee) {
        Some(rest) => rest,
        None => {
            return Err(ArteonError::PlatformFeeExceedsMaximum);
        },
    };
    let net = match after_platform.checked_sub(artist_royalty) {
        Some(rest) => rest,
        None => {
            return Err(ArteonError::ArtistRoyaltyExceedsMaximum);
        },
    };
    Ok(FeeSplit { platform_fee, artist_royalty, net })
}

/// Rates that add up to at most one whole never take more than the amount:
/// the split can then fail only on a product beyond 64 bits.
pub proof fn lemma_bounded_rates_leave_net(amount: u64, platform_fee_bps: u64, artist_royalty_bps: u64)
    requires
        platform_fee_bps + artist_royalty_bps <= BPS_DENOMINATOR,
    ensures
        bps_share(amount as nat, platform_fee_bps as nat) + bps_share(
            amount as nat,
            artist_royalty_bps as nat,
        ) <= amount,
        amount * platform_fee_bps <= u64::MAX && amount * artist_royalty_bps <= u64::MAX
            ==> split_rejection(amount, platform_fee_bps, artist_royalty_bps) is None,
{
    let a = amount as int;
    let p = platform_fee_bps as int;
    let r = artist_royalty_bps as int;
    assert(a * p + a * r == a * (p + r)) by (nonlinear_arith);
    assert(a * (p + r) <= a * 10000) by (nonlinear_arith)
        requires
            0 <= a,
            p + r <= 10000,
    ;
    assert(0 <= a * p && 0 <= a * r) by (nonlinear_arith)
        requires
            0 <= a,
            0 <= p,
            0 <= r,
    ;
}

/// The "for" weight at which a buyout of a vault with `total_supply` claims
/// reaches quorum: `QUORUM_PERCENTAGE` percent of the supply, rounded down.
pub open spec fn quorum_threshold(total_supply: nat) -> nat {
    total_supply * (QUORUM_PERCENTAGE as nat) / 100
}

/// Whether `votes_for` reaches the quorum of `total_supply`.
pub open spec fn quorum_reached(votes_for: nat, total_supply: nat) -> bool {
    votes_for >= quorum_threshold(total_supply)
}

/// Computes the quorum threshold of `total_supply`, for every supply.
pub fn quorum_threshold_of(total_supply: u64) -> (threshold: u64)
    ensures
        threshold == quorum_threshold(total_supply as nat),
        threshold <= total_supply,
{
    let scaled: u128 = (total_supply as u128) * (QUORUM_PERCENTAGE as u128);
    (scaled / 100) as u64
}

/// `amount` out of `total` parts of `value`, rounded down.
pub open spec fn pro_rata(value: nat, amount: nat, total: nat) -> nat {
    value * amount / total
}

/// A share of at most the whole is at most the value.
pub proof fn lemma_pro_rata_bounded(value: nat, amount: nat, total: nat)
    requires
        0 < total,
        amount <= total,
    ensures
        pro_rata(value, amount, total) <= value,
{
    assert(value * amount <= value * total) by (nonlinear_arith)
        requires
            amount <= total,
    ;
    assert((value * amount) / total <= (value * total) / total) by (nonlinear_arith)
        requires
            0 < total,
            value * amount <= value * total,
    ;
    assert((value * total) / total == value) by (nonlinear_arith)
        requires
            0 < total,
    ;
}

/// A quotient rounded down is within one divisor of the dividend.
proof fn lemma_floor_bounds(x: int, d: int)
    requires
        0 < d,
    ensures
        (x / d) * d <= x < (x / d) * d + d,
{
    vstd::arithmetic::div_mod::lemma_fundamental_div_mod(x, d);
    vstd::arithmetic::div_mod::lemma_mod_bound(x, d);
    vstd::arithmetic::mul::lemma_mul_is_commutative(d, x / d);
}

/// What two fees, each rounded down, leave of `amount` is the exact
/// remainder `amount * (10000 - p - r) / 10000` or up to two units more.
proof fn lemma_net_bounds(amount: int, p: int, r: int)
    requires
        0 <= amount,
        0 <= p,
        0 <= r,
        p + r <= 10000,
    ensures
        ({
            let net = amount - amount * p / 10000 - amount * r / 10000;
            &&& amount * (10000 - p - r) <= 10000 * net < amount * (10000 - p - r) + 20000
            &&& 0 <= net <= amount
        }),
{
    let q = 10000 - p - r;
    assert(amount * q == 10000 * amount - amount * p - amount * r) by (nonlinear_arith)
        requires
            q == 10000 - p - r,
    ;
    assert(0 <= amount * p && 0 <= amount * r && 0 <= amount * q) by (nonlinear_arith)
        requires
            0 <= amount,
            0 <= p,
            0 <= r,
            0 <= q,
    ;
}

/// The two readings of a holder's payout agree to within two units: the
/// fee split of the holder's share of a price, and the holder's share of
/// what the fee split of the whole price leaves. Splitting the share again
/// therefore charges no fee twice.
pub proof fn lemma_net_of_share_is_share_of_net(price: nat, amount: nat, total: nat, p: nat, r: nat)
    requires
        0 < total,
        amount <= total,
        p + r <= BPS_DENOMINATOR,
    ensures
        ({
            let share = pro_rata(price, amount, total);
            let net_of_share = share - bps_share(share, p) - bps_share(share, r);
            let net = price - bps_share(price, p) - bps_share(price, r);
            let share_of_net = pro_rata(net as nat, amount, total);
            &&& 0 <= net <= price
            &&& 0 <= net_of_share <= share
            &&& -2 <= net_of_share - share_of_net <= 2
        }),
{
    let (pr, a, s) = (price as int, amount as int, total as int);
    let (p, r) = (p as int, r as int);
    let q = 10000 - p - r;
    let share = pr * a / s;
    let x = share - share * p / 10000 - share * r / 10000;
    let net = pr - pr * p / 10000 - pr * r / 10000;
    let y = net * a / s;

    assert(0 <= pr * a) by (nonlinear_arith)
        requires
            0 <= pr,
            0 <= a,
    ;
    lemma_floor_bounds(pr * a, s);
    vstd::arithmetic::div_mod::lemma_div_pos_is_pos(pr * a, s);
    lemma_net_bounds(share, p, r);
    lemma_net_bounds(pr, p, r);
    lemma_floor_bounds(net * a, s);

    // scaled by `10000 * s`, both readings lie close to `pr * a * q`
    let exact = pr * a * q;
    let xs = x * s;
    let ys = y * s;
    let sqs = share * q * s;
    assert(exact - 10000 * s <= sqs <= exact) by (nonlinear_arith)
        requires
            share * s <= pr * a < share * s + s,
            0 <= q <= 10000,
            0 < s,
            exact == pr * a * q,
            sqs == share * q * s,
    ;
    assert(sqs <= 10000 * xs < sqs + 20000 * s) by (nonlinear_arith)
        requires
            share * q <= 10000 * x < share * q + 20000,
            0 < s,
            xs == x * s,
            sqs == share * q * s,
    ;
    let na = net * a;
    assert(exact <= 10000 * na <= exact + 19999 * s) by (nonlinear_arith)
        requires
            pr * q <= 10000 * net < pr * q + 20000,
            0 <= a <= s,
            exact == pr * a * q,
            na == net * a,
    ;
    assert(10000 * na - 10000 * s < 10000 * ys <= 10000 * na) by (nonlinear_arith)
        requires
            y * s <= na < y * s + s,
            ys == y * s,
    ;
    assert(-3 < x - y < 3) by (nonlinear_arith)
        requires
            0 < s,
            xs == x * s,
            ys == y * s,
            exact - 10000 * s <= 10000 * xs < exact + 20000 * s,
            exact - 10000 * s < 10000 * ys <= exact + 19999 * s,
    ;
}

/// Computes `amount` out of `total` parts of `value` in 128-bit
/// arithmetic, so that the product cannot overflow.
pub fn pro_rata_share(value: u64, amount: u64, total: u64) -> (share: u64)
    requires
        0 < total,
        pro_rata(value as nat, amount as nat, total as nat) <= u64::MAX,
    ensures
        share == pro_rata(value as nat, amount as nat, total as nat),
{
    assert(value * amount <= u64::MAX * u64::MAX) by (nonlinear_arith);
    let product: u128 = (value as u128) * (amount as u128);
    (product / (total as u128)) as u64
}

} // verus!
