use arteon::error::ArteonError;
use arteon::fees::{pro_rata_share, quorum_threshold_of, split_fees, FeeSplit};

#[test]
fn split_of_a_hundred_thousand_at_default_rates() {
    let split = split_fees(100_000, 250, 500).unwrap();
    assert_eq!(split, FeeSplit { platform_fee: 2_500, artist_royalty: 5_000, net: 92_500 });
}

#[test]
fn split_of_zero_is_all_zero() {
    let split = split_fees(0, 250, 500).unwrap();
    assert_eq!(split, FeeSplit { platform_fee: 0, artist_royalty: 0, net: 0 });
}

#[test]
fn split_at_zero_rates_keeps_everything() {
    let split = split_fees(123_456_789, 0, 0).unwrap();
    assert_eq!(split, FeeSplit { platform_fee: 0, artist_royalty: 0, net: 123_456_789 });
}

#[test]
fn split_rounds_each_fee_down() {
    // 39_999 * 250 / 10_000 = 999.975, 39_999 * 500 / 10_000 = 1_999.95
    let split = split_fees(39_999, 250, 500).unwrap();
    assert_eq!(split, FeeSplit { platform_fee: 999, artist_royalty: 1_999, net: 37_001 });
    let tiny = split_fees(1, 250, 500).unwrap();
    assert_eq!(tiny, FeeSplit { platform_fee: 0, artist_royalty: 0, net: 1 });
}

#[test]
fn split_parts_always_add_up() {
    let amounts = [0u64, 1, 3, 39, 40, 9_999, 10_000, 10_001, 1_000_003, 1_844_674_407_370_955];
    let rates = [(0u64, 0u64), (250, 500), (250, 1_000), (1, 1), (9_999, 1), (5_000, 5_000), (33, 77)];
    for amount in amounts {
        for (platform, royalty) in rates {
            let split = split_fees(amount, platform, royalty).unwrap();
            assert_eq!(split.platform_fee, ((amount as u128 * platform as u128) / 10_000) as u64);
            assert_eq!(split.artist_royalty, ((amount as u128 * royalty as u128) / 10_000) as u64);
            assert_eq!(split.platform_fee + split.artist_royalty + split.net, amount);
        }
    }
}

#[test]
fn split_at_the_whole_amount_leaves_nothing() {
    let split = split_fees(20_000, 4_000, 6_000).unwrap();
    assert_eq!(split, FeeSplit { platform_fee: 8_000, artist_royalty: 12_000, net: 0 });
}

#[test]
fn split_rejects_a_product_beyond_64_bits() {
    assert_eq!(split_fees(u64::MAX, 250, 500), Err(ArteonError::InvalidBuyoutPrice));
    assert_eq!(split_fees(u64::MAX, 1, 2), Err(ArteonError::InvalidBuyoutPrice));
    assert_eq!(split_fees(u64::MAX, 2, 1), Err(ArteonError::InvalidBuyoutPrice));
    // the largest amount whose product with 250 still fits
    let largest = u64::MAX / 250;
    assert!(split_fees(largest, 250, 0).is_ok());
    assert_eq!(split_fees(largest + 1, 250, 0), Err(ArteonError::InvalidBuyoutPrice));
}

#[test]
fn split_accepts_the_largest_amount_at_rate_one() {
    let split = split_fees(u64::MAX, 1, 1).unwrap();
    assert_eq!(split.platform_fee, u64::MAX / 10_000);
    assert_eq!(split.artist_royalty, u64::MAX / 10_000);
    assert_eq!(split.net, u64::MAX - 2 * (u64::MAX / 10_000));
}

#[test]
fn split_rejects_a_platform_fee_above_the_amount() {
    assert_eq!(split_fees(10_000, 10_001, 0), Err(ArteonError::PlatformFeeExceedsMaximum));
    assert_eq!(split_fees(10_000, 20_000, 500), Err(ArteonError::PlatformFeeExceedsMaximum));
}

#[test]
fn split_rejects_a_royalty_above_what_is_left() {
    assert_eq!(split_fees(10_000, 6_000, 6_000), Err(ArteonError::ArtistRoyaltyExceedsMaximum));
    assert_eq!(split_fees(10_000, 0, 10_001), Err(ArteonError::ArtistRoyaltyExceedsMaximum));
}

#[test]
fn quorum_threshold_is_three_quarters_rounded_down() {
    assert_eq!(quorum_threshold_of(0), 0);
    assert_eq!(quorum_threshold_of(1), 0);
    assert_eq!(quorum_threshold_of(2), 1);
    assert_eq!(quorum_threshold_of(3), 2);
    assert_eq!(quorum_threshold_of(4), 3);
    assert_eq!(quorum_threshold_of(100), 75);
    assert_eq!(quorum_threshold_of(1_000_000), 750_000);
    assert_eq!(quorum_threshold_of(1_000_001), 750_000);
    assert_eq!(quorum_threshold_of(1_000_002), 750_001);
}

#[test]
fn quorum_threshold_of_the_largest_supply() {
    let expected = ((u64::MAX as u128 * 75) / 100) as u64;
    assert_eq!(quorum_threshold_of(u64::MAX), expected);
    assert_eq!(expected, 13_835_058_055_282_163_711);
}

#[test]
fn pro_rata_share_of_a_tenth() {
    assert_eq!(pro_rata_share(100_000, 100_000, 1_000_000), 10_000);
    assert_eq!(pro_rata_share(92_500, 100_000, 1_000_000), 9_250);
}

#[test]
fn pro_rata_share_rounds_down() {
    assert_eq!(pro_rata_share(10, 1, 3), 3);
    assert_eq!(pro_rata_share(10, 2, 3), 6);
    assert_eq!(pro_rata_share(1, 1, 2), 0);
    assert_eq!(pro_rata_share(0, 5, 7), 0);
    assert_eq!(pro_rata_share(7, 0, 7), 0);
}

#[test]
fn pro_rata_share_of_everything_is_the_value() {
    assert_eq!(pro_rata_share(12_345, 7, 7), 12_345);
    assert_eq!(pro_rata_share(u64::MAX, u64::MAX, u64::MAX), u64::MAX);
}

#[test]
fn pro_rata_share_does_not_overflow_on_large_products() {
    let expected = ((u64::MAX as u128 * (u64::MAX - 1) as u128) / u64::MAX as u128) as u64;
    assert_eq!(pro_rata_share(u64::MAX, u64::MAX - 1, u64::MAX), expected);
    assert_eq!(expected, u64::MAX - 1);
}

#[test]
fn net_of_the_share_and_share_of_the_net_stay_within_two_units() {
    let prices = [0u64, 1, 7, 99, 100_000, 123_457, 999_999_999, 1_844_674_407_370_955];
    let parts = [(0u64, 1u64), (1, 1), (1, 3), (2, 3), (1, 7), (999, 1_000), (1_000_000, 3_000_001)];
    let rates = [(0u64, 0u64), (250, 500), (250, 1_000), (1, 1), (3_333, 3_333), (9_999, 1)];
    for price in prices {
        for (amount, total) in parts {
            for (platform, royalty) in rates {
                let share = pro_rata_share(price, amount, total);
                let by_share = split_fees(share, platform, royalty).unwrap().net;
                let net = split_fees(price, platform, royalty).unwrap().net;
                let by_net = pro_rata_share(net, amount, total);
                assert!(by_share.abs_diff(by_net) <= 2);
                assert!(by_share <= share && share <= price);
            }
        }
    }
}

#[test]
fn rates_within_one_whole_always_split_small_amounts() {
    let largest = u64::MAX / 10_000;
    for (platform, royalty) in [(250u64, 1_000u64), (0, 0), (10_000, 0), (0, 10_000), (9_000, 1_000)]
    {
        for amount in [0u64, 1, 9_999, 10_000, largest - 1, largest] {
            let split = split_fees(amount, platform, royalty).unwrap();
            assert_eq!(split.platform_fee + split.artist_royalty + split.net, amount);
        }
    }
}

#[test]
fn net_of_the_share_and_share_of_the_net_agree_on_the_example() {
    // the holder's share of the gross price, less fees
    let gross_share = pro_rata_share(100_000, 100_000, 1_000_000);
    let by_share = split_fees(gross_share, 250, 500).unwrap().net;
    // the holder's share of what the vault received
    let vault_net = split_fees(100_000, 250, 500).unwrap().net;
    let by_net = pro_rata_share(vault_net, 100_000, 1_000_000);
    assert_eq!(by_share, 9_250);
    assert_eq!(by_net, 9_250);
}
