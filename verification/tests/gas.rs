use risk_gate::gas::{BiddingStrategy, CongestionLevel, GasBid, GasBidder, GasError};
use risk_gate::types::GasPolicy;

#[test]
fn test_conservative_bidding() {
    let bidder = GasBidder::new();
    let policy = GasPolicy { max_fee_gwei: 25, max_priority_gwei: 1 };

    let bid = bidder.calculate_bid(&policy, 20).unwrap();
    assert_eq!(bid.strategy_used, BiddingStrategy::Conservative);
    assert!(bid.max_fee_gwei <= policy.max_fee_gwei * 110 / 100);
    assert!(bid.max_priority_gwei <= policy.max_priority_gwei);
}

#[test]
fn test_aggressive_bidding() {
    let bidder = GasBidder::new();
    let policy = GasPolicy { max_fee_gwei: 200, max_priority_gwei: 10 };

    let bid = bidder.calculate_bid(&policy, 80).unwrap();
    assert_eq!(bid.strategy_used, BiddingStrategy::Aggressive);
    assert!(bid.max_fee_gwei >= policy.max_fee_gwei * 80 / 100);
}

#[test]
fn test_adaptive_bidding() {
    let mut bidder = GasBidder::new();
    let policy = GasPolicy { max_fee_gwei: 100, max_priority_gwei: 5 };

    let historical_bid = GasBid {
        max_fee_gwei: 80,
        max_priority_gwei: 3,
        congestion_level: CongestionLevel::High,
        strategy_used: BiddingStrategy::Balanced,
    };
    bidder.record_successful_bid(1, historical_bid);

    let bid = bidder.calculate_bid(&policy, 70).unwrap();
    assert_eq!(bid.strategy_used, BiddingStrategy::Adaptive);
}

#[test]
fn test_congestion_level_determination() {
    let bidder = GasBidder::new();
    assert_eq!(bidder.determine_congestion_level(10), CongestionLevel::Low);
    assert_eq!(bidder.determine_congestion_level(40), CongestionLevel::Medium);
    assert_eq!(bidder.determine_congestion_level(60), CongestionLevel::High);
    assert_eq!(bidder.determine_congestion_level(90), CongestionLevel::VeryHigh);
}

#[test]
fn test_gas_bidding_optimization() {
    let bidder = GasBidder::new();
    let policy = GasPolicy { max_fee_gwei: 50, max_priority_gwei: 2 };

    let conservative_policy = GasPolicy { max_fee_gwei: 25, max_priority_gwei: 1 };
    let bid = bidder.calculate_bid(&conservative_policy, 20).unwrap();
    assert_eq!(bid.strategy_used, BiddingStrategy::Conservative);
    assert!(bid.max_fee_gwei <= conservative_policy.max_fee_gwei * 110 / 100);

    let aggressive_policy = GasPolicy { max_fee_gwei: 200, max_priority_gwei: 10 };
    let bid = bidder.calculate_bid(&aggressive_policy, 80).unwrap();
    assert_eq!(bid.strategy_used, BiddingStrategy::Aggressive);
    assert!(bid.max_fee_gwei >= aggressive_policy.max_fee_gwei * 80 / 100);

    let bid_low = bidder.calculate_bid(&policy, 10).unwrap();
    assert_eq!(bid_low.congestion_level, CongestionLevel::Low);

    let bid_medium = bidder.calculate_bid(&policy, 40).unwrap();
    assert_eq!(bid_medium.congestion_level, CongestionLevel::Medium);

    let bid_high = bidder.calculate_bid(&policy, 60).unwrap();
    assert_eq!(bid_high.congestion_level, CongestionLevel::High);

    let bid_very_high = bidder.calculate_bid(&policy, 90).unwrap();
    assert_eq!(bid_very_high.congestion_level, CongestionLevel::VeryHigh);
}

#[test]
fn congestion_level_boundaries() {
    let bidder = GasBidder::new();
    assert_eq!(bidder.determine_congestion_level(0), CongestionLevel::Low);
    assert_eq!(bidder.determine_congestion_level(25), CongestionLevel::Low);
    assert_eq!(bidder.determine_congestion_level(26), CongestionLevel::Medium);
    assert_eq!(bidder.determine_congestion_level(50), CongestionLevel::Medium);
    assert_eq!(bidder.determine_congestion_level(51), CongestionLevel::High);
    assert_eq!(bidder.determine_congestion_level(75), CongestionLevel::High);
    assert_eq!(bidder.determine_congestion_level(76), CongestionLevel::VeryHigh);
    assert_eq!(bidder.determine_congestion_level(u64::MAX), CongestionLevel::VeryHigh);
}

fn bid(policy: (u64, u64), pct: u64) -> (u64, u64, BiddingStrategy) {
    let b = GasBidder::new()
        .calculate_bid(&GasPolicy { max_fee_gwei: policy.0, max_priority_gwei: policy.1 }, pct)
        .unwrap();
    (b.max_fee_gwei, b.max_priority_gwei, b.strategy_used)
}

#[test]
fn static_bids_have_exact_values() {
    assert_eq!(bid((25, 1), 20), (20, 1, BiddingStrategy::Conservative));
    assert_eq!(bid((30, 1), 40), (27, 1, BiddingStrategy::Conservative));
    assert_eq!(bid((30, 1), 60), (30, 1, BiddingStrategy::Conservative));
    assert_eq!(bid((30, 1), 90), (33, 1, BiddingStrategy::Conservative));
    assert_eq!(bid((5, 0), 10), (10, 1, BiddingStrategy::Conservative));
    assert_eq!(bid((50, 2), 10), (45, 1, BiddingStrategy::Balanced));
    assert_eq!(bid((50, 2), 40), (50, 1, BiddingStrategy::Balanced));
    assert_eq!(bid((31, 1), 10), (27, 1, BiddingStrategy::Balanced));
    assert_eq!(bid((10, 5), 10), (15, 4, BiddingStrategy::Balanced));
    assert_eq!(bid((200, 10), 10), (200, 12, BiddingStrategy::Aggressive));
    assert_eq!(bid((200, 10), 40), (240, 12, BiddingStrategy::Aggressive));
    assert_eq!(bid((200, 10), 60), (300, 12, BiddingStrategy::Aggressive));
    assert_eq!(bid((200, 10), 80), (400, 12, BiddingStrategy::Aggressive));
    assert_eq!(bid((150, 5), 80), (300, 6, BiddingStrategy::Aggressive));
}

#[test]
fn adaptive_bid_without_history_is_capped_at_twice_the_policy() {
    assert_eq!(bid((100, 5), 70), (200, 10, BiddingStrategy::Adaptive));
    assert_eq!(bid((31, 0), 60), (62, 1, BiddingStrategy::Adaptive));
    assert_eq!(bid((3, 2), 60), (10, 4, BiddingStrategy::Adaptive));
}

fn past(fee: u64, priority: u64) -> GasBid {
    GasBid {
        max_fee_gwei: fee,
        max_priority_gwei: priority,
        congestion_level: CongestionLevel::High,
        strategy_used: BiddingStrategy::Balanced,
    }
}

#[test]
fn adaptive_bid_follows_the_bucket_of_its_congestion() {
    let mut bidder = GasBidder::new();
    let policy = GasPolicy { max_fee_gwei: 100, max_priority_gwei: 5 };
    bidder.record_successful_bid(6, past(5, 0));
    // Bucket 6 serves 60..=69 percent: 5 * (100 + 60 * 50) / 100 = 155.
    let b = bidder.calculate_bid(&policy, 60).unwrap();
    assert_eq!((b.max_fee_gwei, b.max_priority_gwei), (155, 1));
    // 5 * (100 + 69 * 50) / 100 = 177.
    let b = bidder.calculate_bid(&policy, 69).unwrap();
    assert_eq!((b.max_fee_gwei, b.max_priority_gwei), (177, 1));
    // Bucket 7 is empty: the policy itself is raised, and capped.
    let b = bidder.calculate_bid(&policy, 70).unwrap();
    assert_eq!((b.max_fee_gwei, b.max_priority_gwei), (200, 10));
    bidder.record_successful_bid(6, past(7, 1));
    // Averages 6 and 0: 6 * 3100 / 100 = 186.
    let b = bidder.calculate_bid(&policy, 60).unwrap();
    assert_eq!((b.max_fee_gwei, b.max_priority_gwei), (186, 1));
    bidder.record_successful_bid(6, past(0, 5));
    // Averages 4 and 2: 4 * 31 = 124, 2 * (100 + 1500) / 100 = 32, capped at 10.
    let b = bidder.calculate_bid(&policy, 60).unwrap();
    assert_eq!((b.max_fee_gwei, b.max_priority_gwei), (124, 10));
}

#[test]
fn history_keeps_the_latest_hundred() {
    let mut bidder = GasBidder::new();
    for i in 0..105u64 {
        bidder.record_successful_bid(6, past(i, 0));
    }
    let policy = GasPolicy { max_fee_gwei: 10_000, max_priority_gwei: 2 };
    // Fees 5..=104 remain: their sum 5450, their average 54; 54 * 31 = 1674.
    let b = bidder.calculate_bid(&policy, 60).unwrap();
    assert_eq!(b.strategy_used, BiddingStrategy::Adaptive);
    assert_eq!(b.max_fee_gwei, 1674);
}

#[test]
fn bid_beyond_the_fee_field_is_an_error() {
    let bidder = GasBidder::new();
    let policy = GasPolicy { max_fee_gwei: u64::MAX, max_priority_gwei: 10 };
    assert_eq!(bidder.calculate_bid(&policy, 90), Err(GasError::Overflow));
    assert_eq!(bidder.calculate_bid(&policy, 30), Err(GasError::Overflow));
    let b = bidder.calculate_bid(&policy, 10).unwrap();
    assert_eq!(b.max_fee_gwei, u64::MAX);
    let priority_heavy = GasPolicy { max_fee_gwei: 150, max_priority_gwei: u64::MAX };
    assert_eq!(bidder.calculate_bid(&priority_heavy, 10), Err(GasError::Overflow));
    let medium = GasPolicy { max_fee_gwei: u64::MAX, max_priority_gwei: 2 };
    assert_eq!(bidder.calculate_bid(&medium, u64::MAX), Err(GasError::Overflow));
    let fits = GasPolicy { max_fee_gwei: u64::MAX / 2, max_priority_gwei: 2 };
    let b = bidder.calculate_bid(&fits, u64::MAX).unwrap();
    assert_eq!((b.max_fee_gwei, b.max_priority_gwei), (u64::MAX - 1, 4));
}
