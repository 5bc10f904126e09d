//! Gas bidding: from a fee policy and the network's congestion to a bid.
//!
//! A bid is computed in exact arithmetic; one that does not fit the 64-bit
//! fee fields is reported as an error.

use std::collections::HashMap;
use vstd::prelude::*;
use crate::types::GasPolicy;

verus! {

broadcast use vstd::std_specs::hash::group_hash_axioms;

/// Bids kept per history bucket.
pub const HISTORY_DEPTH: usize = 100;

/// Network congestion, by quarters of a hundred percent.
#[derive(Clone, Copy, Debug, PartialEq, Eq, Structural)]
pub enum CongestionLevel {
    Low,
    Medium,
    High,
    VeryHigh,
}

/// How a bid weighs cost against speed.
#[derive(Clone, Copy, Debug, PartialEq, Eq, Structural)]
pub enum BiddingStrategy {
    Conservative,
    Balanced,
    Aggressive,
    Adaptive,
}

/// A recommended bid, in gwei, with the reading of the network and the
/// strategy that led to it.
#[derive(Clone, Copy, Debug, PartialEq, Eq, Structural)]
pub struct GasBid {
    pub max_fee_gwei: u64,
    pub max_priority_gwei: u64,
    pub congestion_level: CongestionLevel,
    pub strategy_used: BiddingStrategy,
}

/// Why no bid was made.
#[derive(Clone, Copy, Debug, PartialEq, Eq, Structural)]
pub enum GasError {
    /// The bid exceeds the range of the fee fields.
    Overflow,
}

/// Fee and priority fee of a bid before it is held to 64 bits.
pub struct BidAmounts {
    pub fee: nat,
    pub priority: nat,
}

/// The larger of `x` and `floor`.
pub open spec fn at_least(x: nat, floor: nat) -> nat {
    if x < floor {
        floor
    } else {
        x
    }
}

/// The smaller of `x` and `cap`.
pub open spec fn at_most(x: nat, cap: nat) -> nat {
    if x > cap {
        cap
    } else {
        x
    }
}

/// `pct` percent of `x`, rounded down.
pub open spec fn percent_of(x: nat, pct: nat) -> nat {
    x * pct / 100
}

/// Congestion up to 25 percent is low, up to 50 medium, up to 75 high.
pub open spec fn level_of(pct: nat) -> CongestionLevel {
    if pct <= 25 {
        CongestionLevel::Low
    } else if pct <= 50 {
        CongestionLevel::Medium
    } else if pct <= 75 {
        CongestionLevel::High
    } else {
        CongestionLevel::VeryHigh
    }
}

/// A tight policy bids conservatively and a generous one aggressively,
/// whatever the network; between the two the congestion decides.
pub open spec fn strategy_for(policy: GasPolicy, level: CongestionLevel) -> BiddingStrategy {
    if policy.max_fee_gwei <= 30 && policy.max_priority_gwei <= 1 {
        BiddingStrategy::Conservative
    } else if policy.max_fee_gwei >= 150 && policy.max_priority_gwei >= 5 {
        BiddingStrategy::Aggressive
    } else {
        match level {
            CongestionLevel::Low | CongestionLevel::Medium => BiddingStrategy::Balanced,
            CongestionLevel::High | CongestionLevel::VeryHigh => BiddingStrategy::Adaptive,
        }
    }
}

/// Share of the policy's fee, in percent, that a conservative bid offers.
pub open spec fn conservative_percent(level: CongestionLevel) -> nat {
    match level {
        CongestionLevel::Low => 80,
        CongestionLevel::Medium => 90,
        CongestionLevel::High => 100,
        CongestionLevel::VeryHigh => 110,
    }
}

/// Share of the policy's fee, in percent, that a balanced bid offers.
pub open spec fn balanced_percent(level: CongestionLevel) -> nat {
    match level {
        CongestionLevel::Low => 90,
        CongestionLevel::Medium => 100,
        CongestionLevel::High => 120,
        CongestionLevel::VeryHigh => 150,
    }
}

/// Share of the policy's fee, in percent, that an aggressive bid offers.
pub open spec fn aggressive_percent(level: CongestionLevel) -> nat {
    match level {
        CongestionLevel::Low => 100,
        CongestionLevel::Medium => 120,
        CongestionLevel::High => 150,
        CongestionLevel::VeryHigh => 200,
    }
}

/// The conservative bid: half the priority fee, floors of 10 and 1 gwei.
pub open spec fn conservative_bid(policy: GasPolicy, level: CongestionLevel) -> BidAmounts {
    BidAmounts {
        fee: at_least(percent_of(policy.max_fee_gwei as nat, conservative_percent(level)), 10),
        priority: at_least(percent_of(policy.max_priority_gwei as nat, 50), 1),
    }
}

/// The balanced bid: four fifths of the priority fee, floors of 15 and 1 gwei.
pub open spec fn balanced_bid(policy: GasPolicy, level: CongestionLevel) -> BidAmounts {
    BidAmounts {
        fee: at_least(percent_of(policy.max_fee_gwei as nat, balanced_percent(level)), 15),
        priority: at_least(percent_of(policy.max_priority_gwei as nat, 80), 1),
    }
}

/// The aggressive bid: six fifths of the priority fee, floors of 20 and 2 gwei.
pub open spec fn aggressive_bid(policy: GasPolicy, level: CongestionLevel) -> BidAmounts {
    BidAmounts {
        fee: at_least(percent_of(policy.max_fee_gwei as nat, aggressive_percent(level)), 20),
        priority: at_least(percent_of(policy.max_priority_gwei as nat, 120), 2),
    }
}

/// Sum of the fees of the bids.
pub open spec fn fee_total(bids: Seq<GasBid>) -> nat
    decreases bids.len(),
{
    if bids.len() == 0 {
        0
    } else {
        fee_total(bids.drop_last()) + bids.last().max_fee_gwei as nat
    }
}

/// Sum of the priority fees of the bids.
pub open spec fn priority_total(bids: Seq<GasBid>) -> nat
    decreases bids.len(),
{
    if bids.len() == 0 {
        0
    } else {
        priority_total(bids.drop_last()) + bids.last().max_priority_gwei as nat
    }
}

/// The averages of the recorded bids, rounded down; the policy's own
/// ceilings where nothing is recorded.
pub open spec fn historical_average(policy: GasPolicy, bids: Seq<GasBid>) -> BidAmounts {
    if bids.len() > 0 {
        BidAmounts {
            fee: fee_total(bids) / bids.len(),
            priority: priority_total(bids) / bids.len(),
        }
    } else {
        BidAmounts { fee: policy.max_fee_gwei as nat, priority: policy.max_priority_gwei as nat }
    }
}

/// The adaptive bid: the historical average raised by half the congestion
/// percentage for the fee and a quarter for the priority fee, capped at
/// twice the policy, with floors of 10 and 1 gwei.
pub open spec fn adaptive_bid(policy: GasPolicy, bids: Seq<GasBid>, pct: nat) -> BidAmounts {
    let avg = historical_average(policy, bids);
    let adjustment = pct * 50;
    let fee = at_least(avg.fee * (100 + adjustment) / 100, 10);
    let priority = at_least(avg.priority * (100 + adjustment / 2) / 100, 1);
    BidAmounts {
        fee: at_least(at_most(fee, (policy.max_fee_gwei as nat) * 2), 10),
        priority: at_least(at_most(priority, (policy.max_priority_gwei as nat) * 2), 1),
    }
}

/// The bid of the strategy that policy and congestion select.
pub open spec fn ideal_bid(policy: GasPolicy, pct: nat, bids: Seq<GasBid>) -> BidAmounts {
    let level = level_of(pct);
    match strategy_for(policy, level) {
        BiddingStrategy::Conservative => conservative_bid(policy, level),
        BiddingStrategy::Balanced => balanced_bid(policy, level),
        BiddingStrategy::Aggressive => aggressive_bid(policy, level),
        BiddingStrategy::Adaptive => adaptive_bid(policy, bids, pct),
    }
}

/// The last `n` items of a sequence, or all of it if it is shorter.
pub open spec fn keep_last(s: Seq<GasBid>, n: nat) -> Seq<GasBid> {
    if s.len() > n {
        s.subrange(s.len() - n, s.len() as int)
    } else {
        s
    }
}

/// Computes gas bids and remembers successful ones, bucket by bucket.
pub struct GasBidder {
    history: HashMap<u64, Vec<GasBid>>,
}

/// The larger of two numbers.
fn larger(x: u128, floor: u128) -> (r: u128)
    ensures
        r == at_least(x as nat, floor as nat),
{
    if x < floor {
        floor
    } else {
        x
    }
}

/// `pct` percent of `x`, rounded down.
fn percent(x: u64, pct: u128) -> (r: u128)
    requires
        pct <= 200,
    ensures
        r == percent_of(x as nat, pct as nat),
{
    assert((x as nat) * (pct as nat) <= 0xFFFF_FFFF_FFFF_FFFF * 200) by (nonlinear_arith)
        requires
            x <= 0xFFFF_FFFF_FFFF_FFFF,
            pct <= 200,
    ;
    (x as u128) * pct / 100
}

/// `factor` percent of an average, lifted to the floor, then held to the
/// cap, then lifted to the floor once more.
fn raised_and_capped(avg: u64, factor: u128, floor: u128, cap: u128) -> (r: u128)
    requires
        cap <= 2 * u64::MAX,
        floor <= 10,
    ensures
        r == at_least(
            at_most(at_least((avg as nat) * (factor as nat) / 100, floor as nat), cap as nat),
            floor as nat,
        ),
{
    match (avg as u128).checked_mul(factor) {
        Some(product) => {
            let raised: u128 = larger(product / 100, floor);
            let capped: u128 = if raised > cap {
                cap
            } else {
                raised
            };
            larger(capped, floor)
        },
        None => larger(cap, floor),
    }
}

impl GasBidder {
    /// The bids recorded in a bucket, oldest first.
    pub closed spec fn history_of(&self, bucket: u64) -> Seq<GasBid> {
        if self.history@.contains_key(bucket) {
            self.history@[bucket]@
        } else {
            Seq::empty()
        }
    }

    /// A bidder with no history.
    pub fn new() -> (r: Self)
        ensures
            forall|bucket: u64| r.history_of(bucket) == Seq::<GasBid>::empty(),
    {
        GasBidder { history: HashMap::new() }
    }

    /// The bid for a policy under the given congestion, in percent. The
    /// adaptive strategy reads the bucket numbered by the tens of the
    /// percentage.
    pub fn calculate_bid(&self, policy: &GasPolicy, network_congestion_pct: u64) -> (r: Result<
        GasBid,
        GasError,
    >)
        ensures
            ({
                let pct = network_congestion_pct as nat;
                let ideal = ideal_bid(*policy, pct, self.history_of(network_congestion_pct / 10));
                match r {
                    Ok(bid) => {
                        &&& bid.max_fee_gwei == ideal.fee
                        &&& bid.max_priority_gwei == ideal.priority
                        &&& bid.congestion_level == level_of(pct)
                        &&& bid.strategy_used == strategy_for(*policy, level_of(pct))
                    },
                    Err(e) => e == GasError::Overflow && (ideal.fee > u64::MAX || ideal.priority
                        > u64::MAX),
                }
            }),
    {
        let congestion_level = self.determine_congestion_level(network_congestion_pct);
        let strategy = self.determine_strategy(policy, &congestion_level);
        let (fee, priority): (u128, u128) = match strategy {
            BiddingStrategy::Conservative => self.calculate_conservative_bid(
                policy,
                &congestion_level,
            ),
            BiddingStrategy::Balanced => self.calculate_balanced_bid(policy, &congestion_level),
            BiddingStrategy::Aggressive => self.calculate_aggressive_bid(policy, &congestion_level),
            BiddingStrategy::Adaptive => self.calculate_adaptive_bid(
                policy,
                &congestion_level,
                network_congestion_pct,
            ),
        };
        if fee > u64::MAX as u128 || priority > u64::MAX as u128 {
            Err(GasError::Overflow)
        } else {
            Ok(
                GasBid {
                    max_fee_gwei: fee as u64,
                    max_priority_gwei: priority as u64,
                    congestion_level,
                    strategy_used: strategy,
                },
            )
        }
    }

    /// Reads the congestion level off a percentage.
    pub fn determine_congestion_level(&self, congestion_pct: u64) -> (r: CongestionLevel)
        ensures
            r == level_of(congestion_pct as nat),
    {
        if congestion_pct <= 25 {
            CongestionLevel::Low
        } else if congestion_pct <= 50 {
            CongestionLevel::Medium
        } else if congestion_pct <= 75 {
            CongestionLevel::High
        } else {
            CongestionLevel::VeryHigh
        }
    }

    /// Selects the strategy for a policy under a congestion level.
    fn determine_strategy(&self, policy: &GasPolicy, congestion: &CongestionLevel) -> (r:
        BiddingStrategy)
        ensures
            r == strategy_for(*policy, *congestion),
    {
        if policy.max_fee_gwei <= 30 && policy.max_priority_gwei <= 1 {
            return BiddingStrategy::Conservative;
        }
        if policy.max_fee_gwei >= 150 && policy.max_priority_gwei >= 5 {
            return BiddingStrategy::Aggressive;
        }
        match congestion {
            CongestionLevel::Low | CongestionLevel::Medium => BiddingStrategy::Balanced,
            CongestionLevel::High | CongestionLevel::VeryHigh => BiddingStrategy::Adaptive,
        }
    }

    /// The lowest-cost bid.
    fn calculate_conservative_bid(&self, policy: &GasPolicy, congestion: &CongestionLevel) -> (r: (
        u128,
        u128,
    ))
        ensures
            r.0 == conservative_bid(*policy, *congestion).fee,
            r.1 == conservative_bid(*policy, *congestion).priority,
    {
        let multiplier: u128 = match congestion {
            CongestionLevel::Low => 80,
            CongestionLevel::Medium => 90,
            CongestionLevel::High => 100,
            CongestionLevel::VeryHigh => 110,
        };
        let max_fee: u128 = percent(policy.max_fee_gwei, multiplier);
        let max_priority: u128 = percent(policy.max_priority_gwei, 50);
        (larger(max_fee, 10), larger(max_priority, 1))
    }

    /// The bid that balances cost and speed.
    fn calculate_balanced_bid(&self, policy: &GasPolicy, congestion: &CongestionLevel) -> (r: (
        u128,
        u128,
    ))
        ensures
            r.0 == balanced_bid(*policy, *congestion).fee,
            r.1 == balanced_bid(*policy, *congestion).priority,
    {
        let multiplier: u128 = match congestion {
            CongestionLevel::Low => 90,
            CongestionLevel::Medium => 100,
            CongestionLevel::High => 120,
            CongestionLevel::VeryHigh => 150,
        };
        let max_fee: u128 = percent(policy.max_fee_gwei, multiplier);
        let max_priority: u128 = percent(policy.max_priority_gwei, 80);
        (larger(max_fee, 15), larger(max_priority, 1))
    }

    /// The fastest bid.
    fn calculate_aggressive_bid(&self, policy: &GasPolicy, congestion: &CongestionLevel) -> (r: (
        u128,
        u128,
    ))
        ensures
            r.0 == aggressive_bid(*policy, *congestion).fee,
            r.1 == aggressive_bid(*policy, *congestion).priority,
    {
        let multiplier: u128 = match congestion {
            CongestionLevel::Low => 100,
            CongestionLevel::Medium => 120,
            CongestionLevel::High => 150,
            CongestionLevel::VeryHigh => 200,
        };
        let max_fee: u128 = percent(policy.max_fee_gwei, multiplier);
        let max_priority: u128 = percent(policy.max_priority_gwei, 120);
        (larger(max_fee, 20), larger(max_priority, 2))
    }

    /// The bid drawn from the recorded bids of the congestion's bucket.
    fn calculate_adaptive_bid(
        &self,
        policy: &GasPolicy,
        _congestion: &CongestionLevel,
        congestion_pct: u64,
    ) -> (r: (u128, u128))
        ensures
            r.0 == adaptive_bid(
                *policy,
                self.history_of(congestion_pct / 10),
                congestion_pct as nat,
            ).fee,
            r.1 == adaptive_bid(
                *policy,
                self.history_of(congestion_pct / 10),
                congestion_pct as nat,
            ).priority,
    {
        let bucket: u64 = congestion_pct / 10;
        let (avg_fee, avg_priority): (u64, u64) = match self.history.get(&bucket) {
            Some(bids) => if bids.len() > 0 {
                Self::average(bids)
            } else {
                (policy.max_fee_gwei, policy.max_priority_gwei)
            },
            None => (policy.max_fee_gwei, policy.max_priority_gwei),
        };
        let adjustment: u128 = (congestion_pct as u128) * 50;
        let fee: u128 = raised_and_capped(
            avg_fee,
            100 + adjustment,
            10,
            (policy.max_fee_gwei as u128) * 2,
        );
        let priority: u128 = raised_and_capped(
            avg_priority,
            100 + adjustment / 2,
            1,
            (policy.max_priority_gwei as u128) * 2,
        );
        (fee, priority)
    }

    /// The averages of a non-empty run of bids, rounded down.
    fn average(bids: &Vec<GasBid>) -> (r: (u64, u64))
        requires
            bids@.len() > 0,
        ensures
            r.0 == fee_total(bids@) / bids@.len(),
            r.1 == priority_total(bids@) / bids@.len(),
    {
        let mut sum_fee: u128 = 0;
        let mut sum_priority: u128 = 0;
        let mut i: usize = 0;
        while i < bids.len()
            invariant
                i <= bids@.len(),
                sum_fee == fee_total(bids@.take(i as int)),
                sum_priority == priority_total(bids@.take(i as int)),
                sum_fee <= i * u64::MAX,
                sum_priority <= i * u64::MAX,
            decreases bids@.len() - i,
        {
            proof {
                assert(bids@.take(i + 1).drop_last() == bids@.take(i as int));
                assert(i * u64::MAX + u64::MAX <= usize::MAX * u64::MAX + u64::MAX)
                    by (nonlinear_arith)
                    requires
                        i <= usize::MAX,
                ;
            }
            sum_fee = sum_fee + bids[i].max_fee_gwei as u128;
            sum_priority = sum_priority + bids[i].max_priority_gwei as u128;
            i = i + 1;
        }
        proof {
            assert(bids@.take(i as int) == bids@);
            let n = bids@.len() as int;
            vstd::arithmetic::div_mod::lemma_div_is_ordered(sum_fee as int, n * u64::MAX, n);
            vstd::arithmetic::div_mod::lemma_div_is_ordered(sum_priority as int, n * u64::MAX, n);
            vstd::arithmetic::div_mod::lemma_div_multiples_vanish(u64::MAX as int, n);
        }
        let n: u128 = bids.len() as u128;
        ((sum_fee / n) as u64, (sum_priority / n) as u64)
    }

    /// Records a successful bid in a bucket, which keeps its latest hundred.
    pub fn record_successful_bid(&mut self, chain_id: u64, bid: GasBid)
        ensures
            final(self).history_of(chain_id) == keep_last(
                old(self).history_of(chain_id).push(bid),
                HISTORY_DEPTH as nat,
            ),
            forall|bucket: u64|
                bucket != chain_id ==> final(self).history_of(bucket) == old(self).history_of(
                    bucket,
                ),
    {
        let mut bids: Vec<GasBid> = match self.history.remove(&chain_id) {
            Some(recorded) => recorded,
            None => Vec::new(),
        };
        bids.push(bid);
        let ghost all = bids@;
        assert(all == old(self).history_of(chain_id).push(bid));
        while bids.len() > HISTORY_DEPTH
            invariant
                bids@.len() <= all.len(),
                all.len() <= HISTORY_DEPTH ==> bids@.len() == all.len(),
                all.len() > HISTORY_DEPTH ==> bids@.len() >= HISTORY_DEPTH,
                bids@ == all.subrange(all.len() - bids@.len(), all.len() as int),
            decreases bids@.len(),
        {
            bids.remove(0);
        }
        assert(bids@ == keep_last(all, HISTORY_DEPTH as nat));
        self.history.insert(chain_id, bids);
    }
}

} // verus!
