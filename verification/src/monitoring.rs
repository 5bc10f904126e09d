//! Counters and latency statistics of one trading loop.
//!
//! The event counters wrap at the top of their range. The cumulative cash
//! flow saturates at the ends of its range. Latencies are microseconds; their
//! moving average is kept in thousandths of a microsecond.

use vstd::prelude::*;
use crate::gate_model::{cash_flow, elapsed};
use crate::models::{Fill, Side};

verus! {

/// What a monitor has counted.
pub struct MonitorState {
    pub quotes_processed: nat,
    pub orders_sent: nat,
    pub fills_received: nat,
    pub total_pnl: int,
    pub avg_latency_milli_us: nat,
    pub max_latency_us: nat,
    pub start_time: nat,
    pub pattern_name: Seq<char>,
}

/// A counter's next value: one more, or zero after the largest.
pub open spec fn next_count(n: nat) -> nat {
    if n >= u64::MAX {
        0
    } else {
        n + 1
    }
}

/// A cash amount held to the range of the accumulator.
pub open spec fn saturated(x: int) -> int {
    if x < i128::MIN {
        i128::MIN as int
    } else if x > i128::MAX {
        i128::MAX as int
    } else {
        x
    }
}

/// The largest latency after a new measurement. A measurement above the
/// current maximum replaces it, cut to the low 64 bits.
pub open spec fn next_max_latency(current: nat, latency_us: nat) -> nat {
    if latency_us > current {
        latency_us % 0x1_0000_0000_0000_0000
    } else {
        current
    }
}

/// The moving average after a new measurement, in thousandths of a
/// microsecond: the first measurement as it is, afterwards 99 parts of the
/// old average and one part of the measurement, rounded down and held to
/// 64 bits.
pub open spec fn next_avg_latency(current: nat, latency_us: nat) -> nat {
    let raw = if current == 0 {
        latency_us * 1000
    } else {
        (current * 99 + latency_us * 1000) / 100
    };
    if raw > u64::MAX {
        u64::MAX as nat
    } else {
        raw
    }
}

/// Snapshot of a monitor's counters.
#[derive(Clone, Debug)]
pub struct PerformanceMetrics {
    pub quotes_processed: u64,
    pub orders_sent: u64,
    pub fills_received: u64,
    pub total_pnl: i128,
    pub avg_latency_milli_us: u64,
    pub max_latency_us: u64,
    pub uptime_nanos: u64,
    pub pattern_name: String,
}

/// Performance counters of one pattern.
#[derive(Debug)]
pub struct PerformanceMonitor {
    quotes_processed: u64,
    orders_sent: u64,
    fills_received: u64,
    total_pnl: i128,
    avg_latency_milli_us: u64,
    max_latency_us: u64,
    start_time: u64,
    pattern_name: String,
}

impl View for PerformanceMonitor {
    type V = MonitorState;

    closed spec fn view(&self) -> MonitorState {
        MonitorState {
            quotes_processed: self.quotes_processed as nat,
            orders_sent: self.orders_sent as nat,
            fills_received: self.fills_received as nat,
            total_pnl: self.total_pnl as int,
            avg_latency_milli_us: self.avg_latency_milli_us as nat,
            max_latency_us: self.max_latency_us as nat,
            start_time: self.start_time as nat,
            pattern_name: self.pattern_name@,
        }
    }
}

impl PerformanceMonitor {
    /// A monitor for the named pattern, started at `now`, with every counter at zero.
    pub fn new(pattern_name: &str, now: u64) -> (r: Self)
        ensures
            r@ == (MonitorState {
                quotes_processed: 0,
                orders_sent: 0,
                fills_received: 0,
                total_pnl: 0,
                avg_latency_milli_us: 0,
                max_latency_us: 0,
                start_time: now as nat,
                pattern_name: pattern_name@,
            }),
    {
        PerformanceMonitor {
            quotes_processed: 0,
            orders_sent: 0,
            fills_received: 0,
            total_pnl: 0,
            avg_latency_milli_us: 0,
            max_latency_us: 0,
            start_time: now,
            pattern_name: pattern_name.to_owned(),
        }
    }

    /// Counts a processed quote.
    pub fn record_quote(&mut self)
        ensures
            final(self)@ == (MonitorState {
                quotes_processed: next_count(old(self)@.quotes_processed),
                ..old(self)@
            }),
    {
        self.quotes_processed = if self.quotes_processed == u64::MAX {
            0
        } else {
            self.quotes_processed + 1
        };
    }

    /// Counts a sent order.
    pub fn record_order(&mut self)
        ensures
            final(self)@ == (MonitorState {
                orders_sent: next_count(old(self)@.orders_sent),
                ..old(self)@
            }),
    {
        self.orders_sent = if self.orders_sent == u64::MAX {
            0
        } else {
            self.orders_sent + 1
        };
    }

    /// Counts a fill and adds its cash flow to the total.
    pub fn record_fill(&mut self, fill: &Fill)
        ensures
            final(self)@ == (MonitorState {
                fills_received: next_count(old(self)@.fills_received),
                total_pnl: saturated(old(self)@.total_pnl + cash_flow(*fill)),
                ..old(self)@
            }),
    {
        self.fills_received = if self.fills_received == u64::MAX {
            0
        } else {
            self.fills_received + 1
        };
        proof {
            crate::enhanced_risk::lemma_product_fits(fill.qty, fill.px);
        }
        let value: u128 = (fill.qty as u128) * (fill.px as u128);
        self.total_pnl = match fill.side {
            Side::Buy => match self.total_pnl.checked_sub_unsigned(value) {
                Some(total) => total,
                None => i128::MIN,
            },
            Side::Sell => match self.total_pnl.checked_add_unsigned(value) {
                Some(total) => total,
                None => i128::MAX,
            },
        };
    }

    /// Takes in a latency measurement, in microseconds.
    pub fn record_latency(&mut self, latency_us: u128)
        ensures
            final(self)@ == (MonitorState {
                max_latency_us: next_max_latency(old(self)@.max_latency_us, latency_us as nat),
                avg_latency_milli_us: next_avg_latency(
                    old(self)@.avg_latency_milli_us,
                    latency_us as nat,
                ),
                ..old(self)@
            }),
    {
        if latency_us > self.max_latency_us as u128 {
            self.max_latency_us = (latency_us % 0x1_0000_0000_0000_0000) as u64;
        }
        let current: u128 = self.avg_latency_milli_us as u128;
        let raw: Option<u128> = match latency_us.checked_mul(1000) {
            None => None,
            Some(scaled) => if current == 0 {
                Some(scaled)
            } else {
                match (current * 99).checked_add(scaled) {
                    None => None,
                    Some(sum) => Some(sum / 100),
                }
            },
        };
        self.avg_latency_milli_us = match raw {
            Some(avg) => if avg > u64::MAX as u128 {
                u64::MAX
            } else {
                avg as u64
            },
            None => u64::MAX,
        };
    }

    /// The counters as they stand at `now`.
    pub fn get_metrics(&self, now: u64) -> (r: PerformanceMetrics)
        ensures
            r.quotes_processed == self@.quotes_processed,
            r.orders_sent == self@.orders_sent,
            r.fills_received == self@.fills_received,
            r.total_pnl == self@.total_pnl,
            r.avg_latency_milli_us == self@.avg_latency_milli_us,
            r.max_latency_us == self@.max_latency_us,
            r.uptime_nanos == elapsed(now as nat, self@.start_time),
            r.pattern_name@ == self@.pattern_name,
    {
        PerformanceMetrics {
            quotes_processed: self.quotes_processed,
            orders_sent: self.orders_sent,
            fills_received: self.fills_received,
            total_pnl: self.total_pnl,
            avg_latency_milli_us: self.avg_latency_milli_us,
            max_latency_us: self.max_latency_us,
            uptime_nanos: if now >= self.start_time {
                now - self.start_time
            } else {
                0
            },
            pattern_name: self.pattern_name.clone(),
        }
    }

    /// Sets every counter back to zero; the start time and the name stay.
    pub fn reset(&mut self)
        ensures
            final(self)@ == (MonitorState {
                quotes_processed: 0,
                orders_sent: 0,
                fills_received: 0,
                total_pnl: 0,
                avg_latency_milli_us: 0,
                max_latency_us: 0,
                ..old(self)@
            }),
    {
        self.quotes_processed = 0;
        self.orders_sent = 0;
        self.fills_received = 0;
        self.total_pnl = 0;
        self.avg_latency_milli_us = 0;
        self.max_latency_us = 0;
    }
}

} // verus!
