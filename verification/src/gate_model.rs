//! Mathematical model of the risk gate.
//!
//! A risk gate is a state machine over unbounded integers. Its three
//! transitions are written here as spec functions; the executable gate is
//! proved to follow them step by step.

use vstd::prelude::*;
use crate::models::{Fill, Order, Quote, Side};

verus! {

/// Nanoseconds in the rate-limit window, and in one second of cooldown.
pub const NANOS_PER_SEC: u64 = 1_000_000_000;

/// Reference price before the first quote, in price units.
pub const DEFAULT_REFERENCE_PRICE: u64 = 10_000;

/// The immutable limits of a gate.
pub struct Limits {
    pub max_position: nat,
    pub max_orders_per_second: nat,
    pub max_drawdown: nat,
    pub max_order_value: nat,
    pub price_change_trip_pct: nat,
    pub cooldown_secs: nat,
}

/// The mutable state of a gate.
pub struct GateState {
    /// Signed inventory: grows with an admitted buy, shrinks with a sell.
    pub net_position: int,
    /// Orders admitted in the current window.
    pub orders_sent_in_window: nat,
    /// Start of the current fixed window.
    pub window_started_at: nat,
    /// Cumulative cash flow of the fills.
    pub realized_pnl: int,
    /// Twice the mid-price of the latest quote, that is `bid + ask`.
    pub reference_twice: nat,
    /// The latch: set by a trigger and never cleared.
    pub tripped: bool,
    /// Time of the most recent trigger.
    pub tripped_at: nat,
}

/// Outcome of an admission request.
#[derive(Clone, Copy, Debug, PartialEq, Eq, Structural)]
pub enum Admission {
    Accepted,
    InvalidInput,
    CircuitBreakerActive,
    RateLimitExceeded,
    PositionLimitExceeded,
    OrderValueExceeded,
}

/// Why a fill was not booked.
#[derive(Clone, Copy, Debug, PartialEq, Eq, Structural)]
pub enum FillError {
    /// Quantity or price is zero.
    InvalidInput,
    /// The cumulative cash flow would leave the range of the counter.
    Overflow,
}

/// Time elapsed at `now` since `since`; zero if `since` lies ahead.
pub open spec fn elapsed(now: nat, since: nat) -> nat {
    if now >= since { (now - since) as nat } else { 0 }
}

/// A fresh gate at time `now`.
pub open spec fn initial_state(now: nat) -> GateState {
    GateState {
        net_position: 0,
        orders_sent_in_window: 0,
        window_started_at: now,
        realized_pnl: 0,
        reference_twice: 2 * (DEFAULT_REFERENCE_PRICE as nat),
        tripped: false,
        tripped_at: now,
    }
}

/// What every reachable state satisfies.
pub open spec fn gate_invariant(l: Limits, s: GateState) -> bool {
    &&& -(l.max_position as int) <= s.net_position <= l.max_position as int
    &&& s.orders_sent_in_window <= l.max_orders_per_second
}

/// The breaker rejects orders: it is tripped and still cooling down.
pub open spec fn is_blocking(l: Limits, s: GateState, now: nat) -> bool {
    s.tripped && elapsed(now, s.tripped_at) < l.cooldown_secs * (NANOS_PER_SEC as nat)
}

/// The state after a trigger at `now`: the latch is set, the cooldown restarts.
pub open spec fn trip(s: GateState, now: nat) -> GateState {
    GateState { tripped: true, tripped_at: now, ..s }
}

/// Window maintenance: a window that is a second old is replaced by an
/// empty one that starts at `now`.
pub open spec fn roll_window(s: GateState, now: nat) -> GateState {
    if elapsed(now, s.window_started_at) >= NANOS_PER_SEC as nat {
        GateState { orders_sent_in_window: 0, window_started_at: now, ..s }
    } else {
        s
    }
}

/// Quantity and price are both positive.
pub open spec fn valid_order(o: Order) -> bool {
    o.qty > 0 && o.px > 0
}

/// Quantity and price are both positive.
pub open spec fn valid_fill(f: Fill) -> bool {
    f.qty > 0 && f.px > 0
}

/// Change of position that the order asks for.
pub open spec fn position_delta(o: Order) -> int {
    match o.side {
        Side::Buy => o.qty as int,
        Side::Sell => -(o.qty as int),
    }
}

/// Value of the order, `qty * px`.
pub open spec fn order_value(o: Order) -> nat {
    (o.qty as nat) * (o.px as nat)
}

/// Cash flow of the fill: a buy pays `qty * px`, a sell receives it.
pub open spec fn cash_flow(f: Fill) -> int {
    match f.side {
        Side::Buy => -((f.qty as int) * (f.px as int)),
        Side::Sell => (f.qty as int) * (f.px as int),
    }
}

/// The admission decision, check by check in a fixed order.
pub open spec fn decide(l: Limits, s: GateState, o: Order, now: nat) -> Admission {
    let w = roll_window(s, now);
    let p = w.net_position + position_delta(o);
    if !valid_order(o) {
        Admission::InvalidInput
    } else if is_blocking(l, s, now) {
        Admission::CircuitBreakerActive
    } else if w.orders_sent_in_window >= l.max_orders_per_second {
        Admission::RateLimitExceeded
    } else if p > l.max_position as int || p < -(l.max_position as int) {
        Admission::PositionLimitExceeded
    } else if order_value(o) > l.max_order_value {
        Admission::OrderValueExceeded
    } else {
        Admission::Accepted
    }
}

/// The state after an admission request. An invalid order and a blocking
/// breaker leave it untouched; every other outcome keeps the window
/// maintenance; only acceptance moves the position and the counter.
pub open spec fn after_allow(l: Limits, s: GateState, o: Order, now: nat) -> GateState {
    let w = roll_window(s, now);
    match decide(l, s, o, now) {
        Admission::InvalidInput | Admission::CircuitBreakerActive => s,
        Admission::Accepted => GateState {
            net_position: w.net_position + position_delta(o),
            orders_sent_in_window: w.orders_sent_in_window + 1,
            ..w
        },
        _ => w,
    }
}

/// The cumulative cash flow is below the tolerated loss. The boundary is
/// strict: a loss equal to the limit is tolerated.
pub open spec fn drawdown_breached(l: Limits, pnl: int) -> bool {
    pnl < -(l.max_drawdown as int)
}

/// The state after a valid fill is booked at `now`.
pub open spec fn after_fill(l: Limits, s: GateState, f: Fill, now: nat) -> GateState {
    let booked = GateState { realized_pnl: s.realized_pnl + cash_flow(f), ..s };
    if drawdown_breached(l, booked.realized_pnl) {
        trip(booked, now)
    } else {
        booked
    }
}

/// Twice the mid-price of a quote.
pub open spec fn mid_twice(q: Quote) -> nat {
    (q.bid as nat) + (q.ask as nat)
}

/// The mid-price moved by at least `pct` percent of the reference:
/// `|mid - reference| / reference * 100 >= pct`, with both prices doubled
/// and the division multiplied out. Away from a reference of zero every
/// move is unbounded; from zero to zero there is none.
pub open spec fn price_move_trips(reference_twice: nat, mid_twice: nat, pct: nat) -> bool {
    let moved = if mid_twice >= reference_twice {
        mid_twice - reference_twice
    } else {
        reference_twice - mid_twice
    };
    if reference_twice == 0 {
        mid_twice > 0
    } else {
        moved * 100 >= pct * reference_twice
    }
}

/// The state after a quote at `now`: the breaker trips on a large move, and
/// the quote's mid-price becomes the reference in either case.
pub open spec fn after_quote(l: Limits, s: GateState, q: Quote, now: nat) -> GateState {
    let seen = GateState { reference_twice: mid_twice(q), ..s };
    if price_move_trips(s.reference_twice, mid_twice(q), l.price_change_trip_pct) {
        trip(seen, now)
    } else {
        seen
    }
}

} // verus!
