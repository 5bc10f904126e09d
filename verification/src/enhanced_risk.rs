//! The executable risk gate.
//!
//! One gate protects one trading context. The owning event loop calls
//! `on_quote`, `allow` and `on_fill` in turn and passes the current time with
//! each call; a gate keeps no clock and no background task of its own.

use vstd::prelude::*;
use crate::config::Cfg;
use crate::gate_model::{
    after_allow, after_fill, after_quote, cash_flow, decide, drawdown_breached, elapsed,
    gate_invariant, initial_state, is_blocking, mid_twice, order_value, position_delta,
    price_move_trips, roll_window, trip, valid_fill, valid_order, Admission, FillError,
    GateState, Limits, DEFAULT_REFERENCE_PRICE, NANOS_PER_SEC,
};
use crate::models::{Fill, Order, Quote, Side};

verus! {

/// Pre-trade risk gate with position, rate, order-value and drawdown limits
/// and a latching circuit breaker.
pub struct EnhancedRisk {
    max_pos: u64,
    max_orders: usize,
    sent_this_sec: usize,
    last_sec: u64,
    pos: i128,
    max_drawdown: u64,
    max_order_value: u64,
    circuit_breaker_pct: u64,
    circuit_breaker_duration: u64,
    last_price_twice: u128,
    circuit_breaker_active: bool,
    circuit_breaker_end: u64,
    pnl: i128,
}

/// The product of two 64-bit values fits in 128 bits.
pub proof fn lemma_product_fits(a: u64, b: u64)
    ensures
        (a as nat) * (b as nat) <= u128::MAX,
        (a as int) * (b as int) == (a as nat) * (b as nat),
{
    assert((a as nat) * (b as nat) <= 0xFFFF_FFFF_FFFF_FFFF * 0xFFFF_FFFF_FFFF_FFFF)
        by (nonlinear_arith)
        requires
            a <= 0xFFFF_FFFF_FFFF_FFFF,
            b <= 0xFFFF_FFFF_FFFF_FFFF,
    ;
}

impl View for EnhancedRisk {
    type V = GateState;

    closed spec fn view(&self) -> GateState {
        GateState {
            net_position: self.pos as int,
            orders_sent_in_window: self.sent_this_sec as nat,
            window_started_at: self.last_sec as nat,
            realized_pnl: self.pnl as int,
            reference_twice: self.last_price_twice as nat,
            tripped: self.circuit_breaker_active,
            tripped_at: self.circuit_breaker_end as nat,
        }
    }
}

impl EnhancedRisk {
    /// The limits that this gate was built with.
    pub closed spec fn limits(&self) -> Limits {
        Limits {
            max_position: self.max_pos as nat,
            max_orders_per_second: self.max_orders as nat,
            max_drawdown: self.max_drawdown as nat,
            max_order_value: self.max_order_value as nat,
            price_change_trip_pct: self.circuit_breaker_pct as nat,
            cooldown_secs: self.circuit_breaker_duration as nat,
        }
    }

    /// The limits that a configuration describes.
    pub open spec fn limits_of(cfg: Cfg) -> Limits {
        Limits {
            max_position: cfg.max_pos as nat,
            max_orders_per_second: cfg.max_orders_s as nat,
            max_drawdown: cfg.max_drawdown as nat,
            max_order_value: cfg.max_order_value as nat,
            price_change_trip_pct: cfg.circuit_breaker_pct as nat,
            cooldown_secs: cfg.circuit_breaker_duration as nat,
        }
    }

    /// The state is within the limits, and the reference is the sum of two prices.
    pub open spec fn wf(&self) -> bool {
        &&& gate_invariant(self.limits(), self@)
        &&& self@.reference_twice <= 2 * (u64::MAX as nat)
    }

    /// A gate with the limits of `cfg`, flat, untripped, its window starting at `now`.
    pub fn new(cfg: &Cfg, now: u64) -> (r: Self)
        ensures
            r.wf(),
            r.limits() == Self::limits_of(*cfg),
            r@ == initial_state(now as nat),
    {
        EnhancedRisk {
            max_pos: cfg.max_pos,
            max_orders: cfg.max_orders_s,
            sent_this_sec: 0,
            last_sec: now,
            pos: 0,
            max_drawdown: cfg.max_drawdown,
            max_order_value: cfg.max_order_value,
            circuit_breaker_pct: cfg.circuit_breaker_pct,
            circuit_breaker_duration: cfg.circuit_breaker_duration,
            last_price_twice: 2 * (DEFAULT_REFERENCE_PRICE as u128),
            circuit_breaker_active: false,
            circuit_breaker_end: now,
            pnl: 0,
        }
    }

    /// Decides on an order at time `now` and says why it was turned away.
    ///
    /// The checks run in a fixed order and stop at the first that fails:
    /// validity, circuit breaker, window maintenance and rate, position,
    /// order value. Only acceptance moves the position and the counter.
    pub fn evaluate(&mut self, o: &Order, now: u64) -> (r: Admission)
        requires
            old(self).wf(),
        ensures
            final(self).wf(),
            final(self).limits() == old(self).limits(),
            r == decide(old(self).limits(), old(self)@, *o, now as nat),
            final(self)@ == after_allow(old(self).limits(), old(self)@, *o, now as nat),
    {
        if o.qty == 0 || o.px == 0 {
            return Admission::InvalidInput;
        }
        if self.is_circuit_breaker_active(now) {
            return Admission::CircuitBreakerActive;
        }
        self.reset_rate_limit(now);
        if !self.check_rate_limit() {
            return Admission::RateLimitExceeded;
        }
        if !self.check_position_limit(o) {
            return Admission::PositionLimitExceeded;
        }
        if !self.check_order_value(o) {
            return Admission::OrderValueExceeded;
        }
        let delta: i128 = match o.side {
            Side::Buy => o.qty as i128,
            Side::Sell => -(o.qty as i128),
        };
        self.pos = self.pos + delta;
        self.sent_this_sec = self.sent_this_sec + 1;
        Admission::Accepted
    }

    /// Admission as a plain yes or no: `true` exactly when `evaluate` accepts.
    pub fn allow(&mut self, o: &Order, now: u64) -> (r: bool)
        requires
            old(self).wf(),
        ensures
            final(self).wf(),
            final(self).limits() == old(self).limits(),
            r == (decide(old(self).limits(), old(self)@, *o, now as nat) == Admission::Accepted),
            final(self)@ == after_allow(old(self).limits(), old(self)@, *o, now as nat),
            r ==> final(self)@.net_position == old(self)@.net_position + position_delta(*o),
            !r ==> final(self)@.net_position == old(self)@.net_position,
            old(self)@.tripped ==> final(self)@.tripped,
    {
        match self.evaluate(o, now) {
            Admission::Accepted => true,
            _ => false,
        }
    }

    /// The breaker is tripped and its cooldown has not yet run out at `now`.
    pub fn is_circuit_breaker_active(&self, now: u64) -> (r: bool)
        ensures
            r == is_blocking(self.limits(), self@, now as nat),
    {
        let since: u64 = if now >= self.circuit_breaker_end {
            now - self.circuit_breaker_end
        } else {
            0
        };
        proof {
            lemma_product_fits(self.circuit_breaker_duration, NANOS_PER_SEC);
        }
        let cooldown: u128 = (self.circuit_breaker_duration as u128) * (NANOS_PER_SEC as u128);
        self.circuit_breaker_active && (since as u128) < cooldown
    }

    /// Window maintenance: starts an empty window at `now` once the current
    /// one is a second old.
    fn reset_rate_limit(&mut self, now: u64)
        requires
            old(self).wf(),
        ensures
            final(self).wf(),
            final(self).limits() == old(self).limits(),
            final(self)@ == roll_window(old(self)@, now as nat),
    {
        let since: u64 = if now >= self.last_sec {
            now - self.last_sec
        } else {
            0
        };
        if since >= NANOS_PER_SEC {
            self.last_sec = now;
            self.sent_this_sec = 0;
        }
    }

    /// The window has room for one more order.
    fn check_rate_limit(&self) -> (r: bool)
        ensures
            r == (self@.orders_sent_in_window < self.limits().max_orders_per_second),
    {
        self.sent_this_sec < self.max_orders
    }

    /// The position after the order would stay within the limit.
    fn check_position_limit(&self, o: &Order) -> (r: bool)
        requires
            self.wf(),
        ensures
            r == (-(self.limits().max_position as int) <= self@.net_position + position_delta(*o)
                <= self.limits().max_position as int),
    {
        let delta: i128 = match o.side {
            Side::Buy => o.qty as i128,
            Side::Sell => -(o.qty as i128),
        };
        let p: i128 = self.pos + delta;
        let limit: i128 = self.max_pos as i128;
        -limit <= p && p <= limit
    }

    /// The order's value is within the ceiling.
    fn check_order_value(&self, o: &Order) -> (r: bool)
        ensures
            r == (order_value(*o) <= self.limits().max_order_value),
    {
        proof {
            lemma_product_fits(o.qty, o.px);
        }
        let value: u128 = (o.qty as u128) * (o.px as u128);
        value <= self.max_order_value as u128
    }

    /// The cumulative cash flow is within the tolerated loss.
    fn check_drawdown(&self) -> (r: bool)
        ensures
            r == !drawdown_breached(self.limits(), self@.realized_pnl),
    {
        self.pnl >= -(self.max_drawdown as i128)
    }

    /// Sets the latch and restarts the cooldown at `now`.
    fn activate_circuit_breaker(&mut self, now: u64)
        requires
            old(self).wf(),
        ensures
            final(self).wf(),
            final(self).limits() == old(self).limits(),
            final(self)@ == trip(old(self)@, now as nat),
    {
        self.circuit_breaker_active = true;
        self.circuit_breaker_end = now;
    }

    /// Books a fill at time `now` and trips the breaker when the cumulative
    /// cash flow falls below the tolerated loss.
    ///
    /// A fill with a zero quantity or price is refused, and so is one that
    /// would take the cash flow out of the counter's range; a refused fill
    /// changes nothing.
    pub fn on_fill(&mut self, f: &Fill, now: u64) -> (r: Result<(), FillError>)
        requires
            old(self).wf(),
        ensures
            final(self).wf(),
            final(self).limits() == old(self).limits(),
            r == Self::fill_outcome(old(self)@, *f),
            r.is_ok() ==> final(self)@ == after_fill(old(self).limits(), old(self)@, *f, now as nat),
            r.is_err() ==> final(self)@ == old(self)@,
            r.is_ok() ==> final(self)@.realized_pnl == old(self)@.realized_pnl + cash_flow(*f),
            r.is_ok() ==> final(self)@.tripped == (old(self)@.tripped || drawdown_breached(
                old(self).limits(),
                final(self)@.realized_pnl,
            )),
            final(self)@.net_position == old(self)@.net_position,
    {
        if f.qty == 0 || f.px == 0 {
            return Err(FillError::InvalidInput);
        }
        proof {
            lemma_product_fits(f.qty, f.px);
        }
        let value: u128 = (f.qty as u128) * (f.px as u128);
        let booked: Option<i128> = match f.side {
            Side::Buy => self.pnl.checked_sub_unsigned(value),
            Side::Sell => self.pnl.checked_add_unsigned(value),
        };
        match booked {
            None => Err(FillError::Overflow),
            Some(pnl) => {
                self.pnl = pnl;
                if !self.check_drawdown() {
                    self.activate_circuit_breaker(now);
                }
                Ok(())
            },
        }
    }

    /// Whether a fill is booked in a given state, and if not, why.
    pub open spec fn fill_outcome(s: GateState, f: Fill) -> Result<(), FillError> {
        if !valid_fill(f) {
            Err(FillError::InvalidInput)
        } else if s.realized_pnl + cash_flow(f) < i128::MIN || s.realized_pnl + cash_flow(f)
            > i128::MAX {
            Err(FillError::Overflow)
        } else {
            Ok(())
        }
    }

    /// Takes in a quote at time `now`: trips the breaker when the mid-price
    /// moved by the configured percentage or more, then makes the quote's
    /// mid-price the new reference.
    pub fn on_quote(&mut self, q: &Quote, now: u64)
        requires
            old(self).wf(),
        ensures
            final(self).wf(),
            final(self).limits() == old(self).limits(),
            final(self)@ == after_quote(old(self).limits(), old(self)@, *q, now as nat),
            final(self)@.reference_twice == mid_twice(*q),
            old(self)@.tripped ==> final(self)@.tripped,
    {
        let mid: u128 = (q.bid as u128) + (q.ask as u128);
        let reference: u128 = self.last_price_twice;
        let moved: u128 = if mid >= reference {
            mid - reference
        } else {
            reference - mid
        };
        let trips: bool = if reference == 0 {
            mid > 0
        } else {
            match (self.circuit_breaker_pct as u128).checked_mul(reference) {
                Some(threshold) => moved * 100 >= threshold,
                None => false,
            }
        };
        if trips {
            self.activate_circuit_breaker(now);
        }
        self.last_price_twice = mid;
    }

    /// Current net position, in lots.
    pub fn position(&self) -> (r: i128)
        ensures
            r == self@.net_position,
    {
        self.pos
    }

    /// Cumulative cash flow of the fills booked so far.
    pub fn get_pnl(&self) -> (r: i128)
        ensures
            r == self@.realized_pnl,
    {
        self.pnl
    }

    /// The latch: whether the breaker has ever been tripped.
    pub fn is_circuit_breaker_activated(&self) -> (r: bool)
        ensures
            r == self@.tripped,
    {
        self.circuit_breaker_active
    }
}

} // verus!
