//! The basic gate: a position limit and a fixed-window rate limit, with no
//! circuit breaker and no cash-flow tracking.

use vstd::prelude::*;
use crate::config::Cfg;
use crate::gate_model::{elapsed, position_delta, valid_order, NANOS_PER_SEC};
use crate::models::{Order, Side};

verus! {

/// The state of a basic gate.
pub struct RiskState {
    pub net_position: int,
    pub orders_sent_in_window: nat,
    pub window_started_at: nat,
}

/// Window maintenance: a window that is a second old is replaced by an
/// empty one that starts at `now`.
pub open spec fn renew_window(s: RiskState, now: nat) -> RiskState {
    if elapsed(now, s.window_started_at) >= NANOS_PER_SEC as nat {
        RiskState { orders_sent_in_window: 0, window_started_at: now, ..s }
    } else {
        s
    }
}

/// The order is valid, the renewed window has room, and the position after
/// the order stays within the limit.
pub open spec fn basic_accepts(max_pos: nat, max_orders: nat, s: RiskState, o: Order, now: nat) -> bool {
    let w = renew_window(s, now);
    &&& valid_order(o)
    &&& w.orders_sent_in_window < max_orders
    &&& -(max_pos as int) <= w.net_position + position_delta(o) <= max_pos as int
}

/// The state after a request: an invalid order changes nothing; otherwise
/// the window is renewed, and acceptance moves the position and the counter.
pub open spec fn after_basic_allow(max_pos: nat, max_orders: nat, s: RiskState, o: Order, now: nat) -> RiskState {
    let w = renew_window(s, now);
    if !valid_order(o) {
        s
    } else if basic_accepts(max_pos, max_orders, s, o, now) {
        RiskState {
            net_position: w.net_position + position_delta(o),
            orders_sent_in_window: w.orders_sent_in_window + 1,
            ..w
        }
    } else {
        w
    }
}

/// Position and rate gate.
pub struct Risk {
    max_pos: u64,
    max_orders: usize,
    sent_this_sec: usize,
    last_sec: u64,
    pos: i128,
}

impl View for Risk {
    type V = RiskState;

    closed spec fn view(&self) -> RiskState {
        RiskState {
            net_position: self.pos as int,
            orders_sent_in_window: self.sent_this_sec as nat,
            window_started_at: self.last_sec as nat,
        }
    }
}

impl Risk {
    /// The position limit, in lots.
    pub closed spec fn max_position(&self) -> nat {
        self.max_pos as nat
    }

    /// The number of orders admitted per window.
    pub closed spec fn max_orders_per_second(&self) -> nat {
        self.max_orders as nat
    }

    /// The position is within its limit and the counter within the rate.
    pub open spec fn wf(&self) -> bool {
        &&& -(self.max_position() as int) <= self@.net_position <= self.max_position() as int
        &&& self@.orders_sent_in_window <= self.max_orders_per_second()
    }

    /// A flat gate with the limits of `cfg`, its window starting at `now`.
    pub fn new(cfg: &Cfg, now: u64) -> (r: Self)
        ensures
            r.wf(),
            r.max_position() == cfg.max_pos,
            r.max_orders_per_second() == cfg.max_orders_s,
            r@ == (RiskState {
                net_position: 0,
                orders_sent_in_window: 0,
                window_started_at: now as nat,
            }),
    {
        Risk { max_pos: cfg.max_pos, max_orders: cfg.max_orders_s, sent_this_sec: 0, last_sec: now, pos: 0 }
    }

    /// Decides on an order at time `now`; acceptance moves the position and
    /// counts the order against the window.
    pub fn allow(&mut self, o: &Order, now: u64) -> (r: bool)
        requires
            old(self).wf(),
        ensures
            final(self).wf(),
            final(self).max_position() == old(self).max_position(),
            final(self).max_orders_per_second() == old(self).max_orders_per_second(),
            r == basic_accepts(
                old(self).max_position(),
                old(self).max_orders_per_second(),
                old(self)@,
                *o,
                now as nat,
            ),
            final(self)@ == after_basic_allow(
                old(self).max_position(),
                old(self).max_orders_per_second(),
                old(self)@,
                *o,
                now as nat,
            ),
    {
        if o.qty == 0 || o.px == 0 {
            return false;
        }
        let since: u64 = if now >= self.last_sec {
            now - self.last_sec
        } else {
            0
        };
        if since >= NANOS_PER_SEC {
            self.last_sec = now;
            self.sent_this_sec = 0;
        }
        if self.sent_this_sec >= self.max_orders {
            return false;
        }
        let delta: i128 = match o.side {
            Side::Buy => o.qty as i128,
            Side::Sell => -(o.qty as i128),
        };
        let p: i128 = self.pos + delta;
        let limit: i128 = self.max_pos as i128;
        if p > limit || p < -limit {
            return false;
        }
        self.pos = p;
        self.sent_this_sec = self.sent_this_sec + 1;
        true
    }

    /// Current net position, in lots.
    pub fn position(&self) -> (r: i128)
        ensures
            r == self@.net_position,
    {
        self.pos
    }
}

} // verus!
