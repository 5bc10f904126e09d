//! What holds of a risk gate along every history of events.

use vstd::prelude::*;
use crate::gate_model::{
    after_allow, after_fill, after_quote, cash_flow, decide, drawdown_breached, elapsed,
    gate_invariant, is_blocking, position_delta, price_move_trips, roll_window, trip, valid_fill,
    valid_order, Admission, GateState, Limits, NANOS_PER_SEC,
};
use crate::models::{Fill, Order, Quote};

verus! {

/// One call of the event loop into a risk gate, with the time of the call.
pub enum Event {
    Quote { quote: Quote, now: nat },
    Order { order: Order, now: nat },
    Fill { fill: Fill, now: nat },
}

/// The state after one event. A fill that is not valid is not booked.
pub open spec fn step(l: Limits, s: GateState, e: Event) -> GateState {
    match e {
        Event::Quote { quote, now } => after_quote(l, s, quote, now),
        Event::Order { order, now } => after_allow(l, s, order, now),
        Event::Fill { fill, now } => if valid_fill(fill) {
            after_fill(l, s, fill, now)
        } else {
            s
        },
    }
}

/// The state after a history of events, oldest first.
pub open spec fn run(l: Limits, s: GateState, events: Seq<Event>) -> GateState
    decreases events.len(),
{
    if events.len() == 0 {
        s
    } else {
        step(l, run(l, s, events.drop_last()), events.last())
    }
}

/// The event is an order that arrives while the breaker tripped at
/// `tripped_at` is still cooling down.
pub open spec fn order_in_cooldown(l: Limits, tripped_at: nat, e: Event) -> bool {
    match e {
        Event::Order { order, now } => {
            elapsed(now, tripped_at) < l.cooldown_secs * (NANOS_PER_SEC as nat)
        },
        _ => false,
    }
}

/// An accepted order leaves the position within the position limit and the
/// window's counter within the rate limit, whatever the state before.
pub proof fn theorem_accepted_order_within_limits(l: Limits, s: GateState, o: Order, now: nat)
    requires
        decide(l, s, o, now) == Admission::Accepted,
    ensures
        -(l.max_position as int) <= after_allow(l, s, o, now).net_position <= l.max_position as int,
        after_allow(l, s, o, now).orders_sent_in_window <= l.max_orders_per_second,
{
}

/// No single event takes a risk gate out of its limits.
pub proof fn theorem_step_keeps_limits(l: Limits, s: GateState, e: Event)
    requires
        gate_invariant(l, s),
    ensures
        gate_invariant(l, step(l, s, e)),
{
}

/// Along every history the position stays within the position limit and the
/// window's counter within the rate limit.
pub proof fn theorem_limits_hold_along_run(l: Limits, s: GateState, events: Seq<Event>)
    requires
        gate_invariant(l, s),
    ensures
        gate_invariant(l, run(l, s, events)),
    decreases events.len(),
{
    if events.len() > 0 {
        theorem_limits_hold_along_run(l, s, events.drop_last());
        theorem_step_keeps_limits(l, run(l, s, events.drop_last()), events.last());
    }
}

/// A rejected order moves neither the position nor the cash flow nor the
/// breaker; at most the window is renewed.
pub proof fn theorem_rejection_changes_only_the_window(l: Limits, s: GateState, o: Order, now: nat)
    requires
        decide(l, s, o, now) != Admission::Accepted,
    ensures
        after_allow(l, s, o, now) == s || after_allow(l, s, o, now) == roll_window(s, now),
        after_allow(l, s, o, now).net_position == s.net_position,
        after_allow(l, s, o, now).realized_pnl == s.realized_pnl,
        after_allow(l, s, o, now).reference_twice == s.reference_twice,
        after_allow(l, s, o, now).tripped == s.tripped,
        after_allow(l, s, o, now).tripped_at == s.tripped_at,
{
}

/// An order rejected for its rate, position or value is rejected for the
/// same reason when it is submitted again later in the same window, and the
/// second call changes nothing.
pub proof fn theorem_rejection_repeats(l: Limits, s: GateState, o: Order, first: nat, second: nat)
    requires
        first <= second,
        decide(l, s, o, first) == Admission::RateLimitExceeded || decide(l, s, o, first)
            == Admission::PositionLimitExceeded || decide(l, s, o, first)
            == Admission::OrderValueExceeded,
        elapsed(second, after_allow(l, s, o, first).window_started_at) < NANOS_PER_SEC as nat,
    ensures
        decide(l, after_allow(l, s, o, first), o, second) == decide(l, s, o, first),
        after_allow(l, after_allow(l, s, o, first), o, second) == after_allow(l, s, o, first),
{
}

/// While a tripped breaker cools down no order is accepted, and the request
/// leaves the state as it was.
pub proof fn theorem_breaker_blocks_during_cooldown(l: Limits, s: GateState, o: Order, now: nat)
    requires
        s.tripped,
        elapsed(now, s.tripped_at) < l.cooldown_secs * (NANOS_PER_SEC as nat),
    ensures
        is_blocking(l, s, now),
        decide(l, s, o, now) != Admission::Accepted,
        after_allow(l, s, o, now) == s,
{
}

/// However many orders arrive during the cooldown of a tripped breaker, the
/// state stays as it was, so each of them is rejected like the first.
pub proof fn theorem_orders_bounce_during_cooldown(l: Limits, s: GateState, events: Seq<Event>)
    requires
        s.tripped,
        forall|i: int| 0 <= i < events.len() ==> order_in_cooldown(l, s.tripped_at, #[trigger] events[i]),
    ensures
        run(l, s, events) == s,
    decreases events.len(),
{
    if events.len() > 0 {
        let earlier = events.drop_last();
        assert forall|i: int| 0 <= i < earlier.len() implies order_in_cooldown(
            l,
            s.tripped_at,
            #[trigger] earlier[i],
        ) by {
            assert(earlier[i] == events[i]);
        }
        theorem_orders_bounce_during_cooldown(l, s, earlier);
        assert(order_in_cooldown(l, s.tripped_at, events[events.len() - 1]));
    }
}

/// Once the cooldown has run out, the breaker no longer blocks, though the
/// latch stays set.
pub proof fn theorem_cooldown_expires(l: Limits, s: GateState, now: nat)
    requires
        elapsed(now, s.tripped_at) >= l.cooldown_secs * (NANOS_PER_SEC as nat),
    ensures
        !is_blocking(l, s, now),
{
}

/// The latch is never cleared: no event resets a tripped breaker.
pub proof fn theorem_latch_survives_step(l: Limits, s: GateState, e: Event)
    requires
        s.tripped,
    ensures
        step(l, s, e).tripped,
{
}

/// The latch is never cleared along any history.
pub proof fn theorem_latch_survives_run(l: Limits, s: GateState, events: Seq<Event>)
    requires
        s.tripped,
    ensures
        run(l, s, events).tripped,
    decreases events.len(),
{
    if events.len() > 0 {
        theorem_latch_survives_run(l, s, events.drop_last());
        theorem_latch_survives_step(l, run(l, s, events.drop_last()), events.last());
    }
}

/// A fill trips the breaker exactly when it takes the cumulative cash flow
/// strictly below the tolerated loss; the trip is stamped with the time of
/// the fill. A loss equal to the limit does not trip it.
pub proof fn theorem_drawdown_boundary(l: Limits, s: GateState, f: Fill, now: nat)
    ensures
        after_fill(l, s, f, now).realized_pnl == s.realized_pnl + cash_flow(f),
        s.realized_pnl + cash_flow(f) < -(l.max_drawdown as int) ==> after_fill(l, s, f, now).tripped
            && after_fill(l, s, f, now).tripped_at == now,
        s.realized_pnl + cash_flow(f) >= -(l.max_drawdown as int) ==> after_fill(l, s, f, now).tripped
            == s.tripped && after_fill(l, s, f, now).tripped_at == s.tripped_at,
        s.realized_pnl + cash_flow(f) == -(l.max_drawdown as int) ==> !drawdown_breached(
            l,
            after_fill(l, s, f, now).realized_pnl,
        ),
{
}

/// A quote always becomes the new reference, whether or not it trips the
/// breaker and whether or not the breaker was tripped before.
pub proof fn theorem_quote_always_updates_reference(l: Limits, s: GateState, q: Quote, now: nat)
    ensures
        after_quote(l, s, q, now).reference_twice == (q.bid as nat) + (q.ask as nat),
        after_quote(l, s, q, now).net_position == s.net_position,
        after_quote(l, s, q, now).realized_pnl == s.realized_pnl,
        s.tripped ==> after_quote(l, s, q, now).tripped,
{
}

/// The three phases of the circuit breaker.
pub enum BreakerPhase {
    /// Never tripped.
    Closed,
    /// Tripped, and the cooldown is running: orders are rejected.
    OpenCooling,
    /// Tripped, and the cooldown has run out: orders pass, the latch stays set.
    OpenExpired,
}

/// The phase of the breaker at time `now`.
pub open spec fn breaker_phase(l: Limits, s: GateState, now: nat) -> BreakerPhase {
    if !s.tripped {
        BreakerPhase::Closed
    } else if is_blocking(l, s, now) {
        BreakerPhase::OpenCooling
    } else {
        BreakerPhase::OpenExpired
    }
}

/// Orders are rejected by the breaker in exactly one phase.
pub proof fn theorem_only_cooling_blocks(l: Limits, s: GateState, now: nat)
    ensures
        is_blocking(l, s, now) <==> breaker_phase(l, s, now) == BreakerPhase::OpenCooling,
{
}

/// No event takes the breaker back to the closed phase, at whatever time
/// the phase is read afterwards.
pub proof fn theorem_no_way_back_to_closed(l: Limits, s: GateState, e: Event, later: nat)
    requires
        breaker_phase(l, s, later) != BreakerPhase::Closed,
    ensures
        breaker_phase(l, step(l, s, e), later) != BreakerPhase::Closed,
{
}

/// A trigger at `now` opens the breaker from any phase and restarts the
/// cooldown: with a positive cooldown the breaker is cooling at `now`, and it
/// has expired once the cooldown has passed since `now`.
pub proof fn theorem_trigger_restarts_cooldown(l: Limits, s: GateState, now: nat, later: nat)
    ensures
        trip(s, now).tripped,
        trip(s, now).tripped_at == now,
        l.cooldown_secs > 0 ==> breaker_phase(l, trip(s, now), now) == BreakerPhase::OpenCooling,
        later >= now + l.cooldown_secs * (NANOS_PER_SEC as nat) ==> breaker_phase(
            l,
            trip(s, now),
            later,
        ) == BreakerPhase::OpenExpired,
{
    assert(l.cooldown_secs > 0 ==> l.cooldown_secs * (NANOS_PER_SEC as nat) > 0) by (nonlinear_arith);
}

/// A cooling breaker expires by the passing of time alone, and an expired
/// one stays expired until the next trigger.
pub proof fn theorem_cooldown_only_runs_forward(l: Limits, s: GateState, now: nat, later: nat)
    requires
        now <= later,
        breaker_phase(l, s, now) == BreakerPhase::OpenExpired,
    ensures
        breaker_phase(l, s, later) == BreakerPhase::OpenExpired,
{
}

/// The breaker's state changes only by a trigger: a quote whose mid-price
/// moved far enough, or a fill that breaches the drawdown. Orders never
/// touch it.
pub proof fn theorem_breaker_moves_only_on_triggers(l: Limits, s: GateState, e: Event)
    ensures
        match e {
            Event::Order { order, now } => step(l, s, e).tripped == s.tripped && step(
                l,
                s,
                e,
            ).tripped_at == s.tripped_at,
            Event::Quote { quote, now } => if price_move_trips(
                s.reference_twice,
                (quote.bid as nat) + (quote.ask as nat),
                l.price_change_trip_pct,
            ) {
                step(l, s, e).tripped && step(l, s, e).tripped_at == now
            } else {
                step(l, s, e).tripped == s.tripped && step(l, s, e).tripped_at == s.tripped_at
            },
            Event::Fill { fill, now } => if valid_fill(fill) && drawdown_breached(
                l,
                s.realized_pnl + cash_flow(fill),
            ) {
                step(l, s, e).tripped && step(l, s, e).tripped_at == now
            } else {
                step(l, s, e).tripped == s.tripped && step(l, s, e).tripped_at == s.tripped_at
            },
        },
{
}

/// The window's bookkeeping for an order that is valid and not stopped by
/// the breaker: the counter restarts from zero exactly when the window is a
/// second old, the window then starts at the time of the call, and the
/// counter grows by one exactly on acceptance.
pub proof fn theorem_window_bookkeeping(l: Limits, s: GateState, o: Order, now: nat)
    requires
        valid_order(o),
        !is_blocking(l, s, now),
    ensures
        ({
            let after = after_allow(l, s, o, now);
            let renewed = elapsed(now, s.window_started_at) >= NANOS_PER_SEC as nat;
            let base = if renewed { 0 } else { s.orders_sent_in_window };
            let accepted: nat = if decide(l, s, o, now) == Admission::Accepted { 1 } else { 0 };
            &&& after.orders_sent_in_window == base + accepted
            &&& after.window_started_at == if renewed { now } else { s.window_started_at }
        }),
{
}

/// Position, cash flow and window each move by one kind of event only:
/// the position by accepted orders, the cash flow by booked fills, the
/// window by orders. The cash flow is never set back.
pub proof fn theorem_each_quantity_has_one_source(l: Limits, s: GateState, e: Event)
    ensures
        match e {
            Event::Order { order, now } => {
                &&& step(l, s, e).realized_pnl == s.realized_pnl
                &&& step(l, s, e).reference_twice == s.reference_twice
                &&& step(l, s, e).net_position == if decide(l, s, order, now)
                    == Admission::Accepted {
                    s.net_position + position_delta(order)
                } else {
                    s.net_position
                }
            },
            Event::Quote { quote, now } => {
                &&& step(l, s, e).realized_pnl == s.realized_pnl
                &&& step(l, s, e).net_position == s.net_position
                &&& step(l, s, e).orders_sent_in_window == s.orders_sent_in_window
                &&& step(l, s, e).window_started_at == s.window_started_at
            },
            Event::Fill { fill, now } => {
                &&& step(l, s, e).realized_pnl == if valid_fill(fill) {
                    s.realized_pnl + cash_flow(fill)
                } else {
                    s.realized_pnl
                }
                &&& step(l, s, e).net_position == s.net_position
                &&& step(l, s, e).reference_twice == s.reference_twice
                &&& step(l, s, e).orders_sent_in_window == s.orders_sent_in_window
                &&& step(l, s, e).window_started_at == s.window_started_at
            },
        },
{
}

} // verus!
