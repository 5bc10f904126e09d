//! Limits and parameters of one trading context.
//!
//! Prices are counted in hundredths of a currency unit and quantities in
//! whole lots; an order value or a cash amount is a product of the two.

use vstd::prelude::*;

verus! {

/// Configuration snapshot handed to a risk gate when it is built.
#[derive(Clone, Debug)]
pub struct Cfg {
    pub symbol: String,
    pub tick_ms: u64,
    /// Minimum price increment, in price units.
    pub tick_sz: u64,
    /// Largest absolute net position, in lots.
    pub max_pos: u64,
    /// Orders admitted per one-second window.
    pub max_orders_s: usize,
    /// Largest tolerated cumulative loss, a positive magnitude.
    pub max_drawdown: u64,
    /// Ceiling on `qty * px` of a single order.
    pub max_order_value: u64,
    /// Mid-price change between two quotes, in percent, that trips the breaker.
    pub circuit_breaker_pct: u64,
    /// Seconds for which a tripped breaker blocks admission.
    pub circuit_breaker_duration: u64,
}

impl Default for Cfg {
    fn default() -> (r: Self)
        ensures
            r.symbol@ == "XYZ"@,
            r.tick_ms == 1,
            r.tick_sz == 1,
            r.max_pos == 10_000,
            r.max_orders_s == 50_000,
            r.max_drawdown == 100_000,
            r.max_order_value == 10_000_000,
            r.circuit_breaker_pct == 5,
            r.circuit_breaker_duration == 60,
    {
        Cfg {
            symbol: "XYZ".to_owned(),
            tick_ms: 1,
            tick_sz: 1,
            max_pos: 10_000,
            max_orders_s: 50_000,
            max_drawdown: 100_000,
            max_order_value: 10_000_000,
            circuit_breaker_pct: 5,
            circuit_breaker_duration: 60,
        }
    }
}

} // verus!
