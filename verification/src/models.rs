//! Market events exchanged between the strategy, the risk gate and the venue.
//!
//! Prices are whole multiples of the minimum price increment and quantities
//! are whole lots, so the value of an order (`qty * px`) is an exact integer.
//! Timestamps are nanoseconds on a monotonic clock chosen by the caller.

use vstd::prelude::*;

verus! {

/// Direction of an order or a fill.
#[derive(Clone, Copy, Debug, PartialEq, Eq, Structural)]
pub enum Side {
    Buy,
    Sell,
}

/// Best bid and ask at one instant.
#[derive(Clone, Copy, Debug, PartialEq, Eq, Structural)]
pub struct Quote {
    pub bid: u64,
    pub ask: u64,
    pub ts: u64,
}

/// An order proposed by the strategy and not yet admitted.
#[derive(Clone, Copy, Debug, PartialEq, Eq, Structural)]
pub struct Order {
    pub side: Side,
    pub qty: u64,
    pub px: u64,
}

/// A confirmed execution reported by the venue.
#[derive(Clone, Copy, Debug, PartialEq, Eq, Structural)]
pub struct Fill {
    pub side: Side,
    pub qty: u64,
    pub px: u64,
    pub ts: u64,
}

} // verus!
