//! A minimal strategy: it crosses the spread on every 256th quote.

use vstd::prelude::*;
use crate::config::Cfg;
use crate::models::{Fill, Order, Quote, Side};
use crate::monitoring::next_count;

verus! {

/// Quotes between two orders.
pub const CROSS_EVERY: u64 = 256;

/// Lots bought by each order.
pub const CROSS_QTY: u64 = 100;

/// Strategy state: the configuration and the number of quotes seen.
pub struct Logic {
    cfg: Cfg,
    ctr: u64,
}

impl Logic {
    /// Number of quotes seen so far; it wraps at the top of its range.
    pub closed spec fn quotes_seen(&self) -> nat {
        self.ctr as nat
    }

    /// A strategy that holds `cfg` and has seen no quote.
    pub fn new(cfg: Cfg) -> (r: Self)
        ensures
            r.config() == cfg,
            r.quotes_seen() == 0,
    {
        Logic { cfg, ctr: 0 }
    }

    /// Counts the quote and, on every 256th, proposes to buy 100 lots at the ask.
    pub fn on_quote(&mut self, q: &Quote) -> (r: Option<Order>)
        ensures
            final(self).config() == old(self).config(),
            final(self).quotes_seen() == next_count(old(self).quotes_seen()),
            final(self).quotes_seen() % (CROSS_EVERY as nat) == 0 ==> r == Some(
                Order { side: Side::Buy, qty: CROSS_QTY, px: q.ask },
            ),
            final(self).quotes_seen() % (CROSS_EVERY as nat) != 0 ==> r is None,
    {
        self.ctr = if self.ctr == u64::MAX {
            0
        } else {
            self.ctr + 1
        };
        if self.ctr % CROSS_EVERY == 0 {
            Some(Order { side: Side::Buy, qty: CROSS_QTY, px: q.ask })
        } else {
            None
        }
    }

    /// Takes note of a fill. This strategy keeps no inventory, so nothing changes.
    pub fn on_fill(&mut self, _f: &Fill)
        ensures
            final(self).config() == old(self).config(),
            final(self).quotes_seen() == old(self).quotes_seen(),
    {
    }

    /// The configuration that the strategy was built with.
    pub closed spec fn config(&self) -> Cfg {
        self.cfg
    }
}

} // verus!
