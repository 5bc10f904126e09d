//! Plain values handed between the planning and the execution of a trade.

use vstd::prelude::*;

verus! {

/// A chain by name and numeric identifier.
#[derive(Clone, Debug)]
pub struct ChainRef {
    pub name: String,
    pub id: u64,
}

/// The route by which a trade reaches the chain.
#[derive(Clone, Copy, Debug, PartialEq, Eq, Structural)]
pub enum ExecMode {
    Mempool,
    Private,
    Bundle,
}

/// Ceilings on the fees of a transaction, in gwei.
#[derive(Clone, Copy, Debug, PartialEq, Eq, Structural)]
pub struct GasPolicy {
    pub max_fee_gwei: u64,
    pub max_priority_gwei: u64,
}

/// Exit thresholds of a position, in whole percent.
#[derive(Clone, Copy, Debug, PartialEq, Eq)]
pub struct ExitRules {
    pub take_profit_pct: Option<u64>,
    pub stop_loss_pct: Option<u64>,
    pub trailing_pct: Option<u64>,
}

/// A trade ready to be submitted.
#[derive(Clone, Debug)]
pub struct TradePlan {
    pub chain: ChainRef,
    pub router: String,
    pub token_in: String,
    pub token_out: String,
    pub amount_in: u128,
    pub min_out: u128,
    pub mode: ExecMode,
    pub gas: GasPolicy,
    pub exits: ExitRules,
    pub idem_key: String,
}

/// What a venue reports of a submitted trade.
#[derive(Clone, Debug)]
pub struct ExecReceipt {
    pub tx_hash: String,
    pub success: bool,
    pub block: u64,
    pub gas_used: u64,
    pub fees_paid_wei: u128,
    pub failure_reason: Option<String>,
}

/// Why a venue did not take a trade.
#[derive(Clone, Copy, Debug, PartialEq, Eq, Structural)]
pub enum ExecError {
    /// No healthy executor instance is available.
    NoHealthyInstance,
}

/// Handle on the services shared by every component. It holds none yet.
pub struct Core {}

impl Core {
    /// A handle with no service attached.
    pub fn new() -> (r: Self)
        ensures
            r == (Core {  }),
    {
        Core {  }
    }
}

} // verus!
