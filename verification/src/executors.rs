//! Venues for a planned trade: the public mempool, a private endpoint, and
//! bundle relays.
//!
//! No venue is connected. Each executor acknowledges every plan with the
//! same receipt, told apart from the others' by its transaction hash.

use vstd::prelude::*;
use crate::types::{ExecError, ExecReceipt, TradePlan};

verus! {

/// The receipt is the fixed acknowledgement with the given transaction hash.
pub open spec fn is_acknowledgement(receipt: ExecReceipt, tx_hash: Seq<char>) -> bool {
    &&& receipt.tx_hash@ == tx_hash
    &&& receipt.success
    &&& receipt.block == 12345678
    &&& receipt.gas_used == 100000
    &&& receipt.fees_paid_wei == 2100000000000000
    &&& receipt.failure_reason is None
}

/// The fixed acknowledgement with the given transaction hash.
pub(crate) fn acknowledge(tx_hash: &str) -> (receipt: ExecReceipt)
    ensures
        is_acknowledgement(receipt, tx_hash@),
{
    ExecReceipt {
        tx_hash: tx_hash.to_owned(),
        success: true,
        block: 12345678,
        gas_used: 100000,
        fees_paid_wei: 2100000000000000,
        failure_reason: None,
    }
}

/// Submits trades to the public mempool.
pub struct MempoolExecutor {}

impl MempoolExecutor {
    /// An executor with no endpoint attached.
    pub fn new() -> (r: Self)
        ensures
            r == (MempoolExecutor {  }),
    {
        MempoolExecutor {  }
    }

    /// Acknowledges the plan, whatever it holds.
    pub fn submit_to_mempool(&self, _plan: &TradePlan) -> (r: Result<ExecReceipt, ExecError>)
        ensures
            r is Ok,
            is_acknowledgement(r->Ok_0, "0xmempool-tx"@),
    {
        Ok(acknowledge("0xmempool-tx"))
    }
}

/// Submits trades to a private endpoint.
pub struct PrivateRpcExecutor {}

impl PrivateRpcExecutor {
    /// An executor with no endpoint attached.
    pub fn new() -> (r: Self)
        ensures
            r == (PrivateRpcExecutor {  }),
    {
        PrivateRpcExecutor {  }
    }

    /// Acknowledges the plan, whatever it holds.
    pub fn submit_to_private_rpc(&self, _plan: &TradePlan) -> (r: Result<ExecReceipt, ExecError>)
        ensures
            r is Ok,
            is_acknowledgement(r->Ok_0, "0xprivate-rpc-tx"@),
    {
        Ok(acknowledge("0xprivate-rpc-tx"))
    }
}

/// Submits trades as bundles.
pub struct MevBundleExecutor {}

impl MevBundleExecutor {
    /// An executor with no relay attached.
    pub fn new() -> (r: Self)
        ensures
            r == (MevBundleExecutor {  }),
    {
        MevBundleExecutor {  }
    }

    /// Acknowledges the plan, whatever it holds.
    pub fn submit_mev_bundle(&self, _plan: &TradePlan) -> (r: Result<ExecReceipt, ExecError>)
        ensures
            r is Ok,
            is_acknowledgement(r->Ok_0, "0xmev-bundle-tx"@),
    {
        Ok(acknowledge("0xmev-bundle-tx"))
    }
}

/// Submits bundles to relays.
pub struct MevExecutor {}

impl MevExecutor {
    /// An executor with no relay attached.
    pub fn new() -> (r: Self)
        ensures
            r == (MevExecutor {  }),
    {
        MevExecutor {  }
    }

    /// Acknowledges the plan, whatever it holds.
    pub fn submit_bundle(&self, _plan: &TradePlan) -> (r: Result<ExecReceipt, ExecError>)
        ensures
            r is Ok,
            is_acknowledgement(r->Ok_0, "0xmev-bundle"@),
    {
        Ok(acknowledge("0xmev-bundle"))
    }
}

/// Routes a trade to a venue.
pub struct Executor {}

impl Executor {
    /// An executor with no venue attached.
    pub fn new() -> (r: Self)
        ensures
            r == (Executor {  }),
    {
        Executor {  }
    }

    /// Acknowledges the plan, whatever it holds.
    pub fn execute_trade(&self, _plan: &TradePlan) -> (r: Result<ExecReceipt, ExecError>)
        ensures
            r is Ok,
            is_acknowledgement(r->Ok_0, "0xplaceholder"@),
    {
        Ok(acknowledge("0xplaceholder"))
    }
}

} // verus!
