use vstd::prelude::*;

use crate::evm::EvmLog;

verus! {

/// One discovered unit of raw activity, to be processed by the client kind
/// that produced it.
#[derive(Debug, Clone, PartialEq, Eq)]
pub enum IndexerJob {
    /// A log entry of an account-style network.
    Log(EvmLog),
    /// A transaction signature of a transaction-stream network.
    Transaction(String),
}

} // verus!
