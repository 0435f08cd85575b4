//! The ways a bridge operation can be rejected. Every rejection leaves the
//! bridge state exactly as it was.

use vstd::prelude::*;

verus! {

/// Why an operation was refused. Each variant is terminal for its call:
/// the controller never retries, and a rejected call mutates nothing.
#[derive(Clone, Copy, Debug, PartialEq, Eq, Structural)]
pub enum BridgeError {
    /// Mint or burn attempted while the bridge is paused.
    BridgePaused,
    /// The presented source-chain transaction id was already credited.
    TransactionAlreadyProcessed,
    /// The replay-protection ledger is full; no further unique deposit
    /// can be credited.
    CapacityExceeded,
    /// The caller is not the principal the operation requires.
    Unauthorized,
    /// A bridge record already exists for this authority.
    AlreadyInitialized,
}

} // verus!
