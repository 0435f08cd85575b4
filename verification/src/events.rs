//! Notifications the controller hands back on success, for the caller to
//! publish. The controller itself performs no I/O.

use vstd::prelude::*;

use crate::ids::{Pubkey, TxId};

verus! {

/// A deposit proved on the source chain was credited: `amount` of the
/// wrapped asset was minted to `recipient`.
#[derive(Clone, Copy, Debug, PartialEq, Eq)]
pub struct MarsMinted {
    pub recipient: Pubkey,
    pub amount: u64,
    pub l1_tx_id: TxId,
}

/// A withdrawal was accepted: `amount` of the wrapped asset held by
/// `user` was burned, to be released at `l1_recipient` on the source
/// chain.
#[derive(Clone, Debug, PartialEq, Eq)]
pub struct MarsBurned {
    pub user: Pubkey,
    pub amount: u64,
    pub l1_recipient: String,
}

/// The bridge was paused.
#[derive(Clone, Copy, Debug, PartialEq, Eq)]
pub struct BridgePaused {}

/// The bridge was unpaused.
#[derive(Clone, Copy, Debug, PartialEq, Eq)]
pub struct BridgeUnpaused {}

} // verus!
