//! Mathematical model of the bridge. `BridgeView` is the ghost image of
//! the persistent state; each operation has a pure transition function
//! (`*_step`) and an outcome function (`*_outcome`) over it. The
//! executable controller promises, clause for clause, that it follows
//! these functions, so every law of the bridge is stated and proved here,
//! at the level of the model.

use vstd::prelude::*;

use crate::errors::BridgeError;

verus! {

/// Hard ceiling on the replay-protection ledger: space for exactly this
/// many processed transaction ids is reserved when the bridge is created,
/// and entries are never evicted.
pub const MAX_PROCESSED_TXS: usize = 1000;

/// The ghost image of a bridge record.
#[verifier::ext_equal]
pub ghost struct BridgeView {
    /// Sole principal permitted to mint, pause and unpause.
    pub authority: Seq<u8>,
    /// The wrapped asset this bridge is authorized to mint and burn.
    pub mars_mint: Seq<u8>,
    /// Cumulative amount minted since initialization.
    pub total_minted: int,
    /// Cumulative amount burned since initialization.
    pub total_burned: int,
    /// While true, mint and burn are rejected.
    pub paused: bool,
    /// Source-chain transaction ids already credited, in insertion order.
    pub processed: Seq<Seq<u8>>,
}

impl BridgeView {
    /// The state `initialize` creates: zero counters, not paused, no
    /// processed transaction yet.
    pub open spec fn init(authority: Seq<u8>, mars_mint: Seq<u8>) -> BridgeView {
        BridgeView {
            authority,
            mars_mint,
            total_minted: 0,
            total_burned: 0,
            paused: false,
            processed: Seq::empty(),
        }
    }

    /// Structural invariant of every reachable bridge state: the
    /// replay ledger never exceeds its reserved capacity and never
    /// holds a transaction id twice.
    pub open spec fn wf(self) -> bool {
        &&& self.processed.len() <= MAX_PROCESSED_TXS
        &&& self.processed.no_duplicates()
    }

    /// Whether `mint` by `caller` crediting `tx` is accepted, and the
    /// error when it is not. Checked in this order: pause switch,
    /// authority, replay, capacity.
    pub open spec fn mint_outcome(self, caller: Seq<u8>, tx: Seq<u8>) -> Result<(), BridgeError> {
        if self.paused {
            Err(BridgeError::BridgePaused)
        } else if caller != self.authority {
            Err(BridgeError::Unauthorized)
        } else if self.processed.contains(tx) {
            Err(BridgeError::TransactionAlreadyProcessed)
        } else if self.processed.len() >= MAX_PROCESSED_TXS {
            Err(BridgeError::CapacityExceeded)
        } else {
            Ok(())
        }
    }

    /// State after a mint call: on acceptance the transaction id is
    /// recorded and the minted total grows by `amount`; a rejected call
    /// changes nothing.
    pub open spec fn mint_step(self, caller: Seq<u8>, amount: u64, tx: Seq<u8>) -> BridgeView {
        if self.mint_outcome(caller, tx) is Ok {
            BridgeView {
                total_minted: self.total_minted + amount,
                processed: self.processed.push(tx),
                ..self
            }
        } else {
            self
        }
    }

    /// Whether `burn` is accepted: the bridge must not be paused and the
    /// caller must own the debited holding.
    pub open spec fn burn_outcome(self, caller: Seq<u8>, owner: Seq<u8>) -> Result<(), BridgeError> {
        if self.paused {
            Err(BridgeError::BridgePaused)
        } else if caller != owner {
            Err(BridgeError::Unauthorized)
        } else {
            Ok(())
        }
    }

    /// State after a burn call: on acceptance the burned total grows by
    /// `amount`; a rejected call changes nothing.
    pub open spec fn burn_step(self, caller: Seq<u8>, owner: Seq<u8>, amount: u64) -> BridgeView {
        if self.burn_outcome(caller, owner) is Ok {
            BridgeView { total_burned: self.total_burned + amount, ..self }
        } else {
            self
        }
    }

    /// Whether `pause` or `unpause` is accepted: only the authority may
    /// flip the switch; the current value of the switch is irrelevant.
    pub open spec fn switch_outcome(self, caller: Seq<u8>) -> Result<(), BridgeError> {
        if caller != self.authority {
            Err(BridgeError::Unauthorized)
        } else {
            Ok(())
        }
    }

    /// State after a pause call: the switch is set unconditionally, so
    /// pausing an already-paused bridge succeeds and changes nothing
    /// further.
    pub open spec fn pause_step(self, caller: Seq<u8>) -> BridgeView {
        if self.switch_outcome(caller) is Ok {
            BridgeView { paused: true, ..self }
        } else {
            self
        }
    }

    /// State after an unpause call.
    pub open spec fn unpause_step(self, caller: Seq<u8>) -> BridgeView {
        if self.switch_outcome(caller) is Ok {
            BridgeView { paused: false, ..self }
        } else {
            self
        }
    }
}

} // verus!
