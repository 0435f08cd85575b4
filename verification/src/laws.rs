//! The laws of the bridge, stated and proved over the model. Traces are
//! arbitrary sequences of operations, so each law holds of every
//! interleaving of calls the controller can ever see.

use vstd::prelude::*;

use crate::errors::BridgeError;
use crate::model::{BridgeView, MAX_PROCESSED_TXS};

verus! {

/// One request against the bridge, with everything the model reads of
/// it: the authenticated caller and the operation's plain inputs.
pub ghost enum BridgeOp {
    Mint { caller: Seq<u8>, amount: u64, tx: Seq<u8> },
    Burn { caller: Seq<u8>, owner: Seq<u8>, amount: u64 },
    Pause { caller: Seq<u8> },
    Unpause { caller: Seq<u8> },
}

impl BridgeView {
    /// The state after one operation, accepted or rejected.
    pub open spec fn apply(self, op: BridgeOp) -> BridgeView {
        match op {
            BridgeOp::Mint { caller, amount, tx } => self.mint_step(caller, amount, tx),
            BridgeOp::Burn { caller, owner, amount } => self.burn_step(caller, owner, amount),
            BridgeOp::Pause { caller } => self.pause_step(caller),
            BridgeOp::Unpause { caller } => self.unpause_step(caller),
        }
    }

    /// The state after a whole trace of operations, first to last.
    pub open spec fn apply_all(self, ops: Seq<BridgeOp>) -> BridgeView
        decreases ops.len(),
    {
        if ops.len() == 0 {
            self
        } else {
            self.apply(ops[0]).apply_all(ops.drop_first())
        }
    }
}

/// How much one operation adds to `total_minted`: the amount of an
/// accepted mint, nothing otherwise.
pub open spec fn minted_delta(v: BridgeView, op: BridgeOp) -> int {
    match op {
        BridgeOp::Mint { caller, amount, tx } => if v.mint_outcome(caller, tx) is Ok {
            amount as int
        } else {
            0
        },
        _ => 0,
    }
}

/// How much one operation adds to `total_burned`.
pub open spec fn burned_delta(v: BridgeView, op: BridgeOp) -> int {
    match op {
        BridgeOp::Burn { caller, owner, amount } => if v.burn_outcome(caller, owner) is Ok {
            amount as int
        } else {
            0
        },
        _ => 0,
    }
}

/// The sum of the amounts of the accepted mints in a trace.
pub open spec fn minted_in_trace(v: BridgeView, ops: Seq<BridgeOp>) -> int
    decreases ops.len(),
{
    if ops.len() == 0 {
        0
    } else {
        minted_delta(v, ops[0]) + minted_in_trace(v.apply(ops[0]), ops.drop_first())
    }
}

/// The sum of the amounts of the accepted burns in a trace.
pub open spec fn burned_in_trace(v: BridgeView, ops: Seq<BridgeOp>) -> int
    decreases ops.len(),
{
    if ops.len() == 0 {
        0
    } else {
        burned_delta(v, ops[0]) + burned_in_trace(v.apply(ops[0]), ops.drop_first())
    }
}

proof fn lemma_push_keeps_contains<A>(s: Seq<A>, x: A, t: A)
    requires
        s.contains(t),
    ensures
        s.push(x).contains(t),
{
    let i = choose|i: int| 0 <= i < s.len() && s[i] == t;
    assert(s.push(x)[i] == t);
}

/// No operation ever removes an entry from the replay ledger, and no
/// operation changes the bridge's authority, its asset, or shrinks a
/// counter.
pub proof fn lemma_step_monotone(v: BridgeView, op: BridgeOp, t: Seq<u8>)
    ensures
        v.processed.contains(t) ==> v.apply(op).processed.contains(t),
        v.apply(op).authority == v.authority,
        v.apply(op).mars_mint == v.mars_mint,
        v.apply(op).total_minted >= v.total_minted,
        v.apply(op).total_burned >= v.total_burned,
{
    match op {
        BridgeOp::Mint { caller, amount, tx } => {
            if v.mint_outcome(caller, tx) is Ok && v.processed.contains(t) {
                lemma_push_keeps_contains(v.processed, tx, t);
            }
        },
        _ => {},
    }
}

/// `lemma_step_monotone`, extended to whole traces.
pub proof fn lemma_trace_monotone(v: BridgeView, ops: Seq<BridgeOp>, t: Seq<u8>)
    ensures
        v.processed.contains(t) ==> v.apply_all(ops).processed.contains(t),
        v.apply_all(ops).authority == v.authority,
        v.apply_all(ops).mars_mint == v.mars_mint,
        v.apply_all(ops).total_minted >= v.total_minted,
        v.apply_all(ops).total_burned >= v.total_burned,
    decreases ops.len(),
{
    if ops.len() > 0 {
        lemma_step_monotone(v, ops[0], t);
        lemma_trace_monotone(v.apply(ops[0]), ops.drop_first(), t);
    }
}

/// Every operation keeps the structural invariant: the replay ledger
/// stays within capacity and never holds an id twice.
pub proof fn lemma_step_preserves_wf(v: BridgeView, op: BridgeOp)
    requires
        v.wf(),
    ensures
        v.apply(op).wf(),
{
    match op {
        BridgeOp::Mint { caller, amount, tx } => {
            if v.mint_outcome(caller, tx) is Ok {
                let p = v.processed.push(tx);
                assert forall|i: int, j: int|
                    0 <= i < p.len() && 0 <= j < p.len() && i != j implies p[i] != p[j] by {
                    if i < v.processed.len() && j < v.processed.len() {
                        assert(v.processed[i] != v.processed[j]);
                    } else if j == v.processed.len() {
                        assert(!v.processed.contains(tx));
                        assert(p[i] == v.processed[i]);
                    } else {
                        assert(!v.processed.contains(tx));
                        assert(p[j] == v.processed[j]);
                    }
                }
            }
        },
        _ => {},
    }
}

/// `lemma_step_preserves_wf`, extended to whole traces.
pub proof fn lemma_trace_preserves_wf(v: BridgeView, ops: Seq<BridgeOp>)
    requires
        v.wf(),
    ensures
        v.apply_all(ops).wf(),
    decreases ops.len(),
{
    if ops.len() > 0 {
        lemma_step_preserves_wf(v, ops[0]);
        lemma_trace_preserves_wf(v.apply(ops[0]), ops.drop_first());
    }
}

/// Replay protection. An accepted mint records its transaction id, and
/// from then on — whatever operations come between — a mint presenting
/// the same id is never accepted again; whenever it gets past the pause
/// switch and the authority check, it fails precisely with
/// `TransactionAlreadyProcessed`.
pub proof fn lemma_no_double_credit(
    v: BridgeView,
    c1: Seq<u8>,
    a1: u64,
    ops: Seq<BridgeOp>,
    c2: Seq<u8>,
    tx: Seq<u8>,
)
    requires
        v.mint_outcome(c1, tx) is Ok,
    ensures
        ({
            let later = v.mint_step(c1, a1, tx).apply_all(ops);
            &&& !(later.mint_outcome(c2, tx) is Ok)
            &&& !later.paused && c2 == later.authority ==> later.mint_outcome(c2, tx)
                == Err::<(), BridgeError>(BridgeError::TransactionAlreadyProcessed)
        }),
{
    let credited = v.mint_step(c1, a1, tx);
    assert(credited.processed[v.processed.len() as int] == tx);
    assert(credited.processed.contains(tx));
    lemma_trace_monotone(credited, ops, tx);
}

/// Accounting. Over any trace, the growth of `total_minted` is exactly
/// the sum of the amounts of the accepted mints, and the growth of
/// `total_burned` exactly the sum of the amounts of the accepted burns.
pub proof fn lemma_trace_accounting(v: BridgeView, ops: Seq<BridgeOp>)
    ensures
        v.apply_all(ops).total_minted == v.total_minted + minted_in_trace(v, ops),
        v.apply_all(ops).total_burned == v.total_burned + burned_in_trace(v, ops),
    decreases ops.len(),
{
    if ops.len() > 0 {
        lemma_trace_accounting(v.apply(ops[0]), ops.drop_first());
    }
}

/// The pause switch dominates. While the bridge is paused, mint and
/// burn are rejected with `BridgePaused` — for any caller, any inputs —
/// and the state does not change at all.
pub proof fn lemma_paused_rejects(
    v: BridgeView,
    caller: Seq<u8>,
    owner: Seq<u8>,
    amount: u64,
    tx: Seq<u8>,
)
    requires
        v.paused,
    ensures
        v.mint_outcome(caller, tx) == Err::<(), BridgeError>(BridgeError::BridgePaused),
        v.mint_step(caller, amount, tx) == v,
        v.burn_outcome(caller, owner) == Err::<(), BridgeError>(BridgeError::BridgePaused),
        v.burn_step(caller, owner, amount) == v,
{
}

/// Pause then unpause restores the state exactly, and with it every
/// operational behavior: afterwards each operation has the same outcome
/// and the same effect as before the pause.
pub proof fn lemma_pause_unpause_roundtrip(v: BridgeView, caller: Seq<u8>)
    requires
        !v.paused,
        caller == v.authority,
    ensures
        v.pause_step(caller).unpause_step(caller) == v,
{
    assert(v.pause_step(caller).unpause_step(caller) =~= v);
}

/// Only the authority mints, pauses or unpauses. Any other caller is
/// rejected and nothing changes; mint reports `Unauthorized` whenever
/// the pause switch did not already reject the call.
pub proof fn lemma_non_authority_rejected(v: BridgeView, caller: Seq<u8>, amount: u64, tx: Seq<u8>)
    requires
        caller != v.authority,
    ensures
        !(v.mint_outcome(caller, tx) is Ok),
        !v.paused ==> v.mint_outcome(caller, tx) == Err::<(), BridgeError>(
            BridgeError::Unauthorized,
        ),
        v.mint_step(caller, amount, tx) == v,
        v.switch_outcome(caller) == Err::<(), BridgeError>(BridgeError::Unauthorized),
        v.pause_step(caller) == v,
        v.unpause_step(caller) == v,
{
}

/// Burn authorization. A burn is accepted exactly when the bridge is
/// not paused and the caller owns the debited holding; a caller who is
/// not the owner is rejected with `Unauthorized` and nothing changes.
/// (That the burned amount cannot exceed the owner's balance is the
/// token ledger's check, outside this controller.)
pub proof fn lemma_burn_owner_only(v: BridgeView, caller: Seq<u8>, owner: Seq<u8>, amount: u64)
    ensures
        v.burn_outcome(caller, owner) is Ok <==> (!v.paused && caller == owner),
        !v.paused && caller != owner ==> v.burn_outcome(caller, owner) == Err::<(), BridgeError>(
            BridgeError::Unauthorized,
        ) && v.burn_step(caller, owner, amount) == v,
{
}

/// The capacity ceiling. Once the replay ledger holds
/// `MAX_PROCESSED_TXS` entries, a mint presenting a fresh id fails with
/// `CapacityExceeded`, and nothing changes.
pub proof fn lemma_capacity_ceiling(v: BridgeView, caller: Seq<u8>, amount: u64, tx: Seq<u8>)
    requires
        !v.paused,
        caller == v.authority,
        !v.processed.contains(tx),
        v.processed.len() >= MAX_PROCESSED_TXS,
    ensures
        v.mint_outcome(caller, tx) == Err::<(), BridgeError>(BridgeError::CapacityExceeded),
        v.mint_step(caller, amount, tx) == v,
{
}

} // verus!
