//! The executable bridge controller: the persistent record and the five
//! operations that are the only way to mutate it. Every operation
//! promises to follow the model's transition function exactly, and to
//! return precisely the outcome the model assigns to its inputs.

use vstd::assert_by_contradiction;
use vstd::prelude::*;

use crate::errors::BridgeError;
use crate::events::{BridgePaused, BridgeUnpaused, MarsBurned, MarsMinted};
use crate::ids::{Pubkey, TxId};
use crate::model::{BridgeView, MAX_PROCESSED_TXS};

verus! {

/// The image of a run of transaction ids as the model sees it.
pub open spec fn txs_as_seq(txs: Seq<TxId>) -> Seq<Seq<u8>> {
    txs.map_values(|t: TxId| t@)
}

/// The persistent bridge record: one per deployed bridge, created once
/// by `initialize` and mutated only by the operations below.
pub struct BridgeState {
    /// Sole principal permitted to mint, pause and unpause. Immutable
    /// after initialization.
    pub authority: Pubkey,
    /// The wrapped asset this bridge mints and burns. Immutable after
    /// initialization.
    pub mars_mint: Pubkey,
    /// Cumulative amount minted since initialization.
    pub total_minted: u64,
    /// Cumulative amount burned since initialization.
    pub total_burned: u64,
    /// While true, mint and burn are rejected.
    pub paused: bool,
    /// Replay-protection ledger: source-chain transaction ids already
    /// credited, in insertion order, capacity `MAX_PROCESSED_TXS`.
    pub processed_l1_txs: Vec<TxId>,
}

impl View for BridgeState {
    type V = BridgeView;

    open spec fn view(&self) -> BridgeView {
        BridgeView {
            authority: self.authority@,
            mars_mint: self.mars_mint@,
            total_minted: self.total_minted as int,
            total_burned: self.total_burned as int,
            paused: self.paused,
            processed: txs_as_seq(self.processed_l1_txs@),
        }
    }
}

/// Linear containment check over the replay ledger.
fn contains_tx(txs: &Vec<TxId>, tx: &TxId) -> (r: bool)
    ensures
        r == txs_as_seq(txs@).contains(tx@),
{
    let mut i: usize = 0;
    while i < txs.len()
        invariant
            i <= txs@.len(),
            forall|j: int| 0 <= j < i ==> txs_as_seq(txs@)[j] != tx@,
        decreases txs@.len() - i,
    {
        if txs[i].id_eq(tx) {
            proof {
                assert(txs_as_seq(txs@)[i as int] == tx@);
            }
            return true;
        }
        i += 1;
    }
    proof {
        assert_by_contradiction!(!txs_as_seq(txs@).contains(tx@), {
            let k = choose|k: int|
                0 <= k < txs_as_seq(txs@).len() && txs_as_seq(txs@)[k] == tx@;
            assert(txs_as_seq(txs@)[k] != tx@);
        });
    }
    false
}

/// Creates the bridge record for `authority`, rejecting a second
/// creation. The fresh record has zero counters, is not paused, and has
/// an empty replay ledger; its authority and asset are fixed for good.
pub fn initialize(slot: &mut Option<BridgeState>, authority: &Pubkey, mars_mint: &Pubkey) -> (r:
    Result<(), BridgeError>)
    ensures
        *old(slot) is Some ==> r == Err::<(), BridgeError>(BridgeError::AlreadyInitialized)
            && *final(slot) == *old(slot),
        *old(slot) is None ==> r == Ok::<(), BridgeError>(()) && (*final(slot) matches Some(s)
            && s@ == BridgeView::init(authority@, mars_mint@) && s@.wf()),
{
    if slot.is_some() {
        return Err(BridgeError::AlreadyInitialized);
    }
    let fresh = BridgeState {
        authority: *authority,
        mars_mint: *mars_mint,
        total_minted: 0,
        total_burned: 0,
        paused: false,
        processed_l1_txs: Vec::new(),
    };
    proof {
        assert(fresh@.processed =~= Seq::<Seq<u8>>::empty());
        assert(fresh@ == BridgeView::init(authority@, mars_mint@));
    }
    *slot = Some(fresh);
    Ok(())
}

/// Credits a deposit proved on the source chain: records `l1_tx_id` in
/// the replay ledger and adds `amount` to the minted total. The caller
/// must be the bridge authority; the same id is never credited twice;
/// a full ledger refuses further unique deposits. A rejected call
/// leaves the state untouched.
pub fn mint_mars(
    state: &mut BridgeState,
    caller: &Pubkey,
    recipient: &Pubkey,
    amount: u64,
    l1_tx_id: &TxId,
) -> (r: Result<MarsMinted, BridgeError>)
    requires
        old(state)@.mint_outcome(caller@, l1_tx_id@) is Ok ==> old(state).total_minted + amount
            <= u64::MAX,
    ensures
        final(state)@ == old(state)@.mint_step(caller@, amount, l1_tx_id@),
        (match old(state)@.mint_outcome(caller@, l1_tx_id@) {
            Ok(_) => r matches Ok(ev) && ev.recipient@ == recipient@ && ev.amount == amount
                && ev.l1_tx_id@ == l1_tx_id@,
            Err(e) => r == Err::<MarsMinted, BridgeError>(e),
        }),
{
    if state.paused {
        return Err(BridgeError::BridgePaused);
    }
    if !caller.key_eq(&state.authority) {
        return Err(BridgeError::Unauthorized);
    }
    if contains_tx(&state.processed_l1_txs, l1_tx_id) {
        return Err(BridgeError::TransactionAlreadyProcessed);
    }
    if state.processed_l1_txs.len() >= MAX_PROCESSED_TXS {
        return Err(BridgeError::CapacityExceeded);
    }
    proof {
        assert(old(state)@.mint_outcome(caller@, l1_tx_id@) is Ok);
    }
    state.processed_l1_txs.push(*l1_tx_id);
    state.total_minted = state.total_minted + amount;
    proof {
        assert(state.processed_l1_txs@ == old(state).processed_l1_txs@.push(*l1_tx_id));
        assert(txs_as_seq(state.processed_l1_txs@) =~= old(state)@.processed.push(l1_tx_id@));
        assert(state@ == old(state)@.mint_step(caller@, amount, l1_tx_id@));
    }
    Ok(MarsMinted { recipient: *recipient, amount, l1_tx_id: *l1_tx_id })
}

/// Debits a withdrawal: adds `amount` to the burned total and reports
/// the source-chain address the funds should be released to. The caller
/// must own the debited holding; the actual balance check and debit are
/// the token ledger's, performed in the same atomic commit by the
/// caller's runtime. A rejected call leaves the state untouched.
pub fn burn_mars(
    state: &mut BridgeState,
    caller: &Pubkey,
    owner: &Pubkey,
    amount: u64,
    l1_recipient: String,
) -> (r: Result<MarsBurned, BridgeError>)
    requires
        old(state)@.burn_outcome(caller@, owner@) is Ok ==> old(state).total_burned + amount
            <= u64::MAX,
    ensures
        final(state)@ == old(state)@.burn_step(caller@, owner@, amount),
        (match old(state)@.burn_outcome(caller@, owner@) {
            Ok(_) => r matches Ok(ev) && ev.user@ == caller@ && ev.amount == amount
                && ev.l1_recipient@ == l1_recipient@,
            Err(e) => r == Err::<MarsBurned, BridgeError>(e),
        }),
{
    if state.paused {
        return Err(BridgeError::BridgePaused);
    }
    if !caller.key_eq(owner) {
        return Err(BridgeError::Unauthorized);
    }
    state.total_burned = state.total_burned + amount;
    Ok(MarsBurned { user: *caller, amount, l1_recipient })
}

/// Halts mint and burn until `unpause_bridge`. Authority only; setting
/// the switch is unconditional, so pausing twice succeeds both times.
pub fn pause_bridge(state: &mut BridgeState, caller: &Pubkey) -> (r: Result<
    BridgePaused,
    BridgeError,
>)
    ensures
        final(state)@ == old(state)@.pause_step(caller@),
        (match old(state)@.switch_outcome(caller@) {
            Ok(_) => r is Ok,
            Err(e) => r == Err::<BridgePaused, BridgeError>(e),
        }),
{
    if !caller.key_eq(&state.authority) {
        return Err(BridgeError::Unauthorized);
    }
    state.paused = true;
    Ok(BridgePaused {  })
}

/// Resumes mint and burn. Authority only; unconditional like
/// `pause_bridge`.
pub fn unpause_bridge(state: &mut BridgeState, caller: &Pubkey) -> (r: Result<
    BridgeUnpaused,
    BridgeError,
>)
    ensures
        final(state)@ == old(state)@.unpause_step(caller@),
        (match old(state)@.switch_outcome(caller@) {
            Ok(_) => r is Ok,
            Err(e) => r == Err::<BridgeUnpaused, BridgeError>(e),
        }),
{
    if !caller.key_eq(&state.authority) {
        return Err(BridgeError::Unauthorized);
    }
    state.paused = false;
    Ok(BridgeUnpaused {  })
}

} // verus!
