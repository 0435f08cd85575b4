//! End-to-end tests of the bridge controller: the full lifecycle, every
//! rejection, and the capacity ceiling.

use mars_bridge::{
    burn_mars, initialize, mint_mars, pause_bridge, unpause_bridge, BridgeError, BridgeState,
    Pubkey, TxId, MAX_PROCESSED_TXS,
};

fn key(n: u8) -> Pubkey {
    Pubkey { bytes: [n; 32] }
}

fn tx(n: u8) -> TxId {
    TxId { bytes: [n; 32] }
}

/// A distinct transaction id for each index below 65536.
fn tx_numbered(n: usize) -> TxId {
    let mut bytes = [0u8; 32];
    bytes[0] = (n % 256) as u8;
    bytes[1] = (n / 256) as u8;
    TxId { bytes }
}

fn fresh_bridge(authority: Pubkey, mint: Pubkey) -> BridgeState {
    let mut slot: Option<BridgeState> = None;
    assert_eq!(initialize(&mut slot, &authority, &mint), Ok(()));
    slot.unwrap()
}

#[test]
fn initialize_sets_fresh_state() {
    let a = key(1);
    let m = key(2);
    let st = fresh_bridge(a, m);
    assert_eq!(st.authority, a);
    assert_eq!(st.mars_mint, m);
    assert_eq!(st.total_minted, 0);
    assert_eq!(st.total_burned, 0);
    assert!(!st.paused);
    assert!(st.processed_l1_txs.is_empty());
}

#[test]
fn initialize_twice_rejected() {
    let a = key(1);
    let m = key(2);
    let mut slot: Option<BridgeState> = None;
    assert_eq!(initialize(&mut slot, &a, &m), Ok(()));
    let r = initialize(&mut slot, &a, &m);
    assert_eq!(r, Err(BridgeError::AlreadyInitialized));
    let st = slot.unwrap();
    assert_eq!(st.total_minted, 0);
    assert!(!st.paused);
}

#[test]
fn bridge_lifecycle_scenario() {
    let a = key(1);
    let m = key(2);
    let user = key(3);
    let mut st = fresh_bridge(a, m);

    let r1 = mint_mars(&mut st, &a, &user, 100, &tx(1)).unwrap();
    assert_eq!(r1.recipient, user);
    assert_eq!(r1.amount, 100);
    assert_eq!(r1.l1_tx_id, tx(1));
    assert_eq!(st.total_minted, 100);

    let r2 = mint_mars(&mut st, &a, &user, 100, &tx(1));
    assert_eq!(r2, Err(BridgeError::TransactionAlreadyProcessed));
    assert_eq!(st.total_minted, 100);

    assert!(pause_bridge(&mut st, &a).is_ok());
    let r3 = mint_mars(&mut st, &a, &user, 50, &tx(2));
    assert_eq!(r3, Err(BridgeError::BridgePaused));

    assert!(unpause_bridge(&mut st, &a).is_ok());
    let r4 = mint_mars(&mut st, &a, &user, 50, &tx(2));
    assert!(r4.is_ok());
    assert_eq!(st.total_minted, 150);

    let r5 = burn_mars(&mut st, &user, &user, 40, "L1addr".to_owned()).unwrap();
    assert_eq!(r5.user, user);
    assert_eq!(r5.amount, 40);
    assert_eq!(r5.l1_recipient, "L1addr");
    assert_eq!(st.total_burned, 40);
}

#[test]
fn mint_replay_rejected_keeps_ledger() {
    let a = key(1);
    let user = key(3);
    let mut st = fresh_bridge(a, key(2));
    assert!(mint_mars(&mut st, &a, &user, 7, &tx(9)).is_ok());
    assert_eq!(st.processed_l1_txs.len(), 1);
    assert_eq!(
        mint_mars(&mut st, &a, &user, 7, &tx(9)),
        Err(BridgeError::TransactionAlreadyProcessed)
    );
    assert_eq!(st.processed_l1_txs.len(), 1);
    assert_eq!(st.total_minted, 7);
}

#[test]
fn totals_are_sums_of_successful_amounts() {
    let a = key(1);
    let user = key(3);
    let mut st = fresh_bridge(a, key(2));
    assert!(mint_mars(&mut st, &a, &user, 10, &tx(1)).is_ok());
    assert!(mint_mars(&mut st, &a, &user, 20, &tx(2)).is_ok());
    assert!(mint_mars(&mut st, &a, &user, 30, &tx(3)).is_ok());
    // a failing mint adds nothing
    assert!(mint_mars(&mut st, &a, &user, 500, &tx(2)).is_err());
    assert_eq!(st.total_minted, 60);
    assert!(burn_mars(&mut st, &user, &user, 15, "x".to_owned()).is_ok());
    assert!(burn_mars(&mut st, &user, &user, 25, "y".to_owned()).is_ok());
    // a failing burn adds nothing
    assert!(burn_mars(&mut st, &user, &key(4), 99, "z".to_owned()).is_err());
    assert_eq!(st.total_burned, 40);
}

#[test]
fn paused_rejects_mint_and_burn_for_everyone() {
    let a = key(1);
    let user = key(3);
    let stranger = key(4);
    let mut st = fresh_bridge(a, key(2));
    assert!(mint_mars(&mut st, &a, &user, 5, &tx(1)).is_ok());
    assert!(pause_bridge(&mut st, &a).is_ok());

    for caller in [a, user, stranger] {
        assert_eq!(
            mint_mars(&mut st, &caller, &user, 5, &tx(2)),
            Err(BridgeError::BridgePaused)
        );
        assert_eq!(
            burn_mars(&mut st, &caller, &caller, 5, "addr".to_owned()),
            Err(BridgeError::BridgePaused)
        );
    }
    assert_eq!(st.total_minted, 5);
    assert_eq!(st.total_burned, 0);
    assert_eq!(st.processed_l1_txs.len(), 1);
    assert!(st.paused);
}

#[test]
fn unpause_restores_operation() {
    let a = key(1);
    let user = key(3);
    let mut st = fresh_bridge(a, key(2));
    assert!(pause_bridge(&mut st, &a).is_ok());
    assert_eq!(
        mint_mars(&mut st, &a, &user, 5, &tx(1)),
        Err(BridgeError::BridgePaused)
    );
    assert!(unpause_bridge(&mut st, &a).is_ok());
    assert!(mint_mars(&mut st, &a, &user, 5, &tx(1)).is_ok());
    assert!(burn_mars(&mut st, &user, &user, 2, "addr".to_owned()).is_ok());
    assert_eq!(st.total_minted, 5);
    assert_eq!(st.total_burned, 2);
}

#[test]
fn pause_and_unpause_are_unconditional() {
    let a = key(1);
    let mut st = fresh_bridge(a, key(2));
    assert!(pause_bridge(&mut st, &a).is_ok());
    assert!(pause_bridge(&mut st, &a).is_ok());
    assert!(st.paused);
    assert!(unpause_bridge(&mut st, &a).is_ok());
    assert!(unpause_bridge(&mut st, &a).is_ok());
    assert!(!st.paused);
}

#[test]
fn non_authority_rejected_with_no_change() {
    let a = key(1);
    let user = key(3);
    let stranger = key(4);
    let mut st = fresh_bridge(a, key(2));
    assert_eq!(
        mint_mars(&mut st, &stranger, &user, 5, &tx(1)),
        Err(BridgeError::Unauthorized)
    );
    assert_eq!(pause_bridge(&mut st, &stranger), Err(BridgeError::Unauthorized));
    assert_eq!(unpause_bridge(&mut st, &stranger), Err(BridgeError::Unauthorized));
    assert_eq!(st.total_minted, 0);
    assert!(st.processed_l1_txs.is_empty());
    assert!(!st.paused);
}

#[test]
fn burn_requires_owner() {
    let a = key(1);
    let user = key(3);
    let other = key(4);
    let mut st = fresh_bridge(a, key(2));
    assert_eq!(
        burn_mars(&mut st, &other, &user, 5, "addr".to_owned()),
        Err(BridgeError::Unauthorized)
    );
    assert_eq!(st.total_burned, 0);
    assert!(burn_mars(&mut st, &user, &user, 5, "addr".to_owned()).is_ok());
    assert_eq!(st.total_burned, 5);
}

#[test]
fn capacity_ceiling_after_thousand_mints() {
    let a = key(1);
    let user = key(3);
    let mut st = fresh_bridge(a, key(2));
    for i in 0..MAX_PROCESSED_TXS {
        let r = mint_mars(&mut st, &a, &user, 1, &tx_numbered(i));
        assert!(r.is_ok());
    }
    assert_eq!(st.total_minted, MAX_PROCESSED_TXS as u64);
    assert_eq!(st.processed_l1_txs.len(), MAX_PROCESSED_TXS);
    let r = mint_mars(&mut st, &a, &user, 1, &tx_numbered(MAX_PROCESSED_TXS));
    assert_eq!(r, Err(BridgeError::CapacityExceeded));
    assert_eq!(st.total_minted, MAX_PROCESSED_TXS as u64);
    assert_eq!(st.processed_l1_txs.len(), MAX_PROCESSED_TXS);
    // a replayed id is still reported as replay, not as capacity
    assert_eq!(
        mint_mars(&mut st, &a, &user, 1, &tx_numbered(0)),
        Err(BridgeError::TransactionAlreadyProcessed)
    );
}

#[test]
fn key_and_id_equality_follow_bytes() {
    assert!(key(5).key_eq(&key(5)));
    assert!(!key(5).key_eq(&key(6)));
    let mut almost = [7u8; 32];
    almost[31] = 8;
    assert!(!TxId { bytes: almost }.id_eq(&tx(7)));
    assert!(tx(7).id_eq(&tx(7)));
}
