//! Tests of the unified read view: merged block scans, routing, and
//! snapshot isolation.

use ledger_store::offchain::OffChainStore;
use ledger_store::onchain::OnChainStore;
use ledger_store::read_view::ReadDatabase;
use ledger_store::types::{
    Block, Consensus, IndexRow, IterDirection, MerkleProof, Message, RelayedTransactionStatus,
    StorageError, Transaction, TransactionStatus, TxPointer,
};

fn block(height: u32, id: u64) -> Block {
    Block { height, id }
}

/// Two blocks below the boundary in the historical index, three at or
/// above it in the current epoch; boundary at height 3.
fn sample_db() -> ReadDatabase {
    let mut on = OnChainStore::new();
    on.set_genesis_height(3);
    on.add_block(block(3, 103));
    on.add_block(block(4, 104));
    on.add_block(block(5, 105));
    let mut off = OffChainStore::new();
    off.add_old_block(block(1, 101));
    off.add_old_block(block(2, 102));
    ReadDatabase::new(on, off)
}

fn heights(rows: &[Result<Block, StorageError>]) -> Vec<u32> {
    rows.iter().map(|r| r.as_ref().unwrap().height).collect()
}

#[test]
fn merged_forward_from_below_boundary() {
    let view = sample_db().view();
    let rows = view.blocks(Some(2), IterDirection::Forward);
    assert_eq!(heights(&rows), vec![2, 3, 4, 5]);
}

#[test]
fn merged_forward_from_at_boundary() {
    let view = sample_db().view();
    let rows = view.blocks(Some(3), IterDirection::Forward);
    assert_eq!(heights(&rows), vec![3, 4, 5]);
}

#[test]
fn merged_reverse_from_above_boundary() {
    let view = sample_db().view();
    let rows = view.blocks(Some(4), IterDirection::Reverse);
    assert_eq!(heights(&rows), vec![4, 3, 2, 1]);
}

#[test]
fn merged_reverse_from_below_boundary() {
    let view = sample_db().view();
    let rows = view.blocks(Some(2), IterDirection::Reverse);
    assert_eq!(heights(&rows), vec![2, 1]);
}

#[test]
fn merged_no_start_is_whole_chain() {
    let view = sample_db().view();
    let forward = view.blocks(None, IterDirection::Forward);
    assert_eq!(heights(&forward), vec![1, 2, 3, 4, 5]);
    let reverse = view.blocks(None, IterDirection::Reverse);
    assert_eq!(heights(&reverse), vec![5, 4, 3, 2, 1]);
}

#[test]
fn reverse_of_forward_yields_same_heights() {
    let view = sample_db().view();
    let mut forward = heights(&view.blocks(None, IterDirection::Forward));
    let reverse = heights(&view.blocks(None, IterDirection::Reverse));
    forward.reverse();
    assert_eq!(forward, reverse);
}

#[test]
fn no_height_overlap_between_sources() {
    let view = sample_db().view();
    let old: Vec<u32> = view
        .old_blocks(None, IterDirection::Forward)
        .iter()
        .map(|b| b.height)
        .collect();
    let rows = view.blocks(Some(0), IterDirection::Forward);
    let mut seen = std::collections::HashSet::new();
    for r in &rows {
        assert!(seen.insert(r.as_ref().unwrap().height), "height repeated in merge");
    }
    for h in old {
        assert!(h < 3, "historical block at or above the boundary");
    }
}

#[test]
fn missing_boundary_fails_started_scan() {
    let mut on = OnChainStore::new();
    on.add_block(block(7, 107));
    let db = ReadDatabase::new(on, OffChainStore::new());
    let rows = db.view().blocks(Some(7), IterDirection::Forward);
    assert_eq!(rows, vec![Err(StorageError::NotFound)]);
    // Without a starting height no boundary lookup is made.
    let rows = db.view().blocks(None, IterDirection::Forward);
    assert_eq!(heights(&rows), vec![7]);
}

#[test]
fn view_isolation() {
    let mut on = OnChainStore::new();
    on.add_message(Message { nonce: 9, sender: 1, recipient: 2, amount: 50, da_height: 0 });
    let pinned = on.latest_view();
    on.add_message(Message { nonce: 10, sender: 1, recipient: 2, amount: 60, da_height: 0 });
    on.add_spent_message(9);
    // The view reflects only what was committed before it was taken.
    assert_eq!(pinned.message_exists(10), Ok(false));
    assert_eq!(pinned.message_is_spent(9), Ok(false));
    // A fresh view sees the later writes.
    let fresh = on.latest_view();
    assert_eq!(fresh.message_exists(10), Ok(true));
    assert_eq!(fresh.message_is_spent(9), Ok(true));
}

#[test]
fn latest_heights_and_da_height() {
    let view = sample_db().view();
    assert_eq!(view.latest_height(), Ok(5));
    assert_eq!(view.latest_genesis_height(), Ok(3));
    assert_eq!(view.da_height(), Ok(0));
    let empty = ReadDatabase::new(OnChainStore::new(), OffChainStore::new()).view();
    assert_eq!(empty.latest_height(), Err(StorageError::NotFound));
    assert_eq!(empty.latest_genesis_height(), Err(StorageError::NotFound));
}

#[test]
fn message_queries_route_on_chain() {
    let mut on = OnChainStore::new();
    on.add_message(Message { nonce: 4, sender: 1, recipient: 2, amount: 10, da_height: 1 });
    on.add_message(Message { nonce: 6, sender: 3, recipient: 4, amount: 20, da_height: 2 });
    on.add_spent_message(4);
    let view = ReadDatabase::new(on, OffChainStore::new()).view();
    assert_eq!(view.message_exists(4), Ok(true));
    assert_eq!(view.message_exists(5), Ok(false));
    assert_eq!(view.message_is_spent(4), Ok(true));
    assert_eq!(view.message_is_spent(6), Ok(false));
    let all = view.all_messages(None, IterDirection::Forward);
    assert_eq!(all.len(), 2);
    assert_eq!(all[0].nonce, 4);
    assert_eq!(all[1].nonce, 6);
    let from5 = view.all_messages(Some(5), IterDirection::Forward);
    assert_eq!(from5.len(), 1);
    assert_eq!(from5[0].nonce, 6);
    let rev = view.all_messages(None, IterDirection::Reverse);
    assert_eq!(rev[0].nonce, 6);
}

#[test]
fn contract_balances_scan() {
    let mut on = OnChainStore::new();
    on.add_balance_row(IndexRow { group: 7, key: 2, value: 200 });
    on.add_balance_row(IndexRow { group: 7, key: 1, value: 100 });
    on.add_balance_row(IndexRow { group: 8, key: 1, value: 999 });
    let view = ReadDatabase::new(on, OffChainStore::new()).view();
    let balances = view.contract_balances(7, None, IterDirection::Forward);
    assert_eq!(balances.len(), 2);
    assert_eq!(balances[0].asset_id, 1);
    assert_eq!(balances[0].amount, 100);
    assert_eq!(balances[1].asset_id, 2);
    let from2 = view.contract_balances(7, Some(2), IterDirection::Forward);
    assert_eq!(from2.len(), 1);
    assert_eq!(from2[0].amount, 200);
    let rev = view.contract_balances(7, None, IterDirection::Reverse);
    assert_eq!(rev[0].asset_id, 2);
}

#[test]
fn kv_lookups_route_on_chain() {
    let mut on = OnChainStore::new();
    on.set_kv_entry(11, 42);
    let view = ReadDatabase::new(on, OffChainStore::new()).view();
    assert_eq!(view.get(11), Ok(Some(42)));
    assert_eq!(view.get(12), Ok(None));
    assert_eq!(view.contains_key(11), Ok(true));
    assert_eq!(view.contains_key(12), Ok(false));
}

#[test]
fn block_history_proof_lookup() {
    let mut on = OnChainStore::new();
    on.add_merkle_proof(2, 5, MerkleProof { proof_set: vec![10, 20], proof_index: 2 });
    let view = ReadDatabase::new(on, OffChainStore::new()).view();
    let proof = view.block_history_proof(2, 5).unwrap();
    assert_eq!(proof.proof_set, vec![10, 20]);
    assert_eq!(proof.proof_index, 2);
    assert_eq!(view.block_history_proof(2, 6), Err(StorageError::NotFound));
}

#[test]
fn off_chain_point_lookups() {
    let mut off = OffChainStore::new();
    off.add_block_height(101, 1);
    off.set_tx_status(55, TransactionStatus::Success);
    off.set_contract_salt(7, 777);
    off.set_old_consensus(1, Consensus::PoaConsensus);
    off.add_old_transaction(Transaction { id: 55 });
    off.set_relayed_status(66, RelayedTransactionStatus::Failed { block_height: 2 });
    let view = ReadDatabase::new(OnChainStore::new(), off).view();
    assert_eq!(view.block_height(101), Ok(1));
    assert_eq!(view.block_height(999), Err(StorageError::NotFound));
    assert_eq!(view.tx_status(55), Ok(TransactionStatus::Success));
    assert_eq!(view.tx_status(56), Err(StorageError::NotFound));
    assert_eq!(view.contract_salt(7), Ok(777));
    assert_eq!(view.old_block_consensus(1), Ok(Consensus::PoaConsensus));
    assert_eq!(view.old_transaction(55), Ok(Some(Transaction { id: 55 })));
    assert_eq!(view.old_transaction(56), Ok(None));
    assert_eq!(
        view.relayed_tx_status(66),
        Ok(Some(RelayedTransactionStatus::Failed { block_height: 2 }))
    );
    assert_eq!(view.transaction_status(66), view.relayed_tx_status(66));
    assert_eq!(view.relayed_tx_status(67), Ok(None));
}

#[test]
fn owned_indices_scan() {
    let mut off = OffChainStore::new();
    off.add_owned_coin(5, 30);
    off.add_owned_coin(5, 10);
    off.add_owned_coin(6, 20);
    off.add_owned_message(5, 100);
    off.add_owned_tx(5, TxPointer { block_height: 2, tx_index: 1 }, 901);
    off.add_owned_tx(5, TxPointer { block_height: 1, tx_index: 3 }, 902);
    let view = ReadDatabase::new(OnChainStore::new(), off).view();
    assert_eq!(view.owned_coins_ids(5, None, IterDirection::Forward), vec![10, 30]);
    assert_eq!(view.owned_coins_ids(5, Some(11), IterDirection::Forward), vec![30]);
    assert_eq!(view.owned_coins_ids(5, None, IterDirection::Reverse), vec![30, 10]);
    assert_eq!(view.owned_coins_ids(6, None, IterDirection::Forward), vec![20]);
    assert_eq!(view.owned_message_ids(5, None, IterDirection::Forward), vec![100]);
    assert_eq!(view.owned_message_ids(7, None, IterDirection::Forward), Vec::<u64>::new());
    let txs = view.owned_transactions_ids(5, None, IterDirection::Forward);
    assert_eq!(
        txs,
        vec![
            (TxPointer { block_height: 1, tx_index: 3 }, 902),
            (TxPointer { block_height: 2, tx_index: 1 }, 901),
        ]
    );
    let later = view.owned_transactions_ids(
        5,
        Some(TxPointer { block_height: 2, tx_index: 0 }),
        IterDirection::Forward,
    );
    assert_eq!(later, vec![(TxPointer { block_height: 2, tx_index: 1 }, 901)]);
}

#[test]
fn merged_scan_outside_held_ranges_is_empty() {
    let view = sample_db().view();
    let rows = view.blocks(Some(10), IterDirection::Forward);
    assert!(rows.is_empty());
    let rows = view.blocks(Some(0), IterDirection::Reverse);
    assert!(rows.is_empty());
}

#[test]
fn merged_scan_over_empty_stores() {
    let mut on = OnChainStore::new();
    on.set_genesis_height(0);
    let view = ReadDatabase::new(on, OffChainStore::new()).view();
    assert!(view.blocks(None, IterDirection::Forward).is_empty());
    assert!(view.blocks(Some(0), IterDirection::Reverse).is_empty());
}

#[test]
fn owned_transaction_pointer_roundtrip_at_bounds() {
    let mut off = OffChainStore::new();
    let p = TxPointer { block_height: u32::MAX, tx_index: u16::MAX };
    off.add_owned_tx(1, p, 42);
    let view = ReadDatabase::new(OnChainStore::new(), off).view();
    let txs = view.owned_transactions_ids(1, None, IterDirection::Forward);
    assert_eq!(txs, vec![(p, 42)]);
}
