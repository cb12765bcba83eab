//! Tests of the genesis import: causal bounds, duplicate rejection,
//! whole-import atomicity, and the bulk per-contract merges.

use ledger_store::import::{
    import_genesis, init_coin, init_contract_latest_utxo, init_contract_raw_code, init_da_message,
    Handler, StorageTransaction, TableGroup,
};
use ledger_store::onchain::OnChainStore;
use ledger_store::types::{
    CompressedCoin, ContractUtxo, ImportError, IndexRow, Message, TableEntry, TxPointer,
};

fn coin_at(height: u32) -> CompressedCoin {
    CompressedCoin {
        owner: 1,
        amount: 100,
        asset_id: 0,
        tx_pointer: TxPointer { block_height: height, tx_index: 0 },
    }
}

fn message_at(nonce: u64, da_height: u64) -> Message {
    Message { nonce, sender: 1, recipient: 2, amount: 10, da_height }
}

#[test]
fn coin_at_genesis_height_is_accepted() {
    let store = OnChainStore::new();
    let mut tx = StorageTransaction::begin(&store);
    let r = init_coin(&mut tx, &TableEntry { key: 1, value: coin_at(10) }, 10);
    assert_eq!(r, Ok(()));
    assert!(tx.coins.contains_key(&1));
}

#[test]
fn coin_above_genesis_height_is_rejected() {
    let store = OnChainStore::new();
    let mut tx = StorageTransaction::begin(&store);
    let r = init_coin(&mut tx, &TableEntry { key: 1, value: coin_at(11) }, 10);
    assert_eq!(r, Err(ImportError::CoinHeightAboveGenesis));
}

#[test]
fn contract_utxo_causal_bound() {
    let store = OnChainStore::new();
    let mut tx = StorageTransaction::begin(&store);
    let at = ContractUtxo { utxo_id: 5, tx_pointer: TxPointer { block_height: 10, tx_index: 0 } };
    assert_eq!(init_contract_latest_utxo(&mut tx, &TableEntry { key: 1, value: at }, 10), Ok(()));
    let above =
        ContractUtxo { utxo_id: 6, tx_pointer: TxPointer { block_height: 11, tx_index: 0 } };
    assert_eq!(
        init_contract_latest_utxo(&mut tx, &TableEntry { key: 2, value: above }, 10),
        Err(ImportError::ContractUtxoHeightAboveGenesis)
    );
}

#[test]
fn message_da_causal_bound() {
    let store = OnChainStore::new();
    let mut tx = StorageTransaction::begin(&store);
    assert_eq!(
        init_da_message(&mut tx, TableEntry { key: 1, value: message_at(1, 20) }, 20),
        Ok(())
    );
    assert_eq!(
        init_da_message(&mut tx, TableEntry { key: 2, value: message_at(2, 21) }, 20),
        Err(ImportError::MessageDaHeightAboveGenesis)
    );
}

#[test]
fn duplicate_coin_rejected_either_order() {
    for flip in [false, true] {
        let mut first = TableEntry { key: 7, value: coin_at(1) };
        let mut second = TableEntry { key: 7, value: coin_at(2) };
        if flip {
            std::mem::swap(&mut first, &mut second);
        }
        let mut store = OnChainStore::new();
        let groups = vec![TableGroup::Coins(vec![first, second])];
        let r = import_genesis(&mut store, groups, 10, 0);
        assert_eq!(r, Err(ImportError::CoinAlreadyExists));
        assert!(store.coins.is_empty());
    }
}

#[test]
fn duplicate_code_and_utxo_rejected() {
    let store = OnChainStore::new();
    let mut tx = StorageTransaction::begin(&store);
    assert_eq!(init_contract_raw_code(&mut tx, TableEntry { key: 3, value: vec![1, 2] }), Ok(()));
    assert_eq!(
        init_contract_raw_code(&mut tx, TableEntry { key: 3, value: vec![9] }),
        Err(ImportError::ContractCodeAlreadyExists)
    );
    let u = ContractUtxo { utxo_id: 1, tx_pointer: TxPointer { block_height: 0, tx_index: 0 } };
    assert_eq!(init_contract_latest_utxo(&mut tx, &TableEntry { key: 4, value: u }, 10), Ok(()));
    assert_eq!(
        init_contract_latest_utxo(&mut tx, &TableEntry { key: 4, value: u }, 10),
        Err(ImportError::ContractUtxoAlreadyExists)
    );
}

#[test]
fn duplicate_message_rejected() {
    let mut store = OnChainStore::new();
    let groups = vec![TableGroup::Messages(vec![
        TableEntry { key: 1, value: message_at(5, 0) },
        TableEntry { key: 2, value: message_at(5, 0) },
    ])];
    assert_eq!(import_genesis(&mut store, groups, 10, 10), Err(ImportError::MessageAlreadyExists));
    assert!(store.messages.is_empty());
}

#[test]
fn import_atomicity_discards_earlier_tables() {
    let mut store = OnChainStore::new();
    // Coins, code and state stage fine; the message group fails on its
    // second row.  Nothing of any group may be observable afterwards.
    let groups = vec![
        TableGroup::Coins(vec![TableEntry { key: 1, value: coin_at(1) }]),
        TableGroup::ContractsRawCode(vec![TableEntry { key: 2, value: vec![0xaa] }]),
        TableGroup::ContractsState(vec![IndexRow { group: 2, key: 1, value: 9 }]),
        TableGroup::Messages(vec![
            TableEntry { key: 1, value: message_at(1, 5) },
            TableEntry { key: 2, value: message_at(2, 99) },
        ]),
    ];
    let r = import_genesis(&mut store, groups, 10, 10);
    assert_eq!(r, Err(ImportError::MessageDaHeightAboveGenesis));
    assert!(store.coins.is_empty());
    assert!(store.contract_code.is_empty());
    assert!(store.contract_states.is_empty());
    assert!(store.messages.is_empty());
    let view = store.latest_view();
    assert_eq!(view.message_exists(1), Ok(false));
}

#[test]
fn empty_import_commits_and_changes_nothing() {
    let mut store = OnChainStore::new();
    store.set_genesis_height(4);
    store.add_block(ledger_store::types::Block { height: 4, id: 104 });
    let groups = vec![
        TableGroup::Coins(vec![]),
        TableGroup::Messages(vec![]),
        TableGroup::ContractsRawCode(vec![]),
        TableGroup::ContractsLatestUtxo(vec![]),
        TableGroup::ContractsState(vec![]),
        TableGroup::ContractsAssets(vec![]),
    ];
    assert_eq!(import_genesis(&mut store, groups, 4, 0), Ok(()));
    assert!(store.coins.is_empty());
    assert!(store.messages.is_empty());
    assert!(store.contract_code.is_empty());
    assert!(store.contract_utxos.is_empty());
    assert!(store.contract_states.is_empty());
    assert!(store.contract_balances.is_empty());
    let view = store.latest_view();
    assert_eq!(view.latest_height(), Ok(4));
    assert_eq!(view.latest_genesis_height(), Ok(4));
}

#[test]
fn successful_import_commits_every_table() {
    let mut store = OnChainStore::new();
    let groups = vec![
        TableGroup::Coins(vec![
            TableEntry { key: 1, value: coin_at(1) },
            TableEntry { key: 2, value: coin_at(2) },
        ]),
        TableGroup::Messages(vec![TableEntry { key: 1, value: message_at(5, 3) }]),
        TableGroup::ContractsRawCode(vec![TableEntry { key: 9, value: vec![1, 2, 3] }]),
        TableGroup::ContractsLatestUtxo(vec![TableEntry {
            key: 9,
            value: ContractUtxo {
                utxo_id: 77,
                tx_pointer: TxPointer { block_height: 2, tx_index: 0 },
            },
        }]),
        TableGroup::ContractsState(vec![IndexRow { group: 9, key: 4, value: 44 }]),
        TableGroup::ContractsAssets(vec![IndexRow { group: 9, key: 0, value: 1000 }]),
    ];
    assert_eq!(import_genesis(&mut store, groups, 10, 10), Ok(()));
    assert_eq!(store.coins.len(), 2);
    assert_eq!(store.coins.get(&1).unwrap().amount, 100);
    assert_eq!(store.messages.len(), 1);
    assert_eq!(store.contract_code.get(&9).unwrap(), &vec![1, 2, 3]);
    assert_eq!(store.contract_utxos.get(&9).unwrap().utxo_id, 77);
    assert_eq!(store.contract_states, vec![IndexRow { group: 9, key: 4, value: 44 }]);
    let view = store.latest_view();
    assert_eq!(view.message_exists(5), Ok(true));
    let balances = view.contract_balances(9, None, ledger_store::types::IterDirection::Forward);
    assert_eq!(balances.len(), 1);
    assert_eq!(balances[0].amount, 1000);
}

#[test]
fn bulk_merge_overwrites_and_keeps_order() {
    let store = OnChainStore::new();
    let mut tx = StorageTransaction::begin(&store);
    tx.update_contract_states(&vec![
        IndexRow { group: 1, key: 2, value: 10 },
        IndexRow { group: 1, key: 1, value: 20 },
        IndexRow { group: 1, key: 2, value: 30 },
    ]);
    assert_eq!(
        tx.contract_states,
        vec![IndexRow { group: 1, key: 1, value: 20 }, IndexRow { group: 1, key: 2, value: 30 }]
    );
    tx.update_contract_balances(&vec![IndexRow { group: 2, key: 5, value: 7 }]);
    assert_eq!(tx.contract_balances, vec![IndexRow { group: 2, key: 5, value: 7 }]);
}

#[test]
fn handler_carries_the_genesis_point() {
    let store = OnChainStore::new();
    let mut tx = StorageTransaction::begin(&store);
    let handler = Handler::new(10, 20);
    let r = handler.process(
        TableGroup::Coins(vec![TableEntry { key: 1, value: coin_at(10) }]),
        &mut tx,
    );
    assert_eq!(r, Ok(()));
    let r = handler.process(
        TableGroup::Messages(vec![TableEntry { key: 1, value: message_at(1, 21) }]),
        &mut tx,
    );
    assert_eq!(r, Err(ImportError::MessageDaHeightAboveGenesis));
}
