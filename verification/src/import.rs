//! Genesis import: bulk-loading a brand-new ledger from a decoded snapshot
//! inside one atomic write transaction.
//!
//! Rows arrive grouped per table kind.  Each handler validates its rows
//! (causal bounds against the declared genesis point, duplicate keys for
//! the simple per-row tables) and stages writes into the transaction; the
//! two per-contract tables (key/value state, asset balances) are merged in
//! bulk without per-row duplicate checks.  The transaction is committed
//! once, after every group succeeded; any failure discards it whole, so a
//! failed import leaves no trace.

use std::collections::HashMap;
use vstd::prelude::*;

use crate::onchain::{OnChainModel, OnChainStore};
use crate::tables;
use crate::types::{
    BlockHeight, CompressedCoin, ContractUtxo, DaBlockHeight, ImportError, IndexRow, Message,
    TableEntry,
};

verus! {

broadcast use vstd::std_specs::hash::group_hash_axioms;

/// The staged tables of one genesis import.  Begun from the live store,
/// written through by the handlers, and either committed exactly once or
/// discarded.
pub struct StorageTransaction {
    pub coins: HashMap<u64, CompressedCoin>,
    pub messages: Vec<Message>,
    pub contract_code: HashMap<u64, Vec<u8>>,
    pub contract_utxos: HashMap<u64, ContractUtxo>,
    pub contract_states: Vec<IndexRow>,
    pub contract_balances: Vec<IndexRow>,
}

/// Model of the tables a genesis import writes.
pub ghost struct TablesModel {
    pub coins: Map<u64, CompressedCoin>,
    pub messages: Seq<Message>,
    pub contract_code: Map<u64, Vec<u8>>,
    pub contract_utxos: Map<u64, ContractUtxo>,
    pub contract_states: Seq<IndexRow>,
    pub contract_balances: Seq<IndexRow>,
}

/// The import-writable tables of a store model.
pub open spec fn store_tables(m: OnChainModel) -> TablesModel {
    TablesModel {
        coins: m.coins,
        messages: m.messages,
        contract_code: m.contract_code,
        contract_utxos: m.contract_utxos,
        contract_states: m.contract_states,
        contract_balances: m.contract_balances,
    }
}

impl View for StorageTransaction {
    type V = TablesModel;

    open spec fn view(&self) -> TablesModel {
        TablesModel {
            coins: self.coins@,
            messages: self.messages@,
            contract_code: self.contract_code@,
            contract_utxos: self.contract_utxos@,
            contract_states: self.contract_states@,
            contract_balances: self.contract_balances@,
        }
    }
}

impl StorageTransaction {
    pub open spec fn wf(&self) -> bool {
        &&& tables::messages_sorted(self@.messages)
        &&& tables::rows_sorted(self@.contract_states)
        &&& tables::rows_sorted(self@.contract_balances)
    }

    /// Open the transaction for a whole import: it stages over the tables
    /// as the store holds them now.
    pub fn begin(store: &OnChainStore) -> (tx: Self)
        requires
            store.wf(),
        ensures
            tx@ == store_tables(store@),
            tx.wf(),
    {
        StorageTransaction {
            coins: store.coins.clone(),
            messages: tables::copy_messages(&store.messages),
            contract_code: store.contract_code.clone(),
            contract_utxos: store.contract_utxos.clone(),
            contract_states: tables::copy_rows(&store.contract_states),
            contract_balances: tables::copy_rows(&store.contract_balances),
        }
    }

    /// Commit the staged tables to the store, all at once.
    pub fn commit(self, store: &mut OnChainStore)
        ensures
            final(store)@ == (OnChainModel {
                coins: self@.coins,
                messages: self@.messages,
                contract_code: self@.contract_code,
                contract_utxos: self@.contract_utxos,
                contract_states: self@.contract_states,
                contract_balances: self@.contract_balances,
                ..old(store)@
            }),
    {
        let StorageTransaction {
            coins,
            messages,
            contract_code,
            contract_utxos,
            contract_states,
            contract_balances,
        } = self;
        store.coins = coins;
        store.messages = messages;
        store.contract_code = contract_code;
        store.contract_utxos = contract_utxos;
        store.contract_states = contract_states;
        store.contract_balances = contract_balances;
    }

    /// Merge a batch of key/value state rows into the per-contract state
    /// tables.  The bulk primitive keeps no per-row duplicate check: a row
    /// overwrites the key it names.  An empty batch is a no-op.
    pub fn update_contract_states(&mut self, group: &Vec<IndexRow>)
        requires
            old(self).wf(),
        ensures
            final(self).wf(),
            final(self)@ == (TablesModel {
                contract_states: merge_rows(old(self)@.contract_states, group@),
                ..old(self)@
            }),
    {
        let ghost t0 = self@.contract_states;
        proof {
            assert(group@.skip(0) =~= group@);
        }
        let mut i: usize = 0;
        while i < group.len()
            invariant
                i <= group@.len(),
                tables::rows_sorted(self@.contract_states),
                merge_rows(t0, group@) == merge_rows(self@.contract_states, group@.skip(i as int)),
                self@.coins == old(self)@.coins,
                self@.messages == old(self)@.messages,
                self@.contract_code == old(self)@.contract_code,
                self@.contract_utxos == old(self)@.contract_utxos,
                self@.contract_balances == old(self)@.contract_balances,
                tables::messages_sorted(self@.messages),
                tables::rows_sorted(self@.contract_balances),
            decreases group@.len() - i,
        {
            proof {
                assert(group@.skip(i as int)[0] == group@[i as int]);
                assert(group@.skip(i as int).skip(1) =~= group@.skip(i + 1));
            }
            tables::insert_row(&mut self.contract_states, group[i]);
            i += 1;
        }
        proof {
            assert(group@.skip(group@.len() as int) =~= Seq::<IndexRow>::empty());
        }
    }

    /// Merge a batch of asset balance rows into the per-contract balance
    /// tables, under the same bulk contract as the state rows.
    pub fn update_contract_balances(&mut self, group: &Vec<IndexRow>)
        requires
            old(self).wf(),
        ensures
            final(self).wf(),
            final(self)@ == (TablesModel {
                contract_balances: merge_rows(old(self)@.contract_balances, group@),
                ..old(self)@
            }),
    {
        let ghost t0 = self@.contract_balances;
        proof {
            assert(group@.skip(0) =~= group@);
        }
        let mut i: usize = 0;
        while i < group.len()
            invariant
                i <= group@.len(),
                tables::rows_sorted(self@.contract_balances),
                merge_rows(t0, group@) == merge_rows(
                    self@.contract_balances,
                    group@.skip(i as int),
                ),
                self@.coins == old(self)@.coins,
                self@.messages == old(self)@.messages,
                self@.contract_code == old(self)@.contract_code,
                self@.contract_utxos == old(self)@.contract_utxos,
                self@.contract_states == old(self)@.contract_states,
                tables::messages_sorted(self@.messages),
                tables::rows_sorted(self@.contract_states),
            decreases group@.len() - i,
        {
            proof {
                assert(group@.skip(i as int)[0] == group@[i as int]);
                assert(group@.skip(i as int).skip(1) =~= group@.skip(i + 1));
            }
            tables::insert_row(&mut self.contract_balances, group[i]);
            i += 1;
        }
        proof {
            assert(group@.skip(group@.len() as int) =~= Seq::<IndexRow>::empty());
        }
    }
}

/// Folding a batch of rows into a sorted row table, first row first.
pub open spec fn merge_rows(s: Seq<IndexRow>, rows: Seq<IndexRow>) -> Seq<IndexRow>
    decreases rows.len(),
{
    if rows.len() == 0 {
        s
    } else {
        merge_rows(tables::row_sorted_insert(s, rows[0]), rows.skip(1))
    }
}

// ---------------------------------------------------------------------------
// Per-row initializers.
// ---------------------------------------------------------------------------

/// A coin may not point at a block above the genesis height being built.
pub open spec fn coin_entry_ok(e: TableEntry<CompressedCoin>, height: BlockHeight) -> bool {
    e.value.tx_pointer.block_height <= height
}

/// What staging one coin does: reject a coin from the future, reject a
/// duplicate UTXO id, otherwise record the coin under its UTXO id.
pub open spec fn init_coin_spec(
    t: TablesModel,
    e: TableEntry<CompressedCoin>,
    height: BlockHeight,
) -> Result<TablesModel, ImportError> {
    if !coin_entry_ok(e, height) {
        Result::Err(ImportError::CoinHeightAboveGenesis)
    } else if t.coins.contains_key(e.key) {
        Result::Err(ImportError::CoinAlreadyExists)
    } else {
        Result::Ok(TablesModel { coins: t.coins.insert(e.key, e.value), ..t })
    }
}

/// Stage one coin, validating its causal bound and key freshness.
pub fn init_coin(
    transaction: &mut StorageTransaction,
    coin: &TableEntry<CompressedCoin>,
    height: BlockHeight,
) -> (r: Result<(), ImportError>)
    requires
        old(transaction).wf(),
    ensures
        final(transaction).wf(),
        match init_coin_spec(old(transaction)@, *coin, height) {
            Result::Ok(t) => r is Ok && final(transaction)@ == t,
            Result::Err(e) => r == Result::<(), ImportError>::Err(e),
        },
{
    let utxo_id = coin.key;
    let compressed_coin = CompressedCoin {
        owner: coin.value.owner,
        amount: coin.value.amount,
        asset_id: coin.value.asset_id,
        tx_pointer: coin.value.tx_pointer,
    };

    // a coin can't point to blocks in the future
    let coin_height = coin.value.tx_pointer.block_height;
    if coin_height > height {
        return Err(ImportError::CoinHeightAboveGenesis);
    }
    if transaction.coins.insert(utxo_id, compressed_coin).is_some() {
        return Err(ImportError::CoinAlreadyExists);
    }
    Ok(())
}

/// A contract's latest UTXO may not point at a block above the genesis
/// height being built.
pub open spec fn contract_utxo_ok(e: TableEntry<ContractUtxo>, height: BlockHeight) -> bool {
    e.value.tx_pointer.block_height <= height
}

/// What staging one latest-UTXO entry does.
pub open spec fn init_contract_latest_utxo_spec(
    t: TablesModel,
    e: TableEntry<ContractUtxo>,
    height: BlockHeight,
) -> Result<TablesModel, ImportError> {
    if !contract_utxo_ok(e, height) {
        Result::Err(ImportError::ContractUtxoHeightAboveGenesis)
    } else if t.contract_utxos.contains_key(e.key) {
        Result::Err(ImportError::ContractUtxoAlreadyExists)
    } else {
        Result::Ok(TablesModel { contract_utxos: t.contract_utxos.insert(e.key, e.value), ..t })
    }
}

/// Stage one contract latest-UTXO entry.
pub fn init_contract_latest_utxo(
    transaction: &mut StorageTransaction,
    entry: &TableEntry<ContractUtxo>,
    height: BlockHeight,
) -> (r: Result<(), ImportError>)
    requires
        old(transaction).wf(),
    ensures
        final(transaction).wf(),
        match init_contract_latest_utxo_spec(old(transaction)@, *entry, height) {
            Result::Ok(t) => r is Ok && final(transaction)@ == t,
            Result::Err(e) => r == Result::<(), ImportError>::Err(e),
        },
{
    let contract_id = entry.key;
    if entry.value.tx_pointer.block_height > height {
        return Err(ImportError::ContractUtxoHeightAboveGenesis);
    }
    if transaction.contract_utxos.insert(contract_id, entry.value).is_some() {
        return Err(ImportError::ContractUtxoAlreadyExists);
    }
    Ok(())
}

/// What staging one code entry does: only the duplicate-key check guards
/// it.
pub open spec fn init_contract_raw_code_spec(t: TablesModel, e: TableEntry<Vec<u8>>) -> Result<
    TablesModel,
    ImportError,
> {
    if t.contract_code.contains_key(e.key) {
        Result::Err(ImportError::ContractCodeAlreadyExists)
    } else {
        Result::Ok(TablesModel { contract_code: t.contract_code.insert(e.key, e.value), ..t })
    }
}

/// Stage one contract's code.
pub fn init_contract_raw_code(
    transaction: &mut StorageTransaction,
    entry: TableEntry<Vec<u8>>,
) -> (r: Result<(), ImportError>)
    requires
        old(transaction).wf(),
    ensures
        final(transaction).wf(),
        match init_contract_raw_code_spec(old(transaction)@, entry) {
            Result::Ok(t) => r is Ok && final(transaction)@ == t,
            Result::Err(e) => r == Result::<(), ImportError>::Err(e),
        },
{
    let TableEntry { key: contract_id, value: contract } = entry;
    if transaction.contract_code.insert(contract_id, contract).is_some() {
        return Err(ImportError::ContractCodeAlreadyExists);
    }
    Ok(())
}

/// A message may not originate above the genesis DA height being built.
pub open spec fn message_entry_ok(m: Message, da_height: DaBlockHeight) -> bool {
    m.da_height <= da_height
}

/// What staging one message does: reject a message from the DA future,
/// reject a duplicate nonce, otherwise record the message under its own
/// nonce.
pub open spec fn init_da_message_spec(
    t: TablesModel,
    m: Message,
    da_height: DaBlockHeight,
) -> Result<TablesModel, ImportError> {
    if !message_entry_ok(m, da_height) {
        Result::Err(ImportError::MessageDaHeightAboveGenesis)
    } else if tables::contains_nonce(t.messages, m.nonce) {
        Result::Err(ImportError::MessageAlreadyExists)
    } else {
        Result::Ok(TablesModel { messages: tables::msg_sorted_insert(t.messages, m), ..t })
    }
}

/// Stage one bridged message, keyed by its own nonce.
pub fn init_da_message(
    transaction: &mut StorageTransaction,
    msg: TableEntry<Message>,
    da_height: DaBlockHeight,
) -> (r: Result<(), ImportError>)
    requires
        old(transaction).wf(),
    ensures
        final(transaction).wf(),
        match init_da_message_spec(old(transaction)@, msg.value, da_height) {
            Result::Ok(t) => r is Ok && final(transaction)@ == t,
            Result::Err(e) => r == Result::<(), ImportError>::Err(e),
        },
{
    let message: Message = msg.value;
    if message.da_height > da_height {
        return Err(ImportError::MessageDaHeightAboveGenesis);
    }
    if tables::insert_message(&mut transaction.messages, message).is_some() {
        return Err(ImportError::MessageAlreadyExists);
    }
    Ok(())
}

// ---------------------------------------------------------------------------
// Per-table folds.
// ---------------------------------------------------------------------------

/// Staging a batch of coins, first row first; the first failing row stops
/// the batch with its error.
pub open spec fn import_coins_spec(
    t: TablesModel,
    entries: Seq<TableEntry<CompressedCoin>>,
    height: BlockHeight,
) -> Result<TablesModel, ImportError>
    decreases entries.len(),
{
    if entries.len() == 0 {
        Result::Ok(t)
    } else {
        match init_coin_spec(t, entries[0], height) {
            Result::Ok(t2) => import_coins_spec(t2, entries.skip(1), height),
            Result::Err(e) => Result::Err(e),
        }
    }
}

/// Staging a batch of messages, first row first.
pub open spec fn import_messages_spec(
    t: TablesModel,
    entries: Seq<TableEntry<Message>>,
    da_height: DaBlockHeight,
) -> Result<TablesModel, ImportError>
    decreases entries.len(),
{
    if entries.len() == 0 {
        Result::Ok(t)
    } else {
        match init_da_message_spec(t, entries[0].value, da_height) {
            Result::Ok(t2) => import_messages_spec(t2, entries.skip(1), da_height),
            Result::Err(e) => Result::Err(e),
        }
    }
}

/// Staging a batch of contract code entries, first row first.
pub open spec fn import_code_spec(t: TablesModel, entries: Seq<TableEntry<Vec<u8>>>) -> Result<
    TablesModel,
    ImportError,
>
    decreases entries.len(),
{
    if entries.len() == 0 {
        Result::Ok(t)
    } else {
        match init_contract_raw_code_spec(t, entries[0]) {
            Result::Ok(t2) => import_code_spec(t2, entries.skip(1)),
            Result::Err(e) => Result::Err(e),
        }
    }
}

/// Staging a batch of latest-UTXO entries, first row first.
pub open spec fn import_utxos_spec(
    t: TablesModel,
    entries: Seq<TableEntry<ContractUtxo>>,
    height: BlockHeight,
) -> Result<TablesModel, ImportError>
    decreases entries.len(),
{
    if entries.len() == 0 {
        Result::Ok(t)
    } else {
        match init_contract_latest_utxo_spec(t, entries[0], height) {
            Result::Ok(t2) => import_utxos_spec(t2, entries.skip(1), height),
            Result::Err(e) => Result::Err(e),
        }
    }
}

// ---------------------------------------------------------------------------
// The handler registry.
// ---------------------------------------------------------------------------

/// One batch of snapshot rows, tagged with the table kind it belongs to.
pub enum TableGroup {
    Coins(Vec<TableEntry<CompressedCoin>>),
    Messages(Vec<TableEntry<Message>>),
    ContractsRawCode(Vec<TableEntry<Vec<u8>>>),
    ContractsLatestUtxo(Vec<TableEntry<ContractUtxo>>),
    ContractsState(Vec<IndexRow>),
    ContractsAssets(Vec<IndexRow>),
}

impl TableGroup {
    /// A group that carries no rows.
    pub open spec fn is_empty(self) -> bool {
        match self {
            TableGroup::Coins(v) => v@.len() == 0,
            TableGroup::Messages(v) => v@.len() == 0,
            TableGroup::ContractsRawCode(v) => v@.len() == 0,
            TableGroup::ContractsLatestUtxo(v) => v@.len() == 0,
            TableGroup::ContractsState(v) => v@.len() == 0,
            TableGroup::ContractsAssets(v) => v@.len() == 0,
        }
    }
}

/// What processing one group does to the staged tables: the fold of its
/// table's per-row step, or the bulk merge for the two per-contract
/// tables.
pub open spec fn process_spec(
    t: TablesModel,
    group: TableGroup,
    height: BlockHeight,
    da_height: DaBlockHeight,
) -> Result<TablesModel, ImportError> {
    match group {
        TableGroup::Coins(v) => import_coins_spec(t, v@, height),
        TableGroup::Messages(v) => import_messages_spec(t, v@, da_height),
        TableGroup::ContractsRawCode(v) => import_code_spec(t, v@),
        TableGroup::ContractsLatestUtxo(v) => import_utxos_spec(t, v@, height),
        TableGroup::ContractsState(v) => Result::Ok(
            TablesModel { contract_states: merge_rows(t.contract_states, v@), ..t },
        ),
        TableGroup::ContractsAssets(v) => Result::Ok(
            TablesModel { contract_balances: merge_rows(t.contract_balances, v@), ..t },
        ),
    }
}

/// The import strategy bound to the genesis point being built: it carries
/// the target genesis height and DA height every causal bound is checked
/// against.
pub struct Handler {
    pub block_height: BlockHeight,
    pub da_block_height: DaBlockHeight,
}

impl Handler {
    pub fn new(block_height: BlockHeight, da_block_height: DaBlockHeight) -> (h: Self)
        ensures
            h.block_height == block_height,
            h.da_block_height == da_block_height,
    {
        Handler { block_height, da_block_height }
    }

    /// Stage one group of rows into the transaction.  The first failing
    /// row aborts the group with its error and fails the whole import.
    #[verifier::loop_isolation(false)]
    pub fn process(&self, group: TableGroup, tx: &mut StorageTransaction) -> (r: Result<
        (),
        ImportError,
    >)
        requires
            old(tx).wf(),
        ensures
            final(tx).wf(),
            match process_spec(old(tx)@, group, self.block_height, self.da_block_height) {
                Result::Ok(t) => r is Ok && final(tx)@ == t,
                Result::Err(e) => r == Result::<(), ImportError>::Err(e),
            },
    {
        let ghost t0 = tx@;
        match group {
            TableGroup::Coins(v) => {
                proof {
                    assert(v@.skip(0) =~= v@);
                }
                let mut i: usize = 0;
                while i < v.len()
                    invariant
                        i <= v@.len(),
                        tx.wf(),
                        import_coins_spec(t0, v@, self.block_height) == import_coins_spec(
                            tx@,
                            v@.skip(i as int),
                            self.block_height,
                        ),
                    decreases v@.len() - i,
                {
                    proof {
                        assert(v@.skip(i as int)[0] == v@[i as int]);
                        assert(v@.skip(i as int).skip(1) =~= v@.skip(i + 1));
                    }
                    let res = init_coin(tx, &v[i], self.block_height);
                    if let Err(e) = res {
                        return Err(e);
                    }
                    i += 1;
                }
                proof {
                    assert(v@.skip(v@.len() as int) =~= Seq::<TableEntry<CompressedCoin>>::empty());
                }
                Ok(())
            },
            TableGroup::Messages(v) => {
                proof {
                    assert(v@.skip(0) =~= v@);
                }
                let mut i: usize = 0;
                while i < v.len()
                    invariant
                        i <= v@.len(),
                        tx.wf(),
                        import_messages_spec(t0, v@, self.da_block_height) == import_messages_spec(
                            tx@,
                            v@.skip(i as int),
                            self.da_block_height,
                        ),
                    decreases v@.len() - i,
                {
                    proof {
                        assert(v@.skip(i as int)[0] == v@[i as int]);
                        assert(v@.skip(i as int).skip(1) =~= v@.skip(i + 1));
                    }
                    let res = init_da_message(tx, v[i], self.da_block_height);
                    if let Err(e) = res {
                        return Err(e);
                    }
                    i += 1;
                }
                proof {
                    assert(v@.skip(v@.len() as int) =~= Seq::<TableEntry<Message>>::empty());
                }
                Ok(())
            },
            TableGroup::ContractsRawCode(v) => {
                let ghost all = v@;
                let mut v = v;
                proof {
                    assert(all.skip(0) =~= all);
                }
                while v.len() > 0
                    invariant
                        tx.wf(),
                        import_code_spec(t0, all) == import_code_spec(tx@, v@),
                    decreases v@.len(),
                {
                    proof {
                        assert(v@.remove(0) =~= v@.skip(1));
                    }
                    let entry = v.remove(0);
                    let res = init_contract_raw_code(tx, entry);
                    if let Err(e) = res {
                        return Err(e);
                    }
                }
                proof {
                    assert(v@ =~= Seq::<TableEntry<Vec<u8>>>::empty());
                }
                Ok(())
            },
            TableGroup::ContractsLatestUtxo(v) => {
                proof {
                    assert(v@.skip(0) =~= v@);
                }
                let mut i: usize = 0;
                while i < v.len()
                    invariant
                        i <= v@.len(),
                        tx.wf(),
                        import_utxos_spec(t0, v@, self.block_height) == import_utxos_spec(
                            tx@,
                            v@.skip(i as int),
                            self.block_height,
                        ),
                    decreases v@.len() - i,
                {
                    proof {
                        assert(v@.skip(i as int)[0] == v@[i as int]);
                        assert(v@.skip(i as int).skip(1) =~= v@.skip(i + 1));
                    }
                    let res = init_contract_latest_utxo(tx, &v[i], self.block_height);
                    if let Err(e) = res {
                        return Err(e);
                    }
                    i += 1;
                }
                proof {
                    assert(v@.skip(v@.len() as int) =~= Seq::<TableEntry<ContractUtxo>>::empty());
                }
                Ok(())
            },
            TableGroup::ContractsState(v) => {
                tx.update_contract_states(&v);
                Ok(())
            },
            TableGroup::ContractsAssets(v) => {
                tx.update_contract_balances(&v);
                Ok(())
            },
        }
    }
}

// ---------------------------------------------------------------------------
// The import coordinator.
// ---------------------------------------------------------------------------

/// Processing a run of groups, first group first.
pub open spec fn import_groups_spec(
    t: TablesModel,
    groups: Seq<TableGroup>,
    height: BlockHeight,
    da_height: DaBlockHeight,
) -> Result<TablesModel, ImportError>
    decreases groups.len(),
{
    if groups.len() == 0 {
        Result::Ok(t)
    } else {
        match process_spec(t, groups[0], height, da_height) {
            Result::Ok(t2) => import_groups_spec(t2, groups.skip(1), height, da_height),
            Result::Err(e) => Result::Err(e),
        }
    }
}

/// The store model after a successful import: the staged tables, with
/// everything else (blocks, heights, proofs, spent set) untouched.
pub open spec fn committed(m: OnChainModel, t: TablesModel) -> OnChainModel {
    OnChainModel {
        coins: t.coins,
        messages: t.messages,
        contract_code: t.contract_code,
        contract_utxos: t.contract_utxos,
        contract_states: t.contract_states,
        contract_balances: t.contract_balances,
        ..m
    }
}

/// Drive a whole genesis import inside one transaction: every group is
/// staged in order, and the transaction is committed only if all of them
/// succeeded.  If any row of any group fails, the transaction is
/// discarded and the store is left exactly as it was.
#[verifier::loop_isolation(false)]
pub fn import_genesis(
    store: &mut OnChainStore,
    groups: Vec<TableGroup>,
    block_height: BlockHeight,
    da_block_height: DaBlockHeight,
) -> (r: Result<(), ImportError>)
    requires
        old(store).wf(),
    ensures
        final(store).wf(),
        match import_groups_spec(
            store_tables(old(store)@),
            groups@,
            block_height,
            da_block_height,
        ) {
            Result::Ok(t) => r is Ok && final(store)@ == committed(old(store)@, t),
            Result::Err(e) => r == Result::<(), ImportError>::Err(e) && *final(store) == *old(
                store,
            ),
        },
{
    let ghost all = groups@;
    let handler = Handler::new(block_height, da_block_height);
    let mut tx = StorageTransaction::begin(store);
    let mut gs = groups;
    proof {
        assert(all.skip(0) =~= all);
    }
    while gs.len() > 0
        invariant
            store.wf(),
            *store == *old(store),
            tx.wf(),
            import_groups_spec(store_tables(old(store)@), all, block_height, da_block_height)
                == import_groups_spec(tx@, gs@, block_height, da_block_height),
            handler.block_height == block_height,
            handler.da_block_height == da_block_height,
        decreases gs@.len(),
    {
        proof {
            assert(gs@.remove(0) =~= gs@.skip(1));
        }
        let group = gs.remove(0);
        let res = handler.process(group, &mut tx);
        if let Err(e) = res {
            return Err(e);
        }
    }
    proof {
        assert(gs@ =~= Seq::<TableGroup>::empty());
    }
    tx.commit(store);
    Ok(())
}

/// An import whose groups all carry zero rows succeeds and changes
/// nothing: every fold of an empty batch hands the tables through
/// unchanged.
pub proof fn lemma_empty_import_commits_unchanged(
    t: TablesModel,
    groups: Seq<TableGroup>,
    height: BlockHeight,
    da_height: DaBlockHeight,
)
    requires
        forall|i: int| 0 <= i < groups.len() ==> (#[trigger] groups[i]).is_empty(),
    ensures
        import_groups_spec(t, groups, height, da_height) == Result::<
            TablesModel,
            ImportError,
        >::Ok(t),
    decreases groups.len(),
{
    if groups.len() > 0 {
        assert(process_spec(t, groups[0], height, da_height) == Result::<
            TablesModel,
            ImportError,
        >::Ok(t)) by {
            match groups[0] {
                TableGroup::ContractsState(v) => {
                    assert(TablesModel { contract_states: t.contract_states, ..t } == t);
                },
                TableGroup::ContractsAssets(v) => {
                    assert(TablesModel { contract_balances: t.contract_balances, ..t } == t);
                },
                _ => {},
            }
        }
        assert(forall|i: int|
            0 <= i < groups.skip(1).len() ==> (#[trigger] groups.skip(1)[i]).is_empty());
        lemma_empty_import_commits_unchanged(t, groups.skip(1), height, da_height);
    }
}

} // verus!
