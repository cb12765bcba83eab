//! The historical-index store: derived projections and pre-boundary block
//! data, together with its snapshot view provider.
//!
//! Owner-keyed indices (owned coins, owned messages, owned transactions)
//! are row tables grouped by owner; the owned-transaction index packs the
//! transaction pointer `(block height, index)` into its row key so that
//! rows of one owner come out in pointer order.

use std::collections::HashMap;
use vstd::prelude::*;

use crate::tables;
use crate::types::{
    Block, BlockHeight, Consensus, IndexRow, IterDirection, Message, RelayedTransactionStatus,
    StorageError, Transaction, TransactionStatus, TxPointer,
};

verus! {

broadcast use vstd::std_specs::hash::group_hash_axioms;

/// Mathematical model of the historical-index store.
pub ghost struct OffChainModel {
    pub old_blocks: Seq<Block>,
    pub block_heights: Map<u64, BlockHeight>,
    pub tx_statuses: Map<u64, TransactionStatus>,
    pub owned_coins: Seq<IndexRow>,
    pub owned_messages: Seq<IndexRow>,
    pub owned_txs: Seq<IndexRow>,
    pub contract_salts: Map<u64, u64>,
    pub old_consensus: Map<BlockHeight, Consensus>,
    pub old_transactions: Map<u64, Transaction>,
    pub relayed_statuses: Map<u64, RelayedTransactionStatus>,
}

impl OffChainModel {
    /// Well-formedness: every scannable table is strictly sorted.
    pub open spec fn wf(self) -> bool {
        &&& tables::blocks_sorted(self.old_blocks)
        &&& tables::rows_sorted(self.owned_coins)
        &&& tables::rows_sorted(self.owned_messages)
        &&& tables::rows_sorted(self.owned_txs)
    }
}

/// The historical-index store.  Like the current-epoch store it is its own
/// snapshot view provider.
pub struct OffChainStore {
    pub old_blocks: Vec<Block>,
    pub block_heights: HashMap<u64, BlockHeight>,
    pub tx_statuses: HashMap<u64, TransactionStatus>,
    pub owned_coins: Vec<IndexRow>,
    pub owned_messages: Vec<IndexRow>,
    pub owned_txs: Vec<IndexRow>,
    pub contract_salts: HashMap<u64, u64>,
    pub old_consensus: HashMap<BlockHeight, Consensus>,
    pub old_transactions: HashMap<u64, Transaction>,
    pub relayed_statuses: HashMap<u64, RelayedTransactionStatus>,
}

/// A point-in-time-consistent handle over the historical-index store.
pub type OffChainView = OffChainStore;

impl View for OffChainStore {
    type V = OffChainModel;

    open spec fn view(&self) -> OffChainModel {
        OffChainModel {
            old_blocks: self.old_blocks@,
            block_heights: self.block_heights@,
            tx_statuses: self.tx_statuses@,
            owned_coins: self.owned_coins@,
            owned_messages: self.owned_messages@,
            owned_txs: self.owned_txs@,
            contract_salts: self.contract_salts@,
            old_consensus: self.old_consensus@,
            old_transactions: self.old_transactions@,
            relayed_statuses: self.relayed_statuses@,
        }
    }
}

/// The row key an owned-transaction pointer sorts under.
pub open spec fn pack_pointer(p: TxPointer) -> u64 {
    ((p.block_height as int) * 0x1_0000_0000 + (p.tx_index as int)) as u64
}

/// The pointer a row key of the owned-transaction index decodes to.
pub open spec fn unpack_pointer(key: u64) -> TxPointer {
    TxPointer {
        block_height: ((key as int) / 0x1_0000_0000) as u32,
        tx_index: ((key as int) % 0x10000) as u16,
    }
}

/// Packing a pointer into a row key loses nothing.
pub proof fn lemma_pack_pointer_roundtrip(p: TxPointer)
    ensures
        unpack_pointer(pack_pointer(p)) == p,
{
    let h = p.block_height as int;
    let i = p.tx_index as int;
    let key = h * 0x1_0000_0000 + i;
    assert(key == pack_pointer(p) as int);
    assert(key / 0x1_0000_0000 == h) by (nonlinear_arith)
        requires
            0 <= i < 0x1_0000_0000,
            0 <= h,
            key == h * 0x1_0000_0000 + i,
    ;
    assert(key % 0x10000 == i) by (nonlinear_arith)
        requires
            0 <= i < 0x10000,
            0 <= h,
            key == h * 0x1_0000_0000 + i,
    ;
}

/// The lower bound a scan of the owned-transaction index starts at.
pub open spec fn packed_start(start: Option<TxPointer>) -> Option<u64> {
    match start {
        Option::None => Option::None,
        Option::Some(p) => Option::Some(pack_pointer(p)),
    }
}

/// The keys of a row sequence, in order.
pub open spec fn rows_to_keys(s: Seq<IndexRow>) -> Seq<u64> {
    Seq::new(s.len(), |i: int| s[i].key)
}

/// The `(pointer, transaction id)` pairs a row sequence of the
/// owned-transaction index decodes to, in order.
pub open spec fn rows_to_owned_txs(s: Seq<IndexRow>) -> Seq<(TxPointer, u64)> {
    Seq::new(s.len(), |i: int| (unpack_pointer(s[i].key), s[i].value))
}

impl OffChainStore {
    pub open spec fn wf(&self) -> bool {
        self@.wf()
    }

    /// An empty historical index.
    pub fn new() -> (s: Self)
        ensures
            s.wf(),
            s@.old_blocks == Seq::<Block>::empty(),
            s@.block_heights == Map::<u64, BlockHeight>::empty(),
            s@.tx_statuses == Map::<u64, TransactionStatus>::empty(),
            s@.owned_coins == Seq::<IndexRow>::empty(),
            s@.owned_messages == Seq::<IndexRow>::empty(),
            s@.owned_txs == Seq::<IndexRow>::empty(),
            s@.contract_salts == Map::<u64, u64>::empty(),
            s@.old_consensus == Map::<BlockHeight, Consensus>::empty(),
            s@.old_transactions == Map::<u64, Transaction>::empty(),
            s@.relayed_statuses == Map::<u64, RelayedTransactionStatus>::empty(),
    {
        let s = OffChainStore {
            old_blocks: Vec::new(),
            block_heights: HashMap::new(),
            tx_statuses: HashMap::new(),
            owned_coins: Vec::new(),
            owned_messages: Vec::new(),
            owned_txs: Vec::new(),
            contract_salts: HashMap::new(),
            old_consensus: HashMap::new(),
            old_transactions: HashMap::new(),
            relayed_statuses: HashMap::new(),
        };
        proof {
            assert(s@.old_blocks =~= Seq::<Block>::empty());
            assert(s@.owned_coins =~= Seq::<IndexRow>::empty());
            assert(s@.owned_messages =~= Seq::<IndexRow>::empty());
            assert(s@.owned_txs =~= Seq::<IndexRow>::empty());
        }
        s
    }

    /// A read-only snapshot of the store as it stands now.
    pub fn latest_view(&self) -> (v: OffChainView)
        ensures
            v@ == self@,
    {
        OffChainStore {
            old_blocks: tables::copy_blocks(&self.old_blocks),
            block_heights: self.block_heights.clone(),
            tx_statuses: self.tx_statuses.clone(),
            owned_coins: tables::copy_rows(&self.owned_coins),
            owned_messages: tables::copy_rows(&self.owned_messages),
            owned_txs: tables::copy_rows(&self.owned_txs),
            contract_salts: self.contract_salts.clone(),
            old_consensus: self.old_consensus.clone(),
            old_transactions: self.old_transactions.clone(),
            relayed_statuses: self.relayed_statuses.clone(),
        }
    }

    // -- builders ----------------------------------------------------------

    /// Append a pre-boundary block to the tip of the historical chain.
    pub fn add_old_block(&mut self, b: Block)
        requires
            old(self)@.old_blocks.len() > 0 ==> old(self)@.old_blocks.last().height < b.height,
        ensures
            final(self)@ == (OffChainModel {
                old_blocks: old(self)@.old_blocks.push(b),
                ..old(self)@
            }),
    {
        self.old_blocks.push(b);
    }

    /// Index a block id to its height.
    pub fn add_block_height(&mut self, block_id: u64, height: BlockHeight)
        ensures
            final(self)@ == (OffChainModel {
                block_heights: old(self)@.block_heights.insert(block_id, height),
                ..old(self)@
            }),
    {
        self.block_heights.insert(block_id, height);
    }

    /// Record the status of a transaction.
    pub fn set_tx_status(&mut self, tx_id: u64, status: TransactionStatus)
        ensures
            final(self)@ == (OffChainModel {
                tx_statuses: old(self)@.tx_statuses.insert(tx_id, status),
                ..old(self)@
            }),
    {
        self.tx_statuses.insert(tx_id, status);
    }

    /// Index a coin under its owner.
    pub fn add_owned_coin(&mut self, owner: u64, utxo_id: u64)
        requires
            tables::rows_sorted(old(self)@.owned_coins),
        ensures
            final(self)@ == (OffChainModel {
                owned_coins: tables::row_sorted_insert(
                    old(self)@.owned_coins,
                    IndexRow { group: owner, key: utxo_id, value: 0 },
                ),
                ..old(self)@
            }),
    {
        tables::insert_row(&mut self.owned_coins, IndexRow { group: owner, key: utxo_id, value: 0 });
    }

    /// Index a message under its owner.
    pub fn add_owned_message(&mut self, owner: u64, nonce: u64)
        requires
            tables::rows_sorted(old(self)@.owned_messages),
        ensures
            final(self)@ == (OffChainModel {
                owned_messages: tables::row_sorted_insert(
                    old(self)@.owned_messages,
                    IndexRow { group: owner, key: nonce, value: 0 },
                ),
                ..old(self)@
            }),
    {
        tables::insert_row(
            &mut self.owned_messages,
            IndexRow { group: owner, key: nonce, value: 0 },
        );
    }

    /// Index a transaction under its owner, sorted by its pointer.
    pub fn add_owned_tx(&mut self, owner: u64, pointer: TxPointer, tx_id: u64)
        requires
            tables::rows_sorted(old(self)@.owned_txs),
        ensures
            final(self)@ == (OffChainModel {
                owned_txs: tables::row_sorted_insert(
                    old(self)@.owned_txs,
                    IndexRow { group: owner, key: pack_pointer(pointer), value: tx_id },
                ),
                ..old(self)@
            }),
    {
        let key: u64 = (pointer.block_height as u64) * 0x1_0000_0000u64 + (pointer.tx_index as u64);
        tables::insert_row(&mut self.owned_txs, IndexRow { group: owner, key, value: tx_id });
    }

    /// Record the salt a contract was deployed with.
    pub fn set_contract_salt(&mut self, contract_id: u64, salt: u64)
        ensures
            final(self)@ == (OffChainModel {
                contract_salts: old(self)@.contract_salts.insert(contract_id, salt),
                ..old(self)@
            }),
    {
        self.contract_salts.insert(contract_id, salt);
    }

    /// Record the consensus record of a pre-boundary block.
    pub fn set_old_consensus(&mut self, height: BlockHeight, consensus: Consensus)
        ensures
            final(self)@ == (OffChainModel {
                old_consensus: old(self)@.old_consensus.insert(height, consensus),
                ..old(self)@
            }),
    {
        self.old_consensus.insert(height, consensus);
    }

    /// Keep the body of a pre-boundary transaction.
    pub fn add_old_transaction(&mut self, tx: Transaction)
        ensures
            final(self)@ == (OffChainModel {
                old_transactions: old(self)@.old_transactions.insert(tx.id, tx),
                ..old(self)@
            }),
    {
        self.old_transactions.insert(tx.id, tx);
    }

    /// Record the status of a relayed transaction.
    pub fn set_relayed_status(&mut self, id: u64, status: RelayedTransactionStatus)
        ensures
            final(self)@ == (OffChainModel {
                relayed_statuses: old(self)@.relayed_statuses.insert(id, status),
                ..old(self)@
            }),
    {
        self.relayed_statuses.insert(id, status);
    }

    // -- queries -----------------------------------------------------------

    /// Pre-boundary blocks from an optional starting height, in the
    /// requested direction.
    pub fn old_blocks(&self, height: Option<BlockHeight>, direction: IterDirection) -> (r: Vec<
        Block,
    >)
        ensures
            r@ == tables::scan_blocks_spec(self@.old_blocks, height, direction),
    {
        tables::scan_blocks(&self.old_blocks, height, direction)
    }

    /// The height a block id is indexed at.
    pub fn block_height(&self, block_id: u64) -> (r: Result<BlockHeight, StorageError>)
        ensures
            r == if self@.block_heights.contains_key(block_id) {
                Result::<BlockHeight, StorageError>::Ok(self@.block_heights[block_id])
            } else {
                Result::<BlockHeight, StorageError>::Err(StorageError::NotFound)
            },
    {
        match self.block_heights.get(&block_id) {
            Some(h) => Ok(*h),
            None => Err(StorageError::NotFound),
        }
    }

    /// The recorded status of a transaction.
    pub fn tx_status(&self, tx_id: u64) -> (r: Result<TransactionStatus, StorageError>)
        ensures
            r == if self@.tx_statuses.contains_key(tx_id) {
                Result::<TransactionStatus, StorageError>::Ok(self@.tx_statuses[tx_id])
            } else {
                Result::<TransactionStatus, StorageError>::Err(StorageError::NotFound)
            },
    {
        match self.tx_statuses.get(&tx_id) {
            Some(s) => Ok(*s),
            None => Err(StorageError::NotFound),
        }
    }

    /// The coins of one owner from an optional starting UTXO id, in the
    /// requested direction.
    pub fn owned_coins_ids(
        &self,
        owner: u64,
        start_coin: Option<u64>,
        direction: IterDirection,
    ) -> (r: Vec<u64>)
        ensures
            r@ == rows_to_keys(
                tables::scan_rows_spec(self@.owned_coins, owner, start_coin, direction),
            ),
    {
        let rows = tables::scan_rows(&self.owned_coins, owner, start_coin, direction);
        keys_of_rows(rows)
    }

    /// The messages of one owner from an optional starting nonce, in the
    /// requested direction.
    pub fn owned_message_ids(
        &self,
        owner: u64,
        start_message_id: Option<u64>,
        direction: IterDirection,
    ) -> (r: Vec<u64>)
        ensures
            r@ == rows_to_keys(
                tables::scan_rows_spec(self@.owned_messages, owner, start_message_id, direction),
            ),
    {
        let rows = tables::scan_rows(&self.owned_messages, owner, start_message_id, direction);
        keys_of_rows(rows)
    }

    /// The transactions of one owner from an optional starting pointer, in
    /// the requested direction.
    pub fn owned_transactions_ids(
        &self,
        owner: u64,
        start: Option<TxPointer>,
        direction: IterDirection,
    ) -> (r: Vec<(TxPointer, u64)>)
        ensures
            r@ == rows_to_owned_txs(
                tables::scan_rows_spec(self@.owned_txs, owner, packed_start(start), direction),
            ),
    {
        let start_key: Option<u64> = match start {
            Some(p) => Some(
                (p.block_height as u64) * 0x1_0000_0000u64 + (p.tx_index as u64),
            ),
            None => None,
        };
        let rows = tables::scan_rows(&self.owned_txs, owner, start_key, direction);
        let mut r: Vec<(TxPointer, u64)> = Vec::new();
        let mut i: usize = 0;
        while i < rows.len()
            invariant
                i <= rows@.len(),
                r@.len() == i,
                forall|k: int| 0 <= k < i ==> r@[k] == (unpack_pointer(rows@[k].key), rows@[k].value),
            decreases rows@.len() - i,
        {
            let key = rows[i].key;
            let height: u32 = (key / 0x1_0000_0000u64) as u32;
            let index: u16 = (key % 0x10000u64) as u16;
            proof {
                assert(key / 0x1_0000_0000u64 < 0x1_0000_0000);
                assert(TxPointer { block_height: height, tx_index: index } == unpack_pointer(key));
            }
            r.push((TxPointer { block_height: height, tx_index: index }, rows[i].value));
            i += 1;
        }
        proof {
            assert(r@ =~= rows_to_owned_txs(rows@));
        }
        r
    }

    /// The salt a contract was deployed with.
    pub fn contract_salt(&self, contract_id: u64) -> (r: Result<u64, StorageError>)
        ensures
            r == if self@.contract_salts.contains_key(contract_id) {
                Result::<u64, StorageError>::Ok(self@.contract_salts[contract_id])
            } else {
                Result::<u64, StorageError>::Err(StorageError::NotFound)
            },
    {
        match self.contract_salts.get(&contract_id) {
            Some(s) => Ok(*s),
            None => Err(StorageError::NotFound),
        }
    }

    /// The consensus record of a pre-boundary block.
    pub fn old_block_consensus(&self, height: BlockHeight) -> (r: Result<Consensus, StorageError>)
        ensures
            r == if self@.old_consensus.contains_key(height) {
                Result::<Consensus, StorageError>::Ok(self@.old_consensus[height])
            } else {
                Result::<Consensus, StorageError>::Err(StorageError::NotFound)
            },
    {
        match self.old_consensus.get(&height) {
            Some(c) => Ok(*c),
            None => Err(StorageError::NotFound),
        }
    }

    /// The body of a pre-boundary transaction, if it is held.
    pub fn old_transaction(&self, id: u64) -> (r: Result<Option<Transaction>, StorageError>)
        ensures
            r == Result::<Option<Transaction>, StorageError>::Ok(
                if self@.old_transactions.contains_key(id) {
                    Option::Some(self@.old_transactions[id])
                } else {
                    Option::None
                },
            ),
    {
        match self.old_transactions.get(&id) {
            Some(t) => Ok(Some(*t)),
            None => Ok(None),
        }
    }

    /// The status of a relayed transaction, if one is recorded.
    pub fn relayed_tx_status(&self, id: u64) -> (r: Result<
        Option<RelayedTransactionStatus>,
        StorageError,
    >)
        ensures
            r == Result::<Option<RelayedTransactionStatus>, StorageError>::Ok(
                if self@.relayed_statuses.contains_key(id) {
                    Option::Some(self@.relayed_statuses[id])
                } else {
                    Option::None
                },
            ),
    {
        match self.relayed_statuses.get(&id) {
            Some(s) => Ok(Some(*s)),
            None => Ok(None),
        }
    }
}

fn keys_of_rows(rows: Vec<IndexRow>) -> (r: Vec<u64>)
    ensures
        r@ == rows_to_keys(rows@),
{
    let mut r: Vec<u64> = Vec::new();
    let mut i: usize = 0;
    while i < rows.len()
        invariant
            i <= rows@.len(),
            r@.len() == i,
            forall|k: int| 0 <= k < i ==> r@[k] == rows@[k].key,
        decreases rows@.len() - i,
    {
        r.push(rows[i].key);
        i += 1;
    }
    proof {
        assert(r@ =~= rows_to_keys(rows@));
    }
    r
}

} // verus!
