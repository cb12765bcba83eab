//! The current-epoch store: canonical chain state from the last regenesis
//! onward, together with its snapshot view provider.
//!
//! `latest_view` hands out an owned snapshot of the store's state: the view
//! reflects every write committed before it was taken and none committed
//! after, because later writes only mutate the store value, never the
//! snapshot.

use std::collections::HashMap;
use vstd::prelude::*;

use crate::tables;
use crate::types::{
    Block, BlockHeight, CompressedCoin, ContractBalance, ContractUtxo, DaBlockHeight, IndexRow,
    IterDirection, MerkleProof, Message, StorageError,
};

verus! {

broadcast use vstd::std_specs::hash::group_hash_axioms;

/// Mathematical model of the current-epoch store.
pub ghost struct OnChainModel {
    pub blocks: Seq<Block>,
    pub genesis_height: Option<BlockHeight>,
    pub da_height: DaBlockHeight,
    pub messages: Seq<Message>,
    pub spent: Set<u64>,
    pub coins: Map<u64, CompressedCoin>,
    pub contract_code: Map<u64, Vec<u8>>,
    pub contract_utxos: Map<u64, ContractUtxo>,
    pub contract_states: Seq<IndexRow>,
    pub contract_balances: Seq<IndexRow>,
    pub proofs: Map<u64, MerkleProof>,
    pub kv: Map<u64, u64>,
}

impl OnChainModel {
    /// Well-formedness: the scannable tables are strictly sorted, and every
    /// block of the current epoch sits at or above the regenesis boundary.
    pub open spec fn wf(self) -> bool {
        &&& tables::blocks_sorted(self.blocks)
        &&& tables::messages_sorted(self.messages)
        &&& tables::rows_sorted(self.contract_states)
        &&& tables::rows_sorted(self.contract_balances)
        &&& match self.genesis_height {
            Option::Some(g) => forall|i: int|
                0 <= i < self.blocks.len() ==> self.blocks[i].height >= g,
            Option::None => true,
        }
    }
}

/// The current-epoch store.  It doubles as its own snapshot view provider:
/// `latest_view` returns an independent copy pinned to the state at the
/// moment of the call.
pub struct OnChainStore {
    pub blocks: Vec<Block>,
    pub genesis_height: Option<BlockHeight>,
    pub da_height: DaBlockHeight,
    pub messages: Vec<Message>,
    pub spent_messages: HashMap<u64, ()>,
    pub coins: HashMap<u64, CompressedCoin>,
    pub contract_code: HashMap<u64, Vec<u8>>,
    pub contract_utxos: HashMap<u64, ContractUtxo>,
    pub contract_states: Vec<IndexRow>,
    pub contract_balances: Vec<IndexRow>,
    pub proofs: HashMap<u64, MerkleProof>,
    pub kv: HashMap<u64, u64>,
}

/// A point-in-time-consistent handle over the current-epoch store.
pub type OnChainView = OnChainStore;

impl View for OnChainStore {
    type V = OnChainModel;

    open spec fn view(&self) -> OnChainModel {
        OnChainModel {
            blocks: self.blocks@,
            genesis_height: self.genesis_height,
            da_height: self.da_height,
            messages: self.messages@,
            spent: self.spent_messages@.dom(),
            coins: self.coins@,
            contract_code: self.contract_code@,
            contract_utxos: self.contract_utxos@,
            contract_states: self.contract_states@,
            contract_balances: self.contract_balances@,
            proofs: self.proofs@,
            kv: self.kv@,
        }
    }
}

/// The key under which the proof for a `(message height, commit height)`
/// pair is held.
pub open spec fn proof_key(message_height: BlockHeight, commit_height: BlockHeight) -> u64 {
    ((message_height as int) * 0x1_0000_0000 + (commit_height as int)) as u64
}

impl OnChainStore {
    pub open spec fn wf(&self) -> bool {
        self@.wf()
    }

    /// An empty store: no blocks, no boundary, nothing imported.
    pub fn new() -> (s: Self)
        ensures
            s.wf(),
            s@.blocks == Seq::<Block>::empty(),
            s@.genesis_height is None,
            s@.da_height == 0,
            s@.messages == Seq::<Message>::empty(),
            s@.spent == Set::<u64>::empty(),
            s@.coins == Map::<u64, CompressedCoin>::empty(),
            s@.contract_code == Map::<u64, Vec<u8>>::empty(),
            s@.contract_utxos == Map::<u64, ContractUtxo>::empty(),
            s@.contract_states == Seq::<IndexRow>::empty(),
            s@.contract_balances == Seq::<IndexRow>::empty(),
            s@.proofs == Map::<u64, MerkleProof>::empty(),
            s@.kv == Map::<u64, u64>::empty(),
    {
        let s = OnChainStore {
            blocks: Vec::new(),
            genesis_height: None,
            da_height: 0,
            messages: Vec::new(),
            spent_messages: HashMap::new(),
            coins: HashMap::new(),
            contract_code: HashMap::new(),
            contract_utxos: HashMap::new(),
            contract_states: Vec::new(),
            contract_balances: Vec::new(),
            proofs: HashMap::new(),
            kv: HashMap::new(),
        };
        proof {
            assert(s@.blocks =~= Seq::<Block>::empty());
            assert(s@.messages =~= Seq::<Message>::empty());
            assert(s@.contract_states =~= Seq::<IndexRow>::empty());
            assert(s@.contract_balances =~= Seq::<IndexRow>::empty());
            assert(s@.spent =~= Set::<u64>::empty());
        }
        s
    }

    /// A read-only snapshot of the store as it stands now.
    pub fn latest_view(&self) -> (v: OnChainView)
        ensures
            v@ == self@,
    {
        OnChainStore {
            blocks: tables::copy_blocks(&self.blocks),
            genesis_height: self.genesis_height,
            da_height: self.da_height,
            messages: tables::copy_messages(&self.messages),
            spent_messages: self.spent_messages.clone(),
            coins: self.coins.clone(),
            contract_code: self.contract_code.clone(),
            contract_utxos: self.contract_utxos.clone(),
            contract_states: tables::copy_rows(&self.contract_states),
            contract_balances: tables::copy_rows(&self.contract_balances),
            proofs: self.proofs.clone(),
            kv: self.kv.clone(),
        }
    }

    /// Record the regenesis boundary: the height the current epoch starts
    /// at.  Set once per regenesis event, before current-epoch blocks are
    /// added.
    pub fn set_genesis_height(&mut self, h: BlockHeight)
        requires
            forall|i: int| 0 <= i < old(self)@.blocks.len() ==> old(self)@.blocks[i].height >= h,
        ensures
            final(self)@ == (OnChainModel { genesis_height: Option::Some(h), ..old(self)@ }),
    {
        self.genesis_height = Some(h);
    }

    pub fn set_da_height(&mut self, h: DaBlockHeight)
        ensures
            final(self)@ == (OnChainModel { da_height: h, ..old(self)@ }),
    {
        self.da_height = h;
    }

    /// Append a block to the tip of the current epoch.
    pub fn add_block(&mut self, b: Block)
        requires
            old(self)@.blocks.len() > 0 ==> old(self)@.blocks.last().height < b.height,
            old(self)@.genesis_height matches Option::Some(g) ==> b.height >= g,
        ensures
            final(self)@ == (OnChainModel { blocks: old(self)@.blocks.push(b), ..old(self)@ }),
    {
        self.blocks.push(b);
    }

    /// Record a bridged message (as the block importer would after genesis).
    pub fn add_message(&mut self, m: Message)
        requires
            old(self)@.messages.len() > 0 ==> old(self)@.messages.last().nonce < m.nonce,
        ensures
            final(self)@ == (OnChainModel { messages: old(self)@.messages.push(m), ..old(self)@ }),
    {
        self.messages.push(m);
    }

    /// Mark a message nonce as spent.
    pub fn add_spent_message(&mut self, nonce: u64)
        ensures
            final(self)@ == (OnChainModel { spent: old(self)@.spent.insert(nonce), ..old(self)@ }),
    {
        self.spent_messages.insert(nonce, ());
        proof {
            assert(self.spent_messages@.dom() =~= old(self).spent_messages@.dom().insert(nonce));
        }
    }

    /// Record the Merkle proof for one `(message height, commit height)`
    /// pair of the block-history commitment.
    pub fn add_merkle_proof(
        &mut self,
        message_height: BlockHeight,
        commit_height: BlockHeight,
        proof: MerkleProof,
    )
        ensures
            final(self)@ == (OnChainModel {
                proofs: old(self)@.proofs.insert(proof_key(message_height, commit_height), proof),
                ..old(self)@
            }),
    {
        let key: u64 = (message_height as u64) * 0x1_0000_0000u64 + (commit_height as u64);
        self.proofs.insert(key, proof);
    }

    /// Record a balance row directly (as the block importer would after
    /// genesis).
    pub fn add_balance_row(&mut self, r: IndexRow)
        requires
            tables::rows_sorted(old(self)@.contract_balances),
        ensures
            final(self)@ == (OnChainModel {
                contract_balances: tables::row_sorted_insert(old(self)@.contract_balances, r),
                ..old(self)@
            }),
    {
        tables::insert_row(&mut self.contract_balances, r);
    }

    /// Record a plain key/value pair of the canonical state.
    pub fn set_kv_entry(&mut self, key: u64, value: u64)
        ensures
            final(self)@ == (OnChainModel { kv: old(self)@.kv.insert(key, value), ..old(self)@ }),
    {
        self.kv.insert(key, value);
    }

    // -- queries -----------------------------------------------------------

    /// Blocks of the current epoch from an optional starting height, in the
    /// requested direction.
    pub fn blocks(&self, height: Option<BlockHeight>, direction: IterDirection) -> (r: Vec<Block>)
        ensures
            r@ == tables::scan_blocks_spec(self@.blocks, height, direction),
    {
        tables::scan_blocks(&self.blocks, height, direction)
    }

    /// The height of the chain tip.
    pub fn latest_height(&self) -> (r: Result<BlockHeight, StorageError>)
        ensures
            r == if self@.blocks.len() == 0 {
                Result::<BlockHeight, StorageError>::Err(StorageError::NotFound)
            } else {
                Result::<BlockHeight, StorageError>::Ok(self@.blocks.last().height)
            },
    {
        if self.blocks.len() == 0 {
            Err(StorageError::NotFound)
        } else {
            Ok(self.blocks[self.blocks.len() - 1].height)
        }
    }

    /// The regenesis boundary, if it has been recorded.
    pub fn latest_genesis_height(&self) -> (r: Result<BlockHeight, StorageError>)
        ensures
            r == match self@.genesis_height {
                Option::Some(g) => Result::<BlockHeight, StorageError>::Ok(g),
                Option::None => Result::<BlockHeight, StorageError>::Err(StorageError::NotFound),
            },
    {
        match self.genesis_height {
            Some(g) => Ok(g),
            None => Err(StorageError::NotFound),
        }
    }

    /// The DA height the chain has advanced to.
    pub fn da_height(&self) -> (r: Result<DaBlockHeight, StorageError>)
        ensures
            r == Result::<DaBlockHeight, StorageError>::Ok(self@.da_height),
    {
        Ok(self.da_height)
    }

    /// Messages from an optional starting nonce, in the requested
    /// direction.
    pub fn all_messages(&self, start: Option<u64>, direction: IterDirection) -> (r: Vec<Message>)
        ensures
            r@ == tables::scan_messages_spec(self@.messages, start, direction),
    {
        tables::scan_messages(&self.messages, start, direction)
    }

    /// Whether the message with this nonce has been spent.
    pub fn message_is_spent(&self, nonce: u64) -> (r: Result<bool, StorageError>)
        ensures
            r == Result::<bool, StorageError>::Ok(self@.spent.contains(nonce)),
    {
        Ok(self.spent_messages.contains_key(&nonce))
    }

    /// Whether a message with this nonce is held.
    pub fn message_exists(&self, nonce: u64) -> (r: Result<bool, StorageError>)
        ensures
            r == Result::<bool, StorageError>::Ok(tables::contains_nonce(self@.messages, nonce)),
    {
        let mut i: usize = 0;
        while i < self.messages.len()
            invariant
                i <= self.messages@.len(),
                forall|k: int| 0 <= k < i ==> self.messages@[k].nonce != nonce,
            decreases self.messages@.len() - i,
        {
            if self.messages[i].nonce == nonce {
                return Ok(true);
            }
            i += 1;
        }
        Ok(false)
    }

    /// The balances of one contract from an optional starting asset, in the
    /// requested direction.
    pub fn contract_balances(
        &self,
        contract: u64,
        start_asset: Option<u64>,
        direction: IterDirection,
    ) -> (r: Vec<ContractBalance>)
        ensures
            r@ == rows_to_balances(
                tables::scan_rows_spec(self@.contract_balances, contract, start_asset, direction),
            ),
    {
        let rows = tables::scan_rows(&self.contract_balances, contract, start_asset, direction);
        let mut r: Vec<ContractBalance> = Vec::new();
        let mut i: usize = 0;
        while i < rows.len()
            invariant
                i <= rows@.len(),
                r@.len() == i,
                forall|k: int| 0 <= k < i ==> r@[k] == balance_of_row(rows@[k]),
            decreases rows@.len() - i,
        {
            r.push(
                ContractBalance {
                    owner: rows[i].group,
                    amount: rows[i].value,
                    asset_id: rows[i].key,
                },
            );
            i += 1;
        }
        proof {
            assert(r@ =~= rows_to_balances(rows@));
        }
        r
    }

    /// The Merkle proof that the block at `message_height` belongs to the
    /// history committed to at `commit_height`.
    pub fn block_history_proof(
        &self,
        message_height: BlockHeight,
        commit_height: BlockHeight,
    ) -> (r: Result<MerkleProof, StorageError>)
        ensures
            self@.proofs.contains_key(proof_key(message_height, commit_height)) ==> (r
                matches Result::Ok(p) && p.proof_set@ == self@.proofs[proof_key(
                message_height,
                commit_height,
            )].proof_set@ && p.proof_index == self@.proofs[proof_key(
                message_height,
                commit_height,
            )].proof_index),
            !self@.proofs.contains_key(proof_key(message_height, commit_height)) ==> r
                == Result::<MerkleProof, StorageError>::Err(StorageError::NotFound),
    {
        let key: u64 = (message_height as u64) * 0x1_0000_0000u64 + (commit_height as u64);
        match self.proofs.get(&key) {
            Some(p) => Ok(MerkleProof { proof_set: copy_u64s(&p.proof_set), proof_index: p.proof_index }),
            None => Err(StorageError::NotFound),
        }
    }

    /// Point lookup in the canonical key/value state.
    pub fn get(&self, key: u64) -> (r: Result<Option<u64>, StorageError>)
        ensures
            r == Result::<Option<u64>, StorageError>::Ok(
                if self@.kv.contains_key(key) {
                    Option::Some(self@.kv[key])
                } else {
                    Option::None
                },
            ),
    {
        match self.kv.get(&key) {
            Some(v) => Ok(Some(*v)),
            None => Ok(None),
        }
    }

    /// Whether the canonical key/value state holds this key.
    pub fn contains_key(&self, key: u64) -> (r: Result<bool, StorageError>)
        ensures
            r == Result::<bool, StorageError>::Ok(self@.kv.contains_key(key)),
    {
        Ok(self.kv.contains_key(&key))
    }
}

/// The balance a row of the per-contract asset table states.
pub open spec fn balance_of_row(r: IndexRow) -> ContractBalance {
    ContractBalance { owner: r.group, amount: r.value, asset_id: r.key }
}

pub open spec fn rows_to_balances(s: Seq<IndexRow>) -> Seq<ContractBalance> {
    Seq::new(s.len(), |i: int| balance_of_row(s[i]))
}

fn copy_u64s(v: &Vec<u64>) -> (r: Vec<u64>)
    ensures
        r@ == v@,
{
    let mut r: Vec<u64> = Vec::new();
    let mut i: usize = 0;
    while i < v.len()
        invariant
            i <= v.len(),
            r@ == v@.take(i as int),
        decreases v.len() - i,
    {
        proof {
            assert(v@.take(i + 1) =~= v@.take(i as int).push(v@[i as int]));
        }
        r.push(v[i]);
        i += 1;
    }
    proof {
        assert(v@.take(v@.len() as int) =~= v@);
    }
    r
}

} // verus!
