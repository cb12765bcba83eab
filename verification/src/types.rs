//! Plain-value data model of the ledger store.
//!
//! Every identifier that the store keys on (UTXO ids, contract ids, message
//! nonces, block ids, transaction ids, addresses, asset ids) is modelled as a
//! `u64`; block heights are `u32` and DA (data-availability) heights are
//! `u64`, two separate ordering domains.

use vstd::prelude::*;

verus! {

/// Position of a block in the canonical chain.
pub type BlockHeight = u32;

/// Position in the external data-availability event log.
pub type DaBlockHeight = u64;

/// Direction of a range scan.
#[derive(Clone, Copy, PartialEq, Eq, Structural, Debug)]
pub enum IterDirection {
    Forward,
    Reverse,
}

/// Failure of a read against a backing store.
#[derive(Clone, Copy, PartialEq, Eq, Structural, Debug)]
pub enum StorageError {
    /// The requested key is absent from the store.
    NotFound,
}

/// Failure of a genesis import; each variant names the table and the
/// invariant that was violated.
#[derive(Clone, Copy, PartialEq, Eq, Structural, Debug)]
pub enum ImportError {
    /// A coin's creation pointer lies above the genesis height.
    CoinHeightAboveGenesis,
    /// Two coins share a UTXO identifier.
    CoinAlreadyExists,
    /// A contract's latest-UTXO pointer lies above the genesis height.
    ContractUtxoHeightAboveGenesis,
    /// Two latest-UTXO entries share a contract identifier.
    ContractUtxoAlreadyExists,
    /// Two code entries share a contract identifier.
    ContractCodeAlreadyExists,
    /// A message's origin lies above the genesis DA height.
    MessageDaHeightAboveGenesis,
    /// Two messages share a nonce.
    MessageAlreadyExists,
}

/// A compressed block: its height and the identifier it is addressed by.
#[derive(Clone, Copy, PartialEq, Eq, Structural, Debug)]
pub struct Block {
    pub height: BlockHeight,
    pub id: u64,
}

/// Pointer to the transaction that created an entity: the block it sat in
/// and its index inside that block.
#[derive(Clone, Copy, PartialEq, Eq, Structural, Debug)]
pub struct TxPointer {
    pub block_height: BlockHeight,
    pub tx_index: u16,
}

/// A coin as stored: owner, amount, asset, and the pointer to its creation.
#[derive(Clone, Copy, PartialEq, Eq, Structural, Debug)]
pub struct CompressedCoin {
    pub owner: u64,
    pub amount: u64,
    pub asset_id: u64,
    pub tx_pointer: TxPointer,
}

/// A bridged message from the DA layer, keyed by its nonce.
#[derive(Clone, Copy, PartialEq, Eq, Structural, Debug)]
pub struct Message {
    pub nonce: u64,
    pub sender: u64,
    pub recipient: u64,
    pub amount: u64,
    pub da_height: DaBlockHeight,
}

/// The latest UTXO a contract was touched by.
#[derive(Clone, Copy, PartialEq, Eq, Structural, Debug)]
pub struct ContractUtxo {
    pub utxo_id: u64,
    pub tx_pointer: TxPointer,
}

/// One row of a grouped index table, ordered lexicographically by
/// `(group, key)`.  The same shape serves the per-contract tables (group =
/// contract id, key = state key or asset id) and the per-owner indices of
/// the historical store (group = owner, key = the indexed id).
#[derive(Clone, Copy, PartialEq, Eq, Structural, Debug)]
pub struct IndexRow {
    pub group: u64,
    pub key: u64,
    pub value: u64,
}

/// A contract's balance in one asset.
#[derive(Clone, Copy, PartialEq, Eq, Structural, Debug)]
pub struct ContractBalance {
    pub owner: u64,
    pub amount: u64,
    pub asset_id: u64,
}

/// Status of a transaction recorded by the historical index.
#[derive(Clone, Copy, PartialEq, Eq, Structural, Debug)]
pub enum TransactionStatus {
    Submitted,
    Success,
    SqueezedOut,
    Failed,
}

/// Consensus record attached to a pre-boundary block.
#[derive(Clone, Copy, PartialEq, Eq, Structural, Debug)]
pub enum Consensus {
    Genesis,
    PoaConsensus,
}

/// Status of a transaction that was relayed through the DA layer.
#[derive(Clone, Copy, PartialEq, Eq, Structural, Debug)]
pub enum RelayedTransactionStatus {
    /// The relayed transaction could not be included; the height records
    /// where that was decided.
    Failed { block_height: BlockHeight },
}

/// A transaction body kept by the historical index.
#[derive(Clone, Copy, PartialEq, Eq, Structural, Debug)]
pub struct Transaction {
    pub id: u64,
}

/// A Merkle proof for one block of the block-history commitment.
#[derive(Clone, PartialEq, Eq, Debug)]
pub struct MerkleProof {
    pub proof_set: Vec<u64>,
    pub proof_index: u64,
}

/// One key/value row of a snapshot table.
#[derive(Clone, Copy, PartialEq, Eq, Structural, Debug)]
pub struct TableEntry<V> {
    pub key: u64,
    pub value: V,
}

} // verus!
