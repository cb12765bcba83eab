//! The unified read view: one query surface over the current-epoch store
//! and the historical-index store.
//!
//! Point lookups are routed to the one source that holds the table; block
//! range queries are the one genuine merge, because blocks below the
//! regenesis boundary live only in the historical index and blocks at or
//! above it live only in the current epoch.  The two partial sequences are
//! concatenated in the direction-appropriate order, never interleaved:
//! each source already returns its rows in the requested direction and the
//! two height ranges are disjoint and adjacent at the boundary.
//!
//! The two views of a `ReadView` are taken one after the other and are not
//! guaranteed to be pinned to the same logical height; this is a known,
//! documented limitation of the provider interface, not a guarantee this
//! layer can give.

use vstd::prelude::*;

use crate::offchain::{OffChainModel, OffChainStore, OffChainView};
use crate::onchain::{OnChainModel, OnChainStore, OnChainView};
use crate::seq_facts;
use crate::tables;
use crate::types::{
    Block, BlockHeight, Consensus, ContractBalance, DaBlockHeight, IterDirection, MerkleProof,
    Message, RelayedTransactionStatus, StorageError, Transaction, TransactionStatus, TxPointer,
};

verus! {

/// Mathematical model of a read view (and of the database it was taken
/// from): the models of its two sources.
pub ghost struct ReadModel {
    pub on_chain: OnChainModel,
    pub off_chain: OffChainModel,
}

impl ReadModel {
    /// Cross-store well-formedness: both sources are well formed, and when
    /// the regenesis boundary is recorded, every historical block sits
    /// strictly below it.  (Every current-epoch block sits at or above it
    /// by the current-epoch store's own well-formedness.)
    pub open spec fn wf(self) -> bool {
        &&& self.on_chain.wf()
        &&& self.off_chain.wf()
        &&& match self.on_chain.genesis_height {
            Option::Some(g) => forall|i: int|
                0 <= i < self.off_chain.old_blocks.len() ==> self.off_chain.old_blocks[i].height
                    < g,
            Option::None => true,
        }
    }
}

/// The container of the on-chain and off-chain view providers; `view`
/// creates a consistent [`ReadView`] over both.
pub struct ReadDatabase {
    /// The current-epoch view provider.
    on_chain: OnChainStore,
    /// The historical-index view provider.
    off_chain: OffChainStore,
}

/// An immutable query handle pinned to the state both providers held when
/// it was created.
pub struct ReadView {
    pub on_chain: OnChainView,
    pub off_chain: OffChainView,
}

impl ReadDatabase {
    /// The models of the two stores as they stand now.
    pub closed spec fn model(&self) -> ReadModel {
        ReadModel { on_chain: self.on_chain@, off_chain: self.off_chain@ }
    }
}

impl View for ReadView {
    type V = ReadModel;

    open spec fn view(&self) -> ReadModel {
        ReadModel { on_chain: self.on_chain@, off_chain: self.off_chain@ }
    }
}

impl ReadDatabase {
    /// Compose the two providers.
    pub fn new(on_chain: OnChainStore, off_chain: OffChainStore) -> (db: Self)
        ensures
            db.model() == (ReadModel { on_chain: on_chain@, off_chain: off_chain@ }),
    {
        ReadDatabase { on_chain, off_chain }
    }

    /// Creates a consistent view of the database: it reflects every write
    /// committed to the providers before this call and none after.
    pub fn view(&self) -> (r: ReadView)
        ensures
            r@ == self.model(),
    {
        ReadView { on_chain: self.on_chain.latest_view(), off_chain: self.off_chain.latest_view() }
    }
}

// ---------------------------------------------------------------------------
// The merged block range query.
// ---------------------------------------------------------------------------

/// Every row wrapped as a success: a scan over in-memory sources fails
/// only at the boundary lookup, never row by row.
pub open spec fn oks(s: Seq<Block>) -> Seq<Result<Block, StorageError>> {
    Seq::new(s.len(), |i: int| Result::<Block, StorageError>::Ok(s[i]))
}

/// The merged sequence when no starting height is given: forward scans
/// walk the historical range first, backward scans walk it last.
pub open spec fn merged_no_start(off: Seq<Block>, on: Seq<Block>, direction: IterDirection) -> Seq<
    Block,
> {
    match direction {
        IterDirection::Forward => tables::scan_blocks_spec(off, Option::None, direction)
            + tables::scan_blocks_spec(on, Option::None, direction),
        IterDirection::Reverse => tables::scan_blocks_spec(on, Option::None, direction)
            + tables::scan_blocks_spec(off, Option::None, direction),
    }
}

/// The merged sequence from a starting height, branching on which side of
/// the boundary the start sits and on the direction: a source is only
/// scanned for heights it can contain.
pub open spec fn merged_from(
    off: Seq<Block>,
    on: Seq<Block>,
    boundary: BlockHeight,
    height: BlockHeight,
    direction: IterDirection,
) -> Seq<Block> {
    if height >= boundary {
        match direction {
            IterDirection::Forward => tables::scan_blocks_spec(
                on,
                Option::Some(height),
                direction,
            ),
            IterDirection::Reverse => tables::scan_blocks_spec(on, Option::Some(height), direction)
                + tables::scan_blocks_spec(off, Option::None, direction),
        }
    } else {
        match direction {
            IterDirection::Forward => tables::scan_blocks_spec(off, Option::Some(height), direction)
                + tables::scan_blocks_spec(on, Option::None, direction),
            IterDirection::Reverse => tables::scan_blocks_spec(
                off,
                Option::Some(height),
                direction,
            ),
        }
    }
}

impl ReadView {
    /// Blocks of the whole logical chain, merged across the regenesis
    /// boundary.  The boundary is read from the current-epoch source; if a
    /// starting height is given and that read fails, the whole query fails
    /// with that error and yields nothing else.
    pub fn blocks(&self, height: Option<BlockHeight>, direction: IterDirection) -> (r: Vec<
        Result<Block, StorageError>,
    >)
        ensures
            height is None ==> r@ == oks(
                merged_no_start(self@.off_chain.old_blocks, self@.on_chain.blocks, direction),
            ),
            height matches Option::Some(h) ==> match self@.on_chain.genesis_height {
                Option::Some(g) => r@ == oks(
                    merged_from(self@.off_chain.old_blocks, self@.on_chain.blocks, g, h, direction),
                ),
                Option::None => r@ == seq![
                    Result::<Block, StorageError>::Err(StorageError::NotFound),
                ],
            },
    {
        if let Some(h) = height {
            match self.on_chain.latest_genesis_height() {
                Ok(boundary) => {
                    if h >= boundary {
                        match direction {
                            IterDirection::Forward => wrap_ok(
                                self.on_chain.blocks(Some(h), direction),
                            ),
                            IterDirection::Reverse => {
                                let mut a = self.on_chain.blocks(Some(h), direction);
                                let mut b = self.off_chain.old_blocks(None, direction);
                                a.append(&mut b);
                                wrap_ok(a)
                            },
                        }
                    } else {
                        match direction {
                            IterDirection::Forward => {
                                let mut a = self.off_chain.old_blocks(Some(h), direction);
                                let mut b = self.on_chain.blocks(None, direction);
                                a.append(&mut b);
                                wrap_ok(a)
                            },
                            IterDirection::Reverse => wrap_ok(
                                self.off_chain.old_blocks(Some(h), direction),
                            ),
                        }
                    }
                },
                Err(err) => {
                    let mut r: Vec<Result<Block, StorageError>> = Vec::new();
                    r.push(Err(err));
                    proof {
                        assert(r@ =~= seq![
                            Result::<Block, StorageError>::Err(StorageError::NotFound),
                        ]);
                    }
                    r
                },
            }
        } else {
            match direction {
                IterDirection::Forward => {
                    let mut a = self.off_chain.old_blocks(None, direction);
                    let mut b = self.on_chain.blocks(None, direction);
                    a.append(&mut b);
                    wrap_ok(a)
                },
                IterDirection::Reverse => {
                    let mut a = self.on_chain.blocks(None, direction);
                    let mut b = self.off_chain.old_blocks(None, direction);
                    a.append(&mut b);
                    wrap_ok(a)
                },
            }
        }
    }

    // -- point queries routed to the current-epoch source ------------------

    pub fn latest_height(&self) -> (r: Result<BlockHeight, StorageError>)
        ensures
            r == if self@.on_chain.blocks.len() == 0 {
                Result::<BlockHeight, StorageError>::Err(StorageError::NotFound)
            } else {
                Result::<BlockHeight, StorageError>::Ok(self@.on_chain.blocks.last().height)
            },
    {
        self.on_chain.latest_height()
    }

    pub fn latest_genesis_height(&self) -> (r: Result<BlockHeight, StorageError>)
        ensures
            r == match self@.on_chain.genesis_height {
                Option::Some(g) => Result::<BlockHeight, StorageError>::Ok(g),
                Option::None => Result::<BlockHeight, StorageError>::Err(StorageError::NotFound),
            },
    {
        self.on_chain.latest_genesis_height()
    }

    pub fn get(&self, key: u64) -> (r: Result<Option<u64>, StorageError>)
        ensures
            r == Result::<Option<u64>, StorageError>::Ok(
                if self@.on_chain.kv.contains_key(key) {
                    Option::Some(self@.on_chain.kv[key])
                } else {
                    Option::None
                },
            ),
    {
        self.on_chain.get(key)
    }

    pub fn contains_key(&self, key: u64) -> (r: Result<bool, StorageError>)
        ensures
            r == Result::<bool, StorageError>::Ok(self@.on_chain.kv.contains_key(key)),
    {
        self.on_chain.contains_key(key)
    }

    pub fn all_messages(&self, start_message_id: Option<u64>, direction: IterDirection) -> (r: Vec<
        Message,
    >)
        ensures
            r@ == tables::scan_messages_spec(self@.on_chain.messages, start_message_id, direction),
    {
        self.on_chain.all_messages(start_message_id, direction)
    }

    pub fn message_is_spent(&self, nonce: u64) -> (r: Result<bool, StorageError>)
        ensures
            r == Result::<bool, StorageError>::Ok(self@.on_chain.spent.contains(nonce)),
    {
        self.on_chain.message_is_spent(nonce)
    }

    pub fn message_exists(&self, nonce: u64) -> (r: Result<bool, StorageError>)
        ensures
            r == Result::<bool, StorageError>::Ok(
                tables::contains_nonce(self@.on_chain.messages, nonce),
            ),
    {
        self.on_chain.message_exists(nonce)
    }

    pub fn contract_balances(
        &self,
        contract: u64,
        start_asset: Option<u64>,
        direction: IterDirection,
    ) -> (r: Vec<ContractBalance>)
        ensures
            r@ == crate::onchain::rows_to_balances(
                tables::scan_rows_spec(
                    self@.on_chain.contract_balances,
                    contract,
                    start_asset,
                    direction,
                ),
            ),
    {
        self.on_chain.contract_balances(contract, start_asset, direction)
    }

    pub fn da_height(&self) -> (r: Result<DaBlockHeight, StorageError>)
        ensures
            r == Result::<DaBlockHeight, StorageError>::Ok(self@.on_chain.da_height),
    {
        self.on_chain.da_height()
    }

    pub fn block_history_proof(
        &self,
        message_block_height: BlockHeight,
        commit_block_height: BlockHeight,
    ) -> (r: Result<MerkleProof, StorageError>)
        ensures
            self@.on_chain.proofs.contains_key(
                crate::onchain::proof_key(message_block_height, commit_block_height),
            ) ==> (r matches Result::Ok(p) && p.proof_set@ == self@.on_chain.proofs[
                crate::onchain::proof_key(message_block_height, commit_block_height)
            ].proof_set@ && p.proof_index == self@.on_chain.proofs[
                crate::onchain::proof_key(message_block_height, commit_block_height)
            ].proof_index),
            !self@.on_chain.proofs.contains_key(
                crate::onchain::proof_key(message_block_height, commit_block_height),
            ) ==> r == Result::<MerkleProof, StorageError>::Err(StorageError::NotFound),
    {
        self.on_chain.block_history_proof(message_block_height, commit_block_height)
    }

    // -- point queries routed to the historical-index source ---------------

    /// Status of a relayed transaction (the query surface the relayer
    /// port asks through).
    pub fn transaction_status(&self, id: u64) -> (r: Result<
        Option<RelayedTransactionStatus>,
        StorageError,
    >)
        ensures
            r == Result::<Option<RelayedTransactionStatus>, StorageError>::Ok(
                if self@.off_chain.relayed_statuses.contains_key(id) {
                    Option::Some(self@.off_chain.relayed_statuses[id])
                } else {
                    Option::None
                },
            ),
    {
        let maybe_status = self.off_chain.relayed_tx_status(id);
        maybe_status
    }

    pub fn block_height(&self, block_id: u64) -> (r: Result<BlockHeight, StorageError>)
        ensures
            r == if self@.off_chain.block_heights.contains_key(block_id) {
                Result::<BlockHeight, StorageError>::Ok(self@.off_chain.block_heights[block_id])
            } else {
                Result::<BlockHeight, StorageError>::Err(StorageError::NotFound)
            },
    {
        self.off_chain.block_height(block_id)
    }

    pub fn tx_status(&self, tx_id: u64) -> (r: Result<TransactionStatus, StorageError>)
        ensures
            r == if self@.off_chain.tx_statuses.contains_key(tx_id) {
                Result::<TransactionStatus, StorageError>::Ok(self@.off_chain.tx_statuses[tx_id])
            } else {
                Result::<TransactionStatus, StorageError>::Err(StorageError::NotFound)
            },
    {
        self.off_chain.tx_status(tx_id)
    }

    pub fn owned_coins_ids(
        &self,
        owner: u64,
        start_coin: Option<u64>,
        direction: IterDirection,
    ) -> (r: Vec<u64>)
        ensures
            r@ == crate::offchain::rows_to_keys(
                tables::scan_rows_spec(self@.off_chain.owned_coins, owner, start_coin, direction),
            ),
    {
        self.off_chain.owned_coins_ids(owner, start_coin, direction)
    }

    pub fn owned_message_ids(
        &self,
        owner: u64,
        start_message_id: Option<u64>,
        direction: IterDirection,
    ) -> (r: Vec<u64>)
        ensures
            r@ == crate::offchain::rows_to_keys(
                tables::scan_rows_spec(
                    self@.off_chain.owned_messages,
                    owner,
                    start_message_id,
                    direction,
                ),
            ),
    {
        self.off_chain.owned_message_ids(owner, start_message_id, direction)
    }

    pub fn owned_transactions_ids(
        &self,
        owner: u64,
        start: Option<TxPointer>,
        direction: IterDirection,
    ) -> (r: Vec<(TxPointer, u64)>)
        ensures
            r@ == crate::offchain::rows_to_owned_txs(
                tables::scan_rows_spec(
                    self@.off_chain.owned_txs,
                    owner,
                    crate::offchain::packed_start(start),
                    direction,
                ),
            ),
    {
        self.off_chain.owned_transactions_ids(owner, start, direction)
    }

    pub fn contract_salt(&self, contract_id: u64) -> (r: Result<u64, StorageError>)
        ensures
            r == if self@.off_chain.contract_salts.contains_key(contract_id) {
                Result::<u64, StorageError>::Ok(self@.off_chain.contract_salts[contract_id])
            } else {
                Result::<u64, StorageError>::Err(StorageError::NotFound)
            },
    {
        self.off_chain.contract_salt(contract_id)
    }

    pub fn old_blocks(&self, height: Option<BlockHeight>, direction: IterDirection) -> (r: Vec<
        Block,
    >)
        ensures
            r@ == tables::scan_blocks_spec(self@.off_chain.old_blocks, height, direction),
    {
        self.off_chain.old_blocks(height, direction)
    }

    pub fn old_block_consensus(&self, height: BlockHeight) -> (r: Result<Consensus, StorageError>)
        ensures
            r == if self@.off_chain.old_consensus.contains_key(height) {
                Result::<Consensus, StorageError>::Ok(self@.off_chain.old_consensus[height])
            } else {
                Result::<Consensus, StorageError>::Err(StorageError::NotFound)
            },
    {
        self.off_chain.old_block_consensus(height)
    }

    pub fn old_transaction(&self, id: u64) -> (r: Result<Option<Transaction>, StorageError>)
        ensures
            r == Result::<Option<Transaction>, StorageError>::Ok(
                if self@.off_chain.old_transactions.contains_key(id) {
                    Option::Some(self@.off_chain.old_transactions[id])
                } else {
                    Option::None
                },
            ),
    {
        self.off_chain.old_transaction(id)
    }

    pub fn relayed_tx_status(&self, id: u64) -> (r: Result<
        Option<RelayedTransactionStatus>,
        StorageError,
    >)
        ensures
            r == Result::<Option<RelayedTransactionStatus>, StorageError>::Ok(
                if self@.off_chain.relayed_statuses.contains_key(id) {
                    Option::Some(self@.off_chain.relayed_statuses[id])
                } else {
                    Option::None
                },
            ),
    {
        self.off_chain.relayed_tx_status(id)
    }
}

// ---------------------------------------------------------------------------
// Laws of the merged range query.
// ---------------------------------------------------------------------------

/// Blocks with height in `[lo, hi)`.
pub open spec fn block_in_range(lo: BlockHeight, hi: BlockHeight) -> spec_fn(Block) -> bool {
    |b: Block| lo <= b.height < hi
}

pub open spec fn max_height(a: BlockHeight, b: BlockHeight) -> BlockHeight {
    if a >= b {
        a
    } else {
        b
    }
}

/// The historical rows a merged forward scan from `h` draws on: heights in
/// `[h, boundary)`.
pub open spec fn historical_part(m: ReadModel, h: BlockHeight, g: BlockHeight) -> Seq<Block> {
    m.off_chain.old_blocks.filter(block_in_range(h, g))
}

/// The current-epoch rows a merged forward scan from `h` draws on: heights
/// at or above `max(h, boundary)`.
pub open spec fn current_part(m: ReadModel, h: BlockHeight, g: BlockHeight) -> Seq<Block> {
    m.on_chain.blocks.filter(tables::block_at_or_above(max_height(h, g)))
}

/// Boundary correctness: for every height `h`, the forward merge from `h`
/// is exactly the historical rows with height in `[h, boundary)` followed
/// by the current-epoch rows with height at or above `max(h, boundary)`;
/// and the reverse merge from `h` is exactly the reverse of the rows of
/// both sources with height at or below `h`.
pub proof fn lemma_blocks_boundary_correctness(m: ReadModel, g: BlockHeight, h: BlockHeight)
    requires
        m.wf(),
        m.on_chain.genesis_height == Option::<BlockHeight>::Some(g),
    ensures
        merged_from(m.off_chain.old_blocks, m.on_chain.blocks, g, h, IterDirection::Forward)
            == historical_part(m, h, g) + current_part(m, h, g),
        merged_from(m.off_chain.old_blocks, m.on_chain.blocks, g, h, IterDirection::Reverse) == (
        m.off_chain.old_blocks.filter(tables::block_at_or_below(h)) + m.on_chain.blocks.filter(
            tables::block_at_or_below(h),
        )).reverse(),
{
    let off = m.off_chain.old_blocks;
    let on = m.on_chain.blocks;
    // Forward.
    if h >= g {
        seq_facts::lemma_filter_is_take(off, block_in_range(h, g), 0);
        assert(off.take(0) =~= Seq::<Block>::empty());
        assert(historical_part(m, h, g) + current_part(m, h, g) =~= current_part(m, h, g));
    } else {
        seq_facts::lemma_filter_congruent(off, tables::block_at_or_above(h), block_in_range(h, g));
        seq_facts::lemma_filter_is_take(on, tables::block_at_or_above(g), on.len() as int);
        assert(on.take(on.len() as int) =~= on);
    }
    // Reverse.
    if h >= g {
        seq_facts::lemma_filter_is_take(off, tables::block_at_or_below(h), off.len() as int);
        assert(off.take(off.len() as int) =~= off);
        seq_facts::lemma_reverse_add(
            off.filter(tables::block_at_or_below(h)),
            on.filter(tables::block_at_or_below(h)),
        );
    } else {
        seq_facts::lemma_filter_is_take(on, tables::block_at_or_below(h), 0);
        assert(on.take(0) =~= Seq::<Block>::empty());
        seq_facts::lemma_reverse_add(
            off.filter(tables::block_at_or_below(h)),
            on.filter(tables::block_at_or_below(h)),
        );
        assert(Seq::<Block>::empty().reverse() =~= Seq::<Block>::empty());
        assert((off.filter(tables::block_at_or_below(h)) + on.filter(
            tables::block_at_or_below(h),
        )).reverse() =~= off.filter(tables::block_at_or_below(h)).reverse());
    }
}

/// With no starting height, scanning backward yields exactly the reverse
/// of scanning forward: the same rows, hence the same set of heights.
pub proof fn lemma_blocks_direction_mirror(off: Seq<Block>, on: Seq<Block>)
    ensures
        merged_no_start(off, on, IterDirection::Reverse) == merged_no_start(
            off,
            on,
            IterDirection::Forward,
        ).reverse(),
{
    seq_facts::lemma_reverse_add(off, on);
}

/// No height appears in both sources, nor therefore in both the
/// historical and the current-epoch partial result of one merged call:
/// every historical row sits strictly below the boundary and every
/// current-epoch row at or above it.
pub proof fn lemma_no_height_overlap(m: ReadModel, g: BlockHeight, h: BlockHeight)
    requires
        m.wf(),
        m.on_chain.genesis_height == Option::<BlockHeight>::Some(g),
    ensures
        forall|i: int|
            0 <= i < m.off_chain.old_blocks.len() ==> #[trigger] m.off_chain.old_blocks[i].height
                < g,
        forall|j: int|
            0 <= j < m.on_chain.blocks.len() ==> #[trigger] m.on_chain.blocks[j].height >= g,
        forall|i: int, j: int|
            0 <= i < historical_part(m, h, g).len() && 0 <= j < current_part(m, h, g).len()
                ==> #[trigger] historical_part(m, h, g)[i].height != #[trigger] current_part(
                m,
                h,
                g,
            )[j].height,
{
    seq_facts::lemma_filter_all(
        m.off_chain.old_blocks,
        block_in_range(h, g),
        |b: Block| b.height < g,
    );
    seq_facts::lemma_filter_all(
        m.on_chain.blocks,
        tables::block_at_or_above(max_height(h, g)),
        |b: Block| b.height >= g,
    );
}

/// Concatenating two height-sorted runs whose ranges are separated stays
/// height-sorted.
proof fn lemma_concat_blocks_sorted(a: Seq<Block>, b: Seq<Block>)
    requires
        tables::blocks_sorted(a),
        tables::blocks_sorted(b),
        forall|i: int, j: int|
            0 <= i < a.len() && 0 <= j < b.len() ==> (#[trigger] a[i]).height < (
            #[trigger] b[j]).height,
    ensures
        tables::blocks_sorted(a + b),
{
    assert forall|i: int, j: int| 0 <= i < j < (a + b).len() implies (a + b)[i].height < (a
        + b)[j].height by {
        if j < a.len() {
            assert((a + b)[i] == a[i] && (a + b)[j] == a[j]);
        } else if i >= a.len() {
            assert((a + b)[i] == b[i - a.len()] && (a + b)[j] == b[j - a.len()]);
        } else {
            assert((a + b)[i] == a[i] && (a + b)[j] == b[j - a.len()]);
        }
    }
}

/// The merged sequence is monotonic in the requested direction across the
/// source boundary: a forward merge from any height is strictly
/// increasing, a backward merge strictly decreasing.
pub proof fn lemma_merged_monotonic(m: ReadModel, g: BlockHeight, h: BlockHeight)
    requires
        m.wf(),
        m.on_chain.genesis_height == Option::<BlockHeight>::Some(g),
    ensures
        ({
            let fwd = merged_from(m.off_chain.old_blocks, m.on_chain.blocks, g, h,
                IterDirection::Forward);
            forall|i: int, j: int|
                0 <= i < j < fwd.len() ==> (#[trigger] fwd[i]).height < (#[trigger] fwd[j]).height
        }),
        ({
            let rev = merged_from(m.off_chain.old_blocks, m.on_chain.blocks, g, h,
                IterDirection::Reverse);
            forall|i: int, j: int|
                0 <= i < j < rev.len() ==> (#[trigger] rev[i]).height > (#[trigger] rev[j]).height
        }),
{
    let off = m.off_chain.old_blocks;
    let on = m.on_chain.blocks;
    lemma_blocks_boundary_correctness(m, g, h);
    // Forward: both parts are filters of height-sorted tables, and every
    // historical row sits strictly below every current-epoch row.
    seq_facts::lemma_filter_keeps_order(off, block_in_range(h, g), |b: Block| b.height as int);
    seq_facts::lemma_filter_keeps_order(
        on,
        tables::block_at_or_above(max_height(h, g)),
        |b: Block| b.height as int,
    );
    seq_facts::lemma_filter_all(off, block_in_range(h, g), |b: Block| b.height < g);
    seq_facts::lemma_filter_all(
        on,
        tables::block_at_or_above(max_height(h, g)),
        |b: Block| b.height >= g,
    );
    lemma_concat_blocks_sorted(historical_part(m, h, g), current_part(m, h, g));
    // Backward: the merge is the reverse of a sorted concatenation.
    seq_facts::lemma_filter_keeps_order(off, tables::block_at_or_below(h), |b: Block| b.height as int);
    seq_facts::lemma_filter_keeps_order(on, tables::block_at_or_below(h), |b: Block| b.height as int);
    seq_facts::lemma_filter_all(off, tables::block_at_or_below(h), |b: Block| b.height < g);
    seq_facts::lemma_filter_all(on, tables::block_at_or_below(h), |b: Block| b.height >= g);
    lemma_concat_blocks_sorted(
        off.filter(tables::block_at_or_below(h)),
        on.filter(tables::block_at_or_below(h)),
    );
}

/// View isolation: a view taken before a write is pinned to the state at
/// the moment it was taken.  Whatever a later genesis import commits to
/// the store, the view's model is still the store's old model: a write
/// committed after a view is taken is never observed through that view.
pub fn view_isolated_from_import(
    store: &mut OnChainStore,
    group: crate::import::TableGroup,
    block_height: BlockHeight,
    da_block_height: u64,
) -> (v: OnChainView)
    requires
        old(store).wf(),
    ensures
        v@ == old(store)@,
{
    let v = store.latest_view();
    let mut batch = Vec::new();
    batch.push(group);
    let _ = crate::import::import_genesis(store, batch, block_height, da_block_height);
    v
}

fn wrap_ok(v: Vec<Block>) -> (r: Vec<Result<Block, StorageError>>)
    ensures
        r@ == oks(v@),
{
    let mut r: Vec<Result<Block, StorageError>> = Vec::new();
    let mut i: usize = 0;
    while i < v.len()
        invariant
            i <= v@.len(),
            r@.len() == i,
            forall|k: int| 0 <= k < i ==> r@[k] == Result::<Block, StorageError>::Ok(v@[k]),
        decreases v@.len() - i,
    {
        r.push(Ok(v[i]));
        i += 1;
    }
    proof {
        assert(r@ =~= oks(v@));
    }
    r
}

} // verus!
