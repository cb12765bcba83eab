//! Sorted-vector tables and their range scans.
//!
//! Each backing store keeps its range-scannable tables as vectors sorted
//! strictly by key: blocks by height, messages by nonce, per-contract rows
//! lexicographically by `(contract_id, key)`.  A scan filters the table by
//! the requested bound and hands the rows back in the requested direction.

use vstd::prelude::*;

use crate::seq_facts;
use crate::types::{Block, BlockHeight, IndexRow, IterDirection, Message};

verus! {

// ---------------------------------------------------------------------------
// Blocks: sorted strictly by height.
// ---------------------------------------------------------------------------

pub open spec fn blocks_sorted(s: Seq<Block>) -> bool {
    forall|i: int, j: int| 0 <= i < j < s.len() ==> s[i].height < s[j].height
}

pub open spec fn block_at_or_above(h: BlockHeight) -> spec_fn(Block) -> bool {
    |b: Block| b.height >= h
}

pub open spec fn block_at_or_below(h: BlockHeight) -> spec_fn(Block) -> bool {
    |b: Block| b.height <= h
}

/// The rows a forward scan starting at `start` returns, oldest first.
pub open spec fn asc_blocks(s: Seq<Block>, start: Option<BlockHeight>) -> Seq<Block> {
    match start {
        Option::None => s,
        Option::Some(h) => s.filter(block_at_or_above(h)),
    }
}

/// The rows a backward scan starting at `start` returns, newest first.
pub open spec fn desc_blocks(s: Seq<Block>, start: Option<BlockHeight>) -> Seq<Block> {
    match start {
        Option::None => s.reverse(),
        Option::Some(h) => s.filter(block_at_or_below(h)).reverse(),
    }
}

/// What one source returns for a block range scan.
pub open spec fn scan_blocks_spec(
    s: Seq<Block>,
    start: Option<BlockHeight>,
    direction: IterDirection,
) -> Seq<Block> {
    match direction {
        IterDirection::Forward => asc_blocks(s, start),
        IterDirection::Reverse => desc_blocks(s, start),
    }
}

pub fn copy_blocks(v: &Vec<Block>) -> (r: Vec<Block>)
    ensures
        r@ == v@,
{
    let mut r: Vec<Block> = Vec::new();
    let mut i: usize = 0;
    while i < v.len()
        invariant
            i <= v.len(),
            r@ == v@.take(i as int),
        decreases v.len() - i,
    {
        proof {
            assert(v@.take(i + 1) =~= v@.take(i as int).push(v@[i as int]));
        }
        r.push(v[i]);
        i += 1;
    }
    proof {
        assert(v@.take(v@.len() as int) =~= v@);
    }
    r
}

fn blocks_at_or_above(v: &Vec<Block>, h: BlockHeight) -> (r: Vec<Block>)
    ensures
        r@ == v@.filter(block_at_or_above(h)),
{
    let mut r: Vec<Block> = Vec::new();
    let mut i: usize = 0;
    proof {
        reveal(Seq::filter);
        assert(v@.take(0) =~= Seq::<Block>::empty());
    }
    while i < v.len()
        invariant
            i <= v.len(),
            r@ == v@.take(i as int).filter(block_at_or_above(h)),
        decreases v.len() - i,
    {
        proof {
            seq_facts::lemma_filter_push(v@.take(i as int), block_at_or_above(h), v@[i as int]);
            assert(v@.take(i + 1) =~= v@.take(i as int).push(v@[i as int]));
        }
        if v[i].height >= h {
            r.push(v[i]);
        }
        i += 1;
    }
    proof {
        assert(v@.take(v@.len() as int) =~= v@);
    }
    r
}

fn blocks_at_or_below(v: &Vec<Block>, h: BlockHeight) -> (r: Vec<Block>)
    ensures
        r@ == v@.filter(block_at_or_below(h)),
{
    let mut r: Vec<Block> = Vec::new();
    let mut i: usize = 0;
    proof {
        reveal(Seq::filter);
        assert(v@.take(0) =~= Seq::<Block>::empty());
    }
    while i < v.len()
        invariant
            i <= v.len(),
            r@ == v@.take(i as int).filter(block_at_or_below(h)),
        decreases v.len() - i,
    {
        proof {
            seq_facts::lemma_filter_push(v@.take(i as int), block_at_or_below(h), v@[i as int]);
            assert(v@.take(i + 1) =~= v@.take(i as int).push(v@[i as int]));
        }
        if v[i].height <= h {
            r.push(v[i]);
        }
        i += 1;
    }
    proof {
        assert(v@.take(v@.len() as int) =~= v@);
    }
    r
}

fn reversed_blocks(v: Vec<Block>) -> (r: Vec<Block>)
    ensures
        r@ == v@.reverse(),
{
    let mut r: Vec<Block> = Vec::new();
    let mut i: usize = v.len();
    while i > 0
        invariant
            i <= v.len(),
            r@.len() == v@.len() - i,
            forall|k: int| 0 <= k < r@.len() ==> r@[k] == v@[v@.len() - 1 - k],
        decreases i,
    {
        i -= 1;
        r.push(v[i]);
    }
    proof {
        assert(r@ =~= v@.reverse());
    }
    r
}

/// Scan a sorted block table from an optional starting height in the given
/// direction.
pub fn scan_blocks(v: &Vec<Block>, start: Option<BlockHeight>, direction: IterDirection) -> (r:
    Vec<Block>)
    ensures
        r@ == scan_blocks_spec(v@, start, direction),
{
    match direction {
        IterDirection::Forward => {
            match start {
                Option::None => copy_blocks(v),
                Option::Some(h) => blocks_at_or_above(v, h),
            }
        },
        IterDirection::Reverse => {
            match start {
                Option::None => reversed_blocks(copy_blocks(v)),
                Option::Some(h) => reversed_blocks(blocks_at_or_below(v, h)),
            }
        },
    }
}

// ---------------------------------------------------------------------------
// Messages: sorted strictly by nonce.
// ---------------------------------------------------------------------------

pub open spec fn messages_sorted(s: Seq<Message>) -> bool {
    forall|i: int, j: int| 0 <= i < j < s.len() ==> s[i].nonce < s[j].nonce
}

pub open spec fn contains_nonce(s: Seq<Message>, n: u64) -> bool {
    exists|i: int| 0 <= i < s.len() && s[i].nonce == n
}

pub open spec fn msg_at_or_above(n: u64) -> spec_fn(Message) -> bool {
    |m: Message| m.nonce >= n
}

pub open spec fn msg_at_or_below(n: u64) -> spec_fn(Message) -> bool {
    |m: Message| m.nonce <= n
}

pub open spec fn msg_below(n: u64) -> spec_fn(Message) -> bool {
    |m: Message| m.nonce < n
}

pub open spec fn msg_above(n: u64) -> spec_fn(Message) -> bool {
    |m: Message| m.nonce > n
}

/// Where a fresh message lands in a sorted message table: between the
/// messages with smaller nonces and those with larger ones.
pub open spec fn msg_sorted_insert(s: Seq<Message>, m: Message) -> Seq<Message> {
    s.filter(msg_below(m.nonce)) + seq![m] + s.filter(msg_above(m.nonce))
}

/// What one source returns for a message range scan.
pub open spec fn scan_messages_spec(
    s: Seq<Message>,
    start: Option<u64>,
    direction: IterDirection,
) -> Seq<Message> {
    match direction {
        IterDirection::Forward => match start {
            Option::None => s,
            Option::Some(n) => s.filter(msg_at_or_above(n)),
        },
        IterDirection::Reverse => match start {
            Option::None => s.reverse(),
            Option::Some(n) => s.filter(msg_at_or_below(n)).reverse(),
        },
    }
}

pub fn copy_messages(v: &Vec<Message>) -> (r: Vec<Message>)
    ensures
        r@ == v@,
{
    let mut r: Vec<Message> = Vec::new();
    let mut i: usize = 0;
    while i < v.len()
        invariant
            i <= v.len(),
            r@ == v@.take(i as int),
        decreases v.len() - i,
    {
        proof {
            assert(v@.take(i + 1) =~= v@.take(i as int).push(v@[i as int]));
        }
        r.push(v[i]);
        i += 1;
    }
    proof {
        assert(v@.take(v@.len() as int) =~= v@);
    }
    r
}

fn messages_at_or_above(v: &Vec<Message>, n: u64) -> (r: Vec<Message>)
    ensures
        r@ == v@.filter(msg_at_or_above(n)),
{
    let mut r: Vec<Message> = Vec::new();
    let mut i: usize = 0;
    proof {
        reveal(Seq::filter);
        assert(v@.take(0) =~= Seq::<Message>::empty());
    }
    while i < v.len()
        invariant
            i <= v.len(),
            r@ == v@.take(i as int).filter(msg_at_or_above(n)),
        decreases v.len() - i,
    {
        proof {
            seq_facts::lemma_filter_push(v@.take(i as int), msg_at_or_above(n), v@[i as int]);
            assert(v@.take(i + 1) =~= v@.take(i as int).push(v@[i as int]));
        }
        if v[i].nonce >= n {
            r.push(v[i]);
        }
        i += 1;
    }
    proof {
        assert(v@.take(v@.len() as int) =~= v@);
    }
    r
}

fn messages_at_or_below(v: &Vec<Message>, n: u64) -> (r: Vec<Message>)
    ensures
        r@ == v@.filter(msg_at_or_below(n)),
{
    let mut r: Vec<Message> = Vec::new();
    let mut i: usize = 0;
    proof {
        reveal(Seq::filter);
        assert(v@.take(0) =~= Seq::<Message>::empty());
    }
    while i < v.len()
        invariant
            i <= v.len(),
            r@ == v@.take(i as int).filter(msg_at_or_below(n)),
        decreases v.len() - i,
    {
        proof {
            seq_facts::lemma_filter_push(v@.take(i as int), msg_at_or_below(n), v@[i as int]);
            assert(v@.take(i + 1) =~= v@.take(i as int).push(v@[i as int]));
        }
        if v[i].nonce <= n {
            r.push(v[i]);
        }
        i += 1;
    }
    proof {
        assert(v@.take(v@.len() as int) =~= v@);
    }
    r
}

fn reversed_messages(v: Vec<Message>) -> (r: Vec<Message>)
    ensures
        r@ == v@.reverse(),
{
    let mut r: Vec<Message> = Vec::new();
    let mut i: usize = v.len();
    while i > 0
        invariant
            i <= v.len(),
            r@.len() == v@.len() - i,
            forall|k: int| 0 <= k < r@.len() ==> r@[k] == v@[v@.len() - 1 - k],
        decreases i,
    {
        i -= 1;
        r.push(v[i]);
    }
    proof {
        assert(r@ =~= v@.reverse());
    }
    r
}

/// Scan a sorted message table from an optional starting nonce in the given
/// direction.
pub fn scan_messages(v: &Vec<Message>, start: Option<u64>, direction: IterDirection) -> (r: Vec<
    Message,
>)
    ensures
        r@ == scan_messages_spec(v@, start, direction),
{
    match direction {
        IterDirection::Forward => {
            match start {
                Option::None => copy_messages(v),
                Option::Some(n) => messages_at_or_above(v, n),
            }
        },
        IterDirection::Reverse => {
            match start {
                Option::None => reversed_messages(copy_messages(v)),
                Option::Some(n) => reversed_messages(messages_at_or_below(v, n)),
            }
        },
    }
}

/// Insert a message at its sorted position, keyed by its nonce; an occupied
/// slot is overwritten and the previous message handed back.
pub fn insert_message(v: &mut Vec<Message>, m: Message) -> (prev: Option<Message>)
    requires
        messages_sorted(old(v)@),
    ensures
        messages_sorted(final(v)@),
        prev.is_some() <==> contains_nonce(old(v)@, m.nonce),
        prev.is_none() ==> final(v)@ == msg_sorted_insert(old(v)@, m),
        prev matches Option::Some(p) ==> exists|i: int|
            0 <= i < old(v)@.len() && old(v)@[i].nonce == m.nonce && p == old(v)@[i]
                && final(v)@ == old(v)@.update(i, m),
{
    let ghost s0 = v@;
    let mut i: usize = 0;
    while i < v.len() && v[i].nonce < m.nonce
        invariant
            i <= v.len(),
            v@ == s0,
            forall|k: int| 0 <= k < i ==> s0[k].nonce < m.nonce,
        decreases v.len() - i,
    {
        i += 1;
    }
    if i < v.len() && v[i].nonce == m.nonce {
        let prev = v[i];
        v[i] = m;
        proof {
            assert(contains_nonce(s0, m.nonce));
            assert(v@ == s0.update(i as int, m));
        }
        Some(prev)
    } else {
        proof {
            assert(forall|k: int| i <= k < s0.len() ==> s0[i as int].nonce <= s0[k].nonce);
            assert(forall|k: int| i <= k < s0.len() ==> s0[k].nonce > m.nonce);
            assert(!contains_nonce(s0, m.nonce));
            seq_facts::lemma_filter_is_take(s0, msg_below(m.nonce), i as int);
            seq_facts::lemma_filter_is_skip(s0, msg_above(m.nonce), i as int);
        }
        v.insert(i, m);
        proof {
            assert(v@ =~= s0.take(i as int) + seq![m] + s0.skip(i as int));
            assert(messages_sorted(v@)) by {
                assert(forall|k: int| 0 <= k < i ==> v@[k] == s0[k]);
                assert(v@[i as int] == m);
                assert(forall|k: int| i < k < v@.len() ==> v@[k] == s0[k - 1]);
            }
        }
        None
    }
}

// ---------------------------------------------------------------------------
// Index rows: sorted strictly by (group, key).
// ---------------------------------------------------------------------------

/// Strict lexicographic order on row keys.
pub open spec fn row_lt(a: IndexRow, b: IndexRow) -> bool {
    a.group < b.group || (a.group == b.group && a.key < b.key)
}

pub open spec fn rows_sorted(s: Seq<IndexRow>) -> bool {
    forall|i: int, j: int| 0 <= i < j < s.len() ==> row_lt(s[i], s[j])
}

pub open spec fn row_below(g: u64, k: u64) -> spec_fn(IndexRow) -> bool {
    |r: IndexRow| r.group < g || (r.group == g && r.key < k)
}

pub open spec fn row_above(g: u64, k: u64) -> spec_fn(IndexRow) -> bool {
    |r: IndexRow| r.group > g || (r.group == g && r.key > k)
}

/// Rows of one group with key at or above an optional lower bound.
pub open spec fn row_in_group_from(g: u64, start: Option<u64>) -> spec_fn(IndexRow) -> bool {
    |r: IndexRow| r.group == g && (match start {
        Option::None => true,
        Option::Some(k) => r.key >= k,
    })
}

/// Rows of one group with key at or below an optional upper bound.
pub open spec fn row_in_group_to(g: u64, start: Option<u64>) -> spec_fn(IndexRow) -> bool {
    |r: IndexRow| r.group == g && (match start {
        Option::None => true,
        Option::Some(k) => r.key <= k,
    })
}

/// Where a row lands when merged into a sorted row table: it replaces the
/// row with its key if one is there, between the smaller and larger keys.
pub open spec fn row_sorted_insert(s: Seq<IndexRow>, r: IndexRow) -> Seq<IndexRow> {
    s.filter(row_below(r.group, r.key)) + seq![r] + s.filter(row_above(r.group, r.key))
}

/// What a scan over one group of a row table returns.
pub open spec fn scan_rows_spec(
    s: Seq<IndexRow>,
    g: u64,
    start: Option<u64>,
    direction: IterDirection,
) -> Seq<IndexRow> {
    match direction {
        IterDirection::Forward => s.filter(row_in_group_from(g, start)),
        IterDirection::Reverse => s.filter(row_in_group_to(g, start)).reverse(),
    }
}

pub fn copy_rows(v: &Vec<IndexRow>) -> (r: Vec<IndexRow>)
    ensures
        r@ == v@,
{
    let mut r: Vec<IndexRow> = Vec::new();
    let mut i: usize = 0;
    while i < v.len()
        invariant
            i <= v.len(),
            r@ == v@.take(i as int),
        decreases v.len() - i,
    {
        proof {
            assert(v@.take(i + 1) =~= v@.take(i as int).push(v@[i as int]));
        }
        r.push(v[i]);
        i += 1;
    }
    proof {
        assert(v@.take(v@.len() as int) =~= v@);
    }
    r
}

fn rows_in_group_from(v: &Vec<IndexRow>, g: u64, start: Option<u64>) -> (r: Vec<IndexRow>)
    ensures
        r@ == v@.filter(row_in_group_from(g, start)),
{
    let mut r: Vec<IndexRow> = Vec::new();
    let mut i: usize = 0;
    proof {
        reveal(Seq::filter);
        assert(v@.take(0) =~= Seq::<IndexRow>::empty());
    }
    while i < v.len()
        invariant
            i <= v.len(),
            r@ == v@.take(i as int).filter(row_in_group_from(g, start)),
        decreases v.len() - i,
    {
        proof {
            seq_facts::lemma_filter_push(v@.take(i as int), row_in_group_from(g, start), v@[i as int]);
            assert(v@.take(i + 1) =~= v@.take(i as int).push(v@[i as int]));
        }
        let keep = v[i].group == g && (match start {
            Option::None => true,
            Option::Some(k) => v[i].key >= k,
        });
        if keep {
            r.push(v[i]);
        }
        i += 1;
    }
    proof {
        assert(v@.take(v@.len() as int) =~= v@);
    }
    r
}

fn rows_in_group_to(v: &Vec<IndexRow>, g: u64, start: Option<u64>) -> (r: Vec<IndexRow>)
    ensures
        r@ == v@.filter(row_in_group_to(g, start)),
{
    let mut r: Vec<IndexRow> = Vec::new();
    let mut i: usize = 0;
    proof {
        reveal(Seq::filter);
        assert(v@.take(0) =~= Seq::<IndexRow>::empty());
    }
    while i < v.len()
        invariant
            i <= v.len(),
            r@ == v@.take(i as int).filter(row_in_group_to(g, start)),
        decreases v.len() - i,
    {
        proof {
            seq_facts::lemma_filter_push(v@.take(i as int), row_in_group_to(g, start), v@[i as int]);
            assert(v@.take(i + 1) =~= v@.take(i as int).push(v@[i as int]));
        }
        let keep = v[i].group == g && (match start {
            Option::None => true,
            Option::Some(k) => v[i].key <= k,
        });
        if keep {
            r.push(v[i]);
        }
        i += 1;
    }
    proof {
        assert(v@.take(v@.len() as int) =~= v@);
    }
    r
}

fn reversed_rows(v: Vec<IndexRow>) -> (r: Vec<IndexRow>)
    ensures
        r@ == v@.reverse(),
{
    let mut r: Vec<IndexRow> = Vec::new();
    let mut i: usize = v.len();
    while i > 0
        invariant
            i <= v.len(),
            r@.len() == v@.len() - i,
            forall|k: int| 0 <= k < r@.len() ==> r@[k] == v@[v@.len() - 1 - k],
        decreases i,
    {
        i -= 1;
        r.push(v[i]);
    }
    proof {
        assert(r@ =~= v@.reverse());
    }
    r
}

/// Scan one group of a sorted row table from an optional starting key in
/// the given direction.
pub fn scan_rows(v: &Vec<IndexRow>, g: u64, start: Option<u64>, direction: IterDirection) -> (r:
    Vec<IndexRow>)
    ensures
        r@ == scan_rows_spec(v@, g, start, direction),
{
    match direction {
        IterDirection::Forward => rows_in_group_from(v, g, start),
        IterDirection::Reverse => reversed_rows(rows_in_group_to(v, g, start)),
    }
}

/// Merge a row into a sorted row table at its `(group, key)` position; an
/// occupied slot is overwritten.
pub fn insert_row(v: &mut Vec<IndexRow>, r: IndexRow)
    requires
        rows_sorted(old(v)@),
    ensures
        rows_sorted(final(v)@),
        final(v)@ == row_sorted_insert(old(v)@, r),
{
    let ghost s0 = v@;
    let mut i: usize = 0;
    while i < v.len() && (v[i].group < r.group || (v[i].group == r.group && v[i].key < r.key))
        invariant
            i <= v.len(),
            v@ == s0,
            forall|k: int| 0 <= k < i ==> row_lt(s0[k], r),
        decreases v.len() - i,
    {
        i += 1;
    }
    proof {
        assert(forall|k: int| 0 <= k < i ==> (row_below(r.group, r.key))(s0[k]));
    }
    if i < v.len() && v[i].group == r.group && v[i].key == r.key {
        proof {
            assert(forall|k: int| i < k < s0.len() ==> row_lt(s0[i as int], s0[k]));
            assert(forall|k: int| i < k < s0.len() ==> (row_above(r.group, r.key))(s0[k]));
            seq_facts::lemma_filter_is_take(s0, row_below(r.group, r.key), i as int);
            seq_facts::lemma_filter_split(s0, row_above(r.group, r.key), i + 1);
            seq_facts::lemma_filter_is_take(s0.take(i + 1), row_above(r.group, r.key), 0);
            seq_facts::lemma_filter_is_skip(s0.skip(i + 1), row_above(r.group, r.key), 0);
            assert(s0.take(i + 1).take(0) =~= Seq::<IndexRow>::empty());
            assert(s0.skip(i + 1).skip(0) =~= s0.skip(i + 1));
        }
        v[i] = r;
        proof {
            assert(v@ =~= s0.take(i as int) + seq![r] + s0.skip(i + 1));
            assert(v@ == row_sorted_insert(s0, r));
            assert(rows_sorted(v@)) by {
                assert(forall|k: int| 0 <= k < i ==> v@[k] == s0[k]);
                assert(forall|k: int| i < k < v@.len() ==> v@[k] == s0[k]);
            }
        }
    } else {
        proof {
            if i < v.len() {
                assert(!row_lt(s0[i as int], r));
                assert((row_above(r.group, r.key))(s0[i as int]));
                assert forall|k: int| i <= k < s0.len() implies (row_above(r.group, r.key))(
                    s0[k],
                ) by {
                    if k > i {
                        assert(row_lt(s0[i as int], s0[k]));
                    }
                }
            }
            seq_facts::lemma_filter_is_take(s0, row_below(r.group, r.key), i as int);
            seq_facts::lemma_filter_is_skip(s0, row_above(r.group, r.key), i as int);
        }
        v.insert(i, r);
        proof {
            assert(v@ =~= s0.take(i as int) + seq![r] + s0.skip(i as int));
            assert(rows_sorted(v@)) by {
                assert(forall|k: int| 0 <= k < i ==> v@[k] == s0[k]);
                assert(v@[i as int] == r);
                assert(forall|k: int| i < k < v@.len() ==> v@[k] == s0[k - 1]);
            }
        }
    }
}

} // verus!
