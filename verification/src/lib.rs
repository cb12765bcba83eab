//! Read/write consistency layer of a blockchain node's ledger store.
//!
//! The ledger is split across two backing stores: a current-epoch store
//! holding canonical chain state from the last regenesis onward, and a
//! historical-index store holding derived projections and pre-boundary
//! block data.  This crate hands out point-in-time-consistent views that
//! merge the two stores into one logical chain, and bulk-loads a fresh
//! ledger from a snapshot at bootstrap inside one atomic transaction.

pub mod import;
pub mod offchain;
pub mod onchain;
pub mod read_view;
pub mod seq_facts;
pub mod tables;
pub mod types;
