//! Synchronization core of a multi-party spending-policy wallet.
//!
//! The crate holds the decisions of the synchronization engine as state
//! machines over plain values: each machine is handed the outcome of the
//! last outside operation and answers with the next operation to perform.
//! Nothing in here sleeps, talks to a relay or touches a disk.

pub mod cipher;
pub mod delivery;
pub mod error;
pub mod event;
pub mod handler;
pub mod ingest;
pub mod network;
pub mod nip04;
pub mod numeric_input;
pub mod open;
pub mod shared_keys;
pub mod sync;
pub mod timing;
pub mod transactions_list;
pub mod wallet;
