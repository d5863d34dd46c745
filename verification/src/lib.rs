//! Accounting core of a stake pool.
//!
//! A stake pool holds the stake of many depositors with a set of
//! validators and issues pool tokens for it. This library keeps the pool's
//! books: what each validator holds on the pool's behalf, what the reserve
//! holds, and what the pool is worth in all. It decides; the caller queries
//! the network and carries out what was decided.
//!
//! - `state`: the pool, its validator entries and list, the reserve.
//! - `registry`: the validator list as a collection.
//! - `stake_account`: stake accounts as the network reports them, and their
//!   classification.
//! - `accounting`: the reconciliation of one entry with its accounts.
//! - `coordinator`: the update of an epoch: entries, pool value, cleanup.
//! - `staking`: adding and removing validators, moving stake, preferences.
//! - `exchange`: deposits and withdrawals against pool tokens.
//! - `fee`: fees and the price of pool tokens.
//! - `reserve`: the reserve and its minimum.
//! - `admin`: creating a pool and changing its settings.
//! - `program_address`: addresses derived for the pool's accounts.
//! - `client`: what a client decides between its queries.
//! - `laws`: what holds of all this whatever the inputs are.

pub mod accounting;
pub mod admin;
pub mod client;
pub mod coordinator;
pub mod error;
pub mod exchange;
pub mod fee;
pub mod laws;
pub mod program_address;
pub mod pubkey;
pub mod registry;
pub mod reserve;
pub mod stake_account;
pub mod staking;
pub mod state;
