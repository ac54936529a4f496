//! Watches a validator's log stream for the instructions of one on-chain
//! program and resolves each detected instruction to the token mint it
//! concerns.
//!
//! The crate holds the decisions of that pipeline, each with its contract:
//!
//! - `classifier`: which instruction a log line announces, and the first one
//!   announced in a batch;
//! - `signature`: the signature codec;
//! - `transaction`: the query for a transaction and the reading of what came
//!   back;
//! - `filter`: the address that a transaction reports for the watch target;
//! - `mint`: the decoding of a mint account;
//! - `pipeline`: the handling of one batch, before and after its transaction
//!   is fetched;
//! - `subscription`: the state machine of the subscription loop;
//! - `trace`: what holds of whole runs of that machine.
//!
//! Network traffic is left to the caller, which performs the requests that
//! the state machine makes and hands the outcomes back.

pub mod error;
pub mod text;
pub mod scan;
pub mod classifier;
pub mod signature;
pub mod transaction;
pub mod filter;
pub mod mint;
pub mod pipeline;
pub mod subscription;
pub mod trace;
