//! A transaction-submission pipeline for a ledger client.
//!
//! A batch of instruction groups is taken through its phases one element at
//! a time: a balance check, the fetch of a blockhash, an optional fee
//! optimisation by simulation, the signature, a bounded retry of the
//! submission, and an optional poll for confirmation. The network and the
//! signer are not called from here. [`pipeline::Pipeline`] is a state
//! machine: its driver tells it what happened, and it answers with what to do
//! next. [`model`] says what the machine does, and [`laws`] what follows.

pub mod config;
pub mod confirm;
pub mod error;
pub mod fee;
pub mod laws;
pub mod ledger;
pub mod model;
pub mod pipeline;
pub mod preflight;
pub mod protocol;
pub mod retry;
pub mod submit;
