//! Spending a Taproot output by its script path, where the single leaf
//! script concatenates two stack items and checks the result as a Schnorr
//! signature under one key, and analysing the funding and the spending
//! transaction afterwards.
//!
//! - [`simple_script`] builds the leaf script for a key.
//! - [`taproot`] commits to the leaf under an internal key and proves the
//!   leaf with a control block.
//! - [`sighash`] computes the digest that the signature signs.
//! - [`witness`] assembles the witness stack of the spend.
//! - [`spend`] finds the funded output and builds the spending transaction.
//! - [`classify`] and [`tx_analyzer`] tell output scripts apart, work out
//!   fees and relate a spending transaction to its funding transaction.
//!
//! Hashing and curve arithmetic are done by the `bitcoin` crate. The
//! functions that call it say in their doc comments what is taken from it
//! without proof.

pub mod bytes;
pub mod classify;
pub mod keys;
pub mod sighash;
pub mod simple_script;
pub mod spend;
pub mod taproot;
pub mod transaction;
pub mod tx_analyzer;
pub mod witness;
