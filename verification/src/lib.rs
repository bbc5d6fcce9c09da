//! Validators of the two cell types that make up an on-chain clock: a cyclic
//! index counter and a time value (timestamp or block number) whose advance
//! the counter gates.
//!
//! Each validator is a total function from the host's answers about one
//! transaction to acceptance or exactly one rejection.

pub mod index_state;
pub mod info;
pub mod transaction;
