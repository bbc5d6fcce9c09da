//! The validator of the time-info cell: an index byte followed by a
//! timestamp of four bytes or a block number of eight, big-endian.

pub mod entry;
pub mod error;
pub mod laws;
