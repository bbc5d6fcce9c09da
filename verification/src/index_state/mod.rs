//! The validator of the index-state cell: a cyclic counter of two bytes,
//! the index and the number of time-info cells.

pub mod entry;
pub mod error;
pub mod laws;
