//! Stores of aggregates.

pub mod in_memory;
