//! What stands behind the domain's contracts.

pub mod persistence;
