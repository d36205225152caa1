//! Value objects, aggregates, and the contracts of repositories and services.

pub mod failure;
pub mod user;
pub mod wishlist;
