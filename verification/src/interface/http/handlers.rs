//! One module for each request that the interface answers.

pub mod create_user;
pub mod create_wishlist;
