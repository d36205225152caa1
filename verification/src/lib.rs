//! Registration of users and creation of wishlists for a gift-list
//! application: validated value objects, the two aggregates, the repository
//! contracts, the services built on them and volatile in-memory stores.

pub mod application;
pub mod domain;
pub mod identifier;
pub mod infrastructure;
pub mod interface;
