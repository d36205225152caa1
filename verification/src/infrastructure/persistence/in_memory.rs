//! Volatile stores that live as long as the process. Each is a single map
//! behind exclusive access: a call sees the map whole, before or after any
//! other call.

pub mod item;
pub mod user;
pub mod wishlist;
