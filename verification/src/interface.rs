//! What the outside world sees of the application.

pub mod http;
