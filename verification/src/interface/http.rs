//! The parts of the HTTP interface that compute: what a request body means
//! and what is answered. Serving them over a socket is left to the program
//! that embeds the library.

pub mod handlers;
pub mod responses;

use vstd::prelude::*;

verus! {

/// Where the server listens.
pub struct HttpServerConfig {
    pub host: String,
    pub port: u16,
}

impl HttpServerConfig {
    pub fn new(host: String, port: u16) -> (config: Self)
        ensures
            config.host == host,
            config.port == port,
    {
        Self { host, port }
    }
}

} // verus!
