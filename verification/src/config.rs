//! Process configuration values, constructed at startup by the caller
//! and handed in; the core itself reads no environment.

use vstd::prelude::*;
use vstd::string::StringExecFns;

verus! {

/// Where the surrounding server should listen.
#[derive(Debug)]
pub struct AppConfig {
    pub host: String,
    pub port: String,
}

impl AppConfig {
    /// The socket address, host and port joined by a colon.
    pub fn get_addr(&self) -> (r: String)
        ensures
            r@ == self.host@ + ":"@ + self.port@,
    {
        let host = self.host.clone();
        let with_colon = host.concat(":");
        with_colon.concat(self.port.as_str())
    }
}

/// Where the surrounding system's user store lives.
#[derive(Debug)]
pub struct SupabaseConfig {
    pub pub_url: String,
}

} // verus!
