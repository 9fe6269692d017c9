//! The connection's configuration record.

use vstd::prelude::*;

verus! {

/// Where to connect: a `host:port` address.
#[derive(Clone, Debug, PartialEq, Eq)]
pub struct Config {
    pub addr: String,
}

/// The loopback address used when no configuration exists yet.
pub open spec fn loopback_addr() -> Seq<char> {
    "127.0.0.1:8080"@
}

impl Default for Config {
    /// The configuration written and used when none exists: the loopback
    /// address.
    fn default() -> (r: Config)
        ensures
            r.addr@ == loopback_addr(),
    {
        Config { addr: "127.0.0.1:8080".to_owned() }
    }
}

} // verus!
