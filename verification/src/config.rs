use vstd::prelude::*;

verus! {

/// Where the homeserver lives.
#[derive(Debug, Clone)]
pub struct HomeserverConfig {
    /// The homeserver's base URL, as configured.
    pub url: String,
}

/// The process configuration: only the homeserver address matters to
/// this crate. Reading it from disk is the embedding program's job;
/// failing to read it is the one fatal startup error.
#[derive(Debug, Clone)]
pub struct Config {
    pub homeserver: HomeserverConfig,
}

impl Config {
    /// A configuration for a given homeserver URL.
    pub fn new(url: String) -> (c: Config)
        ensures
            c.homeserver.url@ == url@,
    {
        Config { homeserver: HomeserverConfig { url } }
    }
}

} // verus!
