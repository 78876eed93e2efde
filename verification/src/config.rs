//! The settings the service starts with.

use vstd::prelude::*;

verus! {

/// The settings of the service.
#[derive(Clone, Debug, PartialEq, Eq)]
pub struct Config {
    pub token: String,
    pub shards: u64,
    pub db_url: String,
    pub error_channel: Option<u64>,
    pub development: bool,
}

impl Config {
    /// The settings made of what the environment holds, each value as it was
    /// read and parsed: one shard where the environment gives no number of
    /// shards, and no development mode where it does not ask for it.
    pub fn from_env(
        token: String,
        shards: Option<u64>,
        db_url: String,
        error_channel: Option<u64>,
        development: Option<bool>,
    ) -> (config: Config)
        ensures
            config.token == token,
            config.shards == (match shards {
                Some(n) => n,
                None => 1,
            }),
            config.db_url == db_url,
            config.error_channel == error_channel,
            config.development == (match development {
                Some(on) => on,
                None => false,
            }),
    {
        Config {
            token,
            shards: match shards {
                Some(n) => n,
                None => 1,
            },
            db_url,
            error_channel,
            development: match development {
                Some(on) => on,
                None => false,
            },
        }
    }
}

} // verus!
