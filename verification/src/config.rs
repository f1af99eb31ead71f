//! Settings the daemon is started with.

use vstd::prelude::*;

verus! {

/// Settings read once at start-up.
pub struct Config {
    /// Where the notification history is stored.
    pub database_url: String,
}

impl Config {
    /// Builds the settings from the value of the `DATABASE_URL` variable, which must be set.
    pub fn init(database_url: Option<String>) -> (cfg: Self)
        requires
            database_url is Some,
        ensures
            cfg.database_url == database_url->Some_0,
    {
        Config { database_url: database_url.unwrap() }
    }
}

} // verus!
