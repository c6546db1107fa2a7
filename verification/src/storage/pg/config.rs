//! The settings of the relational engine.

use vstd::prelude::*;

verus! {

/// Where the relational engine finds its database.
pub struct PgConfig {
    pub db_url: String,
}

impl PgConfig {
    /// Starts a configuration.
    pub fn builder() -> PgConfigBuilder {
        PgConfigBuilder {  }
    }
}

/// A configuration that still lacks its database.
pub struct PgConfigBuilder {}

impl PgConfigBuilder {
    /// Names the database.
    pub fn db_url(self, db_url: &str) -> (r: PgConfigReady)
        ensures
            r.db_url@ == db_url@,
    {
        PgConfigReady { db_url: db_url.to_owned() }
    }
}

/// A configuration that is complete.
pub struct PgConfigReady {
    pub db_url: String,
}

impl PgConfigReady {
    /// The configuration.
    pub fn build(self) -> (r: PgConfig)
        ensures
            r.db_url@ == self.db_url@,
    {
        PgConfig { db_url: self.db_url }
    }
}

} // verus!
