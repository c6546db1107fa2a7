//! The settings of the in-memory engine.

use vstd::prelude::*;

verus! {

/// Where the in-memory engine finds the records to start with.
pub struct MemConfig {
    pub state_dir: String,
}

impl MemConfig {
    /// Starts a configuration.
    pub fn builder() -> MemConfigBuilder {
        MemConfigBuilder {  }
    }
}

/// A configuration that still lacks its directory.
pub struct MemConfigBuilder {}

impl MemConfigBuilder {
    /// Names the directory of record and template files.
    pub fn state_dir(self, state_dir: &str) -> (r: MemConfigReady)
        ensures
            r.state_dir@ == state_dir@,
    {
        MemConfigReady { state_dir: state_dir.to_owned() }
    }
}

/// A configuration that is complete.
pub struct MemConfigReady {
    pub state_dir: String,
}

impl MemConfigReady {
    /// The configuration.
    pub fn build(self) -> (r: MemConfig)
        ensures
            r.state_dir@ == self.state_dir@,
    {
        MemConfig { state_dir: self.state_dir }
    }
}

impl Default for MemConfig {
    fn default() -> (r: Self)
        ensures
            r.state_dir@ == "/tmp/rdap-srv/state"@,
    {
        MemConfig { state_dir: "/tmp/rdap-srv/state".to_owned() }
    }
}

} // verus!
