//! The settings of the service, and how they are chosen from what the
//! environment says.

use crate::error::RdapServerError;
use crate::storage::mem::config::MemConfig;
use crate::storage::pg::config::PgConfig;
use vstd::prelude::*;

verus! {

/// The variable that names the address to listen on.
pub const LISTEN_ADDR: &'static str = "RDAP_SRV_LISTEN_ADDR";

/// The variable that names the port to listen on.
pub const LISTEN_PORT: &'static str = "RDAP_SRV_LISTEN_PORT";

/// The variable that names the kind of storage.
pub const STORAGE: &'static str = "RDAP_SRV_STORAGE";

/// The variable that names the database of the relational engine.
pub const DB_URL: &'static str = "RDAP_SRV_DB_URL";

/// The variable that names the directory of the in-memory engine.
pub const MIRROR_DIR: &'static str = "RDAP_SRV_MIRROR_DIR";

/// The address to listen on where the environment names none.
pub const DEFAULT_LISTEN_ADDR: &'static str = "127.0.0.1";

/// The port to listen on where the environment names none.
pub const DEFAULT_LISTEN_PORT: u16 = 3000;

/// The kind of storage where the environment names none.
pub const DEFAULT_STORAGE: &'static str = "memory";

/// The database where the environment names none.
pub const DEFAULT_DB_URL: &'static str = "postgresql://127.0.0.1/rdap";

/// The directory where the environment names none.
pub const DEFAULT_MIRROR_DIR: &'static str = "/tmp/rdap-srv/mirror";

/// The kind of storage that the service runs on, with its settings.
pub enum StorageType {
    Memory(MemConfig),
    Postgres(PgConfig),
}

/// The message for a kind of storage that the service does not know.
pub open spec fn invalid_storage(storage: Seq<char>) -> Seq<char> {
    "storage type of '"@ + storage + "' is invalid"@
}

impl StorageType {
    /// The storage that the settings ask for: the in-memory engine on
    /// `mirror_dir` for `memory`, the relational engine on `db_url` for
    /// `postgres`, and a `Config` error for anything else.
    pub fn from_settings(storage: &String, mirror_dir: &str, db_url: &str) -> (r: Result<
        StorageType,
        RdapServerError,
    >)
        ensures
            match r {
                Ok(StorageType::Memory(c)) => storage@ == "memory"@ && c.state_dir@ == mirror_dir@,
                Ok(StorageType::Postgres(c)) => storage@ != "memory"@ && storage@ == "postgres"@
                    && c.db_url@ == db_url@,
                Err(e) => {
                    &&& storage@ != "memory"@
                    &&& storage@ != "postgres"@
                    &&& e matches RdapServerError::Config(m)
                    &&& m@ == invalid_storage(storage@)
                },
            },
    {
        let memory = "memory".to_owned();
        let postgres = "postgres".to_owned();
        if *storage == memory {
            Ok(StorageType::Memory(MemConfig::builder().state_dir(mirror_dir).build()))
        } else if *storage == postgres {
            Ok(StorageType::Postgres(PgConfig::builder().db_url(db_url).build()))
        } else {
            let mut message = "storage type of '".to_owned();
            message.append(storage.as_str());
            message.append("' is invalid");
            Err(RdapServerError::Config(message))
        }
    }
}

/// Where the service listens. What is left out is chosen when the service
/// starts to listen.
pub struct ListenConfig {
    pub ip_addr: Option<String>,
    pub port: Option<u16>,
}

impl Default for ListenConfig {
    fn default() -> (r: Self)
        ensures
            r.ip_addr is None,
            r.port is None,
    {
        ListenConfig { ip_addr: None, port: None }
    }
}

impl ListenConfig {
    /// Starts a configuration that names neither address nor port.
    pub fn builder() -> (r: ListenConfigBuilder)
        ensures
            r.ip_addr is None,
            r.port is None,
    {
        ListenConfigBuilder { ip_addr: None, port: None }
    }
}

/// A configuration of where to listen, in the making.
pub struct ListenConfigBuilder {
    pub ip_addr: Option<String>,
    pub port: Option<u16>,
}

impl ListenConfigBuilder {
    /// Names the address.
    pub fn ip_addr(self, ip_addr: &str) -> (r: Self)
        ensures
            r.ip_addr matches Some(a) && a@ == ip_addr@,
            r.port == self.port,
    {
        ListenConfigBuilder { ip_addr: Some(ip_addr.to_owned()), port: self.port }
    }

    /// Names the port.
    pub fn port(self, port: u16) -> (r: Self)
        ensures
            r.ip_addr == self.ip_addr,
            r.port == Some(port),
    {
        ListenConfigBuilder { ip_addr: self.ip_addr, port: Some(port) }
    }

    /// The configuration.
    pub fn build(self) -> (r: ListenConfig)
        ensures
            r.ip_addr == self.ip_addr,
            r.port == self.port,
    {
        ListenConfig { ip_addr: self.ip_addr, port: self.port }
    }
}

/// The settings of the service.
pub struct ServiceConfig {
    pub storage_type: StorageType,
}

impl ServiceConfig {
    /// Starts a configuration.
    pub fn builder() -> ServiceConfigBuilder {
        ServiceConfigBuilder {  }
    }
}

/// A configuration that still lacks its storage.
pub struct ServiceConfigBuilder {}

impl ServiceConfigBuilder {
    /// Names the storage.
    pub fn storage_type(self, storage_type: StorageType) -> (r: ServiceConfigReady)
        ensures
            r.storage_type == storage_type,
    {
        ServiceConfigReady { storage_type }
    }
}

/// A configuration that is complete.
pub struct ServiceConfigReady {
    pub storage_type: StorageType,
}

impl ServiceConfigReady {
    /// The configuration.
    pub fn build(self) -> (r: ServiceConfig)
        ensures
            r.storage_type == self.storage_type,
    {
        ServiceConfig { storage_type: self.storage_type }
    }
}

} // verus!
