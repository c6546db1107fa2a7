use icann_rdap::config::{
    ListenConfig, ServiceConfig, StorageType, DB_URL, DEFAULT_DB_URL, DEFAULT_LISTEN_ADDR,
    DEFAULT_LISTEN_PORT, DEFAULT_MIRROR_DIR, DEFAULT_STORAGE, LISTEN_ADDR, LISTEN_PORT, MIRROR_DIR,
    STORAGE,
};
use icann_rdap::error::RdapServerError;
use icann_rdap::storage::mem::config::MemConfig;
use icann_rdap::storage::pg::config::PgConfig;

#[test]
fn memory_storage_is_chosen() {
    let storage = "memory".to_string();
    match StorageType::from_settings(&storage, "/tmp/rdap-srv/mirror", "postgresql://127.0.0.1/rdap") {
        Ok(StorageType::Memory(config)) => assert_eq!(config.state_dir, "/tmp/rdap-srv/mirror"),
        _ => panic!(),
    }
}

#[test]
fn postgres_storage_is_chosen() {
    let storage = "postgres".to_string();
    match StorageType::from_settings(&storage, "/tmp/rdap-srv/mirror", "postgresql://127.0.0.1/rdap") {
        Ok(StorageType::Postgres(config)) => assert_eq!(config.db_url, "postgresql://127.0.0.1/rdap"),
        _ => panic!(),
    }
}

#[test]
fn unknown_storage_is_refused() {
    for storage in ["sqlite", "", "Memory", "memory "] {
        match StorageType::from_settings(&storage.to_string(), "a", "b") {
            Err(RdapServerError::Config(message)) => {
                assert_eq!(message, format!("storage type of '{storage}' is invalid"))
            },
            _ => panic!(),
        }
    }
}

#[test]
fn settings_have_names_and_defaults() {
    assert_eq!(LISTEN_ADDR, "RDAP_SRV_LISTEN_ADDR");
    assert_eq!(LISTEN_PORT, "RDAP_SRV_LISTEN_PORT");
    assert_eq!(STORAGE, "RDAP_SRV_STORAGE");
    assert_eq!(DB_URL, "RDAP_SRV_DB_URL");
    assert_eq!(MIRROR_DIR, "RDAP_SRV_MIRROR_DIR");
    assert_eq!(DEFAULT_LISTEN_ADDR, "127.0.0.1");
    assert_eq!(DEFAULT_LISTEN_PORT, 3000);
    assert_eq!(DEFAULT_STORAGE, "memory");
    assert_eq!(DEFAULT_DB_URL, "postgresql://127.0.0.1/rdap");
    assert_eq!(DEFAULT_MIRROR_DIR, "/tmp/rdap-srv/mirror");
}

#[test]
fn builders_keep_what_they_are_given() {
    let listen = ListenConfig::builder().ip_addr("127.0.0.1").port(3000).build();
    assert_eq!(listen.ip_addr.as_deref(), Some("127.0.0.1"));
    assert_eq!(listen.port, Some(3000));
    let open = ListenConfig::default();
    assert_eq!(open.ip_addr, None);
    assert_eq!(open.port, None);
    let mem = MemConfig::builder().state_dir("/srv/state").build();
    assert_eq!(mem.state_dir, "/srv/state");
    let pg = PgConfig::builder().db_url("postgresql://db/rdap").build();
    assert_eq!(pg.db_url, "postgresql://db/rdap");
    let service = ServiceConfig::builder().storage_type(StorageType::Memory(mem)).build();
    assert!(matches!(service.storage_type, StorageType::Memory(_)));
}
