use syncforge::connection::{connection_url, ConnectionConfig, ConnectionStore, SavedConnection};
use syncforge::dialect::DbType;
use syncforge::error::DbError;
use syncforge::text::{decimal_string, join, text_less};

#[test]
fn quoting_round_trips_in_every_dialect() {
    for d in [DbType::MySQL, DbType::PostgreSQL, DbType::SQLite, DbType::SQLServer] {
        for name in ["users", "", "we\"ird]`name", "ünï"] {
            let q = d.quote_identifier(name);
            assert_eq!(d.strip_identifier(&q), Some(name.to_string()));
        }
    }
    assert_eq!(DbType::MySQL.quote_identifier("t"), "`t`");
    assert_eq!(DbType::SQLServer.quote_identifier("t"), "[t]");
    assert_eq!(DbType::PostgreSQL.quote_char(), ("\"", "\""));
    assert_eq!(DbType::SQLServer.strip_identifier("\"t\""), None);
    assert_eq!(DbType::MySQL.strip_identifier("`"), None);
}

#[test]
fn default_ports() {
    assert_eq!(ConnectionConfig::default_port(DbType::MySQL), 3306);
    assert_eq!(ConnectionConfig::default_port(DbType::PostgreSQL), 5432);
    assert_eq!(ConnectionConfig::default_port(DbType::SQLite), 0);
    assert_eq!(ConnectionConfig::default_port(DbType::SQLServer), 1433);
}

#[test]
fn urls_per_backend() {
    let mut c = ConnectionConfig::default();
    c.password = "pw".to_string();
    c.database = "shop".to_string();
    assert_eq!(connection_url(&c).unwrap(), "mysql://root:pw@localhost:3306/shop");
    c.db_type = DbType::PostgreSQL;
    c.port = 5432;
    assert_eq!(connection_url(&c).unwrap(), "postgres://root:pw@localhost:5432/shop");
    c.db_type = DbType::SQLite;
    match connection_url(&c) {
        Err(DbError::Connectivity(m)) => assert_eq!(m, "SQLite requires a file path"),
        _ => panic!("expected a connectivity error"),
    }
    c.file_path = Some("/tmp/a.db".to_string());
    assert_eq!(connection_url(&c).unwrap(), "sqlite:/tmp/a.db");
    c.db_type = DbType::SQLServer;
    assert!(matches!(connection_url(&c), Err(DbError::Unsupported(_))));
}

fn saved(name: &str, host: &str) -> SavedConnection {
    let mut config = ConnectionConfig::default();
    config.host = host.to_string();
    SavedConnection { name: name.to_string(), config }
}

#[test]
fn store_saves_by_name_and_deletes() {
    let mut store = ConnectionStore::new(Vec::new(), "/tmp/c.json".to_string());
    store.save(saved("a", "h1"));
    store.save(saved("b", "h2"));
    store.save(saved("a", "h3"));
    let all = store.get_all();
    assert_eq!(all.len(), 2);
    assert_eq!(all[0].name, "a");
    assert_eq!(all[0].config.host, "h3");
    store.delete("a");
    assert_eq!(store.get_all().len(), 1);
    assert_eq!(store.get_all()[0].name, "b");
    assert_eq!(store.file_path(), "/tmp/c.json");
}

#[test]
fn text_helpers() {
    assert_eq!(decimal_string(0), "0");
    assert_eq!(decimal_string(1234567890), "1234567890");
    assert_eq!(join(&vec!["a".to_string(), "b".to_string()], ", "), "a, b");
    assert!(text_less("abc", "abd"));
    assert!(text_less("ab", "abc"));
    assert!(!text_less("b", "abc"));
}
