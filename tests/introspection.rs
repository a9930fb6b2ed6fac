use syncforge::dialect::DbType;
use syncforge::introspect::{
    columns_query, group_mysql_indexes, mysql_column, sqlite_column, sqlite_primary_keys,
    tables_query, write_create_table, PragmaColumn,
};
use syncforge::schema::ColumnInfo;

#[test]
fn mysql_indexes_group_by_name() {
    let rows = vec![
        ("PRIMARY".to_string(), 0, "id".to_string()),
        ("idx_ab".to_string(), 1, "a".to_string()),
        ("idx_ab".to_string(), 1, "b".to_string()),
    ];
    let idx = group_mysql_indexes(rows);
    assert_eq!(idx.len(), 2);
    assert_eq!(idx[0].name, "PRIMARY");
    assert!(idx[0].is_unique);
    assert_eq!(idx[1].columns, vec!["a".to_string(), "b".to_string()]);
    assert!(!idx[1].is_unique);
}

#[test]
fn pragma_rows_become_columns() {
    let p = PragmaColumn { cid: 0, name: "id".into(), data_type: "INTEGER".into(), notnull: 1, default: None, pk: 1 };
    let c = sqlite_column(p.clone());
    assert_eq!(c.position, 1);
    assert!(!c.nullable);
    assert!(c.is_primary_key);
    let q = PragmaColumn { cid: 1, name: "v".into(), data_type: "TEXT".into(), notnull: 0, default: None, pk: 0 };
    assert_eq!(sqlite_primary_keys(&vec![p, q]), vec!["id".to_string()]);
}

#[test]
fn mysql_columns_read_yes_and_keys() {
    let c = mysql_column("id".into(), "int".into(), "NO", None, "auto_increment".into(), 1, &vec!["id".to_string()]);
    assert!(!c.nullable);
    assert!(c.is_primary_key);
    let d = mysql_column("v".into(), "int".into(), "YES", None, String::new(), 2, &vec!["id".to_string()]);
    assert!(d.nullable);
    assert!(!d.is_primary_key);
}

#[test]
fn written_create_table() {
    let cols = vec![
        ColumnInfo { name: "id".into(), data_type: "int".into(), nullable: false, default: None, is_primary_key: true, extra: String::new(), position: 1 },
        ColumnInfo { name: "n".into(), data_type: "text".into(), nullable: true, default: Some("'x'".into()), is_primary_key: false, extra: String::new(), position: 2 },
    ];
    assert_eq!(write_create_table(DbType::PostgreSQL, "t", &cols), "CREATE TABLE t (\n  id int NOT NULL,\n  n text DEFAULT 'x'\n);");
    assert_eq!(write_create_table(DbType::SQLServer, "t", &cols), "CREATE TABLE [t] (\n  [id] int NOT NULL,\n  [n] text DEFAULT 'x'\n);");
}

#[test]
fn queries_per_backend() {
    assert_eq!(tables_query(DbType::MySQL).unwrap(), "SHOW TABLES");
    assert!(tables_query(DbType::SQLServer).is_err());
    assert_eq!(columns_query(DbType::SQLite, "t").unwrap(), "PRAGMA table_info('t')");
}
