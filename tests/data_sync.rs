use syncforge::dialect::DbType;
use syncforge::error::DbError;
use syncforge::sync::{
    build_page_query, build_pk_key, changed_columns, build_row_count_query, build_select_query, compare_table_data,
    escape_value, extract_primary_key, generate_delete_sql, generate_insert_sql,
    generate_update_sql, page_offset, row_from_values, DataDiffType, Row,
};

fn row(pairs: &[(&str, &str)]) -> Row {
    pairs.iter().map(|(c, v)| (c.to_string(), v.to_string())).collect()
}

fn names(v: &[&str]) -> Vec<String> {
    v.iter().map(|s| s.to_string()).collect()
}

#[test]
fn identical_rows_give_no_differences() {
    let rows = vec![row(&[("id", "1"), ("v", "a")]), row(&[("id", "2"), ("v", "b")])];
    let r = compare_table_data("t", DbType::MySQL, &names(&["id", "v"]), &names(&["id"]), &rows, &rows.clone()).unwrap();
    assert!(r.is_empty());
}

#[test]
fn missing_row_becomes_insert_with_doubled_quote() {
    let src = vec![row(&[("id", "1"), ("name", "O'Brien")])];
    let r = compare_table_data("people", DbType::PostgreSQL, &names(&["id", "name"]), &names(&["id"]), &src, &vec![]).unwrap();
    assert_eq!(r.len(), 1);
    assert_eq!(r[0].diff_type, DataDiffType::Insert);
    assert!(r[0].sql.contains("'O''Brien'"));
    assert!(!r[0].sql.replace("''", "").contains("O'B"));
    assert_eq!(r[0].sql, "INSERT INTO \"people\" (\"id\", \"name\") VALUES ('1', 'O''Brien');");
    assert!(r[0].old_values.is_none());
    assert_eq!(r[0].new_values.as_ref().unwrap(), &src[0]);
}

#[test]
fn no_primary_key_fails_without_sql() {
    let src = vec![row(&[("v", "1")])];
    let r = compare_table_data("t", DbType::MySQL, &names(&["v"]), &vec![], &src, &vec![]);
    match r {
        Err(DbError::NoPrimaryKey { table }) => assert_eq!(table, "t"),
        _ => panic!("expected the no-primary-key error"),
    }
    assert_eq!(DbError::NoPrimaryKey { table: "t".to_string() }.message(), "Table t has no primary key");
}

#[test]
fn changed_row_becomes_update() {
    let src = vec![row(&[("id", "1"), ("email", "a@x.com")])];
    let tgt = vec![row(&[("id", "1"), ("email", "b@x.com")])];
    let r = compare_table_data("users", DbType::PostgreSQL, &names(&["id", "email"]), &names(&["id"]), &src, &tgt).unwrap();
    assert_eq!(r.len(), 1);
    assert_eq!(r[0].diff_type, DataDiffType::Update);
    assert_eq!(r[0].old_values.as_ref().unwrap()[1].1, "b@x.com");
    assert_eq!(r[0].new_values.as_ref().unwrap()[1].1, "a@x.com");
    assert_eq!(r[0].sql, "UPDATE \"users\" SET \"email\" = 'a@x.com' WHERE \"id\" = '1';");
    assert_eq!(r[0].primary_key, row(&[("id", "1")]));
}

#[test]
fn extra_target_row_becomes_delete() {
    let tgt = vec![row(&[("id", "9"), ("v", "x")])];
    let r = compare_table_data("t", DbType::SQLServer, &names(&["id", "v"]), &names(&["id"]), &vec![], &tgt).unwrap();
    assert_eq!(r.len(), 1);
    assert_eq!(r[0].diff_type, DataDiffType::Delete);
    assert_eq!(r[0].sql, "DELETE FROM [t] WHERE [id] = '9';");
    assert!(r[0].new_values.is_none());
}

#[test]
fn inserts_and_updates_come_before_deletes() {
    let src = vec![row(&[("id", "2"), ("v", "b")]), row(&[("id", "1"), ("v", "z")])];
    let tgt = vec![row(&[("id", "3"), ("v", "c")]), row(&[("id", "1"), ("v", "a")])];
    let r = compare_table_data("t", DbType::SQLite, &names(&["id", "v"]), &names(&["id"]), &src, &tgt).unwrap();
    let kinds: Vec<DataDiffType> = r.iter().map(|d| d.diff_type).collect();
    assert_eq!(kinds, vec![DataDiffType::Insert, DataDiffType::Update, DataDiffType::Delete]);
}

#[test]
fn later_row_with_same_key_wins() {
    let src = vec![row(&[("id", "1"), ("v", "old")]), row(&[("id", "1"), ("v", "new")])];
    let tgt = vec![row(&[("id", "1"), ("v", "new")])];
    let r = compare_table_data("t", DbType::MySQL, &names(&["id", "v"]), &names(&["id"]), &src, &tgt).unwrap();
    assert!(r.is_empty());
}

#[test]
fn escaping_keeps_null_bare() {
    assert_eq!(escape_value("NULL"), "NULL");
    assert_eq!(escape_value("null"), "'null'");
    assert_eq!(escape_value("it's"), "'it''s'");
    assert_eq!(escape_value(""), "''");
}

#[test]
fn composite_key_joins_with_bar() {
    let r = row(&[("a", "1"), ("b", "x"), ("c", "2")]);
    assert_eq!(build_pk_key(&r, &names(&["a", "c"])), "1|2");
    assert_eq!(build_pk_key(&r, &names(&["a", "missing"])), "1|");
    assert_eq!(extract_primary_key(&r, &names(&["c", "missing", "a"])), row(&[("c", "2"), ("a", "1")]));
}

#[test]
fn statements_quote_per_dialect() {
    let r = row(&[("id", "1"), ("v", "NULL")]);
    assert_eq!(generate_insert_sql(DbType::MySQL, "t", &r, &names(&["id", "v", "w"])), "INSERT INTO `t` (`id`, `v`) VALUES ('1', NULL);");
    assert_eq!(generate_update_sql(DbType::SQLServer, "t", &r, &names(&["id"])), "UPDATE [t] SET [v] = NULL WHERE [id] = '1';");
    assert_eq!(generate_delete_sql(DbType::SQLite, "t", &names(&["id"]), &row(&[("id", "1")])), "DELETE FROM \"t\" WHERE \"id\" = '1';");
}

#[test]
fn page_zero_reads_first_page() {
    let cols = names(&["id", "v"]);
    assert_eq!(build_page_query(DbType::MySQL, "t", &cols, 0, 50), build_page_query(DbType::MySQL, "t", &cols, 1, 50));
    assert_eq!(build_page_query(DbType::MySQL, "t", &cols, 1, 50), "SELECT `id`, `v` FROM `t` LIMIT 50 OFFSET 0");
    assert_eq!(build_page_query(DbType::SQLServer, "t", &cols, 3, 20), "SELECT [id], [v] FROM [t] ORDER BY (SELECT NULL) OFFSET 40 ROWS FETCH NEXT 20 ROWS ONLY");
    assert_eq!(page_offset(0, 10), 0);
    assert_eq!(page_offset(1, 10), 0);
    assert_eq!(page_offset(4, 10), 30);
}

#[test]
fn count_and_select_statements() {
    assert_eq!(build_row_count_query(DbType::PostgreSQL, "t"), "SELECT COUNT(*) FROM \"t\"");
    assert_eq!(build_select_query(DbType::MySQL, "t", &names(&["a"])), "SELECT `a` FROM `t`");
}

#[test]
fn unreadable_values_become_null_text() {
    let r = row_from_values(&names(&["a", "b", "c"]), vec![Some("1".to_string()), None]);
    assert_eq!(r, row(&[("a", "1"), ("b", "NULL"), ("c", "NULL")]));
}

#[test]
fn changed_columns_lists_differing_values() {
    let src = vec![row(&[("id", "1"), ("a", "x"), ("b", "y")])];
    let tgt = vec![row(&[("id", "1"), ("a", "x"), ("b", "z")])];
    let r = compare_table_data("t", DbType::MySQL, &names(&["id", "a", "b"]), &names(&["id"]), &src, &tgt).unwrap();
    assert_eq!(changed_columns(&r[0]), vec!["b".to_string()]);
}

#[test]
fn same_rows_in_another_order_give_no_differences() {
    let src = vec![row(&[("id", "1"), ("v", "a")]), row(&[("id", "2"), ("v", "b")])];
    let tgt = vec![row(&[("v", "b"), ("id", "2")]), row(&[("id", "1"), ("v", "a")])];
    let r = compare_table_data("t", DbType::MySQL, &names(&["id", "v"]), &names(&["id"]), &src, &tgt).unwrap();
    assert!(r.is_empty());
}
