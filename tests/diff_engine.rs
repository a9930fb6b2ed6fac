use syncforge::diff::{build_column_def, compare_schemas, compare_tables, is_bare_default, DiffType};
use syncforge::dialect::DbType;
use syncforge::schema::{ColumnInfo, SchemaInfo, TableInfo};

fn col(name: &str, ty: &str, nullable: bool, default: Option<&str>) -> ColumnInfo {
    ColumnInfo {
        name: name.to_string(),
        data_type: ty.to_string(),
        nullable,
        default: default.map(|d| d.to_string()),
        is_primary_key: false,
        extra: String::new(),
        position: 1,
    }
}

fn table(name: &str, columns: Vec<ColumnInfo>) -> TableInfo {
    TableInfo {
        name: name.to_string(),
        columns,
        indexes: Vec::new(),
        create_sql: format!("CREATE TABLE {} (id INT)", name),
    }
}

fn schema(tables: Vec<TableInfo>) -> SchemaInfo {
    SchemaInfo { database: "db".to_string(), tables }
}

#[test]
fn numeric_default_is_bare() {
    let def = build_column_def(&col("n", "int", true, Some("5")));
    assert!(def.contains("DEFAULT 5"));
    assert_eq!(def, "int DEFAULT 5");
}

#[test]
fn text_default_is_quoted() {
    let def = build_column_def(&col("s", "varchar(10)", false, Some("active")));
    assert!(def.contains("DEFAULT 'active'"));
    assert_eq!(def, "varchar(10) NOT NULL DEFAULT 'active'");
}

#[test]
fn keyword_and_call_defaults_are_bare() {
    assert_eq!(build_column_def(&col("t", "timestamp", true, Some("current_timestamp"))), "timestamp DEFAULT current_timestamp");
    assert_eq!(build_column_def(&col("u", "uuid", true, Some("gen_random_uuid()"))), "uuid DEFAULT gen_random_uuid()");
    assert_eq!(build_column_def(&col("x", "int", true, Some("-1.5"))), "int DEFAULT -1.5");
    assert_eq!(build_column_def(&col("y", "int", true, Some("(1 + 2)"))), "int DEFAULT '(1 + 2)'");
}

#[test]
fn extra_modifier_follows_definition() {
    let mut c = col("id", "int", false, None);
    c.extra = "auto_increment".to_string();
    assert_eq!(build_column_def(&c), "int NOT NULL auto_increment");
}

#[test]
fn bare_default_decision_uses_given_upper_case() {
    assert!(is_bare_default("null", "NULL"));
    assert!(!is_bare_default("null", "null"));
    assert!(is_bare_default("12.5", "12.5"));
    assert!(!is_bare_default("abc", "ABC"));
    assert!(is_bare_default("", ""));
    assert!(!is_bare_default("(a", "(A"));
}

#[test]
fn identical_schemas_have_no_differences() {
    let s = schema(vec![
        table("users", vec![col("id", "int", false, None), col("email", "text", true, Some("x"))]),
        table("orders", vec![col("id", "int", false, None)]),
    ]);
    for d in [DbType::MySQL, DbType::PostgreSQL, DbType::SQLite, DbType::SQLServer] {
        assert!(compare_schemas(&s, &s.clone(), d).is_empty());
    }
}

#[test]
fn schema_report_is_sorted_by_kind_then_name() {
    let source = schema(vec![
        table("zeta", vec![col("id", "int", false, None)]),
        table("shared", vec![col("id", "int", false, None), col("b", "int", true, None)]),
        table("alpha", vec![col("id", "int", false, None)]),
    ]);
    let target = schema(vec![
        table("shared", vec![col("id", "bigint", false, None), col("c", "int", true, None)]),
        table("old_b", vec![]),
        table("old_a", vec![]),
    ]);
    let diffs = compare_schemas(&source, &target, DbType::PostgreSQL);
    let kinds: Vec<DiffType> = diffs.iter().map(|d| d.diff_type).collect();
    let names: Vec<&str> = diffs.iter().map(|d| d.table_name.as_str()).collect();
    assert_eq!(
        kinds,
        vec![
            DiffType::Added,
            DiffType::Added,
            DiffType::Modified,
            DiffType::Modified,
            DiffType::Modified,
            DiffType::Removed,
            DiffType::Removed
        ]
    );
    assert_eq!(names, vec!["alpha", "zeta", "shared", "shared", "shared", "old_a", "old_b"]);
    assert_eq!(diffs[0].sql, "CREATE TABLE alpha (id INT);");
    assert_eq!(diffs[5].sql, "DROP TABLE \"old_a\";");
    let sqls: Vec<&str> = diffs[2..5].iter().map(|d| d.sql.as_str()).collect();
    assert!(sqls.contains(&"ALTER TABLE \"shared\" ADD COLUMN \"b\" int;"));
    assert!(sqls.contains(&"ALTER TABLE \"shared\" DROP COLUMN \"c\";"));
    assert!(sqls.contains(&"ALTER TABLE \"shared\" MODIFY COLUMN \"id\" int NOT NULL;"));
}

#[test]
fn modified_column_detail_names_both_types() {
    let s = table("t", vec![col("id", "bigint", false, None)]);
    let t = table("t", vec![col("id", "int", false, None)]);
    let diffs = compare_tables("t", &s, &t, DbType::MySQL);
    assert_eq!(diffs.len(), 1);
    assert_eq!(diffs[0].detail, "Modify column: id (int -> bigint)");
    assert_eq!(diffs[0].sql, "ALTER TABLE `t` MODIFY COLUMN `id` bigint NOT NULL;");
}

#[test]
fn position_is_not_compared() {
    let mut moved = col("id", "int", false, None);
    moved.position = 7;
    let s = table("t", vec![col("id", "int", false, None)]);
    let t = table("t", vec![moved]);
    assert!(compare_tables("t", &s, &t, DbType::SQLite).is_empty());
}
