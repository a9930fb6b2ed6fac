//! What each backend is asked when its schema is read, and how its answers
//! become the backend-neutral model.

use vstd::prelude::*;
use crate::dialect::DbType;
use crate::error::DbError;
use crate::schema::{column_views, index_views, opt_view, ColumnInfo, ColumnView, IndexInfo,
    IndexView};
use crate::text::{
    contains_text, gather, join, join_spec, last_index_of, last_text_index, lemma_last_index_of,
    owned, push_str, same_text, views,
};

verus! {

/// The error for an operation the backend cannot perform.
pub open spec fn is_unsupported<T>(r: Result<T, DbError>) -> bool {
    r matches Err(DbError::Unsupported(_))
}

/// The catalog query that lists databases.
pub open spec fn databases_sql(d: DbType) -> Seq<char> {
    match d {
        DbType::MySQL => "SELECT schema_name FROM information_schema.schemata WHERE schema_name NOT IN ('information_schema', 'mysql', 'performance_schema', 'sys')"@,
        DbType::PostgreSQL => "SELECT datname FROM pg_database WHERE datistemplate = false AND datname != 'postgres'"@,
        DbType::SQLite => Seq::empty(),
        DbType::SQLServer => Seq::empty(),
    }
}

/// The query that lists tables.
pub open spec fn tables_sql(d: DbType) -> Seq<char> {
    match d {
        DbType::MySQL => "SHOW TABLES"@,
        DbType::PostgreSQL => "SELECT tablename FROM pg_tables WHERE schemaname = 'public'"@,
        DbType::SQLite => "SELECT name FROM sqlite_master WHERE type='table' AND name NOT LIKE 'sqlite_%'"@,
        DbType::SQLServer => Seq::empty(),
    }
}

/// The network backends' column query.
pub open spec fn columns_sql(d: DbType) -> Seq<char> {
    match d {
        DbType::MySQL => "SELECT COLUMN_NAME, COLUMN_TYPE, IS_NULLABLE, COLUMN_DEFAULT, EXTRA, ORDINAL_POSITION FROM INFORMATION_SCHEMA.COLUMNS WHERE TABLE_SCHEMA = DATABASE() AND TABLE_NAME = ? ORDER BY ORDINAL_POSITION"@,
        DbType::PostgreSQL => "SELECT column_name, data_type, is_nullable, column_default, ordinal_position::bigint FROM information_schema.columns WHERE table_schema = 'public' AND table_name = $1 ORDER BY ordinal_position"@,
        DbType::SQLite => Seq::empty(),
        DbType::SQLServer => Seq::empty(),
    }
}

/// PostgreSQL's index query.
pub open spec fn indexes_sql(d: DbType) -> Seq<char> {
    match d {
        DbType::MySQL => Seq::empty(),
        DbType::PostgreSQL => "SELECT indexname, indexdef FROM pg_indexes WHERE schemaname = 'public' AND tablename = $1"@,
        DbType::SQLite => Seq::empty(),
        DbType::SQLServer => Seq::empty(),
    }
}

/// The network backends' key-column query.
pub open spec fn primary_keys_sql(d: DbType) -> Seq<char> {
    match d {
        DbType::MySQL => "SELECT COLUMN_NAME FROM INFORMATION_SCHEMA.KEY_COLUMN_USAGE WHERE TABLE_SCHEMA = ? AND TABLE_NAME = ? AND CONSTRAINT_NAME = 'PRIMARY' ORDER BY ORDINAL_POSITION"@,
        DbType::PostgreSQL => "SELECT a.attname FROM pg_index i JOIN pg_attribute a ON a.attrelid = i.indrelid AND a.attnum = ANY(i.indkey) WHERE i.indrelid = $1::regclass AND i.indisprimary"@,
        DbType::SQLite => Seq::empty(),
        DbType::SQLServer => Seq::empty(),
    }
}

/// Where the list of databases comes from.
pub enum DatabaseListing {
    /// A query whose single text column names the databases.
    Query(String),
    /// A fixed answer.
    Fixed(Vec<String>),
}

/// How the databases of a backend are listed: a catalog query on the
/// network backends, the single database `main` on the file-based one.
pub fn databases_listing(d: DbType) -> (r: Result<DatabaseListing, DbError>)
    ensures
        d == DbType::SQLServer <==> is_unsupported(r),
        d == DbType::SQLite ==> (r matches Ok(DatabaseListing::Fixed(v)) && v@.len() == 1
            && v@[0]@ == "main"@),
        d == DbType::MySQL || d == DbType::PostgreSQL ==> (r matches Ok(DatabaseListing::Query(q))
            && q@ == databases_sql(d)),
{
    match d {
        DbType::MySQL => Ok(
            DatabaseListing::Query(
                owned(
                    "SELECT schema_name FROM information_schema.schemata WHERE schema_name NOT IN ('information_schema', 'mysql', 'performance_schema', 'sys')",
                ),
            ),
        ),
        DbType::PostgreSQL => Ok(
            DatabaseListing::Query(
                owned(
                    "SELECT datname FROM pg_database WHERE datistemplate = false AND datname != 'postgres'",
                ),
            ),
        ),
        DbType::SQLite => Ok(DatabaseListing::Fixed(vec![owned("main")])),
        DbType::SQLServer => Err(DbError::Unsupported(owned("listing databases is not available on SQL Server"))),
    }
}

/// The query whose single text column names the tables.
pub fn tables_query(d: DbType) -> (r: Result<String, DbError>)
    ensures
        d == DbType::SQLServer <==> is_unsupported(r),
        d != DbType::SQLServer ==> (r matches Ok(s) && s@ == tables_sql(d)),
{
    match d {
        DbType::MySQL => Ok(owned("SHOW TABLES")),
        DbType::PostgreSQL => Ok(
            owned("SELECT tablename FROM pg_tables WHERE schemaname = 'public'"),
        ),
        DbType::SQLite => Ok(
            owned("SELECT name FROM sqlite_master WHERE type='table' AND name NOT LIKE 'sqlite_%'"),
        ),
        DbType::SQLServer => Err(DbError::Unsupported(owned("listing tables is not available on SQL Server"))),
    }
}

/// `PRAGMA <name>('<table>')`: the file-based backend's per-table
/// metadata, with the table name inside single quotes.
pub open spec fn pragma(name: Seq<char>, t: Seq<char>) -> Seq<char> {
    "PRAGMA "@ + name + "('"@ + t + "')"@
}

fn pragma_text(name: &str, t: &str) -> (r: String)
    ensures
        r@ == pragma(name@, t@),
{
    let mut s = owned("PRAGMA ");
    push_str(&mut s, name);
    push_str(&mut s, "('");
    push_str(&mut s, t);
    push_str(&mut s, "')");
    s
}

/// A MySQL statement on a table, the name inside backticks.
pub open spec fn mysql_on_table(prefix: Seq<char>, t: Seq<char>) -> Seq<char> {
    prefix + "`"@ + t + "`"@
}

fn mysql_on_table_text(prefix: &str, t: &str) -> (r: String)
    ensures
        r@ == mysql_on_table(prefix@, t@),
{
    let mut s = owned(prefix);
    push_str(&mut s, "`");
    push_str(&mut s, t);
    push_str(&mut s, "`");
    s
}

/// The statement that reads a table's columns. The network backends take
/// the table name as the query's one parameter; the file-based backend's
/// pragma names it in the text.
pub fn columns_query(d: DbType, table_name: &str) -> (r: Result<String, DbError>)
    ensures
        d == DbType::SQLServer <==> is_unsupported(r),
        d != DbType::SQLServer ==> r is Ok,
        d == DbType::SQLite ==> (r matches Ok(s) && s@ == pragma("table_info"@, table_name@)),
        d == DbType::MySQL || d == DbType::PostgreSQL ==> (r matches Ok(s) && s@ == columns_sql(d)),
{
    match d {
        DbType::MySQL => Ok(
            owned(
                "SELECT COLUMN_NAME, COLUMN_TYPE, IS_NULLABLE, COLUMN_DEFAULT, EXTRA, ORDINAL_POSITION FROM INFORMATION_SCHEMA.COLUMNS WHERE TABLE_SCHEMA = DATABASE() AND TABLE_NAME = ? ORDER BY ORDINAL_POSITION",
            ),
        ),
        DbType::PostgreSQL => Ok(
            owned(
                "SELECT column_name, data_type, is_nullable, column_default, ordinal_position::bigint FROM information_schema.columns WHERE table_schema = 'public' AND table_name = $1 ORDER BY ordinal_position",
            ),
        ),
        DbType::SQLite => Ok(pragma_text("table_info", table_name)),
        DbType::SQLServer => Err(DbError::Unsupported(owned("reading columns is not available on SQL Server"))),
    }
}

/// The statement that reads a table's indexes.
pub fn indexes_query(d: DbType, table_name: &str) -> (r: Result<String, DbError>)
    ensures
        d == DbType::SQLServer <==> is_unsupported(r),
        d != DbType::SQLServer ==> r is Ok,
        d == DbType::MySQL ==> (r matches Ok(s)
            && s@ == mysql_on_table("SHOW INDEX FROM "@, table_name@)),
        d == DbType::SQLite ==> (r matches Ok(s) && s@ == pragma("index_list"@, table_name@)),
        d == DbType::PostgreSQL ==> (r matches Ok(s) && s@ == indexes_sql(d)),
{
    match d {
        DbType::MySQL => Ok(mysql_on_table_text("SHOW INDEX FROM ", table_name)),
        DbType::PostgreSQL => Ok(
            owned(
                "SELECT indexname, indexdef FROM pg_indexes WHERE schemaname = 'public' AND tablename = $1",
            ),
        ),
        DbType::SQLite => Ok(pragma_text("index_list", table_name)),
        DbType::SQLServer => Err(DbError::Unsupported(owned("reading indexes is not available on SQL Server"))),
    }
}

/// The query for a table's primary-key columns in key order. MySQL takes
/// the database and the table as parameters, PostgreSQL the table; the
/// file-based backend reads its column pragma.
pub fn primary_keys_query(d: DbType, table_name: &str) -> (r: Result<String, DbError>)
    ensures
        d == DbType::SQLServer <==> is_unsupported(r),
        d != DbType::SQLServer ==> r is Ok,
        d == DbType::SQLite ==> (r matches Ok(s) && s@ == pragma("table_info"@, table_name@)),
        d == DbType::MySQL || d == DbType::PostgreSQL ==> (r matches Ok(s)
            && s@ == primary_keys_sql(d)),
{
    match d {
        DbType::MySQL => Ok(
            owned(
                "SELECT COLUMN_NAME FROM INFORMATION_SCHEMA.KEY_COLUMN_USAGE WHERE TABLE_SCHEMA = ? AND TABLE_NAME = ? AND CONSTRAINT_NAME = 'PRIMARY' ORDER BY ORDINAL_POSITION",
            ),
        ),
        DbType::PostgreSQL => Ok(
            owned(
                "SELECT a.attname FROM pg_index i JOIN pg_attribute a ON a.attrelid = i.indrelid AND a.attnum = ANY(i.indkey) WHERE i.indrelid = $1::regclass AND i.indisprimary",
            ),
        ),
        DbType::SQLite => Ok(pragma_text("table_info", table_name)),
        DbType::SQLServer => Err(DbError::Unsupported(owned("reading primary keys is not available on SQL Server"))),
    }
}

/// The query for the key columns that mark columns as primary-key ones
/// while a table's columns are read; it takes the table name as its
/// parameter. The file-based backend reads the flag from its pragma.
pub fn column_keys_query(d: DbType) -> (r: Option<String>)
    ensures
        d == DbType::MySQL ==> (r matches Some(s) && s@
            == "SELECT COLUMN_NAME FROM INFORMATION_SCHEMA.KEY_COLUMN_USAGE WHERE TABLE_SCHEMA = DATABASE() AND TABLE_NAME = ? AND CONSTRAINT_NAME = 'PRIMARY'"@),
        d == DbType::PostgreSQL ==> (r matches Some(s) && s@ == primary_keys_sql(d)),
        d == DbType::SQLite || d == DbType::SQLServer ==> r is None,
{
    match d {
        DbType::MySQL => Some(
            owned(
                "SELECT COLUMN_NAME FROM INFORMATION_SCHEMA.KEY_COLUMN_USAGE WHERE TABLE_SCHEMA = DATABASE() AND TABLE_NAME = ? AND CONSTRAINT_NAME = 'PRIMARY'",
            ),
        ),
        DbType::PostgreSQL => Some(
            owned(
                "SELECT a.attname FROM pg_index i JOIN pg_attribute a ON a.attrelid = i.indrelid AND a.attnum = ANY(i.indkey) WHERE i.indrelid = $1::regclass AND i.indisprimary",
            ),
        ),
        _ => None,
    }
}

/// How a table's `CREATE TABLE` statement is had.
pub enum CreateSource {
    /// A query whose text column `column` holds the statement; the table
    /// name is its parameter where the text has none.
    Query { sql: String, column: usize },
    /// The statement is written from the table's columns.
    FromColumns,
}

/// How each backend gives a table's `CREATE TABLE`: MySQL and the file-based
/// backend echo their own; the others have it written from the columns.
pub fn create_table_source(d: DbType, table_name: &str) -> (r: CreateSource)
    ensures
        d == DbType::MySQL ==> (r matches CreateSource::Query { sql, column } && sql@
            == mysql_on_table("SHOW CREATE TABLE "@, table_name@) && column == 1),
        d == DbType::SQLite ==> (r matches CreateSource::Query { sql, column } && sql@
            == "SELECT sql FROM sqlite_master WHERE type='table' AND name=?"@ && column == 0),
        d == DbType::PostgreSQL || d == DbType::SQLServer ==> r is FromColumns,
{
    match d {
        DbType::MySQL => CreateSource::Query {
            sql: mysql_on_table_text("SHOW CREATE TABLE ", table_name),
            column: 1,
        },
        DbType::SQLite => CreateSource::Query {
            sql: owned("SELECT sql FROM sqlite_master WHERE type='table' AND name=?"),
            column: 0,
        },
        _ => CreateSource::FromColumns,
    }
}

/// A column as MySQL's information schema describes it: nullable where the
/// schema says `YES`, a key column where the key list names it.
pub fn mysql_column(
    name: String,
    data_type: String,
    is_nullable: &str,
    default: Option<String>,
    extra: String,
    position: u64,
    primary_keys: &Vec<String>,
) -> (r: ColumnInfo)
    ensures
        r@ == (ColumnView {
            name: name@,
            data_type: data_type@,
            nullable: is_nullable@ == "YES"@,
            default: opt_view(default),
            is_primary_key: views(primary_keys@).contains(name@),
            extra: extra@,
            position,
        }),
{
    let is_primary_key = contains_text(primary_keys, name.as_str());
    ColumnInfo {
        name,
        data_type,
        nullable: same_text(is_nullable, "YES"),
        default,
        is_primary_key,
        extra,
        position,
    }
}

/// A column as PostgreSQL's information schema describes it; it has no
/// extra modifiers.
pub fn postgres_column(
    name: String,
    data_type: String,
    is_nullable: &str,
    default: Option<String>,
    position: i64,
    primary_keys: &Vec<String>,
) -> (r: ColumnInfo)
    ensures
        r@ == (ColumnView {
            name: name@,
            data_type: data_type@,
            nullable: is_nullable@ == "YES"@,
            default: opt_view(default),
            is_primary_key: views(primary_keys@).contains(name@),
            extra: Seq::empty(),
            position: position as u64,
        }),
{
    let is_primary_key = contains_text(primary_keys, name.as_str());
    ColumnInfo {
        name,
        data_type,
        nullable: same_text(is_nullable, "YES"),
        default,
        is_primary_key,
        extra: String::new(),
        position: position as u64,
    }
}

/// One row of the file-based backend's `table_info` pragma.
#[derive(Debug, Clone)]
pub struct PragmaColumn {
    /// Column number, counted from 0.
    pub cid: i64,
    pub name: String,
    pub data_type: String,
    /// Non-zero where the column is `NOT NULL`.
    pub notnull: i64,
    pub default: Option<String>,
    /// The column's place in the primary key, counted from 1; 0 where it
    /// is not a key column.
    pub pk: i64,
}

/// A column as the `table_info` pragma describes it.
pub fn sqlite_column(row: PragmaColumn) -> (r: ColumnInfo)
    requires
        row.cid < i64::MAX,
    ensures
        r@ == (ColumnView {
            name: row.name@,
            data_type: row.data_type@,
            nullable: row.notnull == 0,
            default: opt_view(row.default),
            is_primary_key: row.pk > 0,
            extra: Seq::empty(),
            position: (row.cid + 1) as u64,
        }),
{
    ColumnInfo {
        name: row.name,
        data_type: row.data_type,
        nullable: row.notnull == 0,
        default: row.default,
        is_primary_key: row.pk > 0,
        extra: String::new(),
        position: (row.cid + 1) as u64,
    }
}

/// The name of pragma row `i`, where it is a key column.
pub open spec fn key_name_of(rows: Seq<PragmaColumn>, i: int) -> Seq<Seq<char>> {
    if rows[i].pk > 0 {
        seq![rows[i].name@]
    } else {
        Seq::empty()
    }
}

/// [`key_name_of`] as a function of the row position.
pub open spec fn key_names_of(rows: Seq<PragmaColumn>) -> spec_fn(int) -> Seq<Seq<char>> {
    |i: int| key_name_of(rows, i)
}

/// The key columns among the `table_info` pragma's rows, in row order.
pub fn sqlite_primary_keys(rows: &Vec<PragmaColumn>) -> (r: Vec<String>)
    ensures
        views(r@) == gather(key_names_of(rows@), rows@.len() as int),
{
    let mut out: Vec<String> = Vec::new();
    let mut i: usize = 0;
    while i < rows.len()
        invariant
            i <= rows@.len(),
            views(out@) == gather(key_names_of(rows@), i as int),
        decreases rows.len() - i,
    {
        let ghost old_out = out@;
        if rows[i].pk > 0 {
            out.push(owned(rows[i].name.as_str()));
            assert(views(out@) =~= views(old_out).push(rows@[i as int].name@));
        }
        assert(views(out@) =~= gather(key_names_of(rows@), i as int)
            + key_name_of(rows@, i as int));
        i = i + 1;
    }
    out
}

/// The names of a sequence of indexes.
pub open spec fn index_names(v: Seq<IndexView>) -> Seq<Seq<char>> {
    v.map_values(|x: IndexView| x.name)
}

/// MySQL's `SHOW INDEX` rows (key name, non-unique flag, column name)
/// gathered into one index per key name, in order of first appearance;
/// each index is unique where its first row says so and lists its columns
/// in row order.
pub open spec fn group_indexes(rows: Seq<(Seq<char>, i32, Seq<char>)>) -> Seq<IndexView>
    decreases rows.len(),
{
    if rows.len() == 0 {
        Seq::empty()
    } else {
        let acc = group_indexes(rows.drop_last());
        let r = rows.last();
        let k = last_index_of(index_names(acc), r.0);
        if k >= 0 {
            acc.update(
                k,
                IndexView { name: acc[k].name, columns: acc[k].columns.push(r.2),
                    is_unique: acc[k].is_unique },
            )
        } else {
            acc.push(IndexView { name: r.0, columns: seq![r.2], is_unique: r.1 == 0 })
        }
    }
}

/// The view of a `SHOW INDEX` row.
pub open spec fn index_row_view(r: (String, i32, String)) -> (Seq<char>, i32, Seq<char>) {
    (r.0@, r.1, r.2@)
}

/// Gathers MySQL's `SHOW INDEX` rows into indexes.
pub fn group_mysql_indexes(rows: Vec<(String, i32, String)>) -> (r: Vec<IndexInfo>)
    ensures
        index_views(r@) == group_indexes(rows@.map_values(|x: (String, i32,
            String)| index_row_view(x))),
{
    let ghost rv = rows@.map_values(|x: (String, i32, String)| index_row_view(x));
    let mut acc: Vec<IndexInfo> = Vec::new();
    let mut names: Vec<String> = Vec::new();
    let mut i: usize = 0;
    while i < rows.len()
        invariant
            i <= rows@.len(),
            rv == rows@.map_values(|x: (String, i32, String)| index_row_view(x)),
            index_views(acc@) == group_indexes(rv.take(i as int)),
            views(names@) == index_names(index_views(acc@)),
        decreases rows.len() - i,
    {
        let ghost before = index_views(acc@);
        assert(rv.take(i + 1).drop_last() =~= rv.take(i as int));
        assert(rv.take(i + 1).last() == index_row_view(rows@[i as int]));
        let key = &rows[i].0;
        let col = owned(rows[i].2.as_str());
        match last_text_index(&names, key.as_str()) {
            Some(k) => {
                proof {
                    lemma_last_index_of(index_names(before), key@);
                }
                let mut entry = acc.remove(k);
                let ghost old_cols = entry.columns@;
                entry.columns.push(col);
                assert(entry@.columns =~= before[k as int].columns.push(rows@[i as int].2@));
                acc.insert(k, entry);
                assert(index_views(acc@) =~= before.update(
                    k as int,
                    IndexView { name: before[k as int].name,
                        columns: before[k as int].columns.push(rows@[i as int].2@),
                            is_unique: before[k as int].is_unique },
                ));
                assert(index_names(index_views(acc@)) =~= index_names(before));
            },
            None => {
                let mut cols: Vec<String> = Vec::new();
                cols.push(col);
                assert(cols@.map_values(|c: String| c@) =~= seq![rows@[i as int].2@]);
                acc.push(IndexInfo { name: owned(key.as_str()), columns: cols, is_unique: rows[i].1 == 0 });
                let ghost old_names = names@;
                names.push(owned(key.as_str()));
                assert(views(names@) =~= views(old_names).push(key@));
                assert(index_views(acc@)
                    =~= before.push(IndexView { name: key@, columns: seq![rows@[i as int].2@],
                        is_unique: rows@[i as int].1 == 0 }));
                assert(index_names(index_views(acc@)) =~= index_names(before).push(key@));
            },
        }
        i = i + 1;
    }
    assert(rv.take(i as int) =~= rv);
    acc
}

/// An index as PostgreSQL's `pg_indexes` describes it: its definition
/// stands in place of the member columns, and uniqueness is not read.
pub fn postgres_index(name: String, definition: String) -> (r: IndexInfo)
    ensures
        r@ == (IndexView { name: name@, columns: seq![definition@], is_unique: false }),
{
    let ghost d = definition@;
    let mut columns: Vec<String> = Vec::new();
    columns.push(definition);
    assert(columns@.map_values(|c: String| c@) =~= seq![d]);
    IndexInfo { name, columns, is_unique: false }
}

/// An index as the `index_list` pragma describes it; member columns are
/// not read.
pub fn sqlite_index(name: String, unique: i32) -> (r: IndexInfo)
    ensures
        r@ == (IndexView { name: name@, columns: Seq::empty(), is_unique: unique == 1 }),
{
    let columns: Vec<String> = Vec::new();
    assert(columns@.map_values(|c: String| c@) =~= Seq::<Seq<char>>::empty());
    IndexInfo { name, columns, is_unique: unique == 1 }
}

/// A name as a written `CREATE TABLE` has it: in brackets on SQL Server,
/// bare elsewhere.
pub open spec fn plain_name(d: DbType, n: Seq<char>) -> Seq<char> {
    if d == DbType::SQLServer {
        "["@ + n + "]"@
    } else {
        n
    }
}

/// One column's line in a written `CREATE TABLE`: name, type, then
/// `NOT NULL` and the default, each where it applies.
pub open spec fn written_column(d: DbType, c: ColumnView) -> Seq<char> {
    plain_name(d, c.name) + " "@ + c.data_type + (if c.nullable {
        Seq::empty()
    } else {
        " NOT NULL"@
    }) + match c.default {
        Some(x) => " DEFAULT "@ + x,
        None => Seq::empty(),
    }
}

/// A `CREATE TABLE` written from a table's columns, one per line.
pub open spec fn written_create(d: DbType, t: Seq<char>, cols: Seq<ColumnView>) -> Seq<char> {
    "CREATE TABLE "@ + plain_name(d, t) + " (\n  "@ + join_spec(
        cols.map_values(|c: ColumnView| written_column(d, c)),
        ",\n  "@,
    ) + "\n);"@
}

fn push_plain_name(s: &mut String, d: DbType, n: &str)
    ensures
        final(s)@ == old(s)@ + plain_name(d, n@),
{
    if d == DbType::SQLServer {
        push_str(s, "[");
        push_str(s, n);
        push_str(s, "]");
        assert(final(s)@ =~= old(s)@ + plain_name(d, n@));
    } else {
        push_str(s, n);
    }
}

/// Writes a `CREATE TABLE` from a table's columns, for the backends that
/// cannot echo their own.
pub fn write_create_table(d: DbType, table_name: &str, columns: &Vec<ColumnInfo>) -> (r: String)
    ensures
        r@ == written_create(d, table_name@, column_views(columns@)),
{
    let ghost lines = column_views(columns@).map_values(|c: ColumnView| written_column(d, c));
    let mut defs: Vec<String> = Vec::new();
    let mut i: usize = 0;
    while i < columns.len()
        invariant
            i <= columns@.len(),
            lines == column_views(columns@).map_values(|c: ColumnView| written_column(d, c)),
            views(defs@) == lines.take(i as int),
        decreases columns.len() - i,
    {
        let c = &columns[i];
        let mut def = String::new();
        push_plain_name(&mut def, d, c.name.as_str());
        push_str(&mut def, " ");
        push_str(&mut def, c.data_type.as_str());
        if !c.nullable {
            push_str(&mut def, " NOT NULL");
        }
        match &c.default {
            Some(x) => {
                push_str(&mut def, " DEFAULT ");
                push_str(&mut def, x.as_str());
            },
            None => {},
        }
        assert(def@ =~= written_column(d, columns@[i as int]@));
        let ghost old_defs = defs@;
        defs.push(def);
        assert(views(defs@) =~= views(old_defs).push(lines[i as int]));
        assert(views(defs@) =~= lines.take(i + 1));
        i = i + 1;
    }
    assert(lines.take(i as int) =~= lines);
    let mut s = owned("CREATE TABLE ");
    push_plain_name(&mut s, d, table_name);
    push_str(&mut s, " (\n  ");
    let body = join(&defs, ",\n  ");
    push_str(&mut s, body.as_str());
    push_str(&mut s, "\n);");
    assert(s@ =~= written_create(d, table_name@, column_views(columns@)));
    s
}

} // verus!
