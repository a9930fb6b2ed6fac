//! Row-level comparison of one table between two databases, with the SQL
//! that brings the target's rows in line with the source's.

use vstd::prelude::*;
use crate::dialect::DbType;
use crate::error::DbError;
use crate::text::{
    chars_of, contains_text, gather, is_last_of_key, join, join_spec, last_index_of,
    last_text_index, lemma_gather_all, lemma_gather_empty, lemma_last_index_of, owned, push_char,
    push_str, same_text, views,
};

verus! {

/// A row as (column, value) pairs; every value is text, and the text `NULL`
/// stands for SQL `NULL`.
pub type Row = Vec<(String, String)>;

/// The mathematical value of a [`Row`].
pub type RowView = Seq<(Seq<char>, Seq<char>)>;

/// The view of a row.
pub open spec fn row_view(r: Row) -> RowView {
    r@.map_values(|p: (String, String)| (p.0@, p.1@))
}

/// The views of a sequence of rows.
pub open spec fn row_views(rs: Seq<Row>) -> Seq<RowView> {
    rs.map_values(|r: Row| row_view(r))
}

/// The value of column `k` in a row: a later pair for the same column takes
/// the place of an earlier one.
pub open spec fn row_get(row: RowView, k: Seq<char>) -> Option<Seq<char>>
    decreases row.len(),
{
    if row.len() == 0 {
        None
    } else if row.last().0 == k {
        Some(row.last().1)
    } else {
        row_get(row.drop_last(), k)
    }
}

/// The value of column `k` in `row`.
pub fn row_value<'a>(row: &'a Row, k: &str) -> (r: Option<&'a String>)
    ensures
        match r {
            Some(v) => row_get(row_view(*row), k@) == Some(v@),
            None => row_get(row_view(*row), k@) is None,
        },
{
    let ghost rv = row_view(*row);
    let mut i = row.len();
    assert(rv.take(i as int) =~= rv);
    while i > 0
        invariant
            i <= row@.len(),
            rv == row_view(*row),
            row_get(rv, k@) == row_get(rv.take(i as int), k@),
        decreases i,
    {
        assert(rv.take(i as int).drop_last() =~= rv.take(i - 1));
        if same_text(row[i - 1].0.as_str(), k) {
            return Some(&row[i - 1].1);
        }
        i = i - 1;
    }
    None
}

/// Whether two rows hold the same value for every column, and have the
/// same columns: equality of the column-to-value maps.
pub open spec fn rows_equal(a: RowView, b: RowView) -> bool {
    forall|k: Seq<char>| #[trigger] row_get(a, k) == row_get(b, k)
}

/// A row has a value for a column exactly where one of its pairs names it.
pub proof fn lemma_row_get_some(row: RowView, k: Seq<char>)
    ensures
        row_get(row, k) is Some <==> exists|i: int| 0 <= i < row.len() && #[trigger] row[i].0 == k,
    decreases row.len(),
{
    if row.len() > 0 {
        lemma_row_get_some(row.drop_last(), k);
        if row.last().0 != k {
            assert forall|i: int| 0 <= i < row.len() && #[trigger] row[i].0 == k implies exists|
                j: int,
            | 0 <= j < row.drop_last().len() && #[trigger] row.drop_last()[j].0 == k by {
                assert(i < row.len() - 1);
                assert(row.drop_last()[i] == row[i]);
            }
            if row_get(row, k) is Some {
                let j = choose|j: int| 0 <= j < row.drop_last().len() && #[trigger] row.drop_last()[j].0 == k;
                assert(row[j] == row.drop_last()[j]);
            }
        } else {
            assert(row[row.len() - 1].0 == k);
        }
    }
}

/// `s` with every single quote doubled.
pub open spec fn double_quotes(s: Seq<char>) -> Seq<char>
    decreases s.len(),
{
    if s.len() == 0 {
        Seq::empty()
    } else {
        double_quotes(s.drop_last()) + if s.last() == '\'' {
            seq!['\'', '\'']
        } else {
            seq![s.last()]
        }
    }
}

/// A value as an SQL literal: the text `NULL` stays bare, anything else is
/// single-quoted with its single quotes doubled.
pub open spec fn escape(v: Seq<char>) -> Seq<char> {
    if v == "NULL"@ {
        "NULL"@
    } else {
        "'"@ + double_quotes(v) + "'"@
    }
}

/// Writes a value as an SQL literal.
pub fn escape_value(val: &str) -> (r: String)
    ensures
        r@ == escape(val@),
{
    if same_text(val, "NULL") {
        return owned("NULL");
    }
    let v = chars_of(val);
    let mut out = owned("'");
    let mut i: usize = 0;
    while i < v.len()
        invariant
            v@ == val@,
            i <= v@.len(),
            out@ == "'"@ + double_quotes(v@.take(i as int)),
        decreases v.len() - i,
    {
        assert(v@.take(i + 1).drop_last() =~= v@.take(i as int));
        let c = v[i];
        push_char(&mut out, c);
        if c == '\'' {
            push_char(&mut out, '\'');
        }
        assert(out@ =~= "'"@ + double_quotes(v@.take(i + 1)));
        i = i + 1;
    }
    assert(v@.take(v@.len() as int) =~= v@);
    push_str(&mut out, "'");
    out
}

/// The value of each key column in a row, the empty text where the row
/// lacks it.
pub open spec fn key_values(row: RowView, pks: Seq<Seq<char>>) -> Seq<Seq<char>> {
    pks.map_values(
        |pk: Seq<char>|
            match row_get(row, pk) {
                Some(v) => v,
                None => Seq::empty(),
            },
    )
}

/// A row's identity: its key values joined with `|`, in key-column order.
pub open spec fn pk_key(row: RowView, pks: Seq<Seq<char>>) -> Seq<char> {
    join_spec(key_values(row, pks), "|"@)
}

/// Builds a row's identity from its primary-key values.
pub fn build_pk_key(row: &Row, primary_keys: &Vec<String>) -> (r: String)
    ensures
        r@ == pk_key(row_view(*row), views(primary_keys@)),
{
    let ghost rv = row_view(*row);
    let ghost pks = views(primary_keys@);
    let mut parts: Vec<String> = Vec::new();
    let mut i: usize = 0;
    while i < primary_keys.len()
        invariant
            rv == row_view(*row),
            pks == views(primary_keys@),
            i <= primary_keys@.len(),
            views(parts@) == key_values(rv, pks).take(i as int),
        decreases primary_keys.len() - i,
    {
        assert(pks[i as int] == primary_keys@[i as int]@);
        let ghost expect = key_values(rv, pks)[i as int];
        let ghost old_parts = parts@;
        match row_value(row, primary_keys[i].as_str()) {
            Some(v) => {
                parts.push(owned(v.as_str()));
            },
            None => {
                parts.push(String::new());
            },
        }
        assert(views(parts@).last() == expect);
        assert(parts@ == old_parts.push(parts@.last()));
        assert(views(parts@) =~= views(old_parts).push(expect));
        assert(key_values(rv, pks).take(i + 1) =~= key_values(rv, pks).take(i as int).push(expect));
        assert(views(parts@) =~= key_values(rv, pks).take(i + 1));
        i = i + 1;
    }
    assert(key_values(rv, pks).take(i as int) =~= key_values(rv, pks));
    join(&parts, "|")
}

/// The key column of `pks` at `i` with its value, where the row has it.
pub open spec fn pk_pair(row: RowView, pks: Seq<Seq<char>>, i: int) -> RowView {
    match row_get(row, pks[i]) {
        Some(v) => seq![(pks[i], v)],
        None => Seq::empty(),
    }
}

/// [`pk_pair`] as a function of the key position.
pub open spec fn pk_pairs(row: RowView, pks: Seq<Seq<char>>) -> spec_fn(int) -> RowView {
    |i: int| pk_pair(row, pks, i)
}

/// The primary-key columns that a row has, with their values, in key order.
pub open spec fn extract_pk(row: RowView, pks: Seq<Seq<char>>) -> RowView {
    gather(pk_pairs(row, pks), pks.len() as int)
}

/// The primary-key columns that `row` has, with their values.
pub fn extract_primary_key(row: &Row, primary_keys: &Vec<String>) -> (r: Row)
    ensures
        row_view(r) == extract_pk(row_view(*row), views(primary_keys@)),
{
    let ghost rv = row_view(*row);
    let ghost pks = views(primary_keys@);
    let mut out: Row = Vec::new();
    let mut i: usize = 0;
    while i < primary_keys.len()
        invariant
            rv == row_view(*row),
            pks == views(primary_keys@),
            i <= primary_keys@.len(),
            row_view(out) == gather(pk_pairs(rv, pks), i as int),
        decreases primary_keys.len() - i,
    {
        assert(pks[i as int] == primary_keys@[i as int]@);
        match row_value(row, primary_keys[i].as_str()) {
            Some(v) => out.push((owned(primary_keys[i].as_str()), owned(v.as_str()))),
            None => {},
        }
        assert(row_view(out) =~= gather(pk_pairs(rv, pks), i as int) + pk_pair(rv, pks, i as int));
        i = i + 1;
    }
    out
}

/// `column = literal`, with the column quoted for `d`.
pub open spec fn assignment(d: DbType, col: Seq<char>, val: Seq<char>) -> Seq<char> {
    d.quoted(col) + " = "@ + escape(val)
}

fn assignment_text(d: DbType, col: &str, val: &str) -> (r: String)
    ensures
        r@ == assignment(d, col@, val@),
{
    let mut s = d.quote_identifier(col);
    push_str(&mut s, " = ");
    let e = escape_value(val);
    push_str(&mut s, e.as_str());
    s
}

/// The condition on key column `i` of `pks`, where `row` has it.
pub open spec fn where_part(d: DbType, row: RowView, pks: Seq<Seq<char>>,
    i: int) -> Seq<Seq<char>> {
    match row_get(row, pks[i]) {
        Some(v) => seq![assignment(d, pks[i], v)],
        None => Seq::empty(),
    }
}

/// [`where_part`] as a function of the key position.
pub open spec fn where_parts(d: DbType, row: RowView, pks: Seq<Seq<char>>) -> spec_fn(int) -> Seq<
    Seq<char>,
> {
    |i: int| where_part(d, row, pks, i)
}

/// The conditions that pick out a row by its key, in key order.
pub open spec fn where_list(d: DbType, row: RowView, pks: Seq<Seq<char>>) -> Seq<Seq<char>> {
    gather(where_parts(d, row, pks), pks.len() as int)
}

fn where_texts(d: DbType, row: &Row, primary_keys: &Vec<String>) -> (r: Vec<String>)
    ensures
        views(r@) == where_list(d, row_view(*row), views(primary_keys@)),
{
    let ghost rv = row_view(*row);
    let ghost pks = views(primary_keys@);
    let mut out: Vec<String> = Vec::new();
    let mut i: usize = 0;
    while i < primary_keys.len()
        invariant
            rv == row_view(*row),
            pks == views(primary_keys@),
            i <= primary_keys@.len(),
            views(out@) == gather(where_parts(d, rv, pks), i as int),
        decreases primary_keys.len() - i,
    {
        assert(pks[i as int] == primary_keys@[i as int]@);
        let ghost old_out = out@;
        match row_value(row, primary_keys[i].as_str()) {
            Some(v) => {
                out.push(assignment_text(d, primary_keys[i].as_str(), v.as_str()));
                assert(views(out@) =~= views(old_out).push(out@.last()@));
            },
            None => {},
        }
        assert(views(out@) =~= gather(where_parts(d, rv, pks), i as int)
            + where_part(d, rv, pks, i as int));
        i = i + 1;
    }
    out
}

/// The quoted name of column `i` of `cols`, where `row` has it.
pub open spec fn insert_column(d: DbType, row: RowView, cols: Seq<Seq<char>>,
    i: int) -> Seq<Seq<char>> {
    match row_get(row, cols[i]) {
        Some(v) => seq![d.quoted(cols[i])],
        None => Seq::empty(),
    }
}

/// The literal for column `i` of `cols`, where `row` has it.
pub open spec fn insert_value(row: RowView, cols: Seq<Seq<char>>, i: int) -> Seq<Seq<char>> {
    match row_get(row, cols[i]) {
        Some(v) => seq![escape(v)],
        None => Seq::empty(),
    }
}

/// [`insert_column`] as a function of the column position.
pub open spec fn insert_columns(d: DbType, row: RowView,
    cols: Seq<Seq<char>>) -> spec_fn(int) -> Seq<Seq<char>> {
    |i: int| insert_column(d, row, cols, i)
}

/// [`insert_value`] as a function of the column position.
pub open spec fn insert_values(row: RowView,
    cols: Seq<Seq<char>>) -> spec_fn(int) -> Seq<Seq<char>> {
    |i: int| insert_value(row, cols, i)
}

/// `INSERT INTO t (columns) VALUES (literals);` over the declared columns
/// that the row has, in declared order.
pub open spec fn insert_sql(d: DbType, t: Seq<char>, row: RowView,
    cols: Seq<Seq<char>>) -> Seq<char> {
    "INSERT INTO "@ + d.quoted(t) + " ("@
        + join_spec(gather(insert_columns(d, row, cols), cols.len() as int), ", "@)
        + ") VALUES ("@ + join_spec(gather(insert_values(row, cols), cols.len() as int), ", "@)
            + ");"@
}

/// Writes the statement that inserts `row` into the target.
pub fn generate_insert_sql(db_type: DbType, table_name: &str, row: &Row,
    columns: &Vec<String>) -> (r: String)
    ensures
        r@ == insert_sql(db_type, table_name@, row_view(*row), views(columns@)),
{
    let ghost rv = row_view(*row);
    let ghost cs = views(columns@);
    let mut names: Vec<String> = Vec::new();
    let mut vals: Vec<String> = Vec::new();
    let mut i: usize = 0;
    while i < columns.len()
        invariant
            rv == row_view(*row),
            cs == views(columns@),
            i <= columns@.len(),
            views(names@) == gather(insert_columns(db_type, rv, cs), i as int),
            views(vals@) == gather(insert_values(rv, cs), i as int),
        decreases columns.len() - i,
    {
        assert(cs[i as int] == columns@[i as int]@);
        let ghost old_names = names@;
        let ghost old_vals = vals@;
        match row_value(row, columns[i].as_str()) {
            Some(v) => {
                names.push(db_type.quote_identifier(columns[i].as_str()));
                vals.push(escape_value(v.as_str()));
                assert(views(names@) =~= views(old_names).push(names@.last()@));
                assert(views(vals@) =~= views(old_vals).push(vals@.last()@));
            },
            None => {},
        }
        assert(views(names@) =~= gather(insert_columns(db_type, rv, cs), i as int)
            + insert_column(db_type, rv, cs, i as int));
        assert(views(vals@) =~= gather(insert_values(rv, cs), i as int)
            + insert_value(rv, cs, i as int));
        i = i + 1;
    }
    let mut sql = owned("INSERT INTO ");
    let q = db_type.quote_identifier(table_name);
    push_str(&mut sql, q.as_str());
    push_str(&mut sql, " (");
    let n = join(&names, ", ");
    push_str(&mut sql, n.as_str());
    push_str(&mut sql, ") VALUES (");
    let v = join(&vals, ", ");
    push_str(&mut sql, v.as_str());
    push_str(&mut sql, ");");
    assert(sql@ =~= insert_sql(db_type, table_name@, rv, cs));
    sql
}

/// The assignment for pair `i` of `row`, unless its column is a key column.
pub open spec fn set_part(d: DbType, row: RowView, pks: Seq<Seq<char>>, i: int) -> Seq<Seq<char>> {
    if pks.contains(row[i].0) {
        Seq::empty()
    } else {
        seq![assignment(d, row[i].0, row[i].1)]
    }
}

/// [`set_part`] as a function of the pair position.
pub open spec fn set_parts(d: DbType, row: RowView,
    pks: Seq<Seq<char>>) -> spec_fn(int) -> Seq<Seq<char>> {
    |i: int| set_part(d, row, pks, i)
}

/// `UPDATE t SET assignments WHERE key conditions;`: the row's pairs in
/// order, key columns left out of the `SET` list.
pub open spec fn update_sql(d: DbType, t: Seq<char>, row: RowView,
    pks: Seq<Seq<char>>) -> Seq<char> {
    "UPDATE "@ + d.quoted(t) + " SET "@
        + join_spec(gather(set_parts(d, row, pks), row.len() as int), ", "@)
        + " WHERE "@ + join_spec(where_list(d, row, pks), " AND "@) + ";"@
}

/// Writes the statement that sets the target's row to `row`.
pub fn generate_update_sql(db_type: DbType, table_name: &str, row: &Row,
    primary_keys: &Vec<String>) -> (r: String)
    ensures
        r@ == update_sql(db_type, table_name@, row_view(*row), views(primary_keys@)),
{
    let ghost rv = row_view(*row);
    let ghost pks = views(primary_keys@);
    let mut sets: Vec<String> = Vec::new();
    let mut i: usize = 0;
    while i < row.len()
        invariant
            rv == row_view(*row),
            pks == views(primary_keys@),
            i <= row@.len(),
            views(sets@) == gather(set_parts(db_type, rv, pks), i as int),
        decreases row.len() - i,
    {
        assert(rv[i as int] == (row@[i as int].0@, row@[i as int].1@));
        let ghost old_sets = sets@;
        if !contains_text(primary_keys, row[i].0.as_str()) {
            sets.push(assignment_text(db_type, row[i].0.as_str(), row[i].1.as_str()));
            assert(views(sets@) =~= views(old_sets).push(sets@.last()@));
        }
        assert(views(sets@) =~= gather(set_parts(db_type, rv, pks), i as int)
            + set_part(db_type, rv, pks, i as int));
        i = i + 1;
    }
    let wheres = where_texts(db_type, row, primary_keys);
    let mut sql = owned("UPDATE ");
    let q = db_type.quote_identifier(table_name);
    push_str(&mut sql, q.as_str());
    push_str(&mut sql, " SET ");
    let s = join(&sets, ", ");
    push_str(&mut sql, s.as_str());
    push_str(&mut sql, " WHERE ");
    let w = join(&wheres, " AND ");
    push_str(&mut sql, w.as_str());
    push_str(&mut sql, ";");
    assert(sql@ =~= update_sql(db_type, table_name@, rv, pks));
    sql
}

/// `DELETE FROM t WHERE key conditions;`, the conditions taken from
/// `pk_values`.
pub open spec fn delete_sql(d: DbType, t: Seq<char>, pks: Seq<Seq<char>>,
    pk_values: RowView) -> Seq<char> {
    "DELETE FROM "@ + d.quoted(t) + " WHERE "@ + join_spec(where_list(d, pk_values, pks), " AND "@)
        + ";"@
}

/// Writes the statement that deletes the target's row with these key
/// values.
pub fn generate_delete_sql(db_type: DbType, table_name: &str, primary_keys: &Vec<String>,
    pk_values: &Row) -> (r: String)
    ensures
        r@ == delete_sql(db_type, table_name@, views(primary_keys@), row_view(*pk_values)),
{
    let wheres = where_texts(db_type, pk_values, primary_keys);
    let mut sql = owned("DELETE FROM ");
    let q = db_type.quote_identifier(table_name);
    push_str(&mut sql, q.as_str());
    push_str(&mut sql, " WHERE ");
    let w = join(&wheres, " AND ");
    push_str(&mut sql, w.as_str());
    push_str(&mut sql, ";");
    assert(sql@ =~= delete_sql(db_type, table_name@, views(primary_keys@), row_view(*pk_values)));
    sql
}

/// The kind of a row-level difference.
#[derive(Debug, Clone, Copy, PartialEq, Eq, Structural)]
pub enum DataDiffType {
    Insert,
    Update,
    Delete,
}

/// One row-level difference, with the statement that removes it. An insert
/// has new values only, a delete old values only, an update both.
#[derive(Debug, Clone)]
pub struct DataDiffResult {
    pub diff_type: DataDiffType,
    pub table_name: String,
    pub primary_key: Row,
    pub old_values: Option<Row>,
    pub new_values: Option<Row>,
    /// A statement in the target's dialect.
    pub sql: String,
}

/// The mathematical value of a [`DataDiffResult`].
pub struct DataDiffView {
    pub diff_type: DataDiffType,
    pub table_name: Seq<char>,
    pub primary_key: RowView,
    pub old_values: Option<RowView>,
    pub new_values: Option<RowView>,
    pub sql: Seq<char>,
}

/// The view of an optional row.
pub open spec fn opt_row_view(o: Option<Row>) -> Option<RowView> {
    match o {
        Some(r) => Some(row_view(r)),
        None => None,
    }
}

impl View for DataDiffResult {
    type V = DataDiffView;

    open spec fn view(&self) -> DataDiffView {
        DataDiffView {
            diff_type: self.diff_type,
            table_name: self.table_name@,
            primary_key: row_view(self.primary_key),
            old_values: opt_row_view(self.old_values),
            new_values: opt_row_view(self.new_values),
            sql: self.sql@,
        }
    }
}

/// The views of a sequence of row differences.
pub open spec fn data_views(v: Seq<DataDiffResult>) -> Seq<DataDiffView> {
    v.map_values(|d: DataDiffResult| d@)
}

/// Summary counts for one table, for reporting.
#[derive(Debug, Clone)]
pub struct TableDataInfo {
    pub table_name: String,
    pub columns: Vec<String>,
    pub primary_keys: Vec<String>,
    pub source_count: i64,
    pub target_count: i64,
    pub insert_count: i64,
    pub update_count: i64,
    pub delete_count: i64,
}

/// The identity of each row.
pub open spec fn row_keys(rows: Seq<RowView>, pks: Seq<Seq<char>>) -> Seq<Seq<char>> {
    rows.map_values(|r: RowView| pk_key(r, pks))
}

/// The difference for source row `i`: an insert where the target has no row
/// with its identity, an update where the target's row differs, nothing
/// otherwise. A later row with the same identity takes the place of an
/// earlier one.
pub open spec fn upsert_entry(
    t: Seq<char>,
    d: DbType,
    cols: Seq<Seq<char>>,
    pks: Seq<Seq<char>>,
    src: Seq<RowView>,
    tgt: Seq<RowView>,
    i: int,
) -> Seq<DataDiffView> {
    let row = src[i];
    let j = last_index_of(row_keys(tgt, pks), row_keys(src, pks)[i]);
    if !is_last_of_key(row_keys(src, pks), i) {
        Seq::empty()
    } else if j >= 0 {
        if !rows_equal(row, tgt[j]) {
            seq![
                DataDiffView {
                    diff_type: DataDiffType::Update,
                    table_name: t,
                    primary_key: extract_pk(row, pks),
                    old_values: Some(tgt[j]),
                    new_values: Some(row),
                    sql: update_sql(d, t, row, pks),
                },
            ]
        } else {
            Seq::empty()
        }
    } else {
        seq![
            DataDiffView {
                diff_type: DataDiffType::Insert,
                table_name: t,
                primary_key: extract_pk(row, pks),
                old_values: None,
                new_values: Some(row),
                sql: insert_sql(d, t, row, cols),
            },
        ]
    }
}

/// The difference for target row `i`: a delete where the source has no
/// row with its identity.
pub open spec fn delete_entry(
    t: Seq<char>,
    d: DbType,
    pks: Seq<Seq<char>>,
    src: Seq<RowView>,
    tgt: Seq<RowView>,
    i: int,
) -> Seq<DataDiffView> {
    let row = tgt[i];
    if is_last_of_key(row_keys(tgt, pks), i) && last_index_of(
        row_keys(src, pks),
        row_keys(tgt, pks)[i],
    ) < 0 {
        seq![
            DataDiffView {
                diff_type: DataDiffType::Delete,
                table_name: t,
                primary_key: extract_pk(row, pks),
                old_values: Some(row),
                new_values: None,
                sql: delete_sql(d, t, pks, extract_pk(row, pks)),
            },
        ]
    } else {
        Seq::empty()
    }
}

/// [`upsert_entry`] as a function of the source row position.
pub open spec fn upsert_entries(
    t: Seq<char>,
    d: DbType,
    cols: Seq<Seq<char>>,
    pks: Seq<Seq<char>>,
    src: Seq<RowView>,
    tgt: Seq<RowView>,
) -> spec_fn(int) -> Seq<DataDiffView> {
    |i: int| upsert_entry(t, d, cols, pks, src, tgt, i)
}

/// [`delete_entry`] as a function of the target row position.
pub open spec fn delete_entries(
    t: Seq<char>,
    d: DbType,
    pks: Seq<Seq<char>>,
    src: Seq<RowView>,
    tgt: Seq<RowView>,
) -> spec_fn(int) -> Seq<DataDiffView> {
    |i: int| delete_entry(t, d, pks, src, tgt, i)
}

/// The row differences of table `t`: inserts and updates in source row
/// order, then deletes in target row order.
pub open spec fn data_diffs(
    t: Seq<char>,
    d: DbType,
    cols: Seq<Seq<char>>,
    pks: Seq<Seq<char>>,
    src: Seq<RowView>,
    tgt: Seq<RowView>,
) -> Seq<DataDiffView> {
    gather(upsert_entries(t, d, cols, pks, src, tgt), src.len() as int) + gather(
        delete_entries(t, d, pks, src, tgt),
        tgt.len() as int,
    )
}

fn copy_row(row: &Row) -> (r: Row)
    ensures
        row_view(r) == row_view(*row),
{
    let mut out: Row = Vec::new();
    let mut i: usize = 0;
    while i < row.len()
        invariant
            i <= row@.len(),
            row_view(out) == row_view(*row).take(i as int),
        decreases row.len() - i,
    {
        let ghost old_out = out;
        out.push((owned(row[i].0.as_str()), owned(row[i].1.as_str())));
        assert(out@ == old_out@.push(out@.last()));
        assert(row_view(out) =~= row_view(old_out).push(row_view(*row)[i as int]));
        assert(row_view(out) =~= row_view(*row).take(i + 1));
        i = i + 1;
    }
    assert(row_view(*row).take(i as int) =~= row_view(*row));
    out
}

fn same_value(a: Option<&String>, b: Option<&String>) -> (r: bool)
    ensures
        r == (match a {
            Some(x) => Some(x@),
            None => None::<Seq<char>>,
        } == match b {
            Some(y) => Some(y@),
            None => None::<Seq<char>>,
        }),
{
    match (a, b) {
        (Some(x), Some(y)) => same_text(x.as_str(), y.as_str()),
        (None, None) => true,
        _ => false,
    }
}

/// Whether every column of `a` has the same value in `b`.
fn values_agree(a: &Row, b: &Row) -> (r: bool)
    ensures
        r == forall|i: int|
            0 <= i < a@.len() ==> row_get(row_view(*a), #[trigger] row_view(*a)[i].0) == row_get(
                row_view(*b),
                row_view(*a)[i].0,
            ),
{
    let ghost ra = row_view(*a);
    let ghost rb = row_view(*b);
    let mut i: usize = 0;
    while i < a.len()
        invariant
            ra == row_view(*a),
            rb == row_view(*b),
            i <= a@.len(),
            forall|j: int| 0 <= j < i ==> row_get(ra, #[trigger] ra[j].0) == row_get(rb, ra[j].0),
        decreases a.len() - i,
    {
        let k = a[i].0.as_str();
        assert(ra[i as int].0 == k@);
        if !same_value(row_value(a, k), row_value(b, k)) {
            return false;
        }
        i = i + 1;
    }
    true
}

fn same_row(a: &Row, b: &Row) -> (r: bool)
    ensures
        r == rows_equal(row_view(*a), row_view(*b)),
{
    let ghost ra = row_view(*a);
    let ghost rb = row_view(*b);
    if !values_agree(a, b) {
        return false;
    }
    if !values_agree(b, a) {
        return false;
    }
    assert forall|k: Seq<char>| #[trigger] row_get(ra, k) == row_get(rb, k) by {
        lemma_row_get_some(ra, k);
        lemma_row_get_some(rb, k);
        if row_get(ra, k) is Some {
            let i = choose|i: int| 0 <= i < ra.len() && #[trigger] ra[i].0 == k;
        } else if row_get(rb, k) is Some {
            let j = choose|j: int| 0 <= j < rb.len() && #[trigger] rb[j].0 == k;
        }
    }
    true
}

fn identities(rows: &Vec<Row>, primary_keys: &Vec<String>) -> (r: Vec<String>)
    ensures
        views(r@) == row_keys(row_views(rows@), views(primary_keys@)),
{
    let mut out: Vec<String> = Vec::new();
    let mut i: usize = 0;
    while i < rows.len()
        invariant
            i <= rows@.len(),
            views(out@) == row_keys(row_views(rows@), views(primary_keys@)).take(i as int),
        decreases rows.len() - i,
    {
        let ghost old_out = out@;
        out.push(build_pk_key(&rows[i], primary_keys));
        assert(row_views(rows@)[i as int] == row_view(rows@[i as int]));
        assert(views(out@) =~= views(old_out).push(out@.last()@));
        assert(views(out@) =~= row_keys(row_views(rows@), views(primary_keys@)).take(i + 1));
        i = i + 1;
    }
    assert(row_keys(row_views(rows@), views(primary_keys@)).take(i as int) =~= row_keys(
        row_views(rows@),
        views(primary_keys@),
    ));
    out
}

/// Compares the rows of one table. `columns` are the source's columns in
/// declared order and `primary_keys` its key columns in key order; each row
/// holds (column, value) pairs as fetched. Fails exactly when there is no
/// key column; otherwise returns the differences of [`data_diffs`], with
/// statements for `target_db_type`.
pub fn compare_table_data(
    table_name: &str,
    target_db_type: DbType,
    columns: &Vec<String>,
    primary_keys: &Vec<String>,
    source_rows: &Vec<Row>,
    target_rows: &Vec<Row>,
) -> (r: Result<Vec<DataDiffResult>, DbError>)
    ensures
        primary_keys@.len() == 0 <==> r is Err,
        match r {
            Err(e) => e matches DbError::NoPrimaryKey { table } && table@ == table_name@,
            Ok(v) => data_views(v@) == data_diffs(
                table_name@,
                target_db_type,
                views(columns@),
                views(primary_keys@),
                row_views(source_rows@),
                row_views(target_rows@),
            ),
        },
{
    if primary_keys.len() == 0 {
        return Err(DbError::NoPrimaryKey { table: owned(table_name) });
    }
    let ghost t = table_name@;
    let ghost d = target_db_type;
    let ghost cs = views(columns@);
    let ghost pks = views(primary_keys@);
    let ghost src = row_views(source_rows@);
    let ghost tgt = row_views(target_rows@);
    let skeys = identities(source_rows, primary_keys);
    let tkeys = identities(target_rows, primary_keys);
    let mut results: Vec<DataDiffResult> = Vec::new();
    let n = source_rows.len();
    let m = target_rows.len();
    let mut i: usize = 0;
    while i < n
        invariant
            t == table_name@,
            d == target_db_type,
            cs == views(columns@),
            pks == views(primary_keys@),
            src == row_views(source_rows@),
            tgt == row_views(target_rows@),
            views(skeys@) == row_keys(src, pks),
            views(tkeys@) == row_keys(tgt, pks),
            n == source_rows@.len(),
            i <= n,
            data_views(results@) == gather(upsert_entries(t, d, cs, pks, src, tgt), i as int),
        decreases n - i,
    {
        let row = &source_rows[i];
        let own = last_text_index(&skeys, skeys[i].as_str());
        let other = last_text_index(&tkeys, skeys[i].as_str());
        proof {
            assert(src[i as int] == row_view(*row));
            assert(views(skeys@)[i as int] == skeys@[i as int]@);
            lemma_last_index_of(row_keys(tgt, pks), row_keys(src, pks)[i as int]);
        }
        let ghost before = results@;
        if match own { Some(x) => x == i, None => false } {
            match other {
                Some(j) => {
                    let trow = &target_rows[j];
                    assert(tgt[j as int] == row_view(*trow));
                    if !same_row(row, trow) {
                        results.push(DataDiffResult {
                            diff_type: DataDiffType::Update,
                            table_name: owned(table_name),
                            primary_key: extract_primary_key(row, primary_keys),
                            old_values: Some(copy_row(trow)),
                            new_values: Some(copy_row(row)),
                            sql: generate_update_sql(target_db_type, table_name, row, primary_keys),
                        });
                        assert(data_views(results@) =~= data_views(before).push(results@.last()@));
                    }
                },
                None => {
                    results.push(DataDiffResult {
                        diff_type: DataDiffType::Insert,
                        table_name: owned(table_name),
                        primary_key: extract_primary_key(row, primary_keys),
                        old_values: None,
                        new_values: Some(copy_row(row)),
                        sql: generate_insert_sql(target_db_type, table_name, row, columns),
                    });
                    assert(data_views(results@) =~= data_views(before).push(results@.last()@));
                },
            }
        }
        assert(data_views(results@) =~= gather(upsert_entries(t, d, cs, pks, src, tgt), i as int)
            + upsert_entry(t, d, cs, pks, src, tgt, i as int));
        i = i + 1;
    }
    let mut k: usize = 0;
    while k < m
        invariant
            t == table_name@,
            d == target_db_type,
            cs == views(columns@),
            pks == views(primary_keys@),
            src == row_views(source_rows@),
            tgt == row_views(target_rows@),
            views(skeys@) == row_keys(src, pks),
            views(tkeys@) == row_keys(tgt, pks),
            n == source_rows@.len(),
            m == target_rows@.len(),
            k <= m,
            data_views(results@) == gather(upsert_entries(t, d, cs, pks, src, tgt), n as int)
                + gather(delete_entries(t, d, pks, src, tgt), k as int),
        decreases m - k,
    {
        let row = &target_rows[k];
        let own = last_text_index(&tkeys, tkeys[k].as_str());
        let other = last_text_index(&skeys, tkeys[k].as_str());
        proof {
            assert(tgt[k as int] == row_view(*row));
            assert(views(tkeys@)[k as int] == tkeys@[k as int]@);
        }
        let ghost before = results@;
        if (match own { Some(x) => x == k, None => false }) && other.is_none() {
            let pk = extract_primary_key(row, primary_keys);
            let sql = generate_delete_sql(target_db_type, table_name, primary_keys, &pk);
            results.push(DataDiffResult {
                diff_type: DataDiffType::Delete,
                table_name: owned(table_name),
                primary_key: pk,
                old_values: Some(copy_row(row)),
                new_values: None,
                sql,
            });
            assert(data_views(results@) =~= data_views(before).push(results@.last()@));
        }
        assert(data_views(results@) =~= gather(upsert_entries(t, d, cs, pks, src, tgt), n as int)
            + gather(delete_entries(t, d, pks, src, tgt), k as int)
                + delete_entry(t, d, pks, src, tgt, k as int));
        k = k + 1;
    }
    Ok(results)
}

/// Whether two row lists hold the same rows by identity: the same
/// identities, and for each identity rows with the same column values. A
/// later row with an identity takes the place of an earlier one.
pub open spec fn same_row_sets(src: Seq<RowView>, tgt: Seq<RowView>, pks: Seq<Seq<char>>) -> bool {
    &&& forall|k: Seq<char>|
        #![trigger last_index_of(row_keys(src, pks), k)]
        #![trigger last_index_of(row_keys(tgt, pks), k)]
        last_index_of(row_keys(src, pks), k) >= 0 <==> last_index_of(row_keys(tgt, pks), k) >= 0
    &&& forall|k: Seq<char>|
        #![trigger last_index_of(row_keys(src, pks), k)]
        last_index_of(row_keys(src, pks), k) >= 0 ==> rows_equal(
            src[last_index_of(row_keys(src, pks), k)],
            tgt[last_index_of(row_keys(tgt, pks), k)],
        )
}

/// Comparing two row lists that hold the same rows, in whatever order,
/// finds no difference.
pub proof fn lemma_same_rows_no_diffs(
    t: Seq<char>,
    d: DbType,
    cols: Seq<Seq<char>>,
    pks: Seq<Seq<char>>,
    src: Seq<RowView>,
    tgt: Seq<RowView>,
)
    requires
        same_row_sets(src, tgt, pks),
    ensures
        data_diffs(t, d, cols, pks, src, tgt).len() == 0,
{
    let ks = row_keys(src, pks);
    let kt = row_keys(tgt, pks);
    assert forall|i: int| 0 <= i < src.len() implies #[trigger] upsert_entries(
        t,
        d,
        cols,
        pks,
        src,
        tgt,
    )(i).len() == 0 by {
        assert(last_index_of(ks, ks[i]) >= 0 ==> last_index_of(kt, ks[i]) >= 0);
    }
    assert forall|i: int| 0 <= i < tgt.len() implies #[trigger] delete_entries(
        t,
        d,
        pks,
        src,
        tgt,
    )(i).len() == 0 by {
        assert(last_index_of(ks, kt[i]) >= 0 <==> last_index_of(kt, kt[i]) >= 0);
    }
    lemma_gather_empty(upsert_entries(t, d, cols, pks, src, tgt), src.len() as int);
    lemma_gather_empty(delete_entries(t, d, pks, src, tgt), tgt.len() as int);
}

/// The statement that counts a table's rows.
pub open spec fn row_count_query(d: DbType, t: Seq<char>) -> Seq<char> {
    "SELECT COUNT(*) FROM "@ + d.quoted(t)
}

/// Writes the statement that counts a table's rows.
pub fn build_row_count_query(db_type: DbType, table_name: &str) -> (r: String)
    ensures
        r@ == row_count_query(db_type, table_name@),
{
    let mut s = owned("SELECT COUNT(*) FROM ");
    let q = db_type.quote_identifier(table_name);
    push_str(&mut s, q.as_str());
    s
}

/// Each column name quoted for `d`.
pub open spec fn quoted_names(d: DbType, cols: Seq<Seq<char>>) -> Seq<Seq<char>> {
    cols.map_values(|c: Seq<char>| d.quoted(c))
}

/// The statement that reads the given columns of every row.
pub open spec fn select_query(d: DbType, t: Seq<char>, cols: Seq<Seq<char>>) -> Seq<char> {
    "SELECT "@ + join_spec(quoted_names(d, cols), ", "@) + " FROM "@ + d.quoted(t)
}

/// Writes the statement that reads the given columns of every row.
pub fn build_select_query(db_type: DbType, table_name: &str, columns: &Vec<String>) -> (r: String)
    ensures
        r@ == select_query(db_type, table_name@, views(columns@)),
{
    let mut quoted: Vec<String> = Vec::new();
    let mut i: usize = 0;
    while i < columns.len()
        invariant
            i <= columns@.len(),
            views(quoted@) == quoted_names(db_type, views(columns@)).take(i as int),
        decreases columns.len() - i,
    {
        let ghost old_quoted = quoted@;
        quoted.push(db_type.quote_identifier(columns[i].as_str()));
        assert(views(quoted@) =~= views(old_quoted).push(quoted@.last()@));
        assert(views(quoted@) =~= quoted_names(db_type, views(columns@)).take(i + 1));
        i = i + 1;
    }
    assert(quoted_names(db_type, views(columns@)).take(i as int) =~= quoted_names(
        db_type,
        views(columns@),
    ));
    let mut s = owned("SELECT ");
    let list = join(&quoted, ", ");
    push_str(&mut s, list.as_str());
    push_str(&mut s, " FROM ");
    let q = db_type.quote_identifier(table_name);
    push_str(&mut s, q.as_str());
    assert(s@ =~= select_query(db_type, table_name@, views(columns@)));
    s
}

/// The number of rows before page `page` (counted from 1) of `page_size`
/// rows; page 0 is taken as page 1.
pub open spec fn page_offset_spec(page: nat, page_size: nat) -> nat {
    if page == 0 {
        0
    } else {
        ((page - 1) as nat * page_size) as nat
    }
}

/// The number of rows that precede a page.
pub fn page_offset(page: usize, page_size: usize) -> (r: usize)
    requires
        page_offset_spec(page as nat, page_size as nat) <= usize::MAX,
    ensures
        r as nat == page_offset_spec(page as nat, page_size as nat),
{
    if page == 0 {
        0
    } else {
        (page - 1) * page_size
    }
}

/// The statement that reads one page of rows.
pub open spec fn page_query(
    d: DbType,
    t: Seq<char>,
    cols: Seq<Seq<char>>,
    page: nat,
    page_size: nat,
) -> Seq<char> {
    select_query(d, t, cols) + d.window_clause(page_offset_spec(page, page_size), page_size)
}

/// Writes the statement that reads page `page` (counted from 1; page 0 is
/// page 1) of `page_size` rows.
pub fn build_page_query(
    db_type: DbType,
    table_name: &str,
    columns: &Vec<String>,
    page: usize,
    page_size: usize,
) -> (r: String)
    requires
        page_offset_spec(page as nat, page_size as nat) <= usize::MAX,
    ensures
        r@ == page_query(db_type, table_name@, views(columns@), page as nat, page_size as nat),
{
    let offset = page_offset(page, page_size);
    let mut s = build_select_query(db_type, table_name, columns);
    db_type.push_window(&mut s, offset as u64, page_size as u64);
    s
}

/// Page 0 and page 1 read the same rows.
pub proof fn lemma_first_page_clamped(d: DbType, t: Seq<char>, cols: Seq<Seq<char>>, page_size: nat)
    ensures
        page_query(d, t, cols, 0, page_size) == page_query(d, t, cols, 1, page_size),
{
    assert(0 * page_size == 0) by (nonlinear_arith);
}

/// A fetched value as text: a value that could not be read as text is the
/// text `NULL`.
pub open spec fn cell_text(v: Option<Seq<char>>) -> Seq<char> {
    match v {
        Some(s) => s,
        None => "NULL"@,
    }
}

/// Turns a fetched value into text.
pub fn fetched_text(v: Option<String>) -> (r: String)
    ensures
        r@ == cell_text(crate::schema::opt_view(v)),
{
    match v {
        Some(s) => s,
        None => owned("NULL"),
    }
}

/// A fetched row as (column, text) pairs: column `i` takes value `i`, and a
/// missing or unreadable value is the text `NULL`.
pub open spec fn fetched_pair(cols: Seq<Seq<char>>, vals: Seq<Option<Seq<char>>>,
    i: int) -> (Seq<char>, Seq<char>) {
    (cols[i], if i < vals.len() { cell_text(vals[i]) } else { "NULL"@ })
}

/// Builds a row from the values fetched for `columns`, in that order.
pub fn row_from_values(columns: &Vec<String>, values: Vec<Option<String>>) -> (r: Row)
    ensures
        row_view(r).len() == columns@.len(),
        forall|i: int| 0 <= i < columns@.len() ==> #[trigger] row_view(r)[i] == fetched_pair(
            views(columns@),
            values@.map_values(|v: Option<String>| crate::schema::opt_view(v)),
            i,
        ),
{
    let ghost vals = values@.map_values(|v: Option<String>| crate::schema::opt_view(v));
    let mut out: Row = Vec::new();
    let mut i: usize = 0;
    while i < columns.len()
        invariant
            i <= columns@.len(),
            vals == values@.map_values(|v: Option<String>| crate::schema::opt_view(v)),
            row_view(out).len() == i,
            forall|j: int| 0 <= j < i
                ==> #[trigger] row_view(out)[j] == fetched_pair(views(columns@), vals, j),
        decreases columns.len() - i,
    {
        let text = if i < values.len() {
            match &values[i] {
                Some(s) => owned(s.as_str()),
                None => owned("NULL"),
            }
        } else {
            owned("NULL")
        };
        let ghost old_out = out;
        out.push((owned(columns[i].as_str()), text));
        assert(out@ == old_out@.push(out@.last()));
        assert forall|j: int| 0 <= j < i implies #[trigger] row_view(out)[j]
            == row_view(old_out)[j] by {
            assert(out@[j] == old_out@[j]);
        }
        assert(row_view(out)[i as int] == fetched_pair(views(columns@), vals, i as int));
        i = i + 1;
    }
    out
}

/// The column of pair `i` of the new row where the old row lacks it or
/// holds another value there.
pub open spec fn changed_column(old_row: Option<RowView>, new_row: RowView,
    i: int) -> Seq<Seq<char>> {
    match old_row {
        Some(o) => if row_get(o, new_row[i].0) != row_get(new_row, new_row[i].0) {
            seq![new_row[i].0]
        } else {
            Seq::empty()
        },
        None => seq![new_row[i].0],
    }
}

/// [`changed_column`] as a function of the pair position.
pub open spec fn changed_columns_of(old_row: Option<RowView>,
    new_row: RowView) -> spec_fn(int) -> Seq<Seq<char>> {
    |i: int| changed_column(old_row, new_row, i)
}

/// The columns whose value an update changes, in the new row's order.
pub fn changed_columns(diff: &DataDiffResult) -> (r: Vec<String>)
    ensures
        match diff.new_values {
            Some(n) => views(r@) == gather(
                changed_columns_of(opt_row_view(diff.old_values), row_view(n)),
                n@.len() as int,
            ),
            None => r@.len() == 0,
        },
{
    let mut out: Vec<String> = Vec::new();
    match &diff.new_values {
        Some(n) => {
            let ghost nv = row_view(*n);
            let ghost ov = opt_row_view(diff.old_values);
            let mut i: usize = 0;
            while i < n.len()
                invariant
                    nv == row_view(*n),
                    ov == opt_row_view(diff.old_values),
                    i <= n@.len(),
                    views(out@) == gather(changed_columns_of(ov, nv), i as int),
                decreases n.len() - i,
            {
                let col = n[i].0.as_str();
                assert(nv[i as int].0 == col@);
                let now = row_value(n, col);
                let differs = match &diff.old_values {
                    Some(o) => {
                        let before = row_value(o, col);
                        match (before, now) {
                            (Some(a), Some(b)) => !same_text(a.as_str(), b.as_str()),
                            (None, None) => false,
                            _ => true,
                        }
                    },
                    None => true,
                };
                let ghost old_out = out@;
                if differs {
                    out.push(owned(col));
                    assert(views(out@) =~= views(old_out).push(col@));
                }
                assert(views(out@) =~= gather(changed_columns_of(ov, nv), i as int)
                    + changed_column(ov, nv, i as int));
                i = i + 1;
            }
        },
        None => {},
    }
    out
}

/// Whether a row difference carries the rows its kind calls for: an insert
/// the new row only, a delete the old row only, an update both.
pub open spec fn rows_match_kind(e: DataDiffView) -> bool {
    match e.diff_type {
        DataDiffType::Insert => e.old_values is None && e.new_values is Some,
        DataDiffType::Delete => e.old_values is Some && e.new_values is None,
        DataDiffType::Update => e.old_values is Some && e.new_values is Some,
    }
}

/// Every row difference carries exactly the rows its kind calls for.
pub proof fn lemma_rows_match_kind(
    t: Seq<char>,
    d: DbType,
    cols: Seq<Seq<char>>,
    pks: Seq<Seq<char>>,
    src: Seq<RowView>,
    tgt: Seq<RowView>,
)
    ensures
        forall|k: int|
            0 <= k < data_diffs(t, d, cols, pks, src, tgt).len() ==> rows_match_kind(
                #[trigger] data_diffs(t, d, cols, pks, src, tgt)[k],
            ),
{
    let p = |e: DataDiffView| rows_match_kind(e);
    let up = upsert_entries(t, d, cols, pks, src, tgt);
    let del = delete_entries(t, d, pks, src, tgt);
    lemma_gather_all(up, src.len() as int, p);
    lemma_gather_all(del, tgt.len() as int, p);
    let a = gather(up, src.len() as int);
    let b = gather(del, tgt.len() as int);
    assert forall|k: int| 0 <= k < (a + b).len() implies rows_match_kind(#[trigger] (a + b)[k]) by {
        if k < a.len() {
            assert(p(a[k]));
        } else {
            assert(p(b[k - a.len()]));
        }
    }
}

} // verus!
