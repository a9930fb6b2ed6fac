//! Structural comparison of two schemas, with the SQL that brings the
//! target in line with the source.

use vstd::prelude::*;
use crate::dialect::DbType;
use crate::schema::{ColumnInfo, ColumnView, TableInfo, TableView, SchemaInfo};
use crate::text::{
    chars_of, gather, is_last_of_key, last_index_of, last_text_index, lemma_gather_empty,
    lemma_last_index_of, lemma_text_lt_irreflexive, lemma_text_lt_transitive, owned, push_str,
    same_text, text_less, text_lt, views,
};

verus! {

/// The kind of a structural difference.
#[derive(Debug, Clone, Copy, PartialEq, Eq, Structural)]
pub enum DiffType {
    Added,
    Removed,
    Modified,
}

/// One structural difference, with the statement that removes it.
#[derive(Debug, Clone)]
pub struct DiffResult {
    pub diff_type: DiffType,
    pub table_name: String,
    pub detail: String,
    /// A statement in the target's dialect.
    pub sql: String,
}

/// The mathematical value of a [`DiffResult`].
pub struct DiffView {
    pub diff_type: DiffType,
    pub table_name: Seq<char>,
    pub detail: Seq<char>,
    pub sql: Seq<char>,
}

impl View for DiffResult {
    type V = DiffView;

    open spec fn view(&self) -> DiffView {
        DiffView {
            diff_type: self.diff_type,
            table_name: self.table_name@,
            detail: self.detail@,
            sql: self.sql@,
        }
    }
}

/// The views of a sequence of differences.
pub open spec fn diff_views(v: Seq<DiffResult>) -> Seq<DiffView> {
    v.map_values(|d: DiffResult| d@)
}

/// What `str::to_uppercase` gives for a string.
pub uninterp spec fn upper_of(s: Seq<char>) -> Seq<char>;

/// Relies on `str::to_uppercase`: the upper-case form of the text, which
/// depends on the characters alone.
#[verifier::external_body]
fn uppercase(s: &str) -> (r: String)
    ensures
        r@ == upper_of(s@),
{
    s.to_uppercase()
}

/// Whether `c` may stand in a bare numeric default.
pub open spec fn is_number_char(c: char) -> bool {
    ('0' <= c && c <= '9') || c == '.' || c == '-'
}

/// Whether a default, given as written (`val`) and in upper case (`upper`),
/// is emitted without quotes: a keyword such as `NULL` or
/// `CURRENT_TIMESTAMP`, a zero-argument call ending in `()`, or a
/// string of digits, dots and minus signs.
pub open spec fn bare_default(val: Seq<char>, upper: Seq<char>) -> bool {
    ||| upper == "NULL"@
    ||| upper == "CURRENT_TIMESTAMP"@
    ||| upper == "CURRENT_DATE"@
    ||| upper == "CURRENT_TIME"@
    ||| upper == "NOW()"@
    ||| upper == "TRUE"@
    ||| upper == "FALSE"@
    ||| (upper.len() >= 2 && upper[upper.len() - 2] == '(' && upper[upper.len() - 1] == ')')
    ||| (forall|i: int| 0 <= i < val.len() ==> is_number_char(#[trigger] val[i]))
}

/// Decides [`bare_default`] for a default and its upper-case form.
pub fn is_bare_default(val: &str, upper: &str) -> (r: bool)
    ensures
        r == bare_default(val@, upper@),
{
    if same_text(upper, "NULL") || same_text(upper, "CURRENT_TIMESTAMP") || same_text(
        upper,
        "CURRENT_DATE",
    ) || same_text(upper, "CURRENT_TIME") || same_text(upper, "NOW()") || same_text(upper, "TRUE")
        || same_text(upper, "FALSE") {
        return true;
    }
    let u = chars_of(upper);
    let n = u.len();
    if n >= 2 && u[n - 2] == '(' && u[n - 1] == ')' {
        return true;
    }
    all_number_chars(val)
}

fn all_number_chars(val: &str) -> (r: bool)
    ensures
        r == forall|i: int| 0 <= i < val@.len() ==> is_number_char(#[trigger] val@[i]),
{
    let v = chars_of(val);
    let mut i: usize = 0;
    while i < v.len()
        invariant
            v@ == val@,
            i <= v@.len(),
            forall|j: int| 0 <= j < i ==> is_number_char(#[trigger] v@[j]),
        decreases v.len() - i,
    {
        let c = v[i];
        if !(('0' <= c && c <= '9') || c == '.' || c == '-') {
            return false;
        }
        i = i + 1;
    }
    true
}

/// Whether a default value is emitted without quotes.
fn is_numeric_or_special(val: &str) -> (r: bool)
    ensures
        r == bare_default(val@, upper_of(val@)),
{
    let upper = uppercase(val);
    is_bare_default(val, upper.as_str())
}

/// The `DEFAULT` clause for an optional default.
pub open spec fn default_clause(d: Option<Seq<char>>) -> Seq<char> {
    match d {
        None => Seq::empty(),
        Some(v) => if bare_default(v, upper_of(v)) {
            " DEFAULT "@ + v
        } else {
            " DEFAULT '"@ + v + "'"@
        },
    }
}

/// A column's definition: its type, then `NOT NULL`, `DEFAULT` and the
/// extra modifiers, each where it applies.
pub open spec fn column_def(c: ColumnView) -> Seq<char> {
    c.data_type + (if c.nullable {
        Seq::empty()
    } else {
        " NOT NULL"@
    }) + default_clause(c.default) + (if c.extra.len() == 0 {
        Seq::empty()
    } else {
        " "@ + c.extra
    })
}

/// The definition of a column, as it follows the column's name in
/// `ADD COLUMN` and `MODIFY COLUMN`.
pub fn build_column_def(col: &ColumnInfo) -> (r: String)
    ensures
        r@ == column_def(col@),
{
    let mut def = owned(col.data_type.as_str());
    if !col.nullable {
        push_str(&mut def, " NOT NULL");
    }
    match &col.default {
        Some(d) => {
            if is_numeric_or_special(d.as_str()) {
                push_str(&mut def, " DEFAULT ");
                push_str(&mut def, d.as_str());
            } else {
                push_str(&mut def, " DEFAULT '");
                push_str(&mut def, d.as_str());
                push_str(&mut def, "'");
            }
        },
        None => {},
    }
    let extra = chars_of(col.extra.as_str());
    if extra.len() != 0 {
        push_str(&mut def, " ");
        push_str(&mut def, col.extra.as_str());
    }
    assert(def@ =~= column_def(col@));
    def
}

/// Whether two columns agree on what comparison reads: type, nullability,
/// default and extra modifiers.
pub open spec fn same_column(a: ColumnView, b: ColumnView) -> bool {
    a.data_type == b.data_type && a.nullable == b.nullable && a.default == b.default && a.extra
        == b.extra
}

fn same_opt_text(a: &Option<String>, b: &Option<String>) -> (r: bool)
    ensures
        r == (crate::schema::opt_view(*a) == crate::schema::opt_view(*b)),
{
    match (a, b) {
        (Some(x), Some(y)) => same_text(x.as_str(), y.as_str()),
        (None, None) => true,
        _ => false,
    }
}

/// Decides [`same_column`].
fn columns_equal(a: &ColumnInfo, b: &ColumnInfo) -> (r: bool)
    ensures
        r == same_column(a@, b@),
{
    same_text(a.data_type.as_str(), b.data_type.as_str()) && a.nullable == b.nullable
        && same_opt_text(&a.default, &b.default) && same_text(a.extra.as_str(), b.extra.as_str())
}

/// The names of a sequence of columns.
pub open spec fn column_names(cols: Seq<ColumnView>) -> Seq<Seq<char>> {
    cols.map_values(|c: ColumnView| c.name)
}

/// `ALTER TABLE` followed by the quoted table name.
pub open spec fn alter_table(d: DbType, t: Seq<char>) -> Seq<char> {
    "ALTER TABLE "@ + d.quoted(t)
}

/// The difference for source column `i` where the target lacks it.
pub open spec fn add_column_entry(
    d: DbType,
    t: Seq<char>,
    src: Seq<ColumnView>,
    tgt: Seq<ColumnView>,
    i: int,
) -> Seq<DiffView> {
    let c = src[i];
    if is_last_of_key(column_names(src), i) && last_index_of(column_names(tgt), c.name) < 0 {
        seq![
            DiffView {
                diff_type: DiffType::Modified,
                table_name: t,
                detail: "Add column: "@ + c.name,
                sql: alter_table(d, t) + " ADD COLUMN "@ + d.quoted(c.name) + " "@ + column_def(c)
                    + ";"@,
            },
        ]
    } else {
        Seq::empty()
    }
}

/// The difference for target column `i` where the source lacks it.
pub open spec fn drop_column_entry(
    d: DbType,
    t: Seq<char>,
    src: Seq<ColumnView>,
    tgt: Seq<ColumnView>,
    i: int,
) -> Seq<DiffView> {
    let c = tgt[i];
    if is_last_of_key(column_names(tgt), i) && last_index_of(column_names(src), c.name) < 0 {
        seq![
            DiffView {
                diff_type: DiffType::Modified,
                table_name: t,
                detail: "Drop column: "@ + c.name,
                sql: alter_table(d, t) + " DROP COLUMN "@ + d.quoted(c.name) + ";"@,
            },
        ]
    } else {
        Seq::empty()
    }
}

/// The difference for source column `i` where the target's column of that
/// name differs from it.
pub open spec fn modify_column_entry(
    d: DbType,
    t: Seq<char>,
    src: Seq<ColumnView>,
    tgt: Seq<ColumnView>,
    i: int,
) -> Seq<DiffView> {
    let c = src[i];
    let j = last_index_of(column_names(tgt), c.name);
    if is_last_of_key(column_names(src), i) && j >= 0 && !same_column(c, tgt[j]) {
        seq![
            DiffView {
                diff_type: DiffType::Modified,
                table_name: t,
                detail: "Modify column: "@ + c.name + " ("@ + tgt[j].data_type + " -> "@
                    + c.data_type + ")"@,
                sql: alter_table(d, t) + " MODIFY COLUMN "@ + d.quoted(c.name) + " "@ + column_def(
                    c,
                ) + ";"@,
            },
        ]
    } else {
        Seq::empty()
    }
}

/// [`add_column_entry`] as a function of the column position.
pub open spec fn add_column_entries(
    d: DbType,
    t: Seq<char>,
    src: Seq<ColumnView>,
    tgt: Seq<ColumnView>,
) -> spec_fn(int) -> Seq<DiffView> {
    |i: int| add_column_entry(d, t, src, tgt, i)
}

/// [`drop_column_entry`] as a function of the column position.
pub open spec fn drop_column_entries(
    d: DbType,
    t: Seq<char>,
    src: Seq<ColumnView>,
    tgt: Seq<ColumnView>,
) -> spec_fn(int) -> Seq<DiffView> {
    |i: int| drop_column_entry(d, t, src, tgt, i)
}

/// [`modify_column_entry`] as a function of the column position.
pub open spec fn modify_column_entries(
    d: DbType,
    t: Seq<char>,
    src: Seq<ColumnView>,
    tgt: Seq<ColumnView>,
) -> spec_fn(int) -> Seq<DiffView> {
    |i: int| modify_column_entry(d, t, src, tgt, i)
}

/// The column-level differences of table `t`: added columns in source
/// order, then dropped columns in target order, then modified columns in
/// source order. A name that occurs twice counts by its last occurrence.
pub open spec fn table_diffs(
    d: DbType,
    t: Seq<char>,
    src: Seq<ColumnView>,
    tgt: Seq<ColumnView>,
) -> Seq<DiffView> {
    gather(add_column_entries(d, t, src, tgt), src.len() as int) + gather(
        drop_column_entries(d, t, src, tgt),
        tgt.len() as int,
    ) + gather(modify_column_entries(d, t, src, tgt), src.len() as int)
}

/// The names of the columns, in order.
fn column_name_list(cols: &Vec<ColumnInfo>) -> (r: Vec<String>)
    ensures
        views(r@) == column_names(crate::schema::column_views(cols@)),
{
    let ghost names = column_names(crate::schema::column_views(cols@));
    let mut out: Vec<String> = Vec::new();
    let mut i: usize = 0;
    while i < cols.len()
        invariant
            i <= cols@.len(),
            names == column_names(crate::schema::column_views(cols@)),
            views(out@) == names.take(i as int),
        decreases cols.len() - i,
    {
        let ghost old_out = out@;
        out.push(owned(cols[i].name.as_str()));
        assert(views(out@) =~= views(old_out).push(names[i as int]));
        assert(views(out@) =~= names.take(i + 1));
        i = i + 1;
    }
    assert(names.take(i as int) =~= names);
    out
}

fn alter_table_sql(d: DbType, t: &str) -> (r: String)
    ensures
        r@ == alter_table(d, t@),
{
    let mut s = owned("ALTER TABLE ");
    let q = d.quote_identifier(t);
    push_str(&mut s, q.as_str());
    s
}

/// Compares the columns of one table present on both sides.
pub fn compare_tables(table_name: &str, source: &TableInfo, target: &TableInfo,
    db_type: DbType) -> (r:
    Vec<DiffResult>)
    ensures
        diff_views(r@) == table_diffs(db_type, table_name@, source@.columns, target@.columns),
{
    let ghost t = table_name@;
    let ghost sc = source@.columns;
    let ghost tc = target@.columns;
    let sn = column_name_list(&source.columns);
    let tn = column_name_list(&target.columns);
    let mut results: Vec<DiffResult> = Vec::new();
    let n = source.columns.len();
    let m = target.columns.len();
    let mut i: usize = 0;
    while i < n
        invariant
            n == source.columns@.len(),
            t == table_name@,
            sc == source@.columns,
            tc == target@.columns,
            views(sn@) == column_names(sc),
            views(tn@) == column_names(tc),
            i <= n,
            diff_views(results@) == gather(add_column_entries(db_type, t, sc, tc), i as int),
        decreases n - i,
    {
        let col = &source.columns[i];
        let own = last_text_index(&sn, col.name.as_str());
        let other = last_text_index(&tn, col.name.as_str());
        if (match own { Some(x) => x == i, None => false }) && other.is_none() {
            let def = build_column_def(col);
            let mut detail = owned("Add column: ");
            push_str(&mut detail, col.name.as_str());
            let mut sql = alter_table_sql(db_type, table_name);
            push_str(&mut sql, " ADD COLUMN ");
            let qc = db_type.quote_identifier(col.name.as_str());
            push_str(&mut sql, qc.as_str());
            push_str(&mut sql, " ");
            push_str(&mut sql, def.as_str());
            push_str(&mut sql, ";");
            results.push(
                DiffResult {
                    diff_type: DiffType::Modified,
                    table_name: owned(table_name),
                    detail,
                    sql,
                },
            );
        }
        proof {
            assert(sc[i as int] == source.columns@[i as int]@);
            assert(column_names(sc)[i as int] == sc[i as int].name);
            lemma_last_index_of(column_names(tc), sc[i as int].name);
            assert(diff_views(results@) =~= gather(add_column_entries(db_type, t, sc, tc), i as int)
                + add_column_entry(db_type, t, sc, tc, i as int));
        }
        i = i + 1;
    }
    let mut k: usize = 0;
    while k < m
        invariant
            n == source.columns@.len(),
            m == target.columns@.len(),
            t == table_name@,
            sc == source@.columns,
            tc == target@.columns,
            views(sn@) == column_names(sc),
            views(tn@) == column_names(tc),
            k <= m,
            diff_views(results@) == gather(add_column_entries(db_type, t, sc, tc), n as int)
                + gather(drop_column_entries(db_type, t, sc, tc), k as int),
        decreases m - k,
    {
        let col = &target.columns[k];
        let own = last_text_index(&tn, col.name.as_str());
        let other = last_text_index(&sn, col.name.as_str());
        if (match own { Some(x) => x == k, None => false }) && other.is_none() {
            let mut detail = owned("Drop column: ");
            push_str(&mut detail, col.name.as_str());
            let mut sql = alter_table_sql(db_type, table_name);
            push_str(&mut sql, " DROP COLUMN ");
            let qc = db_type.quote_identifier(col.name.as_str());
            push_str(&mut sql, qc.as_str());
            push_str(&mut sql, ";");
            results.push(
                DiffResult {
                    diff_type: DiffType::Modified,
                    table_name: owned(table_name),
                    detail,
                    sql,
                },
            );
        }
        proof {
            assert(tc[k as int] == target.columns@[k as int]@);
            assert(column_names(tc)[k as int] == tc[k as int].name);
            assert(diff_views(results@) =~= gather(add_column_entries(db_type, t, sc, tc), n as int)
                + gather(drop_column_entries(db_type, t, sc, tc), k as int)
                    + drop_column_entry(db_type, t, sc, tc, k as int));
        }
        k = k + 1;
    }
    let mut i: usize = 0;
    while i < n
        invariant
            n == source.columns@.len(),
            m == target.columns@.len(),
            t == table_name@,
            sc == source@.columns,
            tc == target@.columns,
            views(sn@) == column_names(sc),
            views(tn@) == column_names(tc),
            i <= n,
            diff_views(results@) == gather(add_column_entries(db_type, t, sc, tc), n as int)
                + gather(drop_column_entries(db_type, t, sc, tc), m as int)
                + gather(modify_column_entries(db_type, t, sc, tc), i as int),
        decreases n - i,
    {
        let col = &source.columns[i];
        let own = last_text_index(&sn, col.name.as_str());
        let other = last_text_index(&tn, col.name.as_str());
        proof {
            assert(sc[i as int] == source.columns@[i as int]@);
            assert(column_names(sc)[i as int] == sc[i as int].name);
            lemma_last_index_of(column_names(tc), sc[i as int].name);
        }
        match other {
            Some(j) => {
                let tcol = &target.columns[j];
                if (match own { Some(x) => x == i, None => false }) && !columns_equal(col, tcol) {
                    let def = build_column_def(col);
                    let mut detail = owned("Modify column: ");
                    push_str(&mut detail, col.name.as_str());
                    push_str(&mut detail, " (");
                    push_str(&mut detail, tcol.data_type.as_str());
                    push_str(&mut detail, " -> ");
                    push_str(&mut detail, col.data_type.as_str());
                    push_str(&mut detail, ")");
                    let mut sql = alter_table_sql(db_type, table_name);
                    push_str(&mut sql, " MODIFY COLUMN ");
                    let qc = db_type.quote_identifier(col.name.as_str());
                    push_str(&mut sql, qc.as_str());
                    push_str(&mut sql, " ");
                    push_str(&mut sql, def.as_str());
                    push_str(&mut sql, ";");
                    results.push(
                        DiffResult {
                            diff_type: DiffType::Modified,
                            table_name: owned(table_name),
                            detail,
                            sql,
                        },
                    );
                }
            },
            None => {},
        }
        proof {
            assert(diff_views(results@) =~= gather(add_column_entries(db_type, t, sc, tc), n as int)
                + gather(drop_column_entries(db_type, t, sc, tc), m as int)
                + gather(modify_column_entries(db_type, t, sc, tc), i as int)
                    + modify_column_entry(db_type, t, sc, tc, i as int));
        }
        i = i + 1;
    }
    results
}

/// The names of a sequence of tables.
pub open spec fn table_names(ts: Seq<TableView>) -> Seq<Seq<char>> {
    ts.map_values(|t: TableView| t.name)
}

/// The difference for source table `i` where the target lacks it.
pub open spec fn added_table_entry(src: Seq<TableView>, tgt: Seq<TableView>, i: int) -> Seq<
    DiffView,
> {
    let t = src[i];
    if is_last_of_key(table_names(src), i) && last_index_of(table_names(tgt), t.name) < 0 {
        seq![
            DiffView {
                diff_type: DiffType::Added,
                table_name: t.name,
                detail: "Table exists in source but not in target"@,
                sql: t.create_sql + ";"@,
            },
        ]
    } else {
        Seq::empty()
    }
}

/// The difference for target table `i` where the source lacks it.
pub open spec fn removed_table_entry(
    d: DbType,
    src: Seq<TableView>,
    tgt: Seq<TableView>,
    i: int,
) -> Seq<DiffView> {
    let t = tgt[i];
    if is_last_of_key(table_names(tgt), i) && last_index_of(table_names(src), t.name) < 0 {
        seq![
            DiffView {
                diff_type: DiffType::Removed,
                table_name: t.name,
                detail: "Table exists in target but not in source"@,
                sql: "DROP TABLE "@ + d.quoted(t.name) + ";"@,
            },
        ]
    } else {
        Seq::empty()
    }
}

/// The column-level differences for source table `i` where the target has
/// a table of that name.
pub open spec fn modified_table_entry(
    d: DbType,
    src: Seq<TableView>,
    tgt: Seq<TableView>,
    i: int,
) -> Seq<DiffView> {
    let t = src[i];
    let j = last_index_of(table_names(tgt), t.name);
    if is_last_of_key(table_names(src), i) && j >= 0 {
        table_diffs(d, t.name, t.columns, tgt[j].columns)
    } else {
        Seq::empty()
    }
}

/// [`added_table_entry`] as a function of the table position.
pub open spec fn added_table_entries(src: Seq<TableView>, tgt: Seq<TableView>) -> spec_fn(
    int,
) -> Seq<DiffView> {
    |i: int| added_table_entry(src, tgt, i)
}

/// [`removed_table_entry`] as a function of the table position.
pub open spec fn removed_table_entries(
    d: DbType,
    src: Seq<TableView>,
    tgt: Seq<TableView>,
) -> spec_fn(int) -> Seq<DiffView> {
    |i: int| removed_table_entry(d, src, tgt, i)
}

/// [`modified_table_entry`] as a function of the table position.
pub open spec fn modified_table_entries(
    d: DbType,
    src: Seq<TableView>,
    tgt: Seq<TableView>,
) -> spec_fn(int) -> Seq<DiffView> {
    |i: int| modified_table_entry(d, src, tgt, i)
}

/// All differences between two schemas before ordering: added tables,
/// removed tables, then the column differences of tables on both sides.
/// A table name that occurs twice counts by its last occurrence.
pub open spec fn schema_diffs(d: DbType, src: Seq<TableView>, tgt: Seq<TableView>) -> Seq<
    DiffView,
> {
    gather(added_table_entries(src, tgt), src.len() as int) + gather(
        removed_table_entries(d, src, tgt),
        tgt.len() as int,
    ) + gather(modified_table_entries(d, src, tgt), src.len() as int)
}

/// The rank of a kind in the report: added, then modified, then removed.
pub open spec fn kind_rank(k: DiffType) -> int {
    match k {
        DiffType::Added => 0,
        DiffType::Modified => 1,
        DiffType::Removed => 2,
    }
}

/// Whether `x` goes strictly before `y`: by kind rank, then by table name.
pub open spec fn diff_before(x: DiffView, y: DiffView) -> bool {
    kind_rank(x.diff_type) < kind_rank(y.diff_type) || (kind_rank(x.diff_type) == kind_rank(
        y.diff_type,
    ) && text_lt(x.table_name, y.table_name))
}

/// Whether no difference goes strictly before one that precedes it.
pub open spec fn diffs_sorted(s: Seq<DiffView>) -> bool {
    forall|i: int, j: int| 0 <= i < j < s.len() ==> !diff_before(#[trigger] s[j], #[trigger] s[i])
}

/// What `compare_schemas` returns for `src` and `tgt`: the differences of
/// [`schema_diffs`], each once, sorted by kind and then by table name.
pub open spec fn is_schema_report(
    r: Seq<DiffView>,
    d: DbType,
    src: Seq<TableView>,
    tgt: Seq<TableView>,
) -> bool {
    r.to_multiset() == schema_diffs(d, src, tgt).to_multiset() && diffs_sorted(r)
}

proof fn lemma_diff_before_order(x: DiffView, y: DiffView, z: DiffView)
    ensures
        !diff_before(x, x),
        diff_before(x, y) && diff_before(y, z) ==> diff_before(x, z),
{
    lemma_text_lt_irreflexive(x.table_name);
    if diff_before(x, y) && diff_before(y, z) && kind_rank(x.diff_type) == kind_rank(y.diff_type)
        && kind_rank(y.diff_type) == kind_rank(z.diff_type) {
        lemma_text_lt_transitive(x.table_name, y.table_name, z.table_name);
    }
}

fn kind_rank_of(k: DiffType) -> (r: u8)
    ensures
        r as int == kind_rank(k),
{
    match k {
        DiffType::Added => 0,
        DiffType::Modified => 1,
        DiffType::Removed => 2,
    }
}

fn goes_before(x: &DiffResult, y: &DiffResult) -> (r: bool)
    ensures
        r == diff_before(x@, y@),
{
    let rx = kind_rank_of(x.diff_type);
    let ry = kind_rank_of(y.diff_type);
    rx < ry || (rx == ry && text_less(x.table_name.as_str(), y.table_name.as_str()))
}

/// Sorts differences by kind and then by table name.
fn sort_diffs(v: Vec<DiffResult>) -> (r: Vec<DiffResult>)
    ensures
        diff_views(r@).to_multiset() == diff_views(v@).to_multiset(),
        diffs_sorted(diff_views(r@)),
{
    broadcast use vstd::seq_lib::group_to_multiset_ensures, vstd::multiset::group_multiset_axioms;

    let mut rest = v;
    let mut out: Vec<DiffResult> = Vec::new();
    assert(diff_views(out@).to_multiset() =~= vstd::multiset::Multiset::empty());
    while rest.len() > 0
        invariant
            diff_views(out@).to_multiset().add(diff_views(rest@).to_multiset())
                == diff_views(v@).to_multiset(),
            diffs_sorted(diff_views(out@)),
        decreases rest.len(),
    {
        let ghost old_rest = rest@;
        let x = rest.pop().unwrap();
        assert(diff_views(old_rest) =~= diff_views(rest@).push(x@));
        let mut p: usize = 0;
        while p < out.len() && !goes_before(&x, &out[p])
            invariant
                p <= out@.len(),
                forall|q: int| 0 <= q < p ==> !diff_before(x@, #[trigger] out@[q]@),
            decreases out.len() - p,
        {
            p = p + 1;
        }
        let ghost old_out = diff_views(out@);
        out.insert(p, x);
        proof {
            let s = diff_views(out@);
            assert(s =~= old_out.insert(p as int, x@));
            assert forall|i: int, j: int| 0 <= i < j < s.len() implies !diff_before(
                #[trigger] s[j],
                #[trigger] s[i],
            ) by {
                if j == p {
                } else if i == p {
                    lemma_diff_before_order(s[j], x@, old_out[p as int]);
                    lemma_diff_before_order(old_out[p as int], x@, s[j]);
                    if j - 1 > p {
                        assert(!diff_before(old_out[j - 1], old_out[p as int]));
                    }
                } else {
                    let oi = if i < p { i } else { i - 1 };
                    let oj = if j < p { j } else { j - 1 };
                    assert(s[i] == old_out[oi] && s[j] == old_out[oj]);
                }
            }
            vstd::seq_lib::to_multiset_insert(old_out, p as int, x@);
            assert(diff_views(out@).to_multiset() == old_out.to_multiset().insert(x@));
            vstd::seq_lib::to_multiset_build(diff_views(rest@), x@);
            assert(diff_views(old_rest).to_multiset()
                == diff_views(rest@).to_multiset().insert(x@));
            assert(diff_views(out@).to_multiset().add(diff_views(rest@).to_multiset())
                =~= old_out.to_multiset().add(diff_views(old_rest).to_multiset()));
        }
    }
    assert(diff_views(rest@).to_multiset() =~= vstd::multiset::Multiset::empty());
    assert(diff_views(out@).to_multiset()
        =~= diff_views(out@).to_multiset().add(diff_views(rest@).to_multiset()));
    out
}

/// The names of the tables, in order.
fn table_name_list(tables: &Vec<TableInfo>) -> (r: Vec<String>)
    ensures
        views(r@) == table_names(crate::schema::table_views(tables@)),
{
    let ghost names = table_names(crate::schema::table_views(tables@));
    let mut out: Vec<String> = Vec::new();
    let mut i: usize = 0;
    while i < tables.len()
        invariant
            i <= tables@.len(),
            names == table_names(crate::schema::table_views(tables@)),
            views(out@) == names.take(i as int),
        decreases tables.len() - i,
    {
        let ghost old_out = out@;
        out.push(owned(tables[i].name.as_str()));
        assert(views(out@) =~= views(old_out).push(names[i as int]));
        assert(views(out@) =~= names.take(i + 1));
        i = i + 1;
    }
    assert(names.take(i as int) =~= names);
    out
}

/// All differences between two schemas, in the order of [`schema_diffs`].
fn unsorted_schema_diffs(source: &SchemaInfo, target: &SchemaInfo,
    d: DbType) -> (r: Vec<DiffResult>)
    ensures
        diff_views(r@) == schema_diffs(d, source@, target@),
{
    let ghost st = source@;
    let ghost tt = target@;
    let src = &source.tables;
    let tgt = &target.tables;
    let sn = table_name_list(src);
    let tn = table_name_list(tgt);
    let n = src.len();
    let m = tgt.len();
    let mut results: Vec<DiffResult> = Vec::new();
    let mut i: usize = 0;
    while i < n
        invariant
            n == src@.len(),
            st == source@,
            tt == target@,
            views(sn@) == table_names(st),
            views(tn@) == table_names(tt),
            src == &source.tables,
            tgt == &target.tables,
            i <= n,
            diff_views(results@) == gather(added_table_entries(st, tt), i as int),
        decreases n - i,
    {
        let t = &src[i];
        let own = last_text_index(&sn, t.name.as_str());
        let other = last_text_index(&tn, t.name.as_str());
        proof {
            assert(st[i as int] == src@[i as int]@);
            assert(table_names(st)[i as int] == st[i as int].name);
            lemma_last_index_of(table_names(tt), st[i as int].name);
        }
        if (match own { Some(x) => x == i, None => false }) && other.is_none() {
            let mut sql = owned(t.create_sql.as_str());
            push_str(&mut sql, ";");
            results.push(DiffResult {
                diff_type: DiffType::Added,
                table_name: owned(t.name.as_str()),
                detail: owned("Table exists in source but not in target"),
                sql,
            });
        }
        assert(diff_views(results@) =~= gather(added_table_entries(st, tt), i as int)
            + added_table_entry(st, tt, i as int));
        i = i + 1;
    }
    let mut k: usize = 0;
    while k < m
        invariant
            n == src@.len(),
            m == tgt@.len(),
            st == source@,
            tt == target@,
            views(sn@) == table_names(st),
            views(tn@) == table_names(tt),
            src == &source.tables,
            tgt == &target.tables,
            k <= m,
            diff_views(results@) == gather(added_table_entries(st, tt), n as int) + gather(
                removed_table_entries(d, st, tt),
                k as int,
            ),
        decreases m - k,
    {
        let t = &tgt[k];
        let own = last_text_index(&tn, t.name.as_str());
        let other = last_text_index(&sn, t.name.as_str());
        proof {
            assert(tt[k as int] == tgt@[k as int]@);
            assert(table_names(tt)[k as int] == tt[k as int].name);
        }
        if (match own { Some(x) => x == k, None => false }) && other.is_none() {
            let mut sql = owned("DROP TABLE ");
            let q = d.quote_identifier(t.name.as_str());
            push_str(&mut sql, q.as_str());
            push_str(&mut sql, ";");
            results.push(DiffResult {
                diff_type: DiffType::Removed,
                table_name: owned(t.name.as_str()),
                detail: owned("Table exists in target but not in source"),
                sql,
            });
        }
        assert(diff_views(results@) =~= gather(added_table_entries(st, tt), n as int) + gather(
            removed_table_entries(d, st, tt),
            k as int,
        ) + removed_table_entry(d, st, tt, k as int));
        k = k + 1;
    }
    let mut i: usize = 0;
    while i < n
        invariant
            n == src@.len(),
            m == tgt@.len(),
            st == source@,
            tt == target@,
            views(sn@) == table_names(st),
            views(tn@) == table_names(tt),
            src == &source.tables,
            tgt == &target.tables,
            i <= n,
            diff_views(results@) == gather(added_table_entries(st, tt), n as int) + gather(
                removed_table_entries(d, st, tt),
                m as int,
            ) + gather(modified_table_entries(d, st, tt), i as int),
        decreases n - i,
    {
        let t = &src[i];
        let own = last_text_index(&sn, t.name.as_str());
        let other = last_text_index(&tn, t.name.as_str());
        proof {
            assert(st[i as int] == src@[i as int]@);
            assert(table_names(st)[i as int] == st[i as int].name);
            lemma_last_index_of(table_names(tt), st[i as int].name);
        }
        let ghost before = diff_views(results@);
        match other {
            Some(j) => {
                if match own { Some(x) => x == i, None => false } {
                    let mut td = compare_tables(t.name.as_str(), t, &tgt[j], d);
                    let ghost tdv = diff_views(td@);
                    let ghost old_results = results@;
                    results.append(&mut td);
                    assert(diff_views(results@) =~= diff_views(old_results) + tdv);
                }
            },
            None => {},
        }
        assert(diff_views(results@) =~= before + modified_table_entry(d, st, tt, i as int));
        i = i + 1;
    }
    results
}

/// Compares two schemas. The result holds every difference of
/// [`schema_diffs`] once: added tables with their `CREATE TABLE`, removed
/// tables with a `DROP TABLE` quoted for `target_db_type`, and the column
/// differences of tables on both sides; all sorted by kind (added,
/// modified, removed) and then by table name.
pub fn compare_schemas(source: &SchemaInfo, target: &SchemaInfo, target_db_type: DbType) -> (r: Vec<
    DiffResult,
>)
    ensures
        is_schema_report(diff_views(r@), target_db_type, source@, target@),
{
    let raw = unsorted_schema_diffs(source, target, target_db_type);
    sort_diffs(raw)
}

proof fn lemma_same_columns_no_diffs(d: DbType, t: Seq<char>, cols: Seq<ColumnView>)
    ensures
        table_diffs(d, t, cols, cols).len() == 0,
{
    let names = column_names(cols);
    assert forall|i: int| 0 <= i < cols.len() implies #[trigger] add_column_entries(d, t, cols,
        cols)(i).len() == 0 by {
        assert(names[i] == cols[i].name);
        lemma_last_index_of(names, names[i]);
    }
    assert forall|i: int| 0 <= i < cols.len() implies #[trigger] drop_column_entries(d, t, cols,
        cols)(i).len() == 0 by {
        assert(names[i] == cols[i].name);
        lemma_last_index_of(names, names[i]);
    }
    assert forall|i: int| 0 <= i < cols.len() implies #[trigger] modify_column_entries(d, t, cols,
        cols)(i).len() == 0 by {
        assert(names[i] == cols[i].name);
        lemma_last_index_of(names, names[i]);
    }
    lemma_gather_empty(add_column_entries(d, t, cols, cols), cols.len() as int);
    lemma_gather_empty(drop_column_entries(d, t, cols, cols), cols.len() as int);
    lemma_gather_empty(modify_column_entries(d, t, cols, cols), cols.len() as int);
}

/// Comparing a schema with itself reports no difference.
pub proof fn lemma_identical_schemas_no_diffs(d: DbType, s: Seq<TableView>)
    ensures
        forall|r: Seq<DiffView>| is_schema_report(r, d, s, s) ==> r.len() == 0,
{
    broadcast use vstd::seq_lib::group_to_multiset_ensures;

    let names = table_names(s);
    assert forall|i: int| 0 <= i < s.len() implies #[trigger] added_table_entries(s, s)(i).len()
        == 0 by {
        assert(names[i] == s[i].name);
        lemma_last_index_of(names, names[i]);
        lemma_same_columns_no_diffs(d, s[i].name, s[i].columns);
    }
    assert forall|i: int| 0 <= i < s.len() implies #[trigger] removed_table_entries(d, s,
        s)(i).len() == 0 by {
        assert(names[i] == s[i].name);
        lemma_last_index_of(names, names[i]);
        lemma_same_columns_no_diffs(d, s[i].name, s[i].columns);
    }
    assert forall|i: int| 0 <= i < s.len() implies #[trigger] modified_table_entries(d, s,
        s)(i).len() == 0 by {
        assert(names[i] == s[i].name);
        lemma_last_index_of(names, names[i]);
        lemma_same_columns_no_diffs(d, s[i].name, s[i].columns);
    }
    lemma_gather_empty(added_table_entries(s, s), s.len() as int);
    lemma_gather_empty(removed_table_entries(d, s, s), s.len() as int);
    lemma_gather_empty(modified_table_entries(d, s, s), s.len() as int);
    assert(schema_diffs(d, s, s).len() == 0);
    assert forall|r: Seq<DiffView>| is_schema_report(r, d, s, s) implies r.len() == 0 by {
        assert(r.to_multiset().len() == schema_diffs(d, s, s).to_multiset().len());
    }
}

/// A schema comparison lists every added difference before every modified
/// one, and every modified one before every removed one; within one kind,
/// table names never decrease.
pub proof fn lemma_report_order(d: DbType, src: Seq<TableView>, tgt: Seq<TableView>)
    ensures
        forall|r: Seq<DiffView>, i: int, j: int|
            is_schema_report(r, d, src, tgt) && 0 <= i < j < r.len() ==> {
                &&& kind_rank(#[trigger] r[i].diff_type) <= kind_rank(#[trigger] r[j].diff_type)
                &&& (r[i].diff_type == r[j].diff_type
                    ==> !text_lt(r[j].table_name, r[i].table_name))
            },
{
}

} // verus!
