//! The backend-neutral schema model: tables, their columns and indexes.

use vstd::prelude::*;

verus! {

/// One column of a table, as the backend describes it.
#[derive(Debug, Clone)]
pub struct ColumnInfo {
    pub name: String,
    /// The backend's own type text, not normalised.
    pub data_type: String,
    pub nullable: bool,
    /// The default as the backend writes it: a literal or an expression.
    pub default: Option<String>,
    pub is_primary_key: bool,
    /// Backend-specific modifiers, such as auto-increment.
    pub extra: String,
    /// Ordinal position, counted from 1.
    pub position: u64,
}

/// The mathematical value of a [`ColumnInfo`].
pub struct ColumnView {
    pub name: Seq<char>,
    pub data_type: Seq<char>,
    pub nullable: bool,
    pub default: Option<Seq<char>>,
    pub is_primary_key: bool,
    pub extra: Seq<char>,
    pub position: u64,
}

/// The view of an optional string.
pub open spec fn opt_view(o: Option<String>) -> Option<Seq<char>> {
    match o {
        Some(s) => Some(s@),
        None => None,
    }
}

impl View for ColumnInfo {
    type V = ColumnView;

    open spec fn view(&self) -> ColumnView {
        ColumnView {
            name: self.name@,
            data_type: self.data_type@,
            nullable: self.nullable,
            default: opt_view(self.default),
            is_primary_key: self.is_primary_key,
            extra: self.extra@,
            position: self.position,
        }
    }
}

/// One index of a table.
#[derive(Debug, Clone)]
pub struct IndexInfo {
    pub name: String,
    /// Member columns; their order may differ between backends.
    pub columns: Vec<String>,
    pub is_unique: bool,
}

/// The mathematical value of an [`IndexInfo`].
pub struct IndexView {
    pub name: Seq<char>,
    pub columns: Seq<Seq<char>>,
    pub is_unique: bool,
}

impl View for IndexInfo {
    type V = IndexView;

    open spec fn view(&self) -> IndexView {
        IndexView {
            name: self.name@,
            columns: self.columns@.map_values(|c: String| c@),
            is_unique: self.is_unique,
        }
    }
}

/// The views of a sequence of indexes.
pub open spec fn index_views(v: Seq<IndexInfo>) -> Seq<IndexView> {
    v.map_values(|i: IndexInfo| i@)
}

/// One table: its columns in order, its indexes and a `CREATE TABLE`
/// statement in the backend's own dialect.
#[derive(Debug, Clone)]
pub struct TableInfo {
    pub name: String,
    pub columns: Vec<ColumnInfo>,
    pub indexes: Vec<IndexInfo>,
    pub create_sql: String,
}

/// The mathematical value of a [`TableInfo`], as far as comparison reads it.
pub struct TableView {
    pub name: Seq<char>,
    pub columns: Seq<ColumnView>,
    pub create_sql: Seq<char>,
}

/// The views of a sequence of columns.
pub open spec fn column_views(v: Seq<ColumnInfo>) -> Seq<ColumnView> {
    v.map_values(|c: ColumnInfo| c@)
}

impl View for TableInfo {
    type V = TableView;

    open spec fn view(&self) -> TableView {
        TableView {
            name: self.name@,
            columns: column_views(self.columns@),
            create_sql: self.create_sql@,
        }
    }
}

/// The tables of one database.
#[derive(Debug, Clone)]
pub struct SchemaInfo {
    pub database: String,
    pub tables: Vec<TableInfo>,
}

/// The views of a sequence of tables.
pub open spec fn table_views(v: Seq<TableInfo>) -> Seq<TableView> {
    v.map_values(|t: TableInfo| t@)
}

impl View for SchemaInfo {
    type V = Seq<TableView>;

    open spec fn view(&self) -> Seq<TableView> {
        table_views(self.tables@)
    }
}

} // verus!
