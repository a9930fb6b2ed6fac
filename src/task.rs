//! The single in-flight operation: which one runs, how it is started, and
//! how its one result is applied to the view state.

use vstd::prelude::*;
use crate::connection::{saved_views, ConnectionConfig, ConnectionStore, SavedConnection};
use crate::diff::DiffResult;
use crate::sync::DataDiffResult;
use crate::text::{decimal, owned, push_decimal, push_str, same_text, views};
use crate::ui::{Spinner, Tab};
use crate::views::{
    pages_for, ConnectionFormState, DataSyncState, SchemaDiffState, TableBrowserState,
};

verus! {

/// The kinds of background operation.
#[derive(Debug, Clone, Copy, PartialEq, Eq, Structural)]
pub enum TaskKind {
    ConnectionTest,
    SchemaCompare,
    LoadTables,
    CompareData,
    LoadTableData,
}

/// The one slot for a background operation.
#[derive(Debug, Clone, Copy, PartialEq, Eq, Structural)]
pub enum TaskSlot {
    Idle,
    Running(TaskKind),
}

/// The one result an operation delivers; failures come as text.
#[derive(Debug)]
pub enum TaskResult {
    ConnectionTest(Result<(), String>),
    SchemaCompare(Result<Vec<DiffResult>, String>),
    LoadTables(Result<Vec<String>, String>),
    CompareData(Result<Vec<DataDiffResult>, String>),
    LoadTableData { columns: Vec<String>, rows: Vec<Vec<String>>, total_count: usize },
    LoadTableDataError(String),
}

/// What a look at the result channel found.
#[derive(Debug)]
pub enum Poll {
    /// The operation still runs.
    Empty,
    /// The operation delivered its result.
    Received(TaskResult),
    /// The operation ended without a result.
    Disconnected,
}

/// Work for a background operation, with everything it needs.
#[derive(Debug, Clone)]
pub enum Job {
    TestConnection(ConnectionConfig),
    CompareSchemas { source: ConnectionConfig, target: ConnectionConfig },
    LoadTables(ConnectionConfig),
    CompareData { source: ConnectionConfig, target: ConnectionConfig, table: String,
        database: String },
    LoadTableData { config: ConnectionConfig, table: String, page: usize, page_size: usize },
}

/// The whole front-end state: the tabs' views, the chosen source and
/// target, the busy indicator and the operation slot.
pub struct Session {
    pub running: bool,
    pub current_tab: Tab,
    pub store: ConnectionStore,
    pub connection_state: ConnectionFormState,
    pub schema_diff_state: SchemaDiffState,
    pub data_sync_state: DataSyncState,
    pub table_browser_state: TableBrowserState,
    pub source_connection: Option<SavedConnection>,
    pub target_connection: Option<SavedConnection>,
    pub spinner: Spinner,
    pub slot: TaskSlot,
}

/// Relies on `String::pop`: removes and returns the last character, if any.
#[verifier::external_body]
fn pop_char(s: &mut String) -> (r: Option<char>)
    ensures
        old(s)@.len() == 0 ==> r is None && final(s)@ == old(s)@,
        old(s)@.len() > 0 ==> r == Some(old(s)@.last()) && final(s)@ == old(s)@.drop_last(),
{
    s.pop()
}

/// `prefix` followed by a count and `suffix`.
pub open spec fn counted(prefix: Seq<char>, n: nat, suffix: Seq<char>) -> Seq<char> {
    prefix + decimal(n) + suffix
}

fn counted_text(prefix: &str, n: usize, suffix: &str) -> (r: String)
    ensures
        r@ == counted(prefix@, n as nat, suffix@),
{
    let mut s = owned(prefix);
    push_decimal(&mut s, n as u64);
    push_str(&mut s, suffix);
    s
}

fn prefixed(prefix: &str, msg: &str) -> (r: String)
    ensures
        r@ == prefix@ + msg@,
{
    let mut s = owned(prefix);
    push_str(&mut s, msg);
    s
}

fn same_names(a: &Vec<String>, b: &Vec<String>) -> (r: bool)
    ensures
        r == (views(a@) == views(b@)),
{
    if a.len() != b.len() {
        assert(views(a@).len() != views(b@).len());
        return false;
    }
    let mut i: usize = 0;
    while i < a.len()
        invariant
            a@.len() == b@.len(),
            i <= a@.len(),
            forall|j: int| 0 <= j < i ==> views(a@)[j] == views(b@)[j],
        decreases a.len() - i,
    {
        if !same_text(a[i].as_str(), b[i].as_str()) {
            assert(views(a@)[i as int] != views(b@)[i as int]);
            return false;
        }
        i = i + 1;
    }
    assert(views(a@) =~= views(b@));
    true
}

fn copy_config(c: &ConnectionConfig) -> (r: ConnectionConfig)
    ensures
        r@ == c@,
{
    ConnectionConfig {
        db_type: c.db_type,
        host: owned(c.host.as_str()),
        port: c.port,
        user: owned(c.user.as_str()),
        password: owned(c.password.as_str()),
        database: owned(c.database.as_str()),
        file_path: match &c.file_path {
            Some(p) => Some(owned(p.as_str())),
            None => None,
        },
    }
}

/// The status line of the browser after a page of `total` rows' table
/// was read: `Page p/n (total rows)`.
pub open spec fn page_status(b: TableBrowserState, total: usize) -> Seq<char> {
    counted("Page "@, b.page as nat, "/"@) + decimal(
        if total == 0 {
            1
        } else {
            pages_for(total as nat, b.page_size as nat)
        },
    ) + " ("@ + decimal(total as nat) + " rows)"@
}

/// The text of a failed result.
pub open spec fn error_text(e: String) -> Seq<char> {
    "Error: "@ + e@
}

/// What applying result `r` to session `o` gives (`n`): the view the result
/// belongs to takes it, with its status line; every other part of the
/// session stays as it was.
pub open spec fn applies_result(o: Session, n: Session, r: TaskResult) -> bool {
    &&& n.running == o.running
    &&& n.current_tab == o.current_tab
    &&& n.store == o.store
    &&& n.source_connection == o.source_connection
    &&& n.target_connection == o.target_connection
    &&& match r {
        TaskResult::ConnectionTest(res) => {
            &&& n.connection_state == (ConnectionFormState {
                status: n.connection_state.status,
                status_error: res is Err,
                ..o.connection_state
            })
            &&& n.connection_state.status@ == match res {
                Ok(_) => "Connection successful!"@,
                Err(e) => "Connection failed: "@ + e@,
            }
            &&& n.schema_diff_state == o.schema_diff_state
            &&& n.data_sync_state == o.data_sync_state
            &&& n.table_browser_state == o.table_browser_state
        },
        TaskResult::SchemaCompare(res) => {
            &&& n.schema_diff_state == (SchemaDiffState {
                diffs: match res {
                    Ok(d) => d,
                    Err(_) => o.schema_diff_state.diffs,
                },
                status: n.schema_diff_state.status,
                loading: false,
                ..o.schema_diff_state
            })
            &&& n.schema_diff_state.status@ == match res {
                Ok(d) => counted("Found "@, d@.len(), " differences"@),
                Err(e) => error_text(e),
            }
            &&& n.connection_state == o.connection_state
            &&& n.data_sync_state == o.data_sync_state
            &&& n.table_browser_state == o.table_browser_state
        },
        TaskResult::LoadTables(res) => {
            &&& n.connection_state == o.connection_state
            &&& n.schema_diff_state == o.schema_diff_state
            &&& if o.current_tab == Tab::DataSync {
                &&& n.data_sync_state == (DataSyncState {
                    tables: match res {
                        Ok(t) => t,
                        Err(_) => o.data_sync_state.tables,
                    },
                    status: n.data_sync_state.status,
                    ..o.data_sync_state
                })
                &&& n.data_sync_state.status@ == match res {
                    Ok(t) => counted("Loaded "@, t@.len(), " tables"@),
                    Err(e) => error_text(e),
                }
                &&& n.table_browser_state == o.table_browser_state
            } else if o.current_tab == Tab::TableBrowser {
                &&& n.table_browser_state == (TableBrowserState {
                    tables: match res {
                        Ok(t) => t,
                        Err(_) => o.table_browser_state.tables,
                    },
                    status: n.table_browser_state.status,
                    ..o.table_browser_state
                })
                &&& n.table_browser_state.status@ == match res {
                    Ok(t) => counted("Loaded "@, t@.len(), " tables"@),
                    Err(e) => error_text(e),
                }
                &&& n.data_sync_state == o.data_sync_state
            } else {
                &&& n.data_sync_state == o.data_sync_state
                &&& n.table_browser_state == o.table_browser_state
            }
        },
        TaskResult::CompareData(res) => {
            &&& n.data_sync_state == (DataSyncState {
                diffs: match res {
                    Ok(d) => d,
                    Err(_) => o.data_sync_state.diffs,
                },
                status: n.data_sync_state.status,
                ..o.data_sync_state
            })
            &&& n.data_sync_state.status@ == match res {
                Ok(d) => counted("Found "@, d@.len(), " differences"@),
                Err(e) => error_text(e),
            }
            &&& n.connection_state == o.connection_state
            &&& n.schema_diff_state == o.schema_diff_state
            &&& n.table_browser_state == o.table_browser_state
        },
        TaskResult::LoadTableData { columns, rows, total_count } => {
            &&& n.table_browser_state == (TableBrowserState {
                columns,
                rows,
                total_count,
                selected_row_index: 0,
                column_offset: if views(o.table_browser_state.columns@) == views(columns@) {
                    o.table_browser_state.column_offset
                } else {
                    0
                },
                status: n.table_browser_state.status,
                ..o.table_browser_state
            })
            &&& n.table_browser_state.status@ == page_status(o.table_browser_state, total_count)
            &&& n.connection_state == o.connection_state
            &&& n.schema_diff_state == o.schema_diff_state
            &&& n.data_sync_state == o.data_sync_state
        },
        TaskResult::LoadTableDataError(e) => {
            &&& n.table_browser_state == (TableBrowserState {
                status: n.table_browser_state.status,
                ..o.table_browser_state
            })
            &&& n.table_browser_state.status@ == error_text(e)
            &&& n.connection_state == o.connection_state
            &&& n.schema_diff_state == o.schema_diff_state
            &&& n.data_sync_state == o.data_sync_state
        },
    }
}

impl Session {
    /// Whether input is taken: only while no operation is in flight.
    pub open spec fn accepts_input_spec(&self) -> bool {
        self.slot == TaskSlot::Idle
    }

    /// Whether input is taken: only while no operation is in flight.
    pub fn accepts_input(&self) -> (r: bool)
        ensures
            r == self.accepts_input_spec(),
    {
        match self.slot {
            TaskSlot::Idle => true,
            TaskSlot::Running(_) => false,
        }
    }

    /// Claims the slot for an operation of kind `kind` and starts the busy
    /// indicator; refused while another operation is in flight.
    pub fn try_start(&mut self, kind: TaskKind, message: &str, now_ms: u64) -> (r: bool)
        ensures
            final(self).running == old(self).running,
            final(self).current_tab == old(self).current_tab,
            r == (old(self).slot == TaskSlot::Idle),
            r ==> final(self).slot == TaskSlot::Running(kind) && final(self).spinner.active
                && final(self).spinner.message@ == message@,
            !r ==> final(self).slot == old(self).slot && final(self).spinner == old(self).spinner,
            final(self).connection_state == old(self).connection_state,
            final(self).schema_diff_state == old(self).schema_diff_state,
            final(self).data_sync_state == old(self).data_sync_state,
            final(self).table_browser_state == old(self).table_browser_state,
            final(self).current_tab == old(self).current_tab,
    {
        match self.slot {
            TaskSlot::Running(_) => false,
            TaskSlot::Idle => {
                self.slot = TaskSlot::Running(kind);
                self.spinner.start(message, now_ms);
                true
            },
        }
    }

    /// Takes what a look at the result channel found: a result is applied
    /// as [`applies_result`] states and frees the slot; an operation that
    /// ended without one frees the slot and changes no view; a running one
    /// changes nothing.
    pub fn poll(&mut self, p: Poll)
        requires
            old(self).table_browser_state.page_size > 0,
        ensures
            p is Empty ==> *final(self) == *old(self),
            match p {
                Poll::Received(r) => applies_result(*old(self), *final(self), r),
                _ => true,
            },
            !(p is Empty) ==> final(self).slot == TaskSlot::Idle && !final(self).spinner.active,
            p is Disconnected ==> *final(self) == (Session {
                slot: TaskSlot::Idle,
                spinner: final(self).spinner,
                ..*old(self)
            }),
            final(self).table_browser_state.page_size == old(self).table_browser_state.page_size,
    {
        match p {
            Poll::Empty => {},
            Poll::Received(r) => {
                self.apply_task_result(r);
                self.spinner.stop();
                self.slot = TaskSlot::Idle;
            },
            Poll::Disconnected => {
                self.spinner.stop();
                self.slot = TaskSlot::Idle;
            },
        }
    }

    /// Applies an operation's result to the view it belongs to, as
    /// [`applies_result`] states; nothing else changes.
    pub fn apply_task_result(&mut self, result: TaskResult)
        requires
            old(self).table_browser_state.page_size > 0,
        ensures
            applies_result(*old(self), *final(self), result),
            final(self).slot == old(self).slot,
            final(self).spinner == old(self).spinner,
    {
        match result {
            TaskResult::ConnectionTest(res) => match res {
                Ok(()) => self.connection_state.set_status("Connection successful!", false),
                Err(e) => {
                    let msg = prefixed("Connection failed: ", e.as_str());
                    self.connection_state.set_status(msg.as_str(), true);
                },
            },
            TaskResult::SchemaCompare(res) => {
                match res {
                    Ok(diffs) => {
                        let status = counted_text("Found ", diffs.len(), " differences");
                        self.schema_diff_state.diffs = diffs;
                        self.schema_diff_state.status = status;
                    },
                    Err(e) => {
                        self.schema_diff_state.status = prefixed("Error: ", e.as_str());
                    },
                }
                self.schema_diff_state.loading = false;
            },
            TaskResult::LoadTables(res) => match res {
                Ok(tables) => {
                    let status = counted_text("Loaded ", tables.len(), " tables");
                    match self.current_tab {
                        Tab::DataSync => {
                            self.data_sync_state.tables = tables;
                            self.data_sync_state.status = status;
                        },
                        Tab::TableBrowser => {
                            self.table_browser_state.tables = tables;
                            self.table_browser_state.status = status;
                        },
                        _ => {},
                    }
                },
                Err(e) => match self.current_tab {
                    Tab::DataSync => {
                        self.data_sync_state.status = prefixed("Error: ", e.as_str());
                    },
                    Tab::TableBrowser => {
                        self.table_browser_state.status = prefixed("Error: ", e.as_str());
                    },
                    _ => {},
                },
            },
            TaskResult::CompareData(res) => match res {
                Ok(diffs) => {
                    let status = counted_text("Found ", diffs.len(), " differences");
                    self.data_sync_state.diffs = diffs;
                    self.data_sync_state.status = status;
                },
                Err(e) => {
                    self.data_sync_state.status = prefixed("Error: ", e.as_str());
                },
            },
            TaskResult::LoadTableData { columns, rows, total_count } => {
                if !same_names(&self.table_browser_state.columns, &columns) {
                    self.table_browser_state.reset_column_scroll();
                }
                self.table_browser_state.columns = columns;
                self.table_browser_state.rows = rows;
                self.table_browser_state.total_count = total_count;
                self.table_browser_state.selected_row_index = 0;
                let pages = self.table_browser_state.total_pages();
                let mut status = counted_text("Page ", self.table_browser_state.page, "/");
                push_decimal(&mut status, pages as u64);
                push_str(&mut status, " (");
                push_decimal(&mut status, total_count as u64);
                push_str(&mut status, " rows)");
                self.table_browser_state.status = status;
            },
            TaskResult::LoadTableDataError(e) => {
                self.table_browser_state.status = prefixed("Error: ", e.as_str());
            },
        }
    }
}

/// A key as the front end reports it.
#[derive(Debug, Clone, Copy, PartialEq, Eq, Structural)]
pub enum KeyCode {
    Up,
    Down,
    Left,
    Right,
    Tab,
    BackTab,
    Enter,
    Esc,
    Backspace,
    F(u8),
    Char(char),
    Other,
}

/// A key press with its modifiers.
#[derive(Debug, Clone, Copy, PartialEq, Eq, Structural)]
pub struct Key {
    pub code: KeyCode,
    pub ctrl: bool,
    pub shift: bool,
}

/// What the saved-connection list needs after a key.
#[derive(Debug, Clone, Copy, PartialEq, Eq, Structural)]
pub enum StoreChange {
    Saved,
    Deleted,
}

/// What the front end must do after a key.
#[derive(Debug, Clone)]
pub enum Action {
    Nothing,
    /// Run this operation in the background; the slot is already claimed.
    Start(Job),
    /// Write the saved connections to their file.
    Persist(StoreChange),
}

fn copy_saved(c: &SavedConnection) -> (r: SavedConnection)
    ensures
        r@ == c@,
{
    SavedConnection { name: owned(c.name.as_str()), config: copy_config(&c.config) }
}

fn copy_saved_list(v: &[SavedConnection]) -> (r: Vec<SavedConnection>)
    ensures
        saved_views(r@) == saved_views(v@),
{
    let mut out: Vec<SavedConnection> = Vec::new();
    let mut i: usize = 0;
    while i < v.len()
        invariant
            i <= v@.len(),
            saved_views(out@) == saved_views(v@).take(i as int),
        decreases v.len() - i,
    {
        let ghost old_out = out@;
        out.push(copy_saved(&v[i]));
        assert(saved_views(out@) =~= saved_views(old_out).push(v@[i as int]@));
        assert(saved_views(out@) =~= saved_views(v@).take(i + 1));
        i = i + 1;
    }
    assert(saved_views(v@).take(i as int) =~= saved_views(v@));
    out
}

impl Session {
    /// A session over the saved connections, on the connection tab, with
    /// no operation in flight.
    pub fn new(store: ConnectionStore) -> (r: Session)
        ensures
            r.running,
            r.current_tab == Tab::Connection,
            r.slot == TaskSlot::Idle,
            r.source_connection is None,
            r.target_connection is None,
            r.table_browser_state.page_size > 0,
            saved_views(r.connection_state.saved_connections@) == saved_views(store.saved()),
    {
        let mut connection_state = ConnectionFormState::default();
        connection_state.saved_connections = copy_saved_list(store.get_all());
        Session {
            running: true,
            current_tab: Tab::Connection,
            store,
            connection_state,
            schema_diff_state: SchemaDiffState::default(),
            data_sync_state: DataSyncState::default(),
            table_browser_state: TableBrowserState::default(),
            source_connection: None,
            target_connection: None,
            spinner: Spinner::default(),
            slot: TaskSlot::Idle,
        }
    }

    /// Shows the saved connections in the form again.
    pub fn refresh_connections(&mut self)
        ensures
            final(self).running == old(self).running,
            final(self).current_tab == old(self).current_tab,
            saved_views(final(self).connection_state.saved_connections@) == saved_views(
                final(self).store.saved(),
            ),
            final(self).store == old(self).store,
            final(self).slot == old(self).slot,
            final(self).table_browser_state == old(self).table_browser_state,
    {
        self.connection_state.saved_connections = copy_saved_list(self.store.get_all());
    }

    /// Starts a test of the connection the form describes.
    pub fn begin_connection_test(&mut self, now_ms: u64) -> (r: Option<Job>)
        requires
            old(self).slot == TaskSlot::Idle,
        ensures
            match r {
                Some(Job::TestConnection(c)) => c@ == old(self).connection_state.config_spec(),
                _ => false,
            },
            final(self).slot == TaskSlot::Running(TaskKind::ConnectionTest),
            final(self).spinner.active,
            final(self).spinner.message@ == "Testing connection..."@,
            final(self).connection_state.status@ == "Testing connection..."@,
            final(self).connection_state == (ConnectionFormState {
                status: final(self).connection_state.status,
                status_error: false,
                ..old(self).connection_state
            }),
            final(self).schema_diff_state == old(self).schema_diff_state,
            final(self).data_sync_state == old(self).data_sync_state,
            final(self).table_browser_state == old(self).table_browser_state,
            final(self).running == old(self).running,
            final(self).current_tab == old(self).current_tab,
    {
        let config = self.connection_state.to_config();
        self.try_start(TaskKind::ConnectionTest, "Testing connection...", now_ms);
        self.connection_state.set_status("Testing connection...", false);
        Some(Job::TestConnection(config))
    }

    /// Starts a schema comparison of source against target; without both
    /// only a status message is shown.
    pub fn begin_schema_compare(&mut self, now_ms: u64) -> (r: Option<Job>)
        requires
            old(self).slot == TaskSlot::Idle,
        ensures
            match (r, old(self).source_connection, old(self).target_connection) {
                (Some(Job::CompareSchemas { source, target }), Some(s), Some(t)) => source@
                    == s.config@
                    && target@ == t.config@,
                _ => true,
            },
            final(self).running == old(self).running,
            final(self).current_tab == old(self).current_tab,
            (old(self).source_connection is Some
                && old(self).target_connection is Some) <==> r is Some,
            r is Some ==> (r matches Some(Job::CompareSchemas { .. })) && final(self).slot
                == TaskSlot::Running(TaskKind::SchemaCompare)
                    && final(self).schema_diff_state.loading,
            r is None ==> final(self).slot == TaskSlot::Idle,
            final(self).table_browser_state == old(self).table_browser_state,
    {
        match (&self.source_connection, &self.target_connection) {
            (Some(src), Some(tgt)) => {
                let source = copy_config(&src.config);
                let target = copy_config(&tgt.config);
                self.try_start(TaskKind::SchemaCompare, "Comparing schemas...", now_ms);
                self.schema_diff_state.status = owned("Comparing schemas...");
                self.schema_diff_state.loading = true;
                Some(Job::CompareSchemas { source, target })
            },
            _ => {
                self.schema_diff_state.status = owned(
                    "Set source and target first (F5/F6 on Connections tab)",
                );
                None
            },
        }
    }

    /// Starts listing the tables: of the source for the data comparison,
    /// of the target for the browser.
    pub fn begin_load_tables(&mut self, for_browser: bool, now_ms: u64) -> (r: Option<Job>)
        requires
            old(self).slot == TaskSlot::Idle,
        ensures
            match (r, if for_browser {
                old(self).target_connection
            } else {
                old(self).source_connection
            }) {
                (Some(Job::LoadTables(config)), Some(c)) => config@ == c.config@,
                _ => true,
            },
            final(self).running == old(self).running,
            final(self).current_tab == old(self).current_tab,
            !for_browser ==> (old(self).source_connection is Some <==> r is Some),
            for_browser ==> (old(self).target_connection is Some <==> r is Some),
            r is Some ==> (r matches Some(Job::LoadTables(_))) && final(self).slot
                == TaskSlot::Running(TaskKind::LoadTables),
            r is None ==> final(self).slot == TaskSlot::Idle,
            final(self).table_browser_state.page_size == old(self).table_browser_state.page_size,
    {
        let chosen = if for_browser {
            &self.target_connection
        } else {
            &self.source_connection
        };
        match chosen {
            Some(c) => {
                let config = copy_config(&c.config);
                self.try_start(TaskKind::LoadTables, "Loading tables...", now_ms);
                if for_browser {
                    self.table_browser_state.status = owned("Loading tables...");
                } else {
                    self.data_sync_state.status = owned("Loading tables...");
                }
                Some(Job::LoadTables(config))
            },
            None => {
                if for_browser {
                    self.table_browser_state.status = owned("Set target connection first");
                } else {
                    self.data_sync_state.status = owned("Set source connection first");
                }
                None
            },
        }
    }

    /// Starts comparing the rows of the selected table; without source and
    /// target only a status message is shown, and without a selected table
    /// nothing happens.
    pub fn begin_compare_data(&mut self, now_ms: u64) -> (r: Option<Job>)
        requires
            old(self).slot == TaskSlot::Idle,
        ensures
            match (r, old(self).source_connection, old(self).target_connection) {
                (Some(Job::CompareData { source, target, database, .. }), Some(s),
                    Some(t)) => source@
                    == s.config@ && target@ == t.config@ && database@ == s.config.database@,
                _ => true,
            },
            final(self).running == old(self).running,
            final(self).current_tab == old(self).current_tab,
            r is Some <==> (old(self).source_connection is Some
                && old(self).target_connection is Some
                && old(self).data_sync_state.selected_table_index
                < old(self).data_sync_state.tables@.len()),
            r is Some ==> (r matches Some(Job::CompareData { table, .. }) && table@
                == old(self).data_sync_state.tables@[old(
                self,
            ).data_sync_state.selected_table_index as int]@)
                && final(self).slot == TaskSlot::Running(TaskKind::CompareData),
            r is None ==> final(self).slot == TaskSlot::Idle,
            final(self).table_browser_state == old(self).table_browser_state,
    {
        match (&self.source_connection, &self.target_connection) {
            (Some(src), Some(tgt)) => {
                let i = self.data_sync_state.selected_table_index;
                if i >= self.data_sync_state.tables.len() {
                    return None;
                }
                let table = owned(self.data_sync_state.tables[i].as_str());
                let source = copy_config(&src.config);
                let target = copy_config(&tgt.config);
                let database = owned(src.config.database.as_str());
                let mut msg = owned("Comparing table ");
                push_str(&mut msg, table.as_str());
                push_str(&mut msg, "...");
                self.try_start(TaskKind::CompareData, msg.as_str(), now_ms);
                self.data_sync_state.status = msg;
                Some(Job::CompareData { source, target, table, database })
            },
            _ => {
                self.data_sync_state.status = owned("Set source and target connections first");
                None
            },
        }
    }

    /// Starts reading the current page of the selected table of the target;
    /// without a target only a status message is shown, and without a
    /// selected table nothing happens.
    pub fn begin_load_table_data(&mut self, now_ms: u64) -> (r: Option<Job>)
        requires
            old(self).slot == TaskSlot::Idle,
        ensures
            match (r, old(self).target_connection) {
                (Some(Job::LoadTableData { config, table, .. }), Some(t)) => config@ == t.config@
                    && table@ == old(self).table_browser_state.tables@[old(
                    self,
                ).table_browser_state.selected_table_index as int]@,
                _ => true,
            },
            final(self).running == old(self).running,
            final(self).current_tab == old(self).current_tab,
            r is Some <==> (old(self).target_connection is Some
                && old(self).table_browser_state.selected_table_index
                < old(self).table_browser_state.tables@.len()),
            r is Some ==> (r matches Some(Job::LoadTableData { page, page_size, .. }) && page
                == old(self).table_browser_state.page
                    && page_size == old(self).table_browser_state.page_size)
                && final(self).slot == TaskSlot::Running(TaskKind::LoadTableData),
            r is None ==> final(self).slot == TaskSlot::Idle,
            final(self).table_browser_state.page_size == old(self).table_browser_state.page_size,
            final(self).table_browser_state.page == old(self).table_browser_state.page,
    {
        match &self.target_connection {
            Some(tgt) => {
                let i = self.table_browser_state.selected_table_index;
                if i >= self.table_browser_state.tables.len() {
                    return None;
                }
                let table = owned(self.table_browser_state.tables[i].as_str());
                let config = copy_config(&tgt.config);
                let mut msg = owned("Loading table ");
                push_str(&mut msg, table.as_str());
                push_str(&mut msg, " data...");
                self.try_start(TaskKind::LoadTableData, msg.as_str(), now_ms);
                let mut status = owned("Loading ");
                push_str(&mut status, table.as_str());
                push_str(&mut status, "...");
                self.table_browser_state.status = status;
                Some(
                    Job::LoadTableData {
                        config,
                        table,
                        page: self.table_browser_state.page,
                        page_size: self.table_browser_state.page_size,
                    },
                )
            },
            None => {
                self.table_browser_state.status = owned("Set target connection first");
                None
            },
        }
    }

    /// Shows that writing the saved connections failed.
    pub fn persist_failed(&mut self, change: StoreChange, msg: &str)
        ensures
            final(self).running == old(self).running,
            final(self).current_tab == old(self).current_tab,
            final(self).connection_state.status_error,
            change == StoreChange::Saved
                ==> final(self).connection_state.status@ == "Save failed: "@ + msg@,
            change == StoreChange::Deleted
                ==> final(self).connection_state.status@ == "Delete failed: "@ + msg@,
            final(self).slot == old(self).slot,
            final(self).table_browser_state == old(self).table_browser_state,
    {
        let text = match change {
            StoreChange::Saved => prefixed("Save failed: ", msg),
            StoreChange::Deleted => prefixed("Delete failed: ", msg),
        };
        self.connection_state.set_status(text.as_str(), true);
    }
}

/// Whether an action leaves the operation slot as it was.
pub open spec fn keeps_slot(r: Action, before: TaskSlot, after: TaskSlot) -> bool {
    (r is Start ==> after is Running) && (!(r is Start) ==> after == before)
}

fn start_or_nothing(j: Option<Job>) -> (r: Action)
    ensures
        j is Some <==> r is Start,
        !(r is Persist),
        match j {
            Some(x) => r == Action::Start(x),
            None => r is Nothing,
        },
{
    match j {
        Some(job) => Action::Start(job),
        None => Action::Nothing,
    }
}

impl Session {
    /// Takes one key press. While an operation is in flight every key is
    /// ignored. Otherwise Ctrl+C, Ctrl+Q and Esc end the session; F1 to F4
    /// switch tabs, the comparison tabs only once source and target are
    /// set and the browser once the target is; other keys go to the
    /// current tab. An operation is started only from an idle slot.
    pub fn handle_key(&mut self, key: Key, now_ms: u64) -> (r: Action)
        requires
            old(self).table_browser_state.page_size > 0,
        ensures
            old(self).accepts_input_spec() && old(self).current_tab == Tab::Connection && key.code
                == KeyCode::Enter ==> match r {
                Action::Start(Job::TestConnection(c)) => c@ == old(self).connection_state.config_spec(),
                _ => false,
            },
            old(self).accepts_input_spec() && old(self).current_tab == Tab::SchemaDiff && key.code
                == KeyCode::Enter ==> (r is Start <==> (old(self).source_connection is Some
                && old(self).target_connection is Some)),
            old(self).accepts_input_spec() && old(self).current_tab == Tab::DataSync && key.ctrl
                && key.code == KeyCode::Char('l') ==> (r is Start
                <==> old(self).source_connection is Some),
            old(self).accepts_input_spec() && old(self).current_tab == Tab::TableBrowser && key.ctrl
                && key.code == KeyCode::Char('l') ==> (r is Start
                <==> old(self).target_connection is Some),
            !old(self).accepts_input_spec() ==> *final(self) == *old(self) && r is Nothing,
            keeps_slot(r, old(self).slot, final(self).slot),
            final(self).table_browser_state.page_size == old(self).table_browser_state.page_size,
            old(self).accepts_input_spec() && key.ctrl && (key.code == KeyCode::Char('c')
                || key.code == KeyCode::Char('q')) ==> !final(self).running && r is Nothing,
            old(self).accepts_input_spec() && key.code == KeyCode::Esc ==> !final(self).running
                && r is Nothing,
            old(self).accepts_input_spec() && key.code == KeyCode::F(1) ==> final(self).current_tab
                == Tab::Connection,
            old(self).accepts_input_spec() && key.code == KeyCode::F(2) ==> if old(
                self,
            ).source_connection is Some && old(self).target_connection is Some {
                final(self).current_tab == Tab::SchemaDiff
            } else {
                final(self).current_tab == old(self).current_tab
                    && final(self).connection_state.status_error
            },
            old(self).accepts_input_spec() && key.code == KeyCode::F(3) ==> if old(
                self,
            ).source_connection is Some && old(self).target_connection is Some {
                final(self).current_tab == Tab::DataSync
            } else {
                final(self).current_tab == old(self).current_tab
                    && final(self).connection_state.status_error
            },
            old(self).accepts_input_spec() && key.code == KeyCode::F(4) ==> (
            old(self).target_connection is Some ==> final(self).current_tab == Tab::TableBrowser),
            old(self).accepts_input_spec() && key.code == KeyCode::F(4) ==> (
            old(self).target_connection is None ==> final(self).current_tab == old(self).current_tab
                && final(self).connection_state.status_error),
    {
        if !self.accepts_input() {
            return Action::Nothing;
        }
        if key.ctrl {
            match key.code {
                KeyCode::Char('c') | KeyCode::Char('q') => {
                    self.running = false;
                    return Action::Nothing;
                },
                _ => {},
            }
        }
        if key.code == KeyCode::Esc {
            self.running = false;
            return Action::Nothing;
        }
        let both = self.source_connection.is_some() && self.target_connection.is_some();
        match key.code {
            KeyCode::F(1) => {
                self.current_tab = Tab::Connection;
                Action::Nothing
            },
            KeyCode::F(2) => {
                if both {
                    self.current_tab = Tab::SchemaDiff;
                } else {
                    self.connection_state.set_status("Set source (F5) and target (F6) first", true);
                }
                Action::Nothing
            },
            KeyCode::F(3) => {
                if both {
                    self.current_tab = Tab::DataSync;
                } else {
                    self.connection_state.set_status("Set source (F5) and target (F6) first", true);
                }
                Action::Nothing
            },
            KeyCode::F(4) => {
                if self.target_connection.is_some() {
                    self.current_tab = Tab::TableBrowser;
                } else {
                    self.connection_state.set_status("Set target (F6) first", true);
                }
                Action::Nothing
            },
            _ => match self.current_tab {
                Tab::Connection => self.handle_connection_key(key, now_ms),
                Tab::SchemaDiff => self.handle_schema_diff_key(key, now_ms),
                Tab::DataSync => self.handle_data_sync_key(key, now_ms),
                Tab::TableBrowser => self.handle_browser_key(key, now_ms),
            },
        }
    }

    fn handle_schema_diff_key(&mut self, key: Key, now_ms: u64) -> (r: Action)
        requires
            old(self).slot == TaskSlot::Idle,
        ensures
            key.code == KeyCode::Enter ==> (r is Start <==> (old(self).source_connection is Some
                && old(self).target_connection is Some)),
            keeps_slot(r, old(self).slot, final(self).slot),
            final(self).table_browser_state == old(self).table_browser_state,
            final(self).current_tab == old(self).current_tab,
            final(self).running == old(self).running,
    {
        match key.code {
            KeyCode::Up => {
                self.schema_diff_state.prev();
                Action::Nothing
            },
            KeyCode::Down => {
                self.schema_diff_state.next();
                Action::Nothing
            },
            KeyCode::Enter => start_or_nothing(self.begin_schema_compare(now_ms)),
            _ => Action::Nothing,
        }
    }

    fn handle_data_sync_key(&mut self, key: Key, now_ms: u64) -> (r: Action)
        requires
            old(self).slot == TaskSlot::Idle,
        ensures
            key.code == KeyCode::Char('l') && key.ctrl ==> (r is Start
                <==> old(self).source_connection is Some),
            keeps_slot(r, old(self).slot, final(self).slot),
            final(self).table_browser_state.page_size == old(self).table_browser_state.page_size,
            final(self).current_tab == old(self).current_tab,
            final(self).running == old(self).running,
    {
        match key.code {
            KeyCode::Tab => {
                self.data_sync_state.toggle_focus();
                Action::Nothing
            },
            KeyCode::Up => {
                if self.data_sync_state.focus_left {
                    self.data_sync_state.prev_table();
                } else {
                    self.data_sync_state.prev_diff();
                }
                Action::Nothing
            },
            KeyCode::Down => {
                if self.data_sync_state.focus_left {
                    self.data_sync_state.next_table();
                } else {
                    self.data_sync_state.next_diff();
                }
                Action::Nothing
            },
            KeyCode::Char('l') if key.ctrl => start_or_nothing(self.begin_load_tables(false,
                now_ms)),
            KeyCode::Enter => {
                if self.data_sync_state.focus_left {
                    start_or_nothing(self.begin_compare_data(now_ms))
                } else {
                    Action::Nothing
                }
            },
            _ => Action::Nothing,
        }
    }

    fn handle_browser_key(&mut self, key: Key, now_ms: u64) -> (r: Action)
        requires
            old(self).slot == TaskSlot::Idle,
            old(self).table_browser_state.page_size > 0,
        ensures
            key.code == KeyCode::Char('l') && key.ctrl ==> (r is Start
                <==> old(self).target_connection is Some),
            keeps_slot(r, old(self).slot, final(self).slot),
            final(self).table_browser_state.page_size == old(self).table_browser_state.page_size,
            final(self).current_tab == old(self).current_tab,
            final(self).running == old(self).running,
    {
        match key.code {
            KeyCode::Tab => {
                self.table_browser_state.toggle_focus();
                Action::Nothing
            },
            KeyCode::Up => {
                if self.table_browser_state.focus_left {
                    self.table_browser_state.prev_table();
                } else {
                    self.table_browser_state.prev_row();
                }
                Action::Nothing
            },
            KeyCode::Down => {
                if self.table_browser_state.focus_left {
                    self.table_browser_state.next_table();
                } else {
                    self.table_browser_state.next_row();
                }
                Action::Nothing
            },
            KeyCode::Left => {
                if key.shift {
                    self.table_browser_state.scroll_columns_left();
                    Action::Nothing
                } else {
                    let old_page = self.table_browser_state.page;
                    self.table_browser_state.prev_page();
                    if self.table_browser_state.page != old_page
                        && self.table_browser_state.columns.len() > 0 {
                        start_or_nothing(self.begin_load_table_data(now_ms))
                    } else {
                        Action::Nothing
                    }
                }
            },
            KeyCode::Right => {
                if key.shift {
                    self.table_browser_state.scroll_columns_right();
                    Action::Nothing
                } else {
                    let old_page = self.table_browser_state.page;
                    self.table_browser_state.next_page();
                    if self.table_browser_state.page != old_page
                        && self.table_browser_state.columns.len() > 0 {
                        start_or_nothing(self.begin_load_table_data(now_ms))
                    } else {
                        Action::Nothing
                    }
                }
            },
            KeyCode::Char('l') if key.ctrl => start_or_nothing(self.begin_load_tables(true,
                now_ms)),
            KeyCode::Char('r') if key.ctrl => start_or_nothing(self.begin_load_table_data(now_ms)),
            KeyCode::Enter => {
                if self.table_browser_state.focus_left {
                    start_or_nothing(self.begin_load_table_data(now_ms))
                } else {
                    Action::Nothing
                }
            },
            _ => Action::Nothing,
        }
    }

    fn edit_focused_field(&mut self, c: Option<char>)
        ensures
            final(self).slot == old(self).slot,
            final(self).table_browser_state == old(self).table_browser_state,
            final(self).current_tab == old(self).current_tab,
            final(self).running == old(self).running,
    {
        let state = &mut self.connection_state;
        let f = state.focused_field;
        let sqlite = state.db_type == crate::dialect::DbType::SQLite;
        let target: Option<&mut String> = if f == 0 {
            Some(&mut state.name)
        } else if f == 2 {
            if sqlite {
                Some(&mut state.file_path)
            } else {
                Some(&mut state.host)
            }
        } else if f == 3 {
            Some(&mut state.port)
        } else if f == 4 {
            Some(&mut state.user)
        } else if f == 5 {
            Some(&mut state.password)
        } else if f == 6 {
            Some(&mut state.database)
        } else {
            None
        };
        match target {
            Some(field) => match c {
                Some(ch) => crate::text::push_char(field, ch),
                None => {
                    pop_char(field);
                },
            },
            None => {},
        }
    }

    fn select_saved(&mut self, index: usize)
        requires
            index <= old(self).connection_state.saved_connections@.len(),
        ensures
            final(self).connection_state.selected_index == index,
            final(self).slot == old(self).slot,
            final(self).table_browser_state == old(self).table_browser_state,
            final(self).current_tab == old(self).current_tab,
            final(self).running == old(self).running,
    {
        self.connection_state.selected_index = index;
        if index == 0 {
            self.connection_state.clear();
        } else {
            let conn = copy_saved(&self.connection_state.saved_connections[index - 1]);
            self.connection_state.load_connection(&conn);
        }
    }

    fn handle_connection_key(&mut self, key: Key, now_ms: u64) -> (r: Action)
        requires
            old(self).slot == TaskSlot::Idle,
        ensures
            key.code == KeyCode::Enter ==> match r {
                Action::Start(Job::TestConnection(c)) => c@ == old(self).connection_state.config_spec(),
                _ => false,
            },
            keeps_slot(r, old(self).slot, final(self).slot),
            final(self).table_browser_state.page_size == old(self).table_browser_state.page_size,
            final(self).current_tab == old(self).current_tab,
            final(self).running == old(self).running,
    {
        let focus_type = self.connection_state.focused_field == 1;
        match key.code {
            KeyCode::Up => {
                let i = self.connection_state.selected_index;
                if i > 0 && i - 1 <= self.connection_state.saved_connections.len() {
                    self.select_saved(i - 1);
                }
                Action::Nothing
            },
            KeyCode::Down => {
                let i = self.connection_state.selected_index;
                if i < self.connection_state.saved_connections.len() {
                    self.select_saved(i + 1);
                }
                Action::Nothing
            },
            KeyCode::Tab => {
                self.connection_state.next_field();
                Action::Nothing
            },
            KeyCode::BackTab => {
                self.connection_state.prev_field();
                Action::Nothing
            },
            KeyCode::Char(' ') if focus_type => {
                self.connection_state.next_db_type();
                Action::Nothing
            },
            KeyCode::Right if focus_type => {
                self.connection_state.next_db_type();
                Action::Nothing
            },
            KeyCode::Left if focus_type => {
                self.connection_state.prev_db_type();
                Action::Nothing
            },
            KeyCode::Enter => start_or_nothing(self.begin_connection_test(now_ms)),
            KeyCode::Char('s') if key.ctrl => {
                if self.connection_state.name.as_str().unicode_len() == 0 {
                    self.connection_state.set_status("Please enter a connection name", true);
                    Action::Nothing
                } else {
                    let conn = SavedConnection {
                        name: owned(self.connection_state.name.as_str()),
                        config: self.connection_state.to_config(),
                    };
                    self.store.save(conn);
                    self.connection_state.set_status("Connection saved!", false);
                    self.refresh_connections();
                    Action::Persist(StoreChange::Saved)
                }
            },
            KeyCode::Char('d') if key.ctrl => {
                if self.connection_state.name.as_str().unicode_len() == 0 {
                    Action::Nothing
                } else {
                    let name = owned(self.connection_state.name.as_str());
                    self.store.delete(name.as_str());
                    self.connection_state.set_status("Connection deleted!", false);
                    self.connection_state.clear();
                    self.refresh_connections();
                    self.connection_state.selected_index = 0;
                    Action::Persist(StoreChange::Deleted)
                }
            },
            KeyCode::Char('n') if key.ctrl => {
                self.connection_state.clear();
                Action::Nothing
            },
            KeyCode::F(5) => {
                if self.connection_state.name.as_str().unicode_len() > 0 {
                    let name = owned(self.connection_state.name.as_str());
                    let config = self.connection_state.to_config();
                    self.source_connection = Some(
                        SavedConnection { name: owned(name.as_str()), config },
                    );
                    self.schema_diff_state.source_name = owned(name.as_str());
                    self.data_sync_state.source_name = owned(name.as_str());
                    let mut msg = owned("'");
                    push_str(&mut msg, name.as_str());
                    push_str(&mut msg, "' set as source");
                    self.connection_state.set_status(msg.as_str(), false);
                }
                Action::Nothing
            },
            KeyCode::F(6) => {
                if self.connection_state.name.as_str().unicode_len() > 0 {
                    let name = owned(self.connection_state.name.as_str());
                    let config = self.connection_state.to_config();
                    self.target_connection = Some(
                        SavedConnection { name: owned(name.as_str()), config },
                    );
                    self.schema_diff_state.target_name = owned(name.as_str());
                    self.data_sync_state.target_name = owned(name.as_str());
                    self.table_browser_state.connection_name = owned(name.as_str());
                    let mut msg = owned("'");
                    push_str(&mut msg, name.as_str());
                    push_str(&mut msg, "' set as target");
                    self.connection_state.set_status(msg.as_str(), false);
                }
                Action::Nothing
            },
            KeyCode::Char(c) if !key.ctrl => {
                self.edit_focused_field(Some(c));
                Action::Nothing
            },
            KeyCode::Backspace => {
                self.edit_focused_field(None);
                Action::Nothing
            },
            _ => Action::Nothing,
        }
    }
}

} // verus!
