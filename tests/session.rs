use syncforge::connection::{ConnectionConfig, ConnectionStore, SavedConnection};
use syncforge::dialect::DbType;
use syncforge::task::{Action, Job, Key, KeyCode, Poll, Session, StoreChange, TaskKind, TaskResult, TaskSlot};
use syncforge::ui::Tab;
use syncforge::views::{parse_port, wrap_next, wrap_prev, ConnectionFormState, TableBrowserState};

fn key(code: KeyCode) -> Key {
    Key { code, ctrl: false, shift: false }
}

fn ctrl(c: char) -> Key {
    Key { code: KeyCode::Char(c), ctrl: true, shift: false }
}

fn session() -> Session {
    Session::new(ConnectionStore::new(Vec::new(), "/tmp/none.json".to_string()))
}

fn named(name: &str) -> SavedConnection {
    SavedConnection { name: name.to_string(), config: ConnectionConfig::default() }
}

#[test]
fn comparison_tabs_need_both_connections() {
    let mut s = session();
    s.handle_key(key(KeyCode::F(2)), 0);
    assert_eq!(s.current_tab, Tab::Connection);
    assert!(s.connection_state.status_error);
    s.source_connection = Some(named("a"));
    s.target_connection = Some(named("b"));
    s.handle_key(key(KeyCode::F(3)), 0);
    assert_eq!(s.current_tab, Tab::DataSync);
}

#[test]
fn input_is_ignored_while_busy() {
    let mut s = session();
    s.source_connection = Some(named("a"));
    s.target_connection = Some(named("b"));
    s.current_tab = Tab::SchemaDiff;
    match s.handle_key(key(KeyCode::Enter), 10) {
        Action::Start(Job::CompareSchemas { .. }) => {}
        _ => panic!("expected a schema comparison to start"),
    }
    assert_eq!(s.slot, TaskSlot::Running(TaskKind::SchemaCompare));
    assert!(s.spinner.active);
    assert!(matches!(s.handle_key(key(KeyCode::Esc), 20), Action::Nothing));
    assert!(s.running);
    s.poll(Poll::Empty);
    assert_eq!(s.slot, TaskSlot::Running(TaskKind::SchemaCompare));
    s.poll(Poll::Received(TaskResult::SchemaCompare(Ok(Vec::new()))));
    assert_eq!(s.slot, TaskSlot::Idle);
    assert!(!s.spinner.active);
    assert_eq!(s.schema_diff_state.status, "Found 0 differences");
    assert!(!s.schema_diff_state.loading);
}

#[test]
fn lost_task_frees_slot_without_changes() {
    let mut s = session();
    s.current_tab = Tab::Connection;
    let _ = s.handle_key(key(KeyCode::Enter), 0);
    assert_eq!(s.slot, TaskSlot::Running(TaskKind::ConnectionTest));
    let status = s.connection_state.status.clone();
    s.poll(Poll::Disconnected);
    assert_eq!(s.slot, TaskSlot::Idle);
    assert_eq!(s.connection_state.status, status);
}

#[test]
fn results_reach_their_views() {
    let mut s = session();
    s.apply_task_result(TaskResult::ConnectionTest(Err("refused".to_string())));
    assert_eq!(s.connection_state.status, "Connection failed: refused");
    s.current_tab = Tab::TableBrowser;
    s.apply_task_result(TaskResult::LoadTables(Ok(vec!["a".to_string(), "b".to_string()])));
    assert_eq!(s.table_browser_state.status, "Loaded 2 tables");
    s.table_browser_state.column_offset = 3;
    s.apply_task_result(TaskResult::LoadTableData { columns: vec!["x".to_string()], rows: vec![], total_count: 120 });
    assert_eq!(s.table_browser_state.column_offset, 0);
    assert_eq!(s.table_browser_state.status, "Page 1/3 (120 rows)");
}

#[test]
fn save_and_delete_ask_for_persisting() {
    let mut s = session();
    assert!(matches!(s.handle_key(ctrl('s'), 0), Action::Nothing));
    assert_eq!(s.connection_state.status, "Please enter a connection name");
    for c in "prod".chars() {
        s.handle_key(key(KeyCode::Char(c)), 0);
    }
    assert!(matches!(s.handle_key(ctrl('s'), 0), Action::Persist(StoreChange::Saved)));
    assert_eq!(s.connection_state.saved_connections.len(), 1);
    assert_eq!(s.store.get_all()[0].name, "prod");
    s.persist_failed(StoreChange::Saved, "disk full");
    assert_eq!(s.connection_state.status, "Save failed: disk full");
    assert!(matches!(s.handle_key(ctrl('d'), 0), Action::Persist(StoreChange::Deleted)));
    assert!(s.store.get_all().is_empty());
    assert_eq!(s.connection_state.name, "");
}

#[test]
fn form_cycles_backends_and_ports() {
    let mut f = ConnectionFormState::default();
    f.next_db_type();
    assert_eq!(f.db_type, DbType::PostgreSQL);
    assert_eq!(f.port, "5432");
    f.prev_db_type();
    f.prev_db_type();
    assert_eq!(f.db_type, DbType::SQLServer);
    assert_eq!(f.port, "1433");
    f.port = "70000".to_string();
    assert_eq!(f.to_config().port, 1433);
    f.port = "+8080".to_string();
    assert_eq!(f.to_config().port, 8080);
    f.file_path = "x.db".to_string();
    assert_eq!(f.to_config().file_path, None);
    f.db_type = DbType::SQLite;
    assert_eq!(f.to_config().file_path, Some("x.db".to_string()));
    f.db_type = DbType::PostgreSQL;
    f.port = String::new();
    assert_eq!(f.to_config().port, 5432);
}

#[test]
fn port_parsing_follows_std() {
    for s in ["", "+", "1a", "65536", "-1", " 1", "0", "65535", "+1", "007"] {
        assert_eq!(parse_port(s), s.parse::<u16>().ok(), "input {:?}", s);
    }
}

#[test]
fn ring_positions_wrap() {
    assert_eq!(wrap_next(2, 3), 0);
    assert_eq!(wrap_prev(0, 3), 2);
    assert_eq!(wrap_prev(7, 3), 0);
    assert_eq!(wrap_next(usize::MAX, 2), 0);
}

#[test]
fn browser_paging_and_columns() {
    let mut b = TableBrowserState::default();
    b.total_count = 101;
    assert_eq!(b.total_pages(), 3);
    b.next_page();
    b.next_page();
    b.next_page();
    assert_eq!(b.page, 3);
    b.prev_page();
    assert_eq!(b.page, 2);
    b.columns = (0..7).map(|i| i.to_string()).collect();
    assert_eq!(b.visible_column_range(), (0, 5));
    b.scroll_columns_right();
    b.scroll_columns_right();
    b.scroll_columns_right();
    assert_eq!(b.column_offset, 2);
    assert_eq!(b.visible_column_range(), (2, 7));
    b.total_count = 0;
    assert_eq!(b.total_pages(), 1);
}
