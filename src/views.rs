//! The view-state aggregates that the front end renders: the connection
//! form, the schema comparison, the data comparison and the table browser.

use vstd::prelude::*;
use vstd::arithmetic::div_mod::{lemma_add_mod_noop, lemma_small_mod};
use crate::connection::{ConfigView, ConnectionConfig, SavedConnection};
use crate::dialect::DbType;
use crate::diff::DiffResult;
use crate::sync::DataDiffResult;
use crate::text::{chars_of, decimal, decimal_string, owned};

verus! {

/// The position after `i` in a ring of `len` places.
pub fn wrap_next(i: usize, len: usize) -> (r: usize)
    requires
        len > 0,
    ensures
        r as int == (i + 1) % (len as int),
{
    proof {
        lemma_add_mod_noop(i as int, 1, len as int);
        if len > 1 {
            lemma_small_mod(1, len as nat);
        }
    }
    (i % len + 1) % len
}

/// The position before `i` in a ring of `len` places.
pub fn wrap_prev(i: usize, len: usize) -> (r: usize)
    requires
        len > 0,
    ensures
        r as int == (i + len - 1) % (len as int),
{
    let k = i % len;
    proof {
        lemma_add_mod_noop(i as int, len - 1, len as int);
        lemma_small_mod((len - 1) as nat, len as nat);
        if k == 0 {
            lemma_small_mod((len - 1) as nat, len as nat);
        } else {
            lemma_small_mod((k - 1) as nat, len as nat);
            assert((k + len - 1) % (len as int) == (k - 1) % (len as int)) by {
                vstd::arithmetic::div_mod::lemma_mod_add_multiples_vanish(k - 1, len as int);
            }
        }
    }
    if k == 0 {
        len - 1
    } else {
        k - 1
    }
}

/// The value of an ASCII digit.
pub open spec fn digit_value(c: char) -> nat {
    if c == '1' {
        1
    } else if c == '2' {
        2
    } else if c == '3' {
        3
    } else if c == '4' {
        4
    } else if c == '5' {
        5
    } else if c == '6' {
        6
    } else if c == '7' {
        7
    } else if c == '8' {
        8
    } else if c == '9' {
        9
    } else {
        0
    }
}

/// The number written by a string of decimal digits.
pub open spec fn digits_value(s: Seq<char>) -> nat
    decreases s.len(),
{
    if s.len() == 0 {
        0
    } else {
        digits_value(s.drop_last()) * 10 + digit_value(s.last())
    }
}

/// Whether every character is an ASCII digit.
pub open spec fn all_digits(s: Seq<char>) -> bool {
    forall|i: int| 0 <= i < s.len() ==> '0' <= #[trigger] s[i] && s[i] <= '9'
}

/// What `str::parse::<u16>` accepts: an optional `+`, then one or more
/// digits whose value fits in 16 bits.
pub open spec fn parse_u16_spec(s: Seq<char>) -> Option<u16> {
    let d = if s.len() > 0 && s[0] == '+' {
        s.drop_first()
    } else {
        s
    };
    if d.len() > 0 && all_digits(d) && digits_value(d) <= 65535 {
        Some(digits_value(d) as u16)
    } else {
        None
    }
}

proof fn lemma_digits_value_grows(s: Seq<char>, i: int)
    requires
        0 <= i <= s.len(),
    ensures
        digits_value(s.take(i)) <= digits_value(s),
    decreases s.len() - i,
{
    if i < s.len() {
        lemma_digits_value_grows(s, i + 1);
        assert(s.take(i + 1).drop_last() =~= s.take(i));
    } else {
        assert(s.take(i) =~= s);
    }
}

fn digit_of(c: char) -> (r: u32)
    ensures
        r as nat == digit_value(c),
{
    if c == '1' {
        1
    } else if c == '2' {
        2
    } else if c == '3' {
        3
    } else if c == '4' {
        4
    } else if c == '5' {
        5
    } else if c == '6' {
        6
    } else if c == '7' {
        7
    } else if c == '8' {
        8
    } else if c == '9' {
        9
    } else {
        0
    }
}

/// Reads a port number as `str::parse::<u16>` does.
pub fn parse_port(s: &str) -> (r: Option<u16>)
    ensures
        r == parse_u16_spec(s@),
{
    let v = chars_of(s);
    let start: usize = if v.len() > 0 && v[0] == '+' {
        1
    } else {
        0
    };
    let ghost d = if s@.len() > 0 && s@[0] == '+' {
        s@.drop_first()
    } else {
        s@
    };
    assert(d =~= v@.skip(start as int));
    if start >= v.len() {
        return None;
    }
    let mut value: u32 = 0;
    let mut i: usize = start;
    while i < v.len()
        invariant
            v@ == s@,
            start <= i <= v@.len(),
            d == v@.skip(start as int),
            d == (if s@.len() > 0 && s@[0] == '+' {
                s@.drop_first()
            } else {
                s@
            }),
            value as nat == digits_value(d.take(i - start)),
            value <= 65535,
            all_digits(d.take(i - start)),
        decreases v.len() - i,
    {
        let c = v[i];
        assert(d[i - start] == c);
        if !('0' <= c && c <= '9') {
            assert(!all_digits(d));
            return None;
        }
        assert(d.take(i - start + 1).drop_last() =~= d.take(i - start));
        value = value * 10 + digit_of(c);
        assert(value as nat == digits_value(d.take(i - start + 1)));
        if value > 65535 {
            proof {
                lemma_digits_value_grows(d, i - start + 1);
            }
            return None;
        }
        assert(all_digits(d.take(i - start + 1)));
        i = i + 1;
    }
    assert(d.take(i - start) =~= d);
    Some(value as u16)
}

/// The connection form. Field 0 is the name and field 1 the backend; the
/// file-based backend then has its file, the others host, port, user,
/// password and database.
#[derive(Debug, Clone)]
pub struct ConnectionFormState {
    pub saved_connections: Vec<SavedConnection>,
    /// 0 is a new connection; `k` is saved connection `k - 1`.
    pub selected_index: usize,
    pub name: String,
    pub db_type: DbType,
    pub host: String,
    pub port: String,
    pub user: String,
    pub password: String,
    pub database: String,
    pub file_path: String,
    pub focused_field: usize,
    pub editing: bool,
    pub status: String,
    pub status_error: bool,
}

/// The backend after `d` in the form's cycle.
pub open spec fn next_db(d: DbType) -> DbType {
    match d {
        DbType::MySQL => DbType::PostgreSQL,
        DbType::PostgreSQL => DbType::SQLite,
        DbType::SQLite => DbType::SQLServer,
        DbType::SQLServer => DbType::MySQL,
    }
}

/// The backend before `d` in the form's cycle.
pub open spec fn prev_db(d: DbType) -> DbType {
    match d {
        DbType::MySQL => DbType::SQLServer,
        DbType::PostgreSQL => DbType::MySQL,
        DbType::SQLite => DbType::PostgreSQL,
        DbType::SQLServer => DbType::SQLite,
    }
}

impl ConnectionFormState {
    /// The number of fields for the chosen backend.
    pub open spec fn field_count_spec(&self) -> nat {
        if self.db_type == DbType::SQLite {
            3
        } else {
            7
        }
    }

    /// Whether the form's fields other than the ones a step changes stay.
    pub open spec fn same_entries(&self, o: &ConnectionFormState) -> bool {
        &&& self.saved_connections == o.saved_connections
        &&& self.selected_index == o.selected_index
        &&& self.name == o.name
        &&& self.host == o.host
        &&& self.user == o.user
        &&& self.password == o.password
        &&& self.database == o.database
        &&& self.file_path == o.file_path
        &&& self.editing == o.editing
        &&& self.status == o.status
        &&& self.status_error == o.status_error
    }

    /// The number of fields for the chosen backend.
    pub fn field_count(&self) -> (r: usize)
        ensures
            r as nat == self.field_count_spec(),
    {
        match self.db_type {
            DbType::SQLite => 3,
            _ => 7,
        }
    }

    /// Moves the focus to the next field, wrapping round.
    pub fn next_field(&mut self)
        ensures
            final(self).focused_field as int == (old(self).focused_field + 1) % (old(
                self,
            ).field_count_spec() as int),
            final(self).same_entries(old(self)),
            final(self).db_type == old(self).db_type,
            final(self).port == old(self).port,
    {
        self.focused_field = wrap_next(self.focused_field, self.field_count());
    }

    /// Moves the focus to the previous field, wrapping round.
    pub fn prev_field(&mut self)
        ensures
            final(self).focused_field as int == (old(self).focused_field + old(
                self,
            ).field_count_spec() - 1) % (old(self).field_count_spec() as int),
            final(self).same_entries(old(self)),
            final(self).db_type == old(self).db_type,
            final(self).port == old(self).port,
    {
        self.focused_field = wrap_prev(self.focused_field, self.field_count());
    }

    /// Chooses the next backend and puts its default port in the form.
    pub fn next_db_type(&mut self)
        ensures
            final(self).db_type == next_db(old(self).db_type),
            final(self).port@ == decimal(
                ConnectionConfig::default_port_spec(next_db(old(self).db_type)) as nat,
            ),
            final(self).same_entries(old(self)),
            final(self).focused_field == old(self).focused_field,
    {
        self.db_type = match self.db_type {
            DbType::MySQL => DbType::PostgreSQL,
            DbType::PostgreSQL => DbType::SQLite,
            DbType::SQLite => DbType::SQLServer,
            DbType::SQLServer => DbType::MySQL,
        };
        self.port = decimal_string(ConnectionConfig::default_port(self.db_type) as u64);
    }

    /// Chooses the previous backend and puts its default port in the form.
    pub fn prev_db_type(&mut self)
        ensures
            final(self).db_type == prev_db(old(self).db_type),
            final(self).port@ == decimal(
                ConnectionConfig::default_port_spec(prev_db(old(self).db_type)) as nat,
            ),
            final(self).same_entries(old(self)),
            final(self).focused_field == old(self).focused_field,
    {
        self.db_type = match self.db_type {
            DbType::MySQL => DbType::SQLServer,
            DbType::PostgreSQL => DbType::MySQL,
            DbType::SQLite => DbType::PostgreSQL,
            DbType::SQLServer => DbType::SQLite,
        };
        self.port = decimal_string(ConnectionConfig::default_port(self.db_type) as u64);
    }

    /// The configuration the form describes: a port that does not read as
    /// a 16-bit number is the backend's default port, and the file is kept
    /// only for the file-based backend and only where it is not empty.
    pub open spec fn config_spec(&self) -> ConfigView {
        ConfigView {
            db_type: self.db_type,
            host: self.host@,
            port: match parse_u16_spec(self.port@) {
                Some(p) => p,
                None => ConnectionConfig::default_port_spec(self.db_type),
            },
            user: self.user@,
            password: self.password@,
            database: self.database@,
            file_path: if self.db_type == DbType::SQLite && self.file_path@.len() > 0 {
                Some(self.file_path@)
            } else {
                None
            },
        }
    }

    /// The configuration the form describes, as [`Self::config_spec`] states.
    pub fn to_config(&self) -> (r: ConnectionConfig)
        ensures
            r@ == self.config_spec(),
    {
        let port = match parse_port(self.port.as_str()) {
            Some(p) => p,
            None => ConnectionConfig::default_port(self.db_type),
        };
        let fp = chars_of(self.file_path.as_str());
        ConnectionConfig {
            db_type: self.db_type,
            host: owned(self.host.as_str()),
            port,
            user: owned(self.user.as_str()),
            password: owned(self.password.as_str()),
            database: owned(self.database.as_str()),
            file_path: if self.db_type == DbType::SQLite && fp.len() > 0 {
                Some(owned(self.file_path.as_str()))
            } else {
                None
            },
        }
    }

    /// Fills the form from a saved connection.
    pub fn load_connection(&mut self, conn: &SavedConnection)
        ensures
            final(self).name@ == conn.name@,
            final(self).db_type == conn.config.db_type,
            final(self).host@ == conn.config.host@,
            final(self).port@ == decimal(conn.config.port as nat),
            final(self).user@ == conn.config.user@,
            final(self).password@ == conn.config.password@,
            final(self).database@ == conn.config.database@,
            final(self).file_path@ == match conn.config.file_path {
                Some(p) => p@,
                None => Seq::empty(),
            },
            final(self).saved_connections == old(self).saved_connections,
            final(self).selected_index == old(self).selected_index,
            final(self).focused_field == old(self).focused_field,
            final(self).status == old(self).status,
            final(self).status_error == old(self).status_error,
    {
        self.name = owned(conn.name.as_str());
        self.db_type = conn.config.db_type;
        self.host = owned(conn.config.host.as_str());
        self.port = decimal_string(conn.config.port as u64);
        self.user = owned(conn.config.user.as_str());
        self.password = owned(conn.config.password.as_str());
        self.database = owned(conn.config.database.as_str());
        self.file_path = match &conn.config.file_path {
            Some(p) => owned(p.as_str()),
            None => String::new(),
        };
    }

    /// Resets the form to a new MySQL connection on localhost.
    pub fn clear(&mut self)
        ensures
            final(self).name@.len() == 0,
            final(self).db_type == DbType::MySQL,
            final(self).host@ == "localhost"@,
            final(self).port@ == "3306"@,
            final(self).user@ == "root"@,
            final(self).password@.len() == 0,
            final(self).database@.len() == 0,
            final(self).file_path@.len() == 0,
            final(self).focused_field == 0,
            final(self).saved_connections == old(self).saved_connections,
            final(self).selected_index == old(self).selected_index,
            final(self).status == old(self).status,
            final(self).status_error == old(self).status_error,
    {
        self.name = String::new();
        self.db_type = DbType::MySQL;
        self.host = owned("localhost");
        self.port = owned("3306");
        self.user = owned("root");
        self.password = String::new();
        self.database = String::new();
        self.file_path = String::new();
        self.focused_field = 0;
    }

    /// Shows a status message, marked as an error or not.
    pub fn set_status(&mut self, msg: &str, is_error: bool)
        ensures
            final(self).status@ == msg@,
            *final(self) == (ConnectionFormState {
                status: final(self).status,
                status_error: is_error,
                ..*old(self)
            }),
    {
        self.status = owned(msg);
        self.status_error = is_error;
    }
}

impl Default for ConnectionFormState {
    fn default() -> (r: ConnectionFormState)
        ensures
            r.saved_connections@.len() == 0,
            r.selected_index == 0,
            r.db_type == DbType::MySQL,
            r.host@ == "localhost"@,
            r.port@ == "3306"@,
            r.user@ == "root"@,
            r.focused_field == 0,
            !r.editing,
            !r.status_error,
    {
        ConnectionFormState {
            saved_connections: Vec::new(),
            selected_index: 0,
            name: String::new(),
            db_type: DbType::MySQL,
            host: owned("localhost"),
            port: owned("3306"),
            user: owned("root"),
            password: String::new(),
            database: String::new(),
            file_path: String::new(),
            focused_field: 0,
            editing: false,
            status: owned("Set source (F5) and target (F6) before using other features"),
            status_error: false,
        }
    }
}

/// The schema comparison view.
#[derive(Debug, Clone)]
pub struct SchemaDiffState {
    pub source_name: String,
    pub target_name: String,
    pub diffs: Vec<DiffResult>,
    pub selected_index: usize,
    pub status: String,
    pub loading: bool,
}

impl SchemaDiffState {
    /// Selects the next difference, wrapping round; nothing where there is
    /// none.
    pub fn next(&mut self)
        ensures
            old(self).diffs@.len() > 0 ==> final(self).selected_index as int == (old(
                self,
            ).selected_index + 1) % (old(self).diffs@.len() as int),
            old(self).diffs@.len() == 0 ==> final(self).selected_index == old(self).selected_index,
            final(self).diffs == old(self).diffs,
            final(self).status == old(self).status,
            final(self).loading == old(self).loading,
    {
        if self.diffs.len() > 0 {
            self.selected_index = wrap_next(self.selected_index, self.diffs.len());
        }
    }

    /// Selects the previous difference, wrapping round; nothing where there
    /// is none.
    pub fn prev(&mut self)
        ensures
            old(self).diffs@.len() > 0 ==> final(self).selected_index as int == (old(
                self,
            ).selected_index + old(self).diffs@.len() - 1) % (old(self).diffs@.len() as int),
            old(self).diffs@.len() == 0 ==> final(self).selected_index == old(self).selected_index,
            final(self).diffs == old(self).diffs,
            final(self).status == old(self).status,
            final(self).loading == old(self).loading,
    {
        if self.diffs.len() > 0 {
            self.selected_index = wrap_prev(self.selected_index, self.diffs.len());
        }
    }
}

impl Default for SchemaDiffState {
    fn default() -> (r: SchemaDiffState)
        ensures
            r.diffs@.len() == 0,
            r.selected_index == 0,
            !r.loading,
    {
        SchemaDiffState {
            source_name: String::new(),
            target_name: String::new(),
            diffs: Vec::new(),
            selected_index: 0,
            status: owned("Press [Enter] to compare schemas"),
            loading: false,
        }
    }
}

/// The data comparison view: tables on the left, differences on the right.
#[derive(Debug, Clone)]
pub struct DataSyncState {
    pub source_name: String,
    pub target_name: String,
    pub tables: Vec<String>,
    pub selected_table_index: usize,
    pub diffs: Vec<DataDiffResult>,
    pub selected_diff_index: usize,
    pub status: String,
    pub loading: bool,
    /// Whether the table list, rather than the difference list, has focus.
    pub focus_left: bool,
}

impl DataSyncState {
    /// Selects the next table, wrapping round.
    pub fn next_table(&mut self)
        ensures
            old(self).tables@.len() > 0 ==> final(self).selected_table_index as int == (old(
                self,
            ).selected_table_index + 1) % (old(self).tables@.len() as int),
            old(self).tables@.len() == 0 ==> final(self).selected_table_index == old(
                self,
            ).selected_table_index,
            final(self).tables == old(self).tables,
            final(self).selected_diff_index == old(self).selected_diff_index,
            final(self).focus_left == old(self).focus_left,
    {
        if self.tables.len() > 0 {
            self.selected_table_index = wrap_next(self.selected_table_index, self.tables.len());
        }
    }

    /// Selects the previous table, wrapping round.
    pub fn prev_table(&mut self)
        ensures
            old(self).tables@.len() > 0 ==> final(self).selected_table_index as int == (old(
                self,
            ).selected_table_index
                + old(self).tables@.len() - 1) % (old(self).tables@.len() as int),
            old(self).tables@.len() == 0 ==> final(self).selected_table_index == old(
                self,
            ).selected_table_index,
            final(self).tables == old(self).tables,
            final(self).selected_diff_index == old(self).selected_diff_index,
            final(self).focus_left == old(self).focus_left,
    {
        if self.tables.len() > 0 {
            self.selected_table_index = wrap_prev(self.selected_table_index, self.tables.len());
        }
    }

    /// Selects the next difference, wrapping round.
    pub fn next_diff(&mut self)
        ensures
            old(self).diffs@.len() > 0 ==> final(self).selected_diff_index as int == (old(
                self,
            ).selected_diff_index + 1) % (old(self).diffs@.len() as int),
            old(self).diffs@.len() == 0 ==> final(self).selected_diff_index == old(
                self,
            ).selected_diff_index,
            final(self).selected_table_index == old(self).selected_table_index,
            final(self).focus_left == old(self).focus_left,
    {
        if self.diffs.len() > 0 {
            self.selected_diff_index = wrap_next(self.selected_diff_index, self.diffs.len());
        }
    }

    /// Selects the previous difference, wrapping round.
    pub fn prev_diff(&mut self)
        ensures
            old(self).diffs@.len() > 0 ==> final(self).selected_diff_index as int == (old(
                self,
            ).selected_diff_index + old(self).diffs@.len() - 1) % (old(self).diffs@.len() as int),
            old(self).diffs@.len() == 0 ==> final(self).selected_diff_index == old(
                self,
            ).selected_diff_index,
            final(self).selected_table_index == old(self).selected_table_index,
            final(self).focus_left == old(self).focus_left,
    {
        if self.diffs.len() > 0 {
            self.selected_diff_index = wrap_prev(self.selected_diff_index, self.diffs.len());
        }
    }

    /// Moves the focus to the other list.
    pub fn toggle_focus(&mut self)
        ensures
            final(self).focus_left == !old(self).focus_left,
            final(self).selected_table_index == old(self).selected_table_index,
            final(self).selected_diff_index == old(self).selected_diff_index,
    {
        self.focus_left = !self.focus_left;
    }
}

impl Default for DataSyncState {
    fn default() -> (r: DataSyncState)
        ensures
            r.tables@.len() == 0,
            r.diffs@.len() == 0,
            r.focus_left,
            !r.loading,
    {
        DataSyncState {
            source_name: String::new(),
            target_name: String::new(),
            tables: Vec::new(),
            selected_table_index: 0,
            diffs: Vec::new(),
            selected_diff_index: 0,
            status: owned("Press [Ctrl+L] to load tables"),
            loading: false,
            focus_left: true,
        }
    }
}

/// The table browser: tables on the left, one page of rows on the right.
#[derive(Debug, Clone)]
pub struct TableBrowserState {
    pub connection_name: String,
    pub tables: Vec<String>,
    pub selected_table_index: usize,
    pub columns: Vec<String>,
    pub rows: Vec<Vec<String>>,
    pub selected_row_index: usize,
    /// The page shown, counted from 1.
    pub page: usize,
    pub page_size: usize,
    pub total_count: usize,
    pub status: String,
    pub loading: bool,
    pub focus_left: bool,
    /// The first column shown.
    pub column_offset: usize,
    pub visible_columns: usize,
}

/// The number of pages that hold `total` rows, `size` to a page.
pub open spec fn pages_for(total: nat, size: nat) -> nat
    recommends
        size > 0,
{
    if total % size == 0 {
        total / size
    } else {
        total / size + 1
    }
}

fn page_count(total: usize, size: usize) -> (r: usize)
    requires
        size > 0,
    ensures
        r as nat == pages_for(total as nat, size as nat),
{
    let q = total / size;
    let rem = total % size;
    if rem == 0 {
        q
    } else {
        proof {
            vstd::arithmetic::div_mod::lemma_fundamental_div_mod(total as int, size as int);
            assert(q < total) by (nonlinear_arith)
                requires
                    size > 0,
                    q >= 0,
                    size * q + rem == total,
                    rem > 0,
            ;
        }
        q + 1
    }
}

impl TableBrowserState {
    /// Selects the next table, wrapping round.
    pub fn next_table(&mut self)
        ensures
            final(self).page_size == old(self).page_size,
            old(self).tables@.len() > 0 ==> final(self).selected_table_index as int == (old(
                self,
            ).selected_table_index + 1) % (old(self).tables@.len() as int),
            old(self).tables@.len() == 0 ==> final(self).selected_table_index == old(
                self,
            ).selected_table_index,
            final(self).page == old(self).page,
            final(self).focus_left == old(self).focus_left,
    {
        if self.tables.len() > 0 {
            self.selected_table_index = wrap_next(self.selected_table_index, self.tables.len());
        }
    }

    /// Selects the previous table, wrapping round.
    pub fn prev_table(&mut self)
        ensures
            final(self).page_size == old(self).page_size,
            old(self).tables@.len() > 0 ==> final(self).selected_table_index as int == (old(
                self,
            ).selected_table_index
                + old(self).tables@.len() - 1) % (old(self).tables@.len() as int),
            old(self).tables@.len() == 0 ==> final(self).selected_table_index == old(
                self,
            ).selected_table_index,
            final(self).page == old(self).page,
            final(self).focus_left == old(self).focus_left,
    {
        if self.tables.len() > 0 {
            self.selected_table_index = wrap_prev(self.selected_table_index, self.tables.len());
        }
    }

    /// Selects the next row of the page, wrapping round.
    pub fn next_row(&mut self)
        ensures
            final(self).page_size == old(self).page_size,
            old(self).rows@.len() > 0 ==> final(self).selected_row_index as int == (old(
                self,
            ).selected_row_index + 1) % (old(self).rows@.len() as int),
            old(self).rows@.len() == 0 ==> final(self).selected_row_index == old(
                self,
            ).selected_row_index,
            final(self).page == old(self).page,
    {
        if self.rows.len() > 0 {
            self.selected_row_index = wrap_next(self.selected_row_index, self.rows.len());
        }
    }

    /// Selects the previous row of the page, wrapping round.
    pub fn prev_row(&mut self)
        ensures
            final(self).page_size == old(self).page_size,
            old(self).rows@.len() > 0 ==> final(self).selected_row_index as int == (old(
                self,
            ).selected_row_index + old(self).rows@.len() - 1) % (old(self).rows@.len() as int),
            old(self).rows@.len() == 0 ==> final(self).selected_row_index == old(
                self,
            ).selected_row_index,
            final(self).page == old(self).page,
    {
        if self.rows.len() > 0 {
            self.selected_row_index = wrap_prev(self.selected_row_index, self.rows.len());
        }
    }

    /// Goes to the next page where there is one.
    pub fn next_page(&mut self)
        requires
            old(self).page_size > 0,
        ensures
            old(self).page < pages_for(old(self).total_count as nat, old(self).page_size as nat)
                ==> final(self).page == old(self).page + 1,
            old(self).page >= pages_for(old(self).total_count as nat, old(self).page_size as nat)
                ==> final(self).page == old(self).page,
            final(self).page_size == old(self).page_size,
            final(self).total_count == old(self).total_count,
    {
        let max_page = page_count(self.total_count, self.page_size);
        if self.page < max_page {
            self.page = self.page + 1;
        }
    }

    /// Goes to the previous page; the first page stays.
    pub fn prev_page(&mut self)
        ensures
            old(self).page > 1 ==> final(self).page == old(self).page - 1,
            old(self).page <= 1 ==> final(self).page == old(self).page,
            final(self).page_size == old(self).page_size,
            final(self).total_count == old(self).total_count,
    {
        if self.page > 1 {
            self.page = self.page - 1;
        }
    }

    /// Moves the focus to the other pane.
    pub fn toggle_focus(&mut self)
        ensures
            final(self).page_size == old(self).page_size,
            final(self).focus_left == !old(self).focus_left,
            final(self).page == old(self).page,
    {
        self.focus_left = !self.focus_left;
    }

    /// The number of pages; an empty table has one.
    pub fn total_pages(&self) -> (r: usize)
        requires
            self.page_size > 0,
        ensures
            self.total_count == 0 ==> r == 1,
            self.total_count > 0 ==> r as nat
                == pages_for(self.total_count as nat, self.page_size as nat),
    {
        if self.total_count == 0 {
            1
        } else {
            page_count(self.total_count, self.page_size)
        }
    }

    /// Shows one column further left, where there is one.
    pub fn scroll_columns_left(&mut self)
        ensures
            final(self).page_size == old(self).page_size,
            old(self).column_offset > 0
                ==> final(self).column_offset == old(self).column_offset - 1,
            old(self).column_offset == 0 ==> final(self).column_offset == 0,
            final(self).columns == old(self).columns,
    {
        if self.column_offset > 0 {
            self.column_offset = self.column_offset - 1;
        }
    }

    /// Shows one column further right, while columns remain past the view.
    pub fn scroll_columns_right(&mut self)
        ensures
            final(self).page_size == old(self).page_size,
            old(self).columns@.len() > 0 && old(self).column_offset + old(self).visible_columns
                < old(self).columns@.len() ==> final(self).column_offset == old(self).column_offset
                    + 1,
            !(old(self).columns@.len() > 0 && old(self).column_offset + old(self).visible_columns
                < old(self).columns@.len())
                    ==> final(self).column_offset == old(self).column_offset,
            final(self).columns == old(self).columns,
    {
        if self.columns.len() > 0 && self.column_offset < self.columns.len() && self.visible_columns
            < self.columns.len() - self.column_offset {
            self.column_offset = self.column_offset + 1;
        }
    }

    /// The columns shown, as a half-open range of positions: from the
    /// scroll offset, at most `visible_columns` of them, within the columns
    /// there are.
    pub fn visible_column_range(&self) -> (r: (usize, usize))
        ensures
            r.0 as int == if self.column_offset < self.columns@.len() {
                self.column_offset as int
            } else {
                self.columns@.len() as int
            },
            r.1 as int == if self.column_offset + self.visible_columns < self.columns@.len() {
                self.column_offset + self.visible_columns
            } else {
                self.columns@.len() as int
            },
            r.0 <= r.1,
    {
        let total = self.columns.len();
        let start = if self.column_offset < total {
            self.column_offset
        } else {
            total
        };
        let end = if self.column_offset < total
            && self.visible_columns < total - self.column_offset {
            self.column_offset + self.visible_columns
        } else {
            total
        };
        (start, end)
    }

    /// Shows the columns from the first again.
    pub fn reset_column_scroll(&mut self)
        ensures
            *final(self) == (TableBrowserState { column_offset: 0, ..*old(self) }),
    {
        self.column_offset = 0;
    }
}

impl Default for TableBrowserState {
    fn default() -> (r: TableBrowserState)
        ensures
            r.page == 1,
            r.page_size == 50,
            r.total_count == 0,
            r.column_offset == 0,
            r.visible_columns == 5,
            r.focus_left,
            !r.loading,
    {
        TableBrowserState {
            connection_name: String::new(),
            tables: Vec::new(),
            selected_table_index: 0,
            columns: Vec::new(),
            rows: Vec::new(),
            selected_row_index: 0,
            page: 1,
            page_size: 50,
            total_count: 0,
            status: owned("Press [Ctrl+L] to load tables"),
            loading: false,
            focus_left: true,
            column_offset: 0,
            visible_columns: 5,
        }
    }
}

} // verus!
