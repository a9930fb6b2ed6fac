//! Static facts about each supported SQL dialect: identifier quoting and
//! the form of a row window.

use vstd::prelude::*;
use crate::text::{decimal, owned, push_decimal, push_str};

verus! {

/// The database engines that the library can speak to.
#[derive(Debug, Clone, Copy, PartialEq, Eq, Structural)]
pub enum DbType {
    MySQL,
    PostgreSQL,
    SQLite,
    SQLServer,
}

impl Default for DbType {
    fn default() -> (r: DbType)
        ensures
            r == DbType::MySQL,
    {
        DbType::MySQL
    }
}

impl DbType {
    /// The character that opens a quoted identifier.
    pub open spec fn open_quote(self) -> char {
        match self {
            DbType::MySQL => '`',
            DbType::PostgreSQL => '"',
            DbType::SQLite => '"',
            DbType::SQLServer => '[',
        }
    }

    /// The character that closes a quoted identifier.
    pub open spec fn close_quote(self) -> char {
        match self {
            DbType::MySQL => '`',
            DbType::PostgreSQL => '"',
            DbType::SQLite => '"',
            DbType::SQLServer => ']',
        }
    }

    /// `name` wrapped in this dialect's identifier quotes.
    pub open spec fn quoted(self, name: Seq<char>) -> Seq<char> {
        seq![self.open_quote()] + name + seq![self.close_quote()]
    }

    /// What lies between this dialect's identifier quotes, where `s` is so
    /// quoted.
    pub open spec fn unquoted(self, s: Seq<char>) -> Option<Seq<char>> {
        if s.len() >= 2 && s[0] == self.open_quote() && s[s.len() - 1] == self.close_quote() {
            Some(s.subrange(1, s.len() - 1))
        } else {
            None
        }
    }

    /// The opening and closing identifier quote of this dialect.
    pub fn quote_char(&self) -> (r: (&'static str, &'static str))
        ensures
            r.0@ == seq![self.open_quote()],
            r.1@ == seq![self.close_quote()],
    {
        proof {
            reveal_strlit("`");
            reveal_strlit("\"");
            reveal_strlit("[");
            reveal_strlit("]");
        }
        match self {
            DbType::MySQL => ("`", "`"),
            DbType::PostgreSQL => ("\"", "\""),
            DbType::SQLite => ("\"", "\""),
            DbType::SQLServer => ("[", "]"),
        }
    }

    /// Quotes an identifier (a table or column name) for this dialect.
    pub fn quote_identifier(&self, name: &str) -> (r: String)
        ensures
            r@ == self.quoted(name@),
    {
        let (open, close) = self.quote_char();
        let mut s = owned(open);
        push_str(&mut s, name);
        push_str(&mut s, close);
        s
    }

    /// Removes this dialect's identifier quotes from `quoted`; `None` where
    /// it is not so quoted.
    pub fn strip_identifier(&self, quoted: &str) -> (r: Option<String>)
        ensures
            match r {
                Some(s) => self.unquoted(quoted@) == Some(s@),
                None => self.unquoted(quoted@) is None,
            },
    {
        let n = quoted.unicode_len();
        if n < 2 {
            return None;
        }
        let first = quoted.get_char(0);
        let last = quoted.get_char(n - 1);
        let (open, close) = self.quote_char();
        proof {
            assert(open@[0] == self.open_quote());
            assert(close@[0] == self.close_quote());
        }
        if first != open.get_char(0) || last != close.get_char(0) {
            return None;
        }
        Some(owned(quoted.substring_char(1, n - 1)))
    }

    /// The row window of `limit` rows after skipping `offset` rows, as a
    /// clause that ends a `SELECT`.
    pub open spec fn window_clause(self, offset: nat, limit: nat) -> Seq<char> {
        match self {
            DbType::SQLServer => " ORDER BY (SELECT NULL) OFFSET "@ + decimal(offset)
                + " ROWS FETCH NEXT "@ + decimal(limit) + " ROWS ONLY"@,
            _ => " LIMIT "@ + decimal(limit) + " OFFSET "@ + decimal(offset),
        }
    }

    /// Appends the row-window clause of this dialect to `query`.
    pub fn push_window(&self, query: &mut String, offset: u64, limit: u64)
        ensures
            final(query)@ == old(query)@ + self.window_clause(offset as nat, limit as nat),
    {
        match self {
            DbType::SQLServer => {
                push_str(query, " ORDER BY (SELECT NULL) OFFSET ");
                push_decimal(query, offset);
                push_str(query, " ROWS FETCH NEXT ");
                push_decimal(query, limit);
                push_str(query, " ROWS ONLY");
            },
            _ => {
                push_str(query, " LIMIT ");
                push_decimal(query, limit);
                push_str(query, " OFFSET ");
                push_decimal(query, offset);
            },
        }
        assert(final(query)@ =~= old(query)@ + self.window_clause(offset as nat, limit as nat));
    }
}

/// Quoting a name and stripping the quotes again gives back the name, in
/// every dialect and for every name.
pub proof fn lemma_quote_strip_round_trip(d: DbType, name: Seq<char>)
    ensures
        d.unquoted(d.quoted(name)) == Some(name),
{
    let q = d.quoted(name);
    assert(q.subrange(1, q.len() - 1) =~= name);
}

} // verus!
