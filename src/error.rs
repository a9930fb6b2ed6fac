//! The library's errors.

use vstd::prelude::*;
use crate::text::{owned, push_str};

verus! {

/// Why an operation failed.
#[derive(Debug, Clone)]
pub enum DbError {
    /// No session could be opened: bad host, port or credentials, or a
    /// missing file.
    Connectivity(String),
    /// A row comparison was asked for on a table without a primary key.
    NoPrimaryKey { table: String },
    /// A metadata or data query failed on a live session.
    Introspection(String),
    /// The backend has no implementation of the operation.
    Unsupported(String),
}

impl DbError {
    /// The text shown for this error.
    pub open spec fn message_view(self) -> Seq<char> {
        match self {
            DbError::Connectivity(m) => m@,
            DbError::NoPrimaryKey { table } => "Table "@ + table@ + " has no primary key"@,
            DbError::Introspection(m) => m@,
            DbError::Unsupported(m) => m@,
        }
    }

    /// The text shown for this error.
    pub fn message(&self) -> (r: String)
        ensures
            r@ == self.message_view(),
    {
        match self {
            DbError::Connectivity(m) => owned(m.as_str()),
            DbError::NoPrimaryKey { table } => {
                let mut s = owned("Table ");
                push_str(&mut s, table.as_str());
                push_str(&mut s, " has no primary key");
                s
            },
            DbError::Introspection(m) => owned(m.as_str()),
            DbError::Unsupported(m) => owned(m.as_str()),
        }
    }
}

} // verus!
