//! The error taxonomy of the execution engine.
//!
//! None of these errors is retried internally; each one terminates the
//! operation that produced it.

use vstd::prelude::*;

verus! {

/// The variant of a [`PgError`], without its payload.
#[derive(Clone, Copy, Debug, PartialEq, Eq, Structural)]
pub enum ErrorKind {
    Closed,
    Database,
    UnexpectedMessage,
    Encode,
    Parse,
    Parameters,
    Column,
    FromSql,
    WrongType,
    RowCount,
}

/// An error raised while executing a statement or reading its results.
#[derive(Debug)]
pub enum PgError {
    /// The channel to the connection-driving task is gone; the connection is
    /// unusable and every further operation fails the same way.
    Closed,
    /// The server reported an error; the payload is the raw field section of
    /// the `ErrorResponse` message.
    Database(Vec<u8>),
    /// A backend message arrived out of protocol sequence.
    UnexpectedMessage,
    /// An outbound message could not be constructed.
    Encode,
    /// An inbound frame was malformed.
    Parse,
    /// The caller supplied a parameter list whose length differs from the
    /// statement's declared parameter count.
    Parameters { expected: usize, actual: usize },
    /// A row index or column name did not resolve to a column; the payload
    /// renders the requested identifier.
    Column(Vec<u8>),
    /// A column value could not be decoded, at the given column position.
    FromSql(usize),
    /// A column's declared type does not accept the requested representation,
    /// at the given column position.
    WrongType(usize),
    /// A caller that expected at most (or exactly) one row saw a different
    /// cardinality.
    RowCount,
}

impl PgError {
    /// The variant of this error.
    pub open spec fn spec_kind(&self) -> ErrorKind {
        match self {
            PgError::Closed => ErrorKind::Closed,
            PgError::Database(_) => ErrorKind::Database,
            PgError::UnexpectedMessage => ErrorKind::UnexpectedMessage,
            PgError::Encode => ErrorKind::Encode,
            PgError::Parse => ErrorKind::Parse,
            PgError::Parameters { .. } => ErrorKind::Parameters,
            PgError::Column(_) => ErrorKind::Column,
            PgError::FromSql(_) => ErrorKind::FromSql,
            PgError::WrongType(_) => ErrorKind::WrongType,
            PgError::RowCount => ErrorKind::RowCount,
        }
    }

    /// Returns the variant of this error.
    pub fn kind(&self) -> (k: ErrorKind)
        ensures
            k == self.spec_kind(),
    {
        match self {
            PgError::Closed => ErrorKind::Closed,
            PgError::Database(_) => ErrorKind::Database,
            PgError::UnexpectedMessage => ErrorKind::UnexpectedMessage,
            PgError::Encode => ErrorKind::Encode,
            PgError::Parse => ErrorKind::Parse,
            PgError::Parameters { .. } => ErrorKind::Parameters,
            PgError::Column(_) => ErrorKind::Column,
            PgError::FromSql(_) => ErrorKind::FromSql,
            PgError::WrongType(_) => ErrorKind::WrongType,
            PgError::RowCount => ErrorKind::RowCount,
        }
    }
}

} // verus!
