//! Backend messages and outbound parameter values, as plain data.
//!
//! The connection-driving task owns the socket and decodes raw frames; the
//! engine consumes the decoded messages as values of [`BackendMessage`] and
//! never touches the transport.

use vstd::prelude::*;

verus! {

/// One field of a `RowDescription` message, already decoded into plain
/// values. A `table_oid` or `column_id` of zero means "not available" and is
/// normalized away when the column descriptor is built.
#[derive(Debug)]
pub struct FieldDesc {
    /// The column name, as raw bytes.
    pub name: Vec<u8>,
    /// The OID of the owning table, or zero.
    pub table_oid: u32,
    /// The field's ordinal within its table, or zero.
    pub column_id: i16,
    /// The OID of the column's type.
    pub type_oid: u32,
}

/// One parameter of a `Bind` message: its wire format code (0 text, 1
/// binary) and its already-encoded value, `None` for SQL NULL.
///
/// Value-level encoding is the business of the type codec collaborator; the
/// engine transmits the bytes it is handed.
#[derive(Debug)]
pub struct ParamValue {
    /// The wire format code sent for this parameter.
    pub format: i16,
    /// The encoded value, or `None` for SQL NULL.
    pub data: Option<Vec<u8>>,
}

/// A backend message of the extended query protocol, decoded into plain
/// values.
#[derive(Debug)]
pub enum BackendMessage {
    ParseComplete,
    BindComplete,
    /// The declared parameter types of a prepared statement, as OIDs.
    ParameterDescription(Vec<u32>),
    /// The shape of the rows a statement returns.
    RowDescription(Vec<FieldDesc>),
    /// The statement returns no rows.
    NoData,
    /// One result row: the declared field count and the raw field section
    /// (per field, a big-endian 32-bit length — negative for SQL NULL —
    /// followed by that many bytes).
    DataRow { field_count: u16, payload: Vec<u8> },
    /// The command tag of a completed command, as raw bytes.
    CommandComplete(Vec<u8>),
    EmptyQueryResponse,
    PortalSuspended,
    ReadyForQuery,
    /// A server-reported error; the payload is the raw field section.
    ErrorResponse(Vec<u8>),
}

} // verus!
