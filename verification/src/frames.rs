//! Outbound protocol frames.
//!
//! The byte layout of each extended-query frame is stated here as a spec
//! function, and the actual encoding is done by `postgres_protocol`'s
//! frontend serializers behind trusted wrappers whose contracts state that
//! layout. Everything built on top of the wrappers is verified against the
//! stated bytes.

use vstd::prelude::*;
use vstd::string::StringSliceAdditionalSpecFns;

use std::str::from_utf8;

use bytes::BytesMut;
use postgres_protocol::message::frontend;
use postgres_protocol::IsNull;

use crate::error::PgError;
use crate::message::ParamValue;
use crate::wire::{ascii_no_nul, be_u16_bytes, be_u32_bytes, no_nul};

verus! {

/// A byte string written as a C-style string: the bytes, then NUL.
pub open spec fn cstr_bytes(s: Seq<u8>) -> Seq<u8> {
    s.push(0)
}

/// A complete frame: the tag byte, then the big-endian length of everything
/// after the tag (the length field itself included), then the body.
pub open spec fn frame_bytes(tag: u8, body: Seq<u8>) -> Seq<u8> {
    seq![tag] + be_u32_bytes((body.len() + 4) as u32) + body
}

/// The concatenated big-endian encodings of a list of type OIDs.
pub open spec fn oid_list_bytes(oids: Seq<u32>) -> Seq<u8>
    decreases oids.len(),
{
    if oids.len() == 0 {
        Seq::empty()
    } else {
        be_u32_bytes(oids[0]) + oid_list_bytes(oids.drop_first())
    }
}

/// The concatenated big-endian encodings of a list of format codes.
pub open spec fn format_list_bytes(formats: Seq<i16>) -> Seq<u8>
    decreases formats.len(),
{
    if formats.len() == 0 {
        Seq::empty()
    } else {
        be_u16_bytes(formats[0] as u16) + format_list_bytes(formats.drop_first())
    }
}

/// One `Bind` parameter value on the wire: a length of `-1` for SQL NULL,
/// otherwise the value's length and then its bytes.
pub open spec fn value_bytes(v: Option<Seq<u8>>) -> Seq<u8> {
    match v {
        Option::None => be_u32_bytes(0xFFFF_FFFFu32),
        Option::Some(d) => be_u32_bytes(d.len() as u32) + d,
    }
}

/// The concatenated wire encodings of a list of `Bind` parameter values.
pub open spec fn value_list_bytes(vs: Seq<Option<Seq<u8>>>) -> Seq<u8>
    decreases vs.len(),
{
    if vs.len() == 0 {
        Seq::empty()
    } else {
        value_bytes(vs[0]) + value_list_bytes(vs.drop_first())
    }
}

/// The number of wire bytes taken by a list of `Bind` parameter values.
pub open spec fn value_list_len(vs: Seq<Option<Seq<u8>>>) -> nat
    decreases vs.len(),
{
    if vs.len() == 0 {
        0
    } else {
        (4 + (match vs[0] {
            Option::None => 0,
            Option::Some(d) => d.len(),
        }) + value_list_len(vs.drop_first())) as nat
    }
}

/// The format codes of a parameter list.
pub open spec fn param_formats(ps: Seq<ParamValue>) -> Seq<i16> {
    ps.map_values(|p: ParamValue| p.format)
}

/// The encoded values of a parameter list.
pub open spec fn param_datas(ps: Seq<ParamValue>) -> Seq<Option<Seq<u8>>> {
    ps.map_values(
        |p: ParamValue|
            match p.data {
                Option::Some(d) => Option::Some(d@),
                Option::None => Option::<Seq<u8>>::None,
            },
    )
}

/// The body of a `Parse` frame: statement name, query text, then the counted
/// list of parameter type OIDs.
pub open spec fn parse_body(name: Seq<u8>, query: Seq<u8>, oids: Seq<u32>) -> Seq<u8> {
    cstr_bytes(name) + cstr_bytes(query) + be_u16_bytes(oids.len() as u16) + oid_list_bytes(oids)
}

/// A `Parse` frame.
pub open spec fn parse_frame(name: Seq<u8>, query: Seq<u8>, oids: Seq<u32>) -> Seq<u8> {
    frame_bytes(80, parse_body(name, query, oids))
}

/// Whether a `Parse` frame can be encoded: the query must be NUL-free, the
/// OID count must fit its 16-bit field, and the frame length must fit its
/// 32-bit signed field.
pub open spec fn parse_encodable(name: Seq<u8>, query: Seq<u8>, oids: Seq<u32>) -> bool {
    &&& no_nul(query)
    &&& oids.len() <= 0xFFFF
    &&& name.len() + query.len() + 8 + 4 * oids.len() <= 0x7FFF_FFFF
}

/// A `Describe` frame for a prepared statement.
pub open spec fn describe_statement_frame(name: Seq<u8>) -> Seq<u8> {
    frame_bytes(68, seq![83u8] + cstr_bytes(name))
}

/// A `Close` frame for a prepared statement.
pub open spec fn close_statement_frame(name: Seq<u8>) -> Seq<u8> {
    frame_bytes(67, seq![83u8] + cstr_bytes(name))
}

/// An `Execute` frame: the portal name and the row limit (zero meaning
/// unlimited).
pub open spec fn execute_frame(portal: Seq<u8>, max_rows: i32) -> Seq<u8> {
    frame_bytes(69, cstr_bytes(portal) + be_u32_bytes(max_rows as u32))
}

/// A `Sync` frame.
pub open spec fn sync_frame() -> Seq<u8> {
    seq![83u8, 0u8, 0u8, 0u8, 4u8]
}

/// The body of a `Bind` frame: portal, statement name, counted format codes,
/// counted parameter values, and the counted result-format list, which this
/// engine always sets to a single code asking for binary.
pub open spec fn bind_body(
    portal: Seq<u8>,
    name: Seq<u8>,
    formats: Seq<i16>,
    values: Seq<Option<Seq<u8>>>,
) -> Seq<u8> {
    cstr_bytes(portal) + cstr_bytes(name) + be_u16_bytes(formats.len() as u16) + format_list_bytes(
        formats,
    ) + be_u16_bytes(values.len() as u16) + value_list_bytes(values) + be_u16_bytes(1)
        + be_u16_bytes(1)
}

/// A `Bind` frame.
pub open spec fn bind_frame(
    portal: Seq<u8>,
    name: Seq<u8>,
    formats: Seq<i16>,
    values: Seq<Option<Seq<u8>>>,
) -> Seq<u8> {
    frame_bytes(66, bind_body(portal, name, formats, values))
}

/// Whether a `Bind` frame can be encoded: the parameter count must fit its
/// 16-bit fields and the frame length must fit its 32-bit signed field.
pub open spec fn bind_encodable(portal: Seq<u8>, name: Seq<u8>, params: Seq<ParamValue>) -> bool {
    &&& params.len() <= 0xFFFF
    &&& portal.len() + name.len() + 14 + 2 * params.len() + value_list_len(param_datas(params))
        <= 0x7FFF_FFFF
}

/// Relies on `frontend::parse`: appends a
/// `Parse` frame for the given statement name, query text and parameter type
/// OIDs, failing exactly when the query holds a NUL byte, the OID count
/// overflows its 16-bit field, or the frame length overflows its 32-bit
/// signed field.
#[verifier::external_body]
pub(crate) fn frame_parse(buf: &mut Vec<u8>, name: &Vec<u8>, query: &str, oids: &Vec<u32>) -> (r: Result<
    (),
    PgError,
>)
    requires
        ascii_no_nul(name@),
    ensures
        r is Ok <==> parse_encodable(name@, query.spec_bytes(), oids@),
        r is Ok ==> final(buf)@ == old(buf)@ + parse_frame(name@, query.spec_bytes(), oids@),
        r is Err ==> final(buf)@ == old(buf)@ && r->Err_0 is Encode,
{
    let name_s = match from_utf8(name) {
        Ok(s) => s,
        Err(_) => return Err(PgError::Encode),
    };
    let mut b = BytesMut::new();
    match frontend::parse(name_s, query, oids.iter().copied(), &mut b) {
        Ok(()) => {
            buf.extend_from_slice(&b);
            Ok(())
        },
        Err(_) => Err(PgError::Encode),
    }
}

/// Relies on `frontend::describe`: appends a
/// `Describe` frame for a prepared statement, failing exactly when the frame
/// length overflows its 32-bit signed field.
#[verifier::external_body]
pub(crate) fn frame_describe_statement(buf: &mut Vec<u8>, name: &Vec<u8>) -> (r: Result<(), PgError>)
    requires
        ascii_no_nul(name@),
    ensures
        r is Ok <==> name@.len() + 6 <= 0x7FFF_FFFF,
        r is Ok ==> final(buf)@ == old(buf)@ + describe_statement_frame(name@),
        r is Err ==> final(buf)@ == old(buf)@ && r->Err_0 is Encode,
{
    let name_s = match from_utf8(name) {
        Ok(s) => s,
        Err(_) => return Err(PgError::Encode),
    };
    let mut b = BytesMut::new();
    match frontend::describe(b'S', name_s, &mut b) {
        Ok(()) => {
            buf.extend_from_slice(&b);
            Ok(())
        },
        Err(_) => Err(PgError::Encode),
    }
}

/// Relies on `frontend::close`: appends a
/// `Close` frame for a prepared statement, failing exactly when the frame
/// length overflows its 32-bit signed field.
#[verifier::external_body]
pub(crate) fn frame_close_statement(buf: &mut Vec<u8>, name: &Vec<u8>) -> (r: Result<(), PgError>)
    requires
        ascii_no_nul(name@),
    ensures
        r is Ok <==> name@.len() + 6 <= 0x7FFF_FFFF,
        r is Ok ==> final(buf)@ == old(buf)@ + close_statement_frame(name@),
        r is Err ==> final(buf)@ == old(buf)@ && r->Err_0 is Encode,
{
    let name_s = match from_utf8(name) {
        Ok(s) => s,
        Err(_) => return Err(PgError::Encode),
    };
    let mut b = BytesMut::new();
    match frontend::close(b'S', name_s, &mut b) {
        Ok(()) => {
            buf.extend_from_slice(&b);
            Ok(())
        },
        Err(_) => Err(PgError::Encode),
    }
}

/// Relies on `frontend::execute`: appends an
/// `Execute` frame, failing exactly when the frame length overflows its
/// 32-bit signed field.
#[verifier::external_body]
pub(crate) fn frame_execute(buf: &mut Vec<u8>, portal: &Vec<u8>, max_rows: i32) -> (r: Result<(), PgError>)
    requires
        ascii_no_nul(portal@),
    ensures
        r is Ok <==> portal@.len() + 9 <= 0x7FFF_FFFF,
        r is Ok ==> final(buf)@ == old(buf)@ + execute_frame(portal@, max_rows),
        r is Err ==> final(buf)@ == old(buf)@ && r->Err_0 is Encode,
{
    let portal_s = match from_utf8(portal) {
        Ok(s) => s,
        Err(_) => return Err(PgError::Encode),
    };
    let mut b = BytesMut::new();
    match frontend::execute(portal_s, max_rows, &mut b) {
        Ok(()) => {
            buf.extend_from_slice(&b);
            Ok(())
        },
        Err(_) => Err(PgError::Encode),
    }
}

/// Relies on `frontend::sync`: appends a `Sync`
/// frame, which never fails.
#[verifier::external_body]
pub(crate) fn frame_sync(buf: &mut Vec<u8>)
    ensures
        final(buf)@ == old(buf)@ + sync_frame(),
{
    let mut b = BytesMut::new();
    frontend::sync(&mut b);
    buf.extend_from_slice(&b);
}

/// Relies on `frontend::bind`: appends a `Bind`
/// frame carrying the given pre-encoded parameters and asking for binary
/// result values, failing exactly when the parameter count overflows its
/// 16-bit fields or the frame length overflows its 32-bit signed field.
#[verifier::external_body]
pub(crate) fn frame_bind(buf: &mut Vec<u8>, portal: &Vec<u8>, name: &Vec<u8>, params: &Vec<ParamValue>) -> (r:
    Result<(), PgError>)
    requires
        ascii_no_nul(portal@),
        ascii_no_nul(name@),
    ensures
        r is Ok <==> bind_encodable(portal@, name@, params@),
        r is Ok ==> final(buf)@ == old(buf)@ + bind_frame(
            portal@,
            name@,
            param_formats(params@),
            param_datas(params@),
        ),
        r is Err ==> final(buf)@ == old(buf)@ && r->Err_0 is Encode,
{
    let (p, n) = match (from_utf8(portal), from_utf8(name)) {
        (Ok(p), Ok(n)) => (p, n),
        _ => return Err(PgError::Encode),
    };
    let mut b = BytesMut::new();
    let r = frontend::bind(p, n,
        params.iter().map(|q| q.format),
        params.iter().map(|q| q.data.as_deref()),
        |v, o: &mut BytesMut| match v {
            Some(d) => { o.extend_from_slice(d); Ok(IsNull::No) },
            None => Ok(IsNull::Yes),
        }, Some(1), &mut b);
    if r.is_ok() { buf.extend_from_slice(&b); Ok(()) } else { Err(PgError::Encode) }
}

} // verus!
