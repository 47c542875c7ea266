//! Command tags and outbound frame encoding, cross-checked against the
//! protocol serializer the engine relies on.

use pg_exec::command_tag::extract_row_affected;
use pg_exec::message::ParamValue;
use pg_exec::pgtype::PgType;
use pg_exec::prepare::encode_prepare;
use pg_exec::query::{encode_execute, encode_query_typed};
use pg_exec::statement::Statement;

#[test]
fn tag_update_counts_rows() {
    assert_eq!(extract_row_affected(&b"UPDATE 3".to_vec()), 3);
}

#[test]
fn tag_select_without_count_is_zero() {
    assert_eq!(extract_row_affected(&b"SELECT".to_vec()), 0);
}

#[test]
fn tag_insert_takes_trailing_token() {
    assert_eq!(extract_row_affected(&b"INSERT 0 5".to_vec()), 5);
}

#[test]
fn tag_empty_is_zero() {
    assert_eq!(extract_row_affected(&Vec::new()), 0);
}

#[test]
fn tag_select_with_count() {
    assert_eq!(extract_row_affected(&b"SELECT 12".to_vec()), 12);
}

#[test]
fn tag_non_numeric_token_is_zero() {
    assert_eq!(extract_row_affected(&b"CREATE TABLE".to_vec()), 0);
}

#[test]
fn tag_overflowing_count_is_zero() {
    assert_eq!(extract_row_affected(&b"UPDATE 99999999999999999999".to_vec()), 0);
}

#[test]
fn tag_max_u64_is_kept() {
    assert_eq!(
        extract_row_affected(&b"UPDATE 18446744073709551615".to_vec()),
        u64::MAX
    );
}

/// The prepare buffer must byte-for-byte equal what the protocol
/// serializer itself produces for Parse + Describe + Sync.
#[test]
fn prepare_buffer_matches_serializer() {
    let name = b"s0".to_vec();
    let query = "SELECT $1::int4 AS n";
    let types = vec![PgType::new(23)];
    let buf = encode_prepare(&name, query, &types).unwrap();

    let mut expect = bytes::BytesMut::new();
    postgres_protocol::message::frontend::parse("s0", query, vec![23u32], &mut expect).unwrap();
    postgres_protocol::message::frontend::describe(b'S', "s0", &mut expect).unwrap();
    postgres_protocol::message::frontend::sync(&mut expect);
    assert_eq!(buf, expect.to_vec());
}

/// The execute buffer must byte-for-byte equal what the protocol
/// serializer itself produces for Bind + Execute + Sync.
#[test]
fn execute_buffer_matches_serializer() {
    let stmt = Statement::new(
        b"s1".to_vec(),
        vec![PgType::new(23)],
        Vec::new(),
    );
    let params = vec![ParamValue { format: 1, data: Some(vec![0, 0, 0, 7]) }];
    let buf = encode_execute(&stmt, &params).unwrap();

    let mut expect = bytes::BytesMut::new();
    postgres_protocol::message::frontend::bind(
        "",
        "s1",
        vec![1i16],
        vec![Some(vec![0u8, 0, 0, 7])],
        |v, out| match v {
            Some(d) => {
                out.extend_from_slice(&d);
                Ok(postgres_protocol::IsNull::No)
            }
            None => Ok(postgres_protocol::IsNull::Yes),
        },
        Some(1),
        &mut expect,
    )
    .map_err(|_| ())
    .unwrap();
    postgres_protocol::message::frontend::execute("", 0, &mut expect).unwrap();
    postgres_protocol::message::frontend::sync(&mut expect);
    assert_eq!(buf, expect.to_vec());
}

/// A NULL parameter is encoded as the -1 length marker.
#[test]
fn execute_buffer_null_param_matches_serializer() {
    let stmt = Statement::new(b"s2".to_vec(), vec![PgType::new(25)], Vec::new());
    let params = vec![ParamValue { format: 0, data: None }];
    let buf = encode_execute(&stmt, &params).unwrap();

    let mut expect = bytes::BytesMut::new();
    postgres_protocol::message::frontend::bind(
        "",
        "s2",
        vec![0i16],
        vec![None::<Vec<u8>>],
        |v, out| match v {
            Some(d) => {
                out.extend_from_slice(&d);
                Ok(postgres_protocol::IsNull::No)
            }
            None => Ok(postgres_protocol::IsNull::Yes),
        },
        Some(1),
        &mut expect,
    )
    .map_err(|_| ())
    .unwrap();
    postgres_protocol::message::frontend::execute("", 0, &mut expect).unwrap();
    postgres_protocol::message::frontend::sync(&mut expect);
    assert_eq!(buf, expect.to_vec());
}

/// The typed-path buffer folds Parse + Bind + Describe + Execute + Sync
/// into one round trip, byte-for-byte as the serializer produces them.
#[test]
fn typed_buffer_matches_serializer() {
    let query = "SELECT $1::int4 AS n";
    let params = vec![ParamValue { format: 1, data: Some(vec![0, 0, 0, 7]) }];
    let types = vec![PgType::new(23)];
    let buf = encode_query_typed(query, &params, &types).unwrap();

    let mut expect = bytes::BytesMut::new();
    postgres_protocol::message::frontend::parse("", query, vec![23u32], &mut expect).unwrap();
    postgres_protocol::message::frontend::bind(
        "",
        "",
        vec![1i16],
        vec![Some(vec![0u8, 0, 0, 7])],
        |v, out| match v {
            Some(d) => {
                out.extend_from_slice(&d);
                Ok(postgres_protocol::IsNull::No)
            }
            None => Ok(postgres_protocol::IsNull::Yes),
        },
        Some(1),
        &mut expect,
    )
    .map_err(|_| ())
    .unwrap();
    postgres_protocol::message::frontend::describe(b'S', "", &mut expect).unwrap();
    postgres_protocol::message::frontend::execute("", 0, &mut expect).unwrap();
    postgres_protocol::message::frontend::sync(&mut expect);
    assert_eq!(buf, expect.to_vec());
}

/// A query text holding a NUL byte cannot be framed and is rejected as an
/// encode error.
#[test]
fn nul_in_query_is_encode_error() {
    let name = b"s3".to_vec();
    let err = encode_prepare(&name, "SELECT \u{0} 1", &Vec::new()).unwrap_err();
    assert_eq!(err.kind(), pg_exec::error::ErrorKind::Encode);
}
