//! Statement naming, teardown, and the client-wide type cache.

use pg_exec::cache::CachedTypeInfo;
use pg_exec::error::{ErrorKind, PgError};
use pg_exec::message::BackendMessage;
use pg_exec::responses::ResponseBuffer;
use pg_exec::pgtype::PgType;
use pg_exec::statement::{close_request, statement_name, Statement};

#[test]
fn statement_names_are_s_then_decimal() {
    assert_eq!(statement_name(0), b"s0".to_vec());
    assert_eq!(statement_name(7), b"s7".to_vec());
    assert_eq!(statement_name(1234567890), b"s1234567890".to_vec());
    assert_eq!(statement_name(u64::MAX), b"s18446744073709551615".to_vec());
}

/// Dropping the last owner of a named statement emits Close + Sync; an
/// unnamed statement emits nothing.
#[test]
fn close_request_only_for_named_statements() {
    let named = Statement::new(b"s5".to_vec(), Vec::new(), Vec::new());
    let buf = close_request(&named).unwrap();

    let mut expect = bytes::BytesMut::new();
    postgres_protocol::message::frontend::close(b'S', "s5", &mut expect).unwrap();
    postgres_protocol::message::frontend::sync(&mut expect);
    assert_eq!(buf, expect.to_vec());

    let unnamed = Statement::unnamed(Vec::new(), Vec::new());
    assert!(close_request(&unnamed).is_none());
}

#[test]
fn type_cache_is_lazy_and_monotonic() {
    let mut cache = CachedTypeInfo::new();
    assert!(cache.type_(23).is_none());
    cache.set_type(23, PgType::new(23));
    cache.set_type(25, PgType::new(25));
    assert_eq!(cache.type_(23).unwrap().oid(), 23);
    assert_eq!(cache.type_(25).unwrap().oid(), 25);
    // populating one entry never evicts another
    cache.set_type(16, PgType::new(16));
    assert_eq!(cache.type_(23).unwrap().oid(), 23);
}

#[test]
fn type_cache_clear_empties_types_only() {
    let mut cache = CachedTypeInfo::new();
    cache.set_type(23, PgType::new(23));
    cache.set_typeinfo(Statement::new(b"s8".to_vec(), Vec::new(), Vec::new()));
    cache.clear_type_cache();
    assert!(cache.type_(23).is_none());
    // the auxiliary statements survive a type-cache clear
    assert_eq!(cache.typeinfo().unwrap().name(), &b"s8".to_vec());
}

#[test]
fn auxiliary_statements_are_cached_separately() {
    let mut cache = CachedTypeInfo::new();
    assert!(cache.typeinfo().is_none());
    assert!(cache.typeinfo_composite().is_none());
    assert!(cache.typeinfo_enum().is_none());
    cache.set_typeinfo_composite(Statement::new(b"s9".to_vec(), Vec::new(), Vec::new()));
    cache.set_typeinfo_enum(Statement::new(b"s10".to_vec(), Vec::new(), Vec::new()));
    assert!(cache.typeinfo().is_none());
    assert_eq!(cache.typeinfo_composite().unwrap().name(), &b"s9".to_vec());
    assert_eq!(cache.typeinfo_enum().unwrap().name(), &b"s10".to_vec());
}

#[test]
fn error_kinds_name_their_variant() {
    assert_eq!(PgError::Closed.kind(), ErrorKind::Closed);
    assert_eq!(PgError::Database(Vec::new()).kind(), ErrorKind::Database);
    assert_eq!(PgError::UnexpectedMessage.kind(), ErrorKind::UnexpectedMessage);
    assert_eq!(PgError::Encode.kind(), ErrorKind::Encode);
    assert_eq!(PgError::Parse.kind(), ErrorKind::Parse);
    assert_eq!(PgError::Parameters { expected: 1, actual: 0 }.kind(), ErrorKind::Parameters);
    assert_eq!(PgError::Column(b"x".to_vec()).kind(), ErrorKind::Column);
    assert_eq!(PgError::FromSql(0).kind(), ErrorKind::FromSql);
    assert_eq!(PgError::WrongType(0).kind(), ErrorKind::WrongType);
    assert_eq!(PgError::RowCount.kind(), ErrorKind::RowCount);
}

#[test]
fn response_buffer_preserves_order() {
    let mut buf = ResponseBuffer::new();
    assert!(buf.is_exhausted());
    assert!(buf.take_next().is_none());
    buf.refill(vec![BackendMessage::ParseComplete, BackendMessage::ReadyForQuery]);
    assert!(matches!(buf.take_next(), Some(BackendMessage::ParseComplete)));
    assert!(matches!(buf.take_next(), Some(BackendMessage::ReadyForQuery)));
    assert!(buf.take_next().is_none());
}
