//! End-to-end exchanges: prepare, execute, and the collecting callers,
//! driven with decoded backend messages.

use pg_exec::error::ErrorKind;
use pg_exec::message::{BackendMessage, FieldDesc, ParamValue};
use pg_exec::pgtype::PgType;
use pg_exec::prepare::{encode_prepare, run_prepare};
use pg_exec::query::{
    encode_execute, run_execute, run_query, run_query_one, run_query_opt, run_query_typed, RowStep,
    RowStream,
};
use pg_exec::statement::{statement_name, Statement};

fn int4_field(name: &[u8]) -> FieldDesc {
    FieldDesc { name: name.to_vec(), table_oid: 0, column_id: 0, type_oid: 23 }
}

fn data_row_int4(v: i32) -> BackendMessage {
    let mut payload = vec![0u8, 0, 0, 4];
    payload.extend_from_slice(&v.to_be_bytes());
    BackendMessage::DataRow { field_count: 1, payload }
}

fn prepared_select_n() -> Statement {
    let name = statement_name(0);
    let msgs = vec![
        BackendMessage::ParseComplete,
        BackendMessage::ParameterDescription(vec![23]),
        BackendMessage::RowDescription(vec![int4_field(b"n")]),
    ];
    run_prepare(name, msgs).unwrap()
}

/// Preparing `"SELECT $1::int4 AS n"`, executing it with the value 7, and
/// reading the reply yields one row whose column `n` holds 7; the
/// affected-row count of the `SELECT` is zero.
#[test]
fn select_int4_round_trip() {
    let stmt = prepared_select_n();
    assert_eq!(stmt.name(), &b"s0".to_vec());
    assert_eq!(stmt.params().len(), 1);
    assert_eq!(stmt.params()[0].oid(), 23);
    assert_eq!(stmt.columns().len(), 1);
    assert_eq!(stmt.columns()[0].name(), &b"n".to_vec());

    // the request buffers encode without error
    let params = vec![ParamValue { format: 1, data: Some(7i32.to_be_bytes().to_vec()) }];
    assert!(encode_prepare(&b"s0".to_vec(), "SELECT $1::int4 AS n", &vec![PgType::new(23)])
        .is_ok());
    assert!(encode_execute(&stmt, &params).is_ok());

    let reply = vec![
        BackendMessage::BindComplete,
        data_row_int4(7),
        BackendMessage::CommandComplete(b"SELECT".to_vec()),
        BackendMessage::ReadyForQuery,
    ];
    let rows = run_query(stmt, reply).unwrap();
    assert_eq!(rows.len(), 1);
    assert_eq!(rows[0].try_get("n").unwrap(), Some(vec![0, 0, 0, 7]));

    let exec_reply = vec![
        BackendMessage::BindComplete,
        data_row_int4(7),
        BackendMessage::CommandComplete(b"SELECT".to_vec()),
        BackendMessage::ReadyForQuery,
    ];
    assert_eq!(run_execute(exec_reply).unwrap(), 0);
}

/// A `DELETE` bound to a matching id affects one row; bound to a
/// non-matching id it affects none.
#[test]
fn delete_affected_counts() {
    let matched = vec![
        BackendMessage::BindComplete,
        BackendMessage::CommandComplete(b"DELETE 1".to_vec()),
        BackendMessage::ReadyForQuery,
    ];
    assert_eq!(run_execute(matched).unwrap(), 1);

    let unmatched = vec![
        BackendMessage::BindComplete,
        BackendMessage::CommandComplete(b"DELETE 0".to_vec()),
        BackendMessage::ReadyForQuery,
    ];
    assert_eq!(run_execute(unmatched).unwrap(), 0);
}

/// A parameter list of the wrong length fails with a parameter-count error
/// before anything is encoded.
#[test]
fn parameter_count_mismatch_fails_before_encoding() {
    let stmt = prepared_select_n();
    let err = encode_execute(&stmt, &Vec::new()).unwrap_err();
    assert!(matches!(err, pg_exec::error::PgError::Parameters { expected: 1, actual: 0 }));

    let two = vec![
        ParamValue { format: 1, data: Some(vec![0, 0, 0, 1]) },
        ParamValue { format: 1, data: Some(vec![0, 0, 0, 2]) },
    ];
    let err = encode_execute(&stmt, &two).unwrap_err();
    assert!(matches!(err, pg_exec::error::PgError::Parameters { expected: 1, actual: 2 }));
}

fn opt_reply_with_rows(n: usize) -> Vec<BackendMessage> {
    let mut msgs = vec![BackendMessage::BindComplete];
    for i in 0..n {
        msgs.push(data_row_int4(i as i32));
    }
    msgs.push(BackendMessage::CommandComplete(b"SELECT".to_vec()));
    msgs.push(BackendMessage::ReadyForQuery);
    msgs
}

/// At most one row: zero rows yield the empty result, one row yields that
/// row, and two rows are a row-count error.
#[test]
fn query_opt_cardinality() {
    let stmt = prepared_select_n();
    assert!(run_query_opt(stmt, opt_reply_with_rows(0)).unwrap().is_none());

    let stmt = prepared_select_n();
    let row = run_query_opt(stmt, opt_reply_with_rows(1)).unwrap().unwrap();
    assert_eq!(row.try_get("n").unwrap(), Some(vec![0, 0, 0, 0]));

    let stmt = prepared_select_n();
    let err = run_query_opt(stmt, opt_reply_with_rows(2)).unwrap_err();
    assert_eq!(err.kind(), ErrorKind::RowCount);
}

/// Exactly one row: zero rows are a row-count error too.
#[test]
fn query_one_cardinality() {
    let stmt = prepared_select_n();
    let err = run_query_one(stmt, opt_reply_with_rows(0)).unwrap_err();
    assert_eq!(err.kind(), ErrorKind::RowCount);

    let stmt = prepared_select_n();
    let row = run_query_one(stmt, opt_reply_with_rows(1)).unwrap();
    assert_eq!(row.len(), 1);

    let stmt = prepared_select_n();
    let err = run_query_one(stmt, opt_reply_with_rows(2)).unwrap_err();
    assert_eq!(err.kind(), ErrorKind::RowCount);
}

/// The typed path synthesizes an unnamed statement from the reply's
/// `RowDescription` and yields the same rows.
#[test]
fn typed_path_yields_rows() {
    let reply = vec![
        BackendMessage::ParseComplete,
        BackendMessage::BindComplete,
        BackendMessage::ParameterDescription(vec![23]),
        BackendMessage::RowDescription(vec![int4_field(b"n")]),
        data_row_int4(7),
        BackendMessage::CommandComplete(b"SELECT 1".to_vec()),
        BackendMessage::ReadyForQuery,
    ];
    let rows = run_query_typed(reply).unwrap();
    assert_eq!(rows.len(), 1);
    assert_eq!(rows[0].statement.name(), &Vec::new());
    assert_eq!(rows[0].try_get("n").unwrap(), Some(vec![0, 0, 0, 7]));
}

/// A typed reply whose shape is `NoData` yields no rows.
#[test]
fn typed_path_no_data() {
    let reply = vec![
        BackendMessage::ParseComplete,
        BackendMessage::BindComplete,
        BackendMessage::NoData,
        BackendMessage::CommandComplete(b"CREATE TABLE".to_vec()),
        BackendMessage::ReadyForQuery,
    ];
    let rows = run_query_typed(reply).unwrap();
    assert!(rows.is_empty());
}

/// A server error terminates the operation with the server's own error.
#[test]
fn error_response_becomes_database_error() {
    let stmt = prepared_select_n();
    let reply = vec![
        BackendMessage::BindComplete,
        BackendMessage::ErrorResponse(b"SFATAL".to_vec()),
    ];
    let err = run_query(stmt, reply).unwrap_err();
    assert!(matches!(err, pg_exec::error::PgError::Database(b) if b == b"SFATAL".to_vec()));
}

/// An out-of-order message is a protocol error.
#[test]
fn out_of_order_message_is_unexpected() {
    let stmt = prepared_select_n();
    let reply = vec![BackendMessage::ParseComplete];
    let err = run_query(stmt, reply).unwrap_err();
    assert_eq!(err.kind(), ErrorKind::UnexpectedMessage);

    let err = run_prepare(statement_name(9), vec![BackendMessage::BindComplete]).unwrap_err();
    assert_eq!(err.kind(), ErrorKind::UnexpectedMessage);
}

/// A reply that ends before its terminal message means the connection is
/// gone.
#[test]
fn truncated_reply_is_closed() {
    let stmt = prepared_select_n();
    let err = run_query(stmt, vec![BackendMessage::BindComplete]).unwrap_err();
    assert_eq!(err.kind(), ErrorKind::Closed);

    let err = run_prepare(statement_name(10), Vec::new()).unwrap_err();
    assert_eq!(err.kind(), ErrorKind::Closed);
}

/// A malformed `DataRow` fails the stream with a parse error.
#[test]
fn malformed_data_row_is_parse_error() {
    let stmt = prepared_select_n();
    let reply = vec![
        BackendMessage::BindComplete,
        BackendMessage::DataRow { field_count: 1, payload: vec![0, 0, 0, 9, 1] },
    ];
    let err = run_query(stmt, reply).unwrap_err();
    assert_eq!(err.kind(), ErrorKind::Parse);
}

/// Preparing a row-less statement via `NoData` yields a column-less
/// statement.
#[test]
fn prepare_no_data() {
    let stmt = run_prepare(
        statement_name(3),
        vec![
            BackendMessage::ParseComplete,
            BackendMessage::ParameterDescription(Vec::new()),
            BackendMessage::NoData,
        ],
    )
    .unwrap();
    assert_eq!(stmt.name(), &b"s3".to_vec());
    assert!(stmt.params().is_empty());
    assert!(stmt.columns().is_empty());
}

/// Zero table OIDs and column ordinals are normalized to "not available",
/// while real ones are kept.
#[test]
fn prepare_normalizes_zero_identifiers() {
    let stmt = run_prepare(
        statement_name(4),
        vec![
            BackendMessage::ParseComplete,
            BackendMessage::ParameterDescription(Vec::new()),
            BackendMessage::RowDescription(vec![
                FieldDesc { name: b"a".to_vec(), table_oid: 0, column_id: 0, type_oid: 23 },
                FieldDesc { name: b"b".to_vec(), table_oid: 99, column_id: 2, type_oid: 25 },
            ]),
        ],
    )
    .unwrap();
    assert_eq!(stmt.columns()[0].table_oid(), None);
    assert_eq!(stmt.columns()[0].column_id(), None);
    assert_eq!(stmt.columns()[1].table_oid(), Some(99));
    assert_eq!(stmt.columns()[1].column_id(), Some(2));
}

/// `PortalSuspended` is tolerated by the row stream but is a protocol error
/// for an `execute` call.
#[test]
fn portal_suspended_tolerated_only_by_row_stream() {
    let stmt = prepared_select_n();
    let reply = vec![
        BackendMessage::BindComplete,
        BackendMessage::PortalSuspended,
        BackendMessage::ReadyForQuery,
    ];
    assert!(run_query(stmt, reply).unwrap().is_empty());

    let reply = vec![
        BackendMessage::BindComplete,
        BackendMessage::PortalSuspended,
        BackendMessage::ReadyForQuery,
    ];
    let err = run_execute(reply).unwrap_err();
    assert_eq!(err.kind(), ErrorKind::UnexpectedMessage);
}

/// An `EmptyQueryResponse` resets the affected-row count of an `execute`.
#[test]
fn empty_query_resets_execute_count() {
    let reply = vec![
        BackendMessage::BindComplete,
        BackendMessage::CommandComplete(b"UPDATE 4".to_vec()),
        BackendMessage::EmptyQueryResponse,
        BackendMessage::ReadyForQuery,
    ];
    assert_eq!(run_execute(reply).unwrap(), 0);
}

/// The raw row stream yields rows one message at a time and reports the
/// affected-row count only once it has been exhausted.
#[test]
fn row_stream_machine_reports_rows_affected() {
    let mut stream = RowStream::new(prepared_select_n());
    assert_eq!(stream.rows_affected(), None);
    assert!(matches!(stream.on_message(data_row_int4(7)), RowStep::Row(_)));
    assert!(matches!(
        stream.on_message(BackendMessage::CommandComplete(b"SELECT 1".to_vec())),
        RowStep::Skip
    ));
    assert_eq!(stream.rows_affected(), Some(1));
    assert!(matches!(stream.on_message(BackendMessage::ReadyForQuery), RowStep::Finished));
    assert_eq!(stream.rows_affected(), Some(1));
}
