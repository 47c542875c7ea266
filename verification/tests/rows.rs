//! Row construction and column indexing.

use pg_exec::error::ErrorKind;
use pg_exec::pgtype::PgType;
use pg_exec::row::Row;
use pg_exec::statement::{Column, Statement};

fn two_col_statement() -> Statement {
    Statement::new(
        Vec::new(),
        Vec::new(),
        vec![
            Column {
                name: b"Alpha".to_vec(),
                table_oid: None,
                column_id: None,
                ty: PgType::new(23),
            },
            Column {
                name: b"beta".to_vec(),
                table_oid: Some(5),
                column_id: Some(1),
                ty: PgType::new(25),
            },
        ],
    )
}

/// One row of two fields: `[0,0,0,7]` and SQL NULL.
fn payload_two_fields() -> Vec<u8> {
    let mut p = vec![0u8, 0, 0, 4, 0, 0, 0, 7];
    p.extend_from_slice(&[0xFF, 0xFF, 0xFF, 0xFF]);
    p
}

#[test]
fn row_parses_ranges_and_nulls() {
    let row = Row::new(two_col_statement(), 2, payload_two_fields()).unwrap();
    assert_eq!(row.len(), 2);
    assert!(!row.is_empty());
    assert_eq!(row.try_get(0usize).unwrap(), Some(vec![0, 0, 0, 7]));
    assert_eq!(row.try_get(1usize).unwrap(), None);
}

#[test]
fn row_get_by_index_in_bounds_never_fails() {
    let row = Row::new(two_col_statement(), 2, payload_two_fields()).unwrap();
    for i in 0..row.len() {
        assert!(row.try_get(i).is_ok());
    }
}

#[test]
fn row_get_by_exact_name() {
    let row = Row::new(two_col_statement(), 2, payload_two_fields()).unwrap();
    assert_eq!(row.try_get("Alpha").unwrap(), Some(vec![0, 0, 0, 7]));
    assert_eq!(row.try_get("beta").unwrap(), None);
}

#[test]
fn row_get_by_case_insensitive_name() {
    let row = Row::new(two_col_statement(), 2, payload_two_fields()).unwrap();
    assert_eq!(row.try_get("ALPHA").unwrap(), Some(vec![0, 0, 0, 7]));
    assert_eq!(row.try_get("BETA").unwrap(), None);
}

/// An exact match wins over an earlier case-insensitive one.
#[test]
fn exact_match_beats_earlier_loose_match() {
    let stmt = Statement::new(
        Vec::new(),
        Vec::new(),
        vec![
            Column { name: b"N".to_vec(), table_oid: None, column_id: None, ty: PgType::new(23) },
            Column { name: b"n".to_vec(), table_oid: None, column_id: None, ty: PgType::new(25) },
        ],
    );
    let mut payload = vec![0u8, 0, 0, 1, 1];
    payload.extend_from_slice(&[0, 0, 0, 1, 2]);
    let row = Row::new(stmt, 2, payload).unwrap();
    // "n" matches the second column exactly, though "N" matches loosely first
    assert_eq!(row.try_get("n").unwrap(), Some(vec![2]));
    assert_eq!(row.try_get("N").unwrap(), Some(vec![1]));
}

#[test]
fn unknown_name_is_column_error() {
    let row = Row::new(two_col_statement(), 2, payload_two_fields()).unwrap();
    let err = row.try_get("gamma").unwrap_err();
    assert_eq!(err.kind(), ErrorKind::Column);
}

#[test]
fn out_of_bounds_index_is_column_error() {
    let row = Row::new(two_col_statement(), 2, payload_two_fields()).unwrap();
    let err = row.try_get(2usize).unwrap_err();
    assert_eq!(err.kind(), ErrorKind::Column);
}

#[test]
fn field_count_mismatch_is_parse_error() {
    // one field in the payload, two columns declared
    let err = Row::new(two_col_statement(), 1, vec![0, 0, 0, 1, 9]).unwrap_err();
    assert_eq!(err.kind(), ErrorKind::Parse);
}

#[test]
fn truncated_payload_is_parse_error() {
    let err = Row::new(two_col_statement(), 2, vec![0, 0, 0, 9, 1]).unwrap_err();
    assert_eq!(err.kind(), ErrorKind::Parse);
}

#[test]
fn trailing_bytes_are_parse_error() {
    let mut p = payload_two_fields();
    p.push(0);
    let err = Row::new(two_col_statement(), 2, p).unwrap_err();
    assert_eq!(err.kind(), ErrorKind::Parse);
}

#[test]
fn columns_expose_metadata() {
    let row = Row::new(two_col_statement(), 2, payload_two_fields()).unwrap();
    let cols = row.columns();
    assert_eq!(cols[0].name(), &b"Alpha".to_vec());
    assert_eq!(cols[0].table_oid(), None);
    assert_eq!(cols[0].column_id(), None);
    assert_eq!(cols[0].type_().oid(), 23);
    assert_eq!(cols[1].table_oid(), Some(5));
    assert_eq!(cols[1].column_id(), Some(1));
    assert_eq!(cols[1].type_().oid(), 25);
}
