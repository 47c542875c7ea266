//! Arena-qualified execution against its heap-based twin.

use pg_exec::arena::run_query_in;
use pg_exec::message::{BackendMessage, FieldDesc};
use pg_exec::prepare::run_prepare;
use pg_exec::query::run_query;
use pg_exec::statement::{statement_name, Statement};

fn prepared() -> Statement {
    run_prepare(
        statement_name(20),
        vec![
            BackendMessage::ParseComplete,
            BackendMessage::ParameterDescription(vec![23]),
            BackendMessage::RowDescription(vec![
                FieldDesc { name: b"a".to_vec(), table_oid: 0, column_id: 0, type_oid: 23 },
                FieldDesc { name: b"b".to_vec(), table_oid: 0, column_id: 0, type_oid: 25 },
            ]),
        ],
    )
    .unwrap()
}

fn reply() -> Vec<BackendMessage> {
    let mut row1 = vec![0u8, 0, 0, 4, 0, 0, 0, 7];
    row1.extend_from_slice(&[0, 0, 0, 2, 104, 105]);
    let mut row2 = vec![0u8, 0, 0, 4, 0, 0, 0, 9];
    row2.extend_from_slice(&[0xFF, 0xFF, 0xFF, 0xFF]);
    vec![
        BackendMessage::BindComplete,
        BackendMessage::DataRow { field_count: 2, payload: row1 },
        BackendMessage::DataRow { field_count: 2, payload: row2 },
        BackendMessage::CommandComplete(b"SELECT 2".to_vec()),
        BackendMessage::ReadyForQuery,
    ]
}

/// The arena-qualified and the heap-based execution of the same reply
/// produce row sequences that compare equal column by column.
#[test]
fn arena_and_heap_rows_agree() {
    let heap_rows = run_query(prepared(), reply()).unwrap();

    let bump = bumpalo::Bump::new();
    let arena_rows = run_query_in(&bump, prepared(), reply()).unwrap();

    assert_eq!(heap_rows.len(), arena_rows.len());
    for (h, a) in heap_rows.iter().zip(arena_rows.iter()) {
        assert_eq!(h.len(), a.len());
        for k in 0..h.len() {
            assert_eq!(h.try_get(k).unwrap(), a.try_get(k).unwrap());
        }
    }
    assert_eq!(heap_rows[0].try_get(0usize).unwrap(), Some(vec![0, 0, 0, 7]));
    assert_eq!(heap_rows[1].try_get(1usize).unwrap(), None);
}

/// The arena path reports the same errors as the heap path.
#[test]
fn arena_and_heap_errors_agree() {
    let bump = bumpalo::Bump::new();
    let heap_err = run_query(prepared(), Vec::new()).unwrap_err();
    let arena_err = run_query_in(&bump, prepared(), Vec::new()).unwrap_err();
    assert_eq!(heap_err.kind(), arena_err.kind());
}
