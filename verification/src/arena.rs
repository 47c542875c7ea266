//! Arena-qualified execution: the same decoding logic, with the collected
//! rows carved from a caller-owned bump allocator whose lifetime spans the
//! query.

use vstd::prelude::*;

use crate::error::PgError;
use crate::message::BackendMessage;
use crate::query::{query_reply_err, query_reply_ok, rows_match, run_query, stream_rows};
use crate::row::Row;
use crate::statement::Statement;

verus! {

/// Declares `bumpalo::Bump`, the caller-owned allocation region; the engine
/// only carries references to it into its trusted allocation wrapper.
#[verifier::external_type_specification]
#[verifier::external_body]
pub struct ExBump<const MIN_ALIGN: usize>(bumpalo::Bump<MIN_ALIGN>);

/// Relies on `bumpalo::Bump::alloc_slice_fill_iter`: moves the rows into
/// the caller's arena, preserving their number, order and contents.
#[verifier::external_body]
fn arena_slice<'a>(arena: &'a bumpalo::Bump, rows: Vec<Row>) -> (r: &'a [Row])
    ensures
        r@ == rows@,
{
    arena.alloc_slice_fill_iter(rows)
}

/// The arena-qualified twin of [`run_query`]: it consumes the same reply
/// the same way, and places the collected rows in the caller's arena.
pub fn run_query_in<'a>(
    arena: &'a bumpalo::Bump,
    statement: Statement,
    msgs: Vec<BackendMessage>,
) -> (r: Result<&'a [Row], PgError>)
    ensures
        r is Ok <==> query_reply_ok(statement, msgs@),
        r is Ok ==> rows_match(statement, r->Ok_0@, stream_rows(msgs@.drop_first())),
        r is Err ==> r->Err_0 == query_reply_err(statement, msgs@),
{
    match run_query(statement, msgs) {
        Ok(rows) => Ok(arena_slice(arena, rows)),
        Err(e) => Err(e),
    }
}

/// The arena-qualified twin of [`crate::query::run_query_typed`]: the same
/// reply consumed the same way, with the rows placed in the caller's arena.
pub fn run_query_typed_in<'a>(arena: &'a bumpalo::Bump, msgs: Vec<BackendMessage>) -> (r: Result<
    &'a [Row],
    PgError,
>)
    ensures
        r is Ok <==> crate::query::typed_ok(msgs@),
        r is Ok ==> crate::query::typed_rows_match(
            r->Ok_0@,
            crate::query::typed_fields(msgs@),
            crate::query::typed_rows(msgs@),
        ),
        r is Err ==> r->Err_0 == crate::query::typed_err(msgs@),
{
    match crate::query::run_query_typed(msgs) {
        Ok(rows) => Ok(arena_slice(arena, rows)),
        Err(e) => Err(e),
    }
}

/// Arena-qualified and heap-based executions of one reply yield row
/// sequences that compare equal column by column: the same number of rows,
/// and in every row the same number of columns, each holding the same
/// value.
pub proof fn lemma_arena_heap_agreement(
    s: Statement,
    msgs: Seq<BackendMessage>,
    heap: Seq<Row>,
    arena: Seq<Row>,
)
    requires
        rows_match(s, heap, stream_rows(msgs)),
        rows_match(s, arena, stream_rows(msgs)),
    ensures
        heap.len() == arena.len(),
        forall|i: int|
            0 <= i < heap.len() ==> (#[trigger] heap[i]).ranges@.len() == (
            #[trigger] arena[i]).ranges@.len(),
        forall|i: int, k: int|
            0 <= i < heap.len() && 0 <= k < heap[i].ranges@.len() ==> (
            #[trigger] heap[i].spec_value_at(k)) == (#[trigger] arena[i].spec_value_at(k)),
{
    assert forall|i: int|
        0 <= i < heap.len() implies (#[trigger] heap[i]).ranges@.len() == (
    #[trigger] arena[i]).ranges@.len() by {
        let (c, p) = stream_rows(msgs)[i];
        assert(crate::row::row_matches(s, heap[i], c, p));
        assert(crate::row::row_matches(s, arena[i], c, p));
        assert(crate::row::ranges_view(heap[i].ranges@) == crate::row::ranges_view(
            arena[i].ranges@,
        ));
    }
    assert forall|i: int, k: int|
        0 <= i < heap.len() && 0 <= k < heap[i].ranges@.len() implies (
    #[trigger] heap[i].spec_value_at(k)) == (#[trigger] arena[i].spec_value_at(k)) by {
        let (c, p) = stream_rows(msgs)[i];
        assert(crate::row::row_matches(s, heap[i], c, p));
        assert(crate::row::row_matches(s, arena[i], c, p));
        assert(crate::row::ranges_view(heap[i].ranges@) == crate::row::ranges_view(
            arena[i].ranges@,
        ));
        assert(crate::row::ranges_view(heap[i].ranges@)[k] == crate::row::ranges_view(
            arena[i].ranges@,
        )[k]);
        assert(heap[i].payload@ == arena[i].payload@);
    }
}

} // verus!
