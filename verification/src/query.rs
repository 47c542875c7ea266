//! The query executor: encoding `Bind`/`Execute`/`Sync` for a prepared
//! statement, and reading the backend's reply stream into rows or an
//! affected-row count.
//!
//! The reply side is a pair of state machines fed one decoded message at a
//! time, so any transport can drive them; on top of them stand drivers that
//! consume a whole reply sequence, as the collecting callers do.

use vstd::prelude::*;
use vstd::string::StringSliceAdditionalSpecFns;

use crate::command_tag::{extract_row_affected, tag_rows};
use crate::error::PgError;
use crate::frames::{
    bind_encodable, bind_frame, execute_frame, frame_bind, frame_execute, frame_sync, param_datas,
    param_formats, sync_frame,
};
use crate::message::{BackendMessage, ParamValue};
use crate::row::{row_decodable, row_matches, Row};
use crate::statement::{stmt_eq, Statement};
use crate::wire::ascii_no_nul;

verus! {

/// Where a reply stream stands: still yielding messages, cleanly finished,
/// or terminated by an error.
#[derive(Clone, Copy, Debug, PartialEq, Eq, Structural)]
pub enum StreamState {
    Streaming,
    Done,
    Failed,
}

/// What one backend message meant to a row stream.
#[derive(Debug)]
pub enum RowStep {
    /// The message carried this row.
    Row(Row),
    /// The message carried no row; keep feeding the stream.
    Skip,
    /// The stream is complete; feeding it further is undefined.
    Finished,
    /// The stream failed; feeding it further is undefined.
    Fail(PgError),
}

/// A stream of table rows: the decoding half of one query execution.
///
/// Feed it each backend message that arrives after the leading
/// `BindComplete`; it yields one [`Row`] per `DataRow`, tracks the
/// affected-row count, and finishes at `ReadyForQuery`.
#[derive(Debug)]
pub struct RowStream {
    /// The statement whose execution this stream reads.
    pub statement: Statement,
    /// The last affected-row count seen, authoritative only once the stream
    /// has finished.
    pub rows_affected: Option<u64>,
    /// Where the stream stands.
    pub state: StreamState,
}

impl RowStream {
    /// Whether the stream still accepts messages.
    pub open spec fn live(&self) -> bool {
        self.state is Streaming
    }

    /// Starts the stream for one execution of `statement`.
    pub fn new(statement: Statement) -> (r: RowStream)
        ensures
            r.statement == statement,
            r.rows_affected is None,
            r.live(),
    {
        RowStream { statement, rows_affected: None, state: StreamState::Streaming }
    }

    /// Returns the number of rows affected by the query, `None` until the
    /// stream has been exhausted.
    pub fn rows_affected(&self) -> (r: Option<u64>)
        ensures
            r == self.rows_affected,
    {
        self.rows_affected
    }

    /// Consumes one backend message: a `DataRow` yields a row;
    /// `CommandComplete` updates the affected-row count; `ReadyForQuery`
    /// finishes the stream; `EmptyQueryResponse` and `PortalSuspended` are
    /// no-ops; an `ErrorResponse` fails the stream with the server's error,
    /// and any other message is a protocol error.
    pub fn on_message(&mut self, m: BackendMessage) -> (r: RowStep)
        requires
            old(self).live(),
        ensures
            stmt_eq(final(self).statement, old(self).statement),
            match m {
                BackendMessage::DataRow { field_count, payload } => {
                    if row_decodable(old(self).statement, field_count, payload@) {
                        &&& r matches RowStep::Row(row) && row_matches(
                            old(self).statement,
                            row,
                            field_count,
                            payload@,
                        )
                        &&& final(self).live()
                        &&& final(self).rows_affected == old(self).rows_affected
                    } else {
                        &&& r matches RowStep::Fail(e) && e is Parse
                        &&& final(self).state is Failed
                    }
                },
                BackendMessage::CommandComplete(tag) => {
                    &&& r is Skip
                    &&& final(self).live()
                    &&& final(self).rows_affected == Some(tag_rows(tag@))
                },
                BackendMessage::EmptyQueryResponse | BackendMessage::PortalSuspended => {
                    &&& r is Skip
                    &&& final(self).live()
                    &&& final(self).rows_affected == old(self).rows_affected
                },
                BackendMessage::ReadyForQuery => {
                    &&& r is Finished
                    &&& final(self).state is Done
                    &&& final(self).rows_affected == old(self).rows_affected
                },
                BackendMessage::ErrorResponse(fields) => {
                    &&& r matches RowStep::Fail(e) && e == PgError::Database(fields)
                    &&& final(self).state is Failed
                },
                _ => {
                    &&& r matches RowStep::Fail(e) && e is UnexpectedMessage
                    &&& final(self).state is Failed
                },
            },
    {
        match m {
            BackendMessage::DataRow { field_count, payload } => {
                let dup = self.statement.duplicate();
                match Row::new(dup, field_count, payload) {
                    Ok(row) => RowStep::Row(row),
                    Err(e) => {
                        self.state = StreamState::Failed;
                        RowStep::Fail(e)
                    },
                }
            },
            BackendMessage::CommandComplete(tag) => {
                self.rows_affected = Some(extract_row_affected(&tag));
                RowStep::Skip
            },
            BackendMessage::EmptyQueryResponse | BackendMessage::PortalSuspended => RowStep::Skip,
            BackendMessage::ReadyForQuery => {
                self.state = StreamState::Done;
                RowStep::Finished
            },
            BackendMessage::ErrorResponse(fields) => {
                self.state = StreamState::Failed;
                RowStep::Fail(PgError::Database(fields))
            },
            _ => {
                self.state = StreamState::Failed;
                RowStep::Fail(PgError::UnexpectedMessage)
            },
        }
    }
}

/// What one backend message meant to an execution that only counts rows.
#[derive(Debug)]
pub enum ExecStep {
    /// Keep feeding the flow.
    Continue,
    /// The execution completed, affecting this many rows.
    Finished(u64),
    /// The execution failed; feeding it further is undefined.
    Fail(PgError),
}

/// The decoding half of an `execute` call: it discards rows and keeps only
/// the affected-row count.
#[derive(Debug)]
pub struct ExecuteFlow {
    /// The affected-row count accumulated so far.
    pub rows: u64,
    /// Where the flow stands.
    pub state: StreamState,
}

impl ExecuteFlow {
    /// Whether the flow still accepts messages.
    pub open spec fn live(&self) -> bool {
        self.state is Streaming
    }

    /// Starts the flow; the count starts at zero for statements that modify
    /// no rows.
    pub fn new() -> (r: ExecuteFlow)
        ensures
            r.rows == 0,
            r.live(),
    {
        ExecuteFlow { rows: 0, state: StreamState::Streaming }
    }

    /// Consumes one backend message: `CommandComplete` sets the count from
    /// its tag, `EmptyQueryResponse` resets it, `DataRow` is discarded, and
    /// `ReadyForQuery` finishes the execution with the accumulated count.
    pub fn on_message(&mut self, m: BackendMessage) -> (r: ExecStep)
        requires
            old(self).live(),
        ensures
            match m {
                BackendMessage::DataRow { .. } => {
                    &&& r is Continue
                    &&& final(self).live()
                    &&& final(self).rows == old(self).rows
                },
                BackendMessage::CommandComplete(tag) => {
                    &&& r is Continue
                    &&& final(self).live()
                    &&& final(self).rows == tag_rows(tag@)
                },
                BackendMessage::EmptyQueryResponse => {
                    &&& r is Continue
                    &&& final(self).live()
                    &&& final(self).rows == 0
                },
                BackendMessage::ReadyForQuery => {
                    &&& r matches ExecStep::Finished(n) && n == old(self).rows
                    &&& final(self).state is Done
                },
                BackendMessage::ErrorResponse(fields) => {
                    &&& r matches ExecStep::Fail(e) && e == PgError::Database(fields)
                    &&& final(self).state is Failed
                },
                _ => {
                    &&& r matches ExecStep::Fail(e) && e is UnexpectedMessage
                    &&& final(self).state is Failed
                },
            },
    {
        match m {
            BackendMessage::DataRow { .. } => ExecStep::Continue,
            BackendMessage::CommandComplete(tag) => {
                self.rows = extract_row_affected(&tag);
                ExecStep::Continue
            },
            BackendMessage::EmptyQueryResponse => {
                self.rows = 0;
                ExecStep::Continue
            },
            BackendMessage::ReadyForQuery => {
                self.state = StreamState::Done;
                ExecStep::Finished(self.rows)
            },
            BackendMessage::ErrorResponse(fields) => {
                self.state = StreamState::Failed;
                ExecStep::Fail(PgError::Database(fields))
            },
            _ => {
                self.state = StreamState::Failed;
                ExecStep::Fail(PgError::UnexpectedMessage)
            },
        }
    }
}

/// Whether a `DataRow` with the given field count and payload decodes as a
/// row of `ncols` columns.
pub open spec fn data_row_ok(ncols: nat, field_count: u16, payload: Seq<u8>) -> bool {
    &&& crate::row::spec_parse_ranges(payload, 0, field_count as nat) is Some
    &&& field_count as nat == ncols
}

/// Whether a reply sequence after `BindComplete` is a clean row stream over
/// `ncols` columns: every message is one a row stream accepts, every
/// `DataRow` decodes against the column count, and a `ReadyForQuery` ends
/// it.
pub open spec fn stream_ok(ncols: nat, msgs: Seq<BackendMessage>) -> bool
    decreases msgs.len(),
{
    if msgs.len() == 0 {
        false
    } else {
        match msgs[0] {
            BackendMessage::ReadyForQuery => true,
            BackendMessage::DataRow { field_count, payload } => data_row_ok(
                ncols,
                field_count,
                payload@,
            ) && stream_ok(ncols, msgs.drop_first()),
            BackendMessage::CommandComplete(_) => stream_ok(ncols, msgs.drop_first()),
            BackendMessage::EmptyQueryResponse | BackendMessage::PortalSuspended => stream_ok(
                ncols,
                msgs.drop_first(),
            ),
            _ => false,
        }
    }
}

/// The error a row stream reports for a reply sequence that is not clean:
/// its first failure, or `Closed` when the sequence simply ends.
pub open spec fn stream_err(ncols: nat, msgs: Seq<BackendMessage>) -> PgError
    decreases msgs.len(),
{
    if msgs.len() == 0 {
        PgError::Closed
    } else {
        match msgs[0] {
            BackendMessage::ReadyForQuery => PgError::Closed,
            BackendMessage::DataRow { field_count, payload } => if !data_row_ok(
                ncols,
                field_count,
                payload@,
            ) {
                PgError::Parse
            } else {
                stream_err(ncols, msgs.drop_first())
            },
            BackendMessage::CommandComplete(_) => stream_err(ncols, msgs.drop_first()),
            BackendMessage::EmptyQueryResponse | BackendMessage::PortalSuspended => stream_err(
                ncols,
                msgs.drop_first(),
            ),
            BackendMessage::ErrorResponse(fields) => PgError::Database(fields),
            _ => PgError::UnexpectedMessage,
        }
    }
}

/// The `DataRow` contents of a reply sequence, in order, up to its first
/// `ReadyForQuery`.
pub open spec fn stream_rows(msgs: Seq<BackendMessage>) -> Seq<(u16, Seq<u8>)>
    decreases msgs.len(),
{
    if msgs.len() == 0 {
        Seq::empty()
    } else {
        match msgs[0] {
            BackendMessage::ReadyForQuery => Seq::empty(),
            BackendMessage::DataRow { field_count, payload } => seq![(field_count, payload@)]
                + stream_rows(msgs.drop_first()),
            _ => stream_rows(msgs.drop_first()),
        }
    }
}

/// The `DataRow` contents that a sequence of collected rows stands for.
pub open spec fn row_specs(rows: Seq<Row>) -> Seq<(u16, Seq<u8>)> {
    rows.map_values(|r: Row| (r.ranges@.len() as u16, r.payload@))
}

/// Whether each collected row is exactly the row its `DataRow` denotes.
pub open spec fn rows_match(s: Statement, rows: Seq<Row>, specs: Seq<(u16, Seq<u8>)>) -> bool {
    &&& rows.len() == specs.len()
    &&& forall|i: int|
        0 <= i < rows.len() ==> row_matches(
            s,
            #[trigger] rows[i],
            (#[trigger] specs[i]).0,
            specs[i].1,
        )
}

/// Whether a full reply sequence — the leading `BindComplete` included — is
/// a clean execution of `s`.
pub open spec fn query_reply_ok(s: Statement, msgs: Seq<BackendMessage>) -> bool {
    &&& msgs.len() > 0
    &&& msgs[0] is BindComplete
    &&& stream_ok(s.columns@.len(), msgs.drop_first())
}

/// The error reported for a full reply sequence that is not a clean
/// execution.
pub open spec fn query_reply_err(s: Statement, msgs: Seq<BackendMessage>) -> PgError {
    if msgs.len() == 0 {
        PgError::Closed
    } else {
        match msgs[0] {
            BackendMessage::BindComplete => stream_err(s.columns@.len(), msgs.drop_first()),
            BackendMessage::ErrorResponse(fields) => PgError::Database(fields),
            _ => PgError::UnexpectedMessage,
        }
    }
}

/// A matching row stands for its own `DataRow` contents.
proof fn lemma_row_spec_of_match(s: Statement, row: Row, field_count: u16, payload: Seq<u8>)
    requires
        row_matches(s, row, field_count, payload),
    ensures
        row.ranges@.len() as u16 == field_count,
        row.payload@ == payload,
{
    crate::row::lemma_parse_ranges_len(payload, 0, field_count as nat);
    assert(crate::row::ranges_view(row.ranges@).len() == row.ranges@.len());
}

/// Collects every row of one reply stream, from just after its leading
/// `BindComplete` to its `ReadyForQuery`.
pub fn collect_stream(stream: RowStream, msgs: Vec<BackendMessage>) -> (r: Result<
    Vec<Row>,
    PgError,
>)
    requires
        stream.live(),
    ensures
        r is Ok <==> stream_ok(stream.statement.columns@.len(), msgs@),
        r is Ok ==> rows_match(stream.statement, r->Ok_0@, stream_rows(msgs@)),
        r is Err ==> r->Err_0 == stream_err(stream.statement.columns@.len(), msgs@),
{
    let mut pending = msgs;
    let ghost tail = pending@;
    let ghost s = stream.statement;
    let mut st = stream;
    let mut rows: Vec<Row> = Vec::new();
    while pending.len() > 0
        invariant
            tail == msgs@,
            s == stream.statement,
            st.live(),
            stmt_eq(st.statement, s),
            s.columns@.len() == st.statement.columns@.len(),
            stream_ok(s.columns@.len(), tail) == stream_ok(s.columns@.len(), pending@),
            stream_err(s.columns@.len(), tail) == stream_err(s.columns@.len(), pending@),
            stream_rows(tail) == row_specs(rows@) + stream_rows(pending@),
            rows_match(s, rows@, row_specs(rows@)),
        decreases pending@.len(),
    {
        let ghost before = pending@;
        let m = pending.remove(0);
        proof {
            assert(before[0] == m);
            assert(before.drop_first() =~= pending@);
        }
        let ghost stmt_before = st.statement;
        let ghost mp = match &m {
            BackendMessage::DataRow { field_count, payload } => (*field_count, payload@),
            _ => (0u16, Seq::<u8>::empty()),
        };
        let step = st.on_message(m);
        proof {
            crate::statement::lemma_stmt_eq_trans(st.statement, stmt_before, s);
        }
        match step {
            RowStep::Row(row) => {
                proof {
                    let (c, p) = mp;
                    assert(row_matches(stmt_before, row, c, p));
                    crate::statement::lemma_stmt_eq_trans(row.statement, stmt_before, s);
                    assert(row_matches(s, row, c, p));
                    lemma_row_spec_of_match(s, row, c, p);
                    assert(row_specs(rows@.push(row)) =~= row_specs(rows@).push((c, p)));
                    assert(row_specs(rows@.push(row)) + stream_rows(pending@) =~= row_specs(rows@)
                        + (seq![(c, p)] + stream_rows(pending@)));
                }
                rows.push(row);
            },
            RowStep::Skip => {},
            RowStep::Finished => {
                proof {
                    assert(stream_rows(before) =~= Seq::<(u16, Seq<u8>)>::empty());
                    assert(stream_rows(tail) =~= row_specs(rows@));
                }
                return Ok(rows);
            },
            RowStep::Fail(e) => {
                return Err(e);
            },
        }
    }
    Err(PgError::Closed)
}

/// Consumes the whole reply to one execution and collects every row, as the
/// row-collecting caller does: the reply must open with `BindComplete`, and
/// the rows are exactly those the stream's `DataRow` messages denote.
pub fn run_query(statement: Statement, msgs: Vec<BackendMessage>) -> (r: Result<Vec<Row>, PgError>)
    ensures
        r is Ok <==> query_reply_ok(statement, msgs@),
        r is Ok ==> rows_match(statement, r->Ok_0@, stream_rows(msgs@.drop_first())),
        r is Err ==> r->Err_0 == query_reply_err(statement, msgs@),
{
    let mut pending = msgs;
    let ghost all = pending@;
    if pending.len() == 0 {
        return Err(PgError::Closed);
    }
    let first = pending.remove(0);
    match first {
        BackendMessage::BindComplete => {},
        BackendMessage::ErrorResponse(fields) => {
            return Err(PgError::Database(fields));
        },
        _ => {
            return Err(PgError::UnexpectedMessage);
        },
    }
    proof {
        assert(all.drop_first() =~= pending@);
    }
    collect_stream(RowStream::new(statement), pending)
}

/// The outcome of reading a whole row stream while insisting on at most one
/// row, having already seen `seen`: the stream is read to its end even after
/// a first row, so that a second row is always detected and reported as a
/// row-count error.
pub open spec fn opt_outcome(
    s: Statement,
    msgs: Seq<BackendMessage>,
    seen: Option<(u16, Seq<u8>)>,
) -> Result<Option<(u16, Seq<u8>)>, PgError>
    decreases msgs.len(),
{
    if msgs.len() == 0 {
        Err(PgError::Closed)
    } else {
        match msgs[0] {
            BackendMessage::ReadyForQuery => Ok(seen),
            BackendMessage::DataRow { field_count, payload } => if !data_row_ok(
                s.columns@.len(),
                field_count,
                payload@,
            ) {
                Err(PgError::Parse)
            } else if seen is Some {
                Err(PgError::RowCount)
            } else {
                opt_outcome(s, msgs.drop_first(), Some((field_count, payload@)))
            },
            BackendMessage::CommandComplete(_) | BackendMessage::EmptyQueryResponse
            | BackendMessage::PortalSuspended => opt_outcome(s, msgs.drop_first(), seen),
            BackendMessage::ErrorResponse(fields) => Err(PgError::Database(fields)),
            _ => Err(PgError::UnexpectedMessage),
        }
    }
}

/// The outcome of a whole at-most-one-row reply, the leading `BindComplete`
/// included.
pub open spec fn opt_reply(s: Statement, msgs: Seq<BackendMessage>) -> Result<
    Option<(u16, Seq<u8>)>,
    PgError,
> {
    if msgs.len() == 0 {
        Err(PgError::Closed)
    } else {
        match msgs[0] {
            BackendMessage::BindComplete => opt_outcome(s, msgs.drop_first(), None),
            BackendMessage::ErrorResponse(fields) => Err(PgError::Database(fields)),
            _ => Err(PgError::UnexpectedMessage),
        }
    }
}

/// Over a clean stream, the at-most-one-row read is decided by the row
/// count alone: zero rows yield the row already seen (none, at the start),
/// and any further row is a row-count error.
proof fn lemma_opt_outcome_rows(s: Statement, msgs: Seq<BackendMessage>, seen: Option<
    (u16, Seq<u8>),
>)
    requires
        stream_ok(s.columns@.len(), msgs),
    ensures
        opt_outcome(s, msgs, seen) == (match seen {
            Option::Some(x) => if stream_rows(msgs).len() == 0 {
                Ok::<_, PgError>(Option::Some(x))
            } else {
                Err::<Option<(u16, Seq<u8>)>, _>(PgError::RowCount)
            },
            Option::None => if stream_rows(msgs).len() == 0 {
                Ok::<_, PgError>(Option::<(u16, Seq<u8>)>::None)
            } else if stream_rows(msgs).len() == 1 {
                Ok::<_, PgError>(Option::Some(stream_rows(msgs)[0]))
            } else {
                Err::<Option<(u16, Seq<u8>)>, _>(PgError::RowCount)
            },
        }),
    decreases msgs.len(),
{
    if msgs.len() > 0 {
        match msgs[0] {
            BackendMessage::ReadyForQuery => {},
            BackendMessage::DataRow { field_count, payload } => {
                if seen is None {
                    lemma_opt_outcome_rows(
                        s,
                        msgs.drop_first(),
                        Some((field_count, payload@)),
                    );
                }
            },
            _ => {
                lemma_opt_outcome_rows(s, msgs.drop_first(), seen);
            },
        }
    }
}

/// Over a clean reply, an at-most-one-row read returns the empty result for
/// an empty result set, the single row of a one-row result set, and a
/// row-count error for a result set of two rows or more.
pub proof fn lemma_query_opt_cardinality(s: Statement, msgs: Seq<BackendMessage>)
    requires
        query_reply_ok(s, msgs),
    ensures
        stream_rows(msgs.drop_first()).len() == 0 ==> opt_reply(s, msgs) == Ok::<_, PgError>(
            Option::<(u16, Seq<u8>)>::None,
        ),
        stream_rows(msgs.drop_first()).len() == 1 ==> opt_reply(s, msgs) == Ok::<_, PgError>(
            Option::Some(stream_rows(msgs.drop_first())[0]),
        ),
        stream_rows(msgs.drop_first()).len() >= 2 ==> opt_reply(s, msgs) == Err::<
            Option<(u16, Seq<u8>)>,
            _,
        >(PgError::RowCount),
{
    lemma_opt_outcome_rows(s, msgs.drop_first(), None);
}

/// Consumes the whole reply to one execution while insisting on at most one
/// row: a second row is a row-count error, detected even though the first
/// had already been found, because the stream is read to its end.
pub fn run_query_opt(statement: Statement, msgs: Vec<BackendMessage>) -> (r: Result<
    Option<Row>,
    PgError,
>)
    ensures
        r is Ok <==> opt_reply(statement, msgs@) is Ok,
        r is Ok ==> match (r->Ok_0, opt_reply(statement, msgs@)->Ok_0) {
            (Option::Some(row), Option::Some(p)) => row_matches(statement, row, p.0, p.1),
            (Option::None, Option::None) => true,
            _ => false,
        },
        r is Err ==> r->Err_0 == opt_reply(statement, msgs@)->Err_0,
{
    let mut pending = msgs;
    let ghost all = pending@;
    if pending.len() == 0 {
        return Err(PgError::Closed);
    }
    let first_msg = pending.remove(0);
    match first_msg {
        BackendMessage::BindComplete => {},
        BackendMessage::ErrorResponse(fields) => {
            return Err(PgError::Database(fields));
        },
        _ => {
            return Err(PgError::UnexpectedMessage);
        },
    }
    let ghost tail = pending@;
    proof {
        assert(all.drop_first() =~= tail);
    }
    let ghost s = statement;
    let mut stream = RowStream::new(statement);
    let mut first: Option<Row> = None;
    while pending.len() > 0
        invariant
            all == msgs@,
            all.len() > 0,
            all[0] is BindComplete,
            tail == all.drop_first(),
            stream.live(),
            stmt_eq(stream.statement, s),
            s == statement,
            opt_outcome(s, tail, None) == opt_outcome(
                s,
                pending@,
                match first {
                    Option::Some(row) => Option::Some((row.ranges@.len() as u16, row.payload@)),
                    Option::None => Option::<(u16, Seq<u8>)>::None,
                },
            ),
            first matches Option::Some(row) ==> row_matches(
                s,
                row,
                row.ranges@.len() as u16,
                row.payload@,
            ),
        decreases pending@.len(),
    {
        let ghost before = pending@;
        let m = pending.remove(0);
        proof {
            assert(before[0] == m);
            assert(before.drop_first() =~= pending@);
        }
        let ghost stmt_before = stream.statement;
        let ghost mp = match &m {
            BackendMessage::DataRow { field_count, payload } => (*field_count, payload@),
            _ => (0u16, Seq::<u8>::empty()),
        };
        let step = stream.on_message(m);
        proof {
            crate::statement::lemma_stmt_eq_trans(stream.statement, stmt_before, s);
        }
        match step {
            RowStep::Row(row) => {
                if first.is_some() {
                    return Err(PgError::RowCount);
                }
                proof {
                    let (c, p) = mp;
                    assert(row_matches(stmt_before, row, c, p));
                    crate::statement::lemma_stmt_eq_trans(row.statement, stmt_before, s);
                    assert(row_matches(s, row, c, p));
                    lemma_row_spec_of_match(s, row, c, p);
                }
                first = Some(row);
            },
            RowStep::Skip => {},
            RowStep::Finished => {
                return Ok(first);
            },
            RowStep::Fail(e) => {
                return Err(e);
            },
        }
    }
    Err(PgError::Closed)
}

/// Consumes the whole reply to one execution while insisting on exactly one
/// row: zero rows and two or more rows are both row-count errors.
pub fn run_query_one(statement: Statement, msgs: Vec<BackendMessage>) -> (r: Result<Row, PgError>)
    ensures
        r is Ok <==> (opt_reply(statement, msgs@) is Ok && opt_reply(statement, msgs@)->Ok_0
            is Some),
        r is Ok ==> (opt_reply(statement, msgs@)->Ok_0 matches Option::Some(p) && row_matches(
            statement,
            r->Ok_0,
            p.0,
            p.1,
        )),
        r is Err ==> r->Err_0 == (match opt_reply(statement, msgs@) {
            Result::Err(e) => e,
            Result::Ok(_) => PgError::RowCount,
        }),
{
    match run_query_opt(statement, msgs) {
        Ok(Some(row)) => Ok(row),
        Ok(None) => Err(PgError::RowCount),
        Err(e) => Err(e),
    }
}

/// Whether a reply sequence after `BindComplete` is a clean reply to an
/// `execute` call, which tolerates any `DataRow` and `CommandComplete` but —
/// unlike a row stream — not `PortalSuspended`.
pub open spec fn exec_ok(msgs: Seq<BackendMessage>) -> bool
    decreases msgs.len(),
{
    if msgs.len() == 0 {
        false
    } else {
        match msgs[0] {
            BackendMessage::ReadyForQuery => true,
            BackendMessage::DataRow { .. } | BackendMessage::CommandComplete(_)
            | BackendMessage::EmptyQueryResponse => exec_ok(msgs.drop_first()),
            _ => false,
        }
    }
}

/// The error an `execute` call reports for a reply sequence that is not
/// clean.
pub open spec fn exec_err(msgs: Seq<BackendMessage>) -> PgError
    decreases msgs.len(),
{
    if msgs.len() == 0 {
        PgError::Closed
    } else {
        match msgs[0] {
            BackendMessage::ReadyForQuery => PgError::Closed,
            BackendMessage::DataRow { .. } | BackendMessage::CommandComplete(_)
            | BackendMessage::EmptyQueryResponse => exec_err(msgs.drop_first()),
            BackendMessage::ErrorResponse(fields) => PgError::Database(fields),
            _ => PgError::UnexpectedMessage,
        }
    }
}

/// The affected-row count a clean `execute` reply ends with, starting from
/// `acc`: the last `CommandComplete` tag's count, reset to zero by an
/// `EmptyQueryResponse`.
pub open spec fn exec_count(msgs: Seq<BackendMessage>, acc: u64) -> u64
    decreases msgs.len(),
{
    if msgs.len() == 0 {
        acc
    } else {
        match msgs[0] {
            BackendMessage::ReadyForQuery => acc,
            BackendMessage::CommandComplete(tag) => exec_count(msgs.drop_first(), tag_rows(tag@)),
            BackendMessage::EmptyQueryResponse => exec_count(msgs.drop_first(), 0),
            _ => exec_count(msgs.drop_first(), acc),
        }
    }
}

/// Consumes the whole reply to one execution and returns the number of rows
/// modified: the reply must open with `BindComplete`; rows are discarded and
/// the last command tag's count is returned, zero when there is none.
pub fn run_execute(msgs: Vec<BackendMessage>) -> (r: Result<u64, PgError>)
    ensures
        r is Ok <==> (msgs@.len() > 0 && msgs@[0] is BindComplete && exec_ok(msgs@.drop_first())),
        r is Ok ==> r->Ok_0 == exec_count(msgs@.drop_first(), 0),
        r is Err ==> r->Err_0 == (if msgs@.len() == 0 {
            PgError::Closed
        } else {
            match msgs@[0] {
                BackendMessage::BindComplete => exec_err(msgs@.drop_first()),
                BackendMessage::ErrorResponse(fields) => PgError::Database(fields),
                _ => PgError::UnexpectedMessage,
            }
        }),
{
    let mut pending = msgs;
    let ghost all = pending@;
    if pending.len() == 0 {
        return Err(PgError::Closed);
    }
    let first = pending.remove(0);
    match first {
        BackendMessage::BindComplete => {},
        BackendMessage::ErrorResponse(fields) => {
            return Err(PgError::Database(fields));
        },
        _ => {
            return Err(PgError::UnexpectedMessage);
        },
    }
    let ghost tail = pending@;
    proof {
        assert(all.drop_first() =~= tail);
    }
    let mut flow = ExecuteFlow::new();
    while pending.len() > 0
        invariant
            all == msgs@,
            all.len() > 0,
            all[0] is BindComplete,
            tail == all.drop_first(),
            flow.live(),
            exec_ok(tail) == exec_ok(pending@),
            exec_err(tail) == exec_err(pending@),
            exec_count(tail, 0) == exec_count(pending@, flow.rows),
        decreases pending@.len(),
    {
        let ghost before = pending@;
        let m = pending.remove(0);
        proof {
            assert(before[0] == m);
            assert(before.drop_first() =~= pending@);
        }
        match flow.on_message(m) {
            ExecStep::Continue => {},
            ExecStep::Finished(n) => {
                return Ok(n);
            },
            ExecStep::Fail(e) => {
                return Err(e);
            },
        }
    }
    Err(PgError::Closed)
}

/// Appends the `Bind` frame for one execution of `statement`, after
/// checking — before anything is encoded — that the caller supplied exactly
/// one parameter per declared parameter of the statement.
pub fn encode_bind(statement: &Statement, params: &Vec<ParamValue>, portal: &Vec<u8>, buf: &mut Vec<
    u8,
>) -> (r: Result<(), PgError>)
    requires
        statement.wf(),
        ascii_no_nul(portal@),
    ensures
        params@.len() != statement.params@.len() ==> (r matches Err(e) && e matches
            PgError::Parameters { expected, actual } && expected == statement.params@.len()
            && actual == params@.len() && final(buf)@ == old(buf)@),
        params@.len() == statement.params@.len() ==> {
            &&& r is Ok <==> bind_encodable(portal@, statement.name@, params@)
            &&& r is Ok ==> final(buf)@ == old(buf)@ + bind_frame(
                portal@,
                statement.name@,
                param_formats(params@),
                param_datas(params@),
            )
            &&& r is Err ==> final(buf)@ == old(buf)@ && r->Err_0 is Encode
        },
{
    if params.len() != statement.params.len() {
        return Err(
            PgError::Parameters { expected: statement.params.len(), actual: params.len() },
        );
    }
    frame_bind(buf, portal, &statement.name, params)
}

/// Encodes the buffer submitted for one execution of a prepared statement:
/// `Bind` to the unnamed portal, `Execute` with no row limit, and `Sync`.
///
/// A parameter list whose length differs from the statement's declared
/// parameter count is rejected before any bytes are produced.
pub fn encode_execute(statement: &Statement, params: &Vec<ParamValue>) -> (r: Result<
    Vec<u8>,
    PgError,
>)
    requires
        statement.wf(),
    ensures
        params@.len() != statement.params@.len() ==> (r matches Err(e) && e matches
            PgError::Parameters { expected, actual } && expected == statement.params@.len()
            && actual == params@.len()),
        params@.len() == statement.params@.len() ==> {
            &&& r is Ok <==> bind_encodable(Seq::empty(), statement.name@, params@)
            &&& r is Ok ==> r->Ok_0@ == bind_frame(
                Seq::empty(),
                statement.name@,
                param_formats(params@),
                param_datas(params@),
            ) + execute_frame(Seq::empty(), 0) + sync_frame()
            &&& r is Err ==> r->Err_0 is Encode
        },
{
    let portal: Vec<u8> = Vec::new();
    proof {
        assert(portal@ =~= Seq::<u8>::empty());
    }
    let mut buf: Vec<u8> = Vec::new();
    match encode_bind(statement, params, &portal, &mut buf) {
        Ok(()) => {},
        Err(e) => {
            return Err(e);
        },
    }
    match frame_execute(&mut buf, &portal, 0) {
        Ok(()) => {},
        Err(_) => {
            proof {
                assert(false);
            }
            return Err(PgError::Encode);
        },
    }
    frame_sync(&mut buf);
    Ok(buf)
}


/// Encodes the single buffer of the no-prepare typed path: `Parse` of the
/// unnamed statement, `Bind` of the unnamed portal, `Describe`, `Execute`
/// with no row limit, and `Sync`, folding the whole query into one round
/// trip. The caller supplies one explicit type per parameter value.
pub fn encode_query_typed(query: &str, params: &Vec<ParamValue>, types: &Vec<
    crate::pgtype::PgType,
>) -> (r: Result<Vec<u8>, PgError>)
    requires
        params@.len() == types@.len(),
    ensures
        r is Ok <==> (crate::frames::parse_encodable(
            Seq::empty(),
            query.spec_bytes(),
            crate::prepare::spec_param_oids(types@),
        ) && bind_encodable(Seq::empty(), Seq::empty(), params@)),
        r is Ok ==> r->Ok_0@ == crate::frames::parse_frame(
            Seq::empty(),
            query.spec_bytes(),
            crate::prepare::spec_param_oids(types@),
        ) + bind_frame(Seq::empty(), Seq::empty(), param_formats(params@), param_datas(params@))
            + crate::frames::describe_statement_frame(Seq::empty()) + execute_frame(Seq::empty(), 0)
            + sync_frame(),
        r is Err ==> r->Err_0 is Encode,
{
    let unnamed: Vec<u8> = Vec::new();
    proof {
        assert(unnamed@ =~= Seq::<u8>::empty());
    }
    let oids = crate::prepare::param_oids(types);
    let mut buf: Vec<u8> = Vec::new();
    match crate::frames::frame_parse(&mut buf, &unnamed, query, &oids) {
        Ok(()) => {},
        Err(e) => {
            return Err(e);
        },
    }
    match frame_bind(&mut buf, &unnamed, &unnamed, params) {
        Ok(()) => {},
        Err(e) => {
            return Err(e);
        },
    }
    match crate::frames::frame_describe_statement(&mut buf, &unnamed) {
        Ok(()) => {},
        Err(_) => {
            proof {
                assert(false);
            }
            return Err(PgError::Encode);
        },
    }
    match frame_execute(&mut buf, &unnamed, 0) {
        Ok(()) => {},
        Err(_) => {
            proof {
                assert(false);
            }
            return Err(PgError::Encode);
        },
    }
    frame_sync(&mut buf);
    Ok(buf)
}

/// What one backend message meant to the typed path's reply prefix.
#[derive(Debug)]
pub enum TypedStep {
    /// Keep feeding the prefix.
    Continue,
    /// The row shape is known; the rest of the reply is this row stream.
    Ready(RowStream),
    /// The reply failed; feeding it further is undefined.
    Fail(PgError),
}

/// The decoding half of the typed path's reply prefix: it discards the
/// acknowledgements and the `ParameterDescription` — the caller supplied the
/// types — and synthesizes an unnamed statement from the `RowDescription`
/// or `NoData` that reveals the row shape.
#[derive(Debug)]
pub struct TypedFlow {
    /// Where the prefix stands.
    pub state: StreamState,
}

impl TypedFlow {
    /// Whether the prefix still accepts messages.
    pub open spec fn live(&self) -> bool {
        self.state is Streaming
    }

    /// Starts the prefix.
    pub fn new() -> (r: TypedFlow)
        ensures
            r.live(),
    {
        TypedFlow { state: StreamState::Streaming }
    }

    /// Consumes one backend message of the prefix:
    /// `ParseComplete`/`BindComplete`/`ParameterDescription` are discarded;
    /// `NoData` hands over a stream of an unnamed, column-less statement;
    /// a `RowDescription` hands over a stream of an unnamed statement
    /// carrying its columns.
    pub fn on_message(&mut self, m: BackendMessage) -> (r: TypedStep)
        requires
            old(self).live(),
        ensures
            match m {
                BackendMessage::ParseComplete | BackendMessage::BindComplete
                | BackendMessage::ParameterDescription(_) => {
                    &&& r is Continue
                    &&& final(self).live()
                },
                BackendMessage::NoData => {
                    &&& r matches TypedStep::Ready(stream) && stream.live()
                        && stream.rows_affected is None && crate::prepare::statement_matches(
                        stream.statement,
                        Seq::empty(),
                        Seq::empty(),
                        Seq::empty(),
                    ) && stream.statement.wf()
                    &&& final(self).state is Done
                },
                BackendMessage::RowDescription(fields) => {
                    &&& r matches TypedStep::Ready(stream) && stream.live()
                        && stream.rows_affected is None && crate::prepare::statement_matches(
                        stream.statement,
                        Seq::empty(),
                        Seq::empty(),
                        fields@,
                    ) && stream.statement.wf()
                    &&& final(self).state is Done
                },
                BackendMessage::ErrorResponse(fields) => {
                    &&& r matches TypedStep::Fail(e) && e == PgError::Database(fields)
                    &&& final(self).state is Failed
                },
                _ => {
                    &&& r matches TypedStep::Fail(e) && e is UnexpectedMessage
                    &&& final(self).state is Failed
                },
            },
    {
        match m {
            BackendMessage::ParseComplete | BackendMessage::BindComplete
            | BackendMessage::ParameterDescription(_) => TypedStep::Continue,
            BackendMessage::NoData => {
                self.state = StreamState::Done;
                let params: Vec<crate::pgtype::PgType> = Vec::new();
                let columns: Vec<crate::statement::Column> = Vec::new();
                TypedStep::Ready(RowStream::new(Statement::unnamed(params, columns)))
            },
            BackendMessage::RowDescription(fields) => {
                self.state = StreamState::Done;
                let params: Vec<crate::pgtype::PgType> = Vec::new();
                let columns = crate::prepare::columns_of_fields(fields);
                TypedStep::Ready(RowStream::new(Statement::unnamed(params, columns)))
            },
            BackendMessage::ErrorResponse(fields) => {
                self.state = StreamState::Failed;
                TypedStep::Fail(PgError::Database(fields))
            },
            _ => {
                self.state = StreamState::Failed;
                TypedStep::Fail(PgError::UnexpectedMessage)
            },
        }
    }
}

/// Whether a typed-path reply is clean: acknowledgements, then a `NoData`
/// or `RowDescription` revealing the row shape, then a clean row stream
/// over that shape.
pub open spec fn typed_ok(msgs: Seq<BackendMessage>) -> bool
    decreases msgs.len(),
{
    if msgs.len() == 0 {
        false
    } else {
        match msgs[0] {
            BackendMessage::ParseComplete | BackendMessage::BindComplete
            | BackendMessage::ParameterDescription(_) => typed_ok(msgs.drop_first()),
            BackendMessage::NoData => stream_ok(0, msgs.drop_first()),
            BackendMessage::RowDescription(fields) => stream_ok(fields@.len(), msgs.drop_first()),
            _ => false,
        }
    }
}

/// The error a typed-path reply reports when it is not clean.
pub open spec fn typed_err(msgs: Seq<BackendMessage>) -> PgError
    decreases msgs.len(),
{
    if msgs.len() == 0 {
        PgError::Closed
    } else {
        match msgs[0] {
            BackendMessage::ParseComplete | BackendMessage::BindComplete
            | BackendMessage::ParameterDescription(_) => typed_err(msgs.drop_first()),
            BackendMessage::NoData => stream_err(0, msgs.drop_first()),
            BackendMessage::RowDescription(fields) => stream_err(fields@.len(), msgs.drop_first()),
            BackendMessage::ErrorResponse(fields) => PgError::Database(fields),
            _ => PgError::UnexpectedMessage,
        }
    }
}

/// The columns a typed-path reply declares; none when `NoData` reveals a
/// row-less shape.
pub open spec fn typed_fields(msgs: Seq<BackendMessage>) -> Seq<crate::message::FieldDesc>
    decreases msgs.len(),
{
    if msgs.len() == 0 {
        Seq::empty()
    } else {
        match msgs[0] {
            BackendMessage::ParseComplete | BackendMessage::BindComplete
            | BackendMessage::ParameterDescription(_) => typed_fields(msgs.drop_first()),
            BackendMessage::RowDescription(fields) => fields@,
            _ => Seq::empty(),
        }
    }
}

/// The `DataRow` contents of a typed-path reply, after the message that
/// reveals the row shape.
pub open spec fn typed_rows(msgs: Seq<BackendMessage>) -> Seq<(u16, Seq<u8>)>
    decreases msgs.len(),
{
    if msgs.len() == 0 {
        Seq::empty()
    } else {
        match msgs[0] {
            BackendMessage::ParseComplete | BackendMessage::BindComplete
            | BackendMessage::ParameterDescription(_) => typed_rows(msgs.drop_first()),
            BackendMessage::NoData | BackendMessage::RowDescription(_) => stream_rows(
                msgs.drop_first(),
            ),
            _ => Seq::empty(),
        }
    }
}

/// Whether each row of a typed-path result is exactly the row its `DataRow`
/// denotes, under an unnamed statement carrying the declared columns.
pub open spec fn typed_rows_match(
    rows: Seq<Row>,
    fields: Seq<crate::message::FieldDesc>,
    specs: Seq<(u16, Seq<u8>)>,
) -> bool {
    &&& rows.len() == specs.len()
    &&& forall|i: int|
        0 <= i < rows.len() ==> {
            let row = #[trigger] rows[i];
            &&& row.wf()
            &&& crate::prepare::statement_matches(row.statement, Seq::empty(), Seq::empty(), fields)
            &&& row.payload@ == (#[trigger] specs[i]).1
            &&& Some(crate::row::ranges_view(row.ranges@)) == crate::row::spec_parse_ranges(
                specs[i].1,
                0,
                specs[i].0 as nat,
            )
        }
}

/// A statement carrying the same information matches the same description.
proof fn lemma_statement_matches_eq(
    a: Statement,
    b: Statement,
    name: Seq<u8>,
    oids: Seq<u32>,
    fields: Seq<crate::message::FieldDesc>,
)
    requires
        stmt_eq(a, b),
        crate::prepare::statement_matches(b, name, oids, fields),
    ensures
        crate::prepare::statement_matches(a, name, oids, fields),
{
    assert forall|i: int| 0 <= i < oids.len() implies (#[trigger] a.params@[i]).oid == oids[i] by {
        assert(b.params@[i].oid == oids[i]);
    }
    assert forall|i: int| 0 <= i < fields.len() implies {
        let c = #[trigger] a.columns@[i];
        let f = fields[i];
        &&& c.name@ == f.name@
        &&& c.table_oid == (if f.table_oid == 0 {
            Option::<u32>::None
        } else {
            Option::Some(f.table_oid)
        })
        &&& c.column_id == (if f.column_id == 0 {
            Option::<i16>::None
        } else {
            Option::Some(f.column_id)
        })
        &&& c.ty.oid == f.type_oid
    } by {
        assert(crate::statement::col_eq(a.columns@[i], b.columns@[i]));
    }
}

/// Consumes the whole reply of the typed path and collects every row: the
/// acknowledgement prefix, the row shape, then the row stream.
pub fn run_query_typed(msgs: Vec<BackendMessage>) -> (r: Result<Vec<Row>, PgError>)
    ensures
        r is Ok <==> typed_ok(msgs@),
        r is Ok ==> typed_rows_match(r->Ok_0@, typed_fields(msgs@), typed_rows(msgs@)),
        r is Err ==> r->Err_0 == typed_err(msgs@),
{
    let mut pending = msgs;
    let ghost all = pending@;
    let mut flow = TypedFlow::new();
    while pending.len() > 0
        invariant
            all == msgs@,
            flow.live(),
            typed_ok(all) == typed_ok(pending@),
            typed_err(all) == typed_err(pending@),
            typed_fields(all) == typed_fields(pending@),
            typed_rows(all) == typed_rows(pending@),
        decreases pending@.len(),
    {
        let ghost before = pending@;
        let m = pending.remove(0);
        proof {
            assert(before[0] == m);
            assert(before.drop_first() =~= pending@);
        }
        let ghost mfields = match &m {
            BackendMessage::RowDescription(fields) => fields@,
            _ => Seq::<crate::message::FieldDesc>::empty(),
        };
        match flow.on_message(m) {
            TypedStep::Continue => {},
            TypedStep::Ready(stream) => {
                let ghost s = stream.statement;
                let ghost decl_fields = typed_fields(all);
                let ghost specs = stream_rows(pending@);
                proof {
                    match before[0] {
                        BackendMessage::NoData => {
                            assert(typed_fields(before) =~= Seq::<
                                crate::message::FieldDesc,
                            >::empty());
                            assert(crate::prepare::statement_matches(
                                s,
                                Seq::empty(),
                                Seq::empty(),
                                decl_fields,
                            ));
                        },
                        BackendMessage::RowDescription(fields) => {
                            assert(typed_fields(before) == fields@);
                            assert(crate::prepare::statement_matches(
                                s,
                                Seq::empty(),
                                Seq::empty(),
                                decl_fields,
                            ));
                        },
                        _ => {
                            assert(false);
                        },
                    }
                    assert(s.columns@.len() == decl_fields.len());
                    assert(typed_rows(before) == specs);
                    assert(typed_ok(before) == stream_ok(s.columns@.len(), pending@));
                    assert(!typed_ok(before) ==> typed_err(before) == stream_err(
                        s.columns@.len(),
                        pending@,
                    ));
                }
                let rows = collect_stream(stream, pending);
                match rows {
                    Ok(rows) => {
                        proof {
                            assert(rows_match(s, rows@, specs));
                            assert forall|i: int| 0 <= i < rows@.len() implies {
                                let row = #[trigger] rows@[i];
                                &&& row.wf()
                                &&& crate::prepare::statement_matches(
                                    row.statement,
                                    Seq::empty(),
                                    Seq::empty(),
                                    decl_fields,
                                )
                                &&& row.payload@ == (#[trigger] specs[i]).1
                                &&& Some(crate::row::ranges_view(row.ranges@))
                                    == crate::row::spec_parse_ranges(
                                    specs[i].1,
                                    0,
                                    specs[i].0 as nat,
                                )
                            } by {
                                assert(row_matches(s, rows@[i], specs[i].0, specs[i].1));
                                lemma_statement_matches_eq(
                                    rows@[i].statement,
                                    s,
                                    Seq::empty(),
                                    Seq::empty(),
                                    decl_fields,
                                );
                            }
                        }
                        return Ok(rows);
                    },
                    Err(e) => {
                        return Err(e);
                    },
                }
            },
            TypedStep::Fail(e) => {
                return Err(e);
            },
        }
    }
    Err(PgError::Closed)
}


} // verus!
