//! The statement manager: preparing a statement over the wire.
//!
//! Preparation encodes `Parse` + `Describe` + `Sync`, and then expects, in
//! order: `ParseComplete`, a `ParameterDescription`, and either a
//! `RowDescription` or `NoData`. Any deviation is a protocol error.

use vstd::prelude::*;
use vstd::string::StringSliceAdditionalSpecFns;

use crate::error::PgError;
use crate::frames::{
    describe_statement_frame, frame_describe_statement, frame_parse, frame_sync, parse_encodable,
    parse_frame, sync_frame,
};
use crate::message::{BackendMessage, FieldDesc};
use crate::pgtype::PgType;
use crate::statement::{column_from_field, Statement};
use crate::wire::ascii_no_nul;

verus! {

/// The type OIDs of a parameter type list.
pub open spec fn spec_param_oids(types: Seq<PgType>) -> Seq<u32> {
    types.map_values(|t: PgType| t.oid)
}

/// Extracts the OIDs of a parameter type list.
pub fn param_oids(types: &Vec<PgType>) -> (r: Vec<u32>)
    ensures
        r@ == spec_param_oids(types@),
{
    let mut out: Vec<u32> = Vec::new();
    let mut i: usize = 0;
    while i < types.len()
        invariant
            0 <= i <= types@.len(),
            out@ =~= spec_param_oids(types@).take(i as int),
        decreases types@.len() - i,
    {
        out.push(types[i].oid());
        i = i + 1;
    }
    proof {
        assert(out@ =~= spec_param_oids(types@));
    }
    out
}

/// Encodes the buffer submitted to prepare a statement: `Parse` with the
/// statement's name, query and explicit parameter type OIDs, `Describe` for
/// the statement, and `Sync`.
pub fn encode_prepare(name: &Vec<u8>, query: &str, types: &Vec<PgType>) -> (r: Result<
    Vec<u8>,
    PgError,
>)
    requires
        ascii_no_nul(name@),
        name@.len() <= 0xFFFF,
    ensures
        r is Ok <==> parse_encodable(name@, query.spec_bytes(), spec_param_oids(types@)),
        r is Ok ==> r->Ok_0@ == parse_frame(name@, query.spec_bytes(), spec_param_oids(types@))
            + describe_statement_frame(name@) + sync_frame(),
        r is Err ==> r->Err_0 is Encode,
{
    let oids = param_oids(types);
    let mut buf: Vec<u8> = Vec::new();
    match frame_parse(&mut buf, name, query, &oids) {
        Ok(()) => {},
        Err(e) => {
            return Err(e);
        },
    }
    match frame_describe_statement(&mut buf, name) {
        Ok(()) => {},
        Err(_) => {
            proof {
                assert(false);
            }
            return Err(PgError::Encode);
        },
    }
    frame_sync(&mut buf);
    Ok(buf)
}

/// Whether a prepare reply is clean: `ParseComplete`, then a
/// `ParameterDescription`, then a `RowDescription` or `NoData`.
pub open spec fn prepare_reply_ok(msgs: Seq<BackendMessage>) -> bool {
    &&& msgs.len() >= 3
    &&& msgs[0] is ParseComplete
    &&& msgs[1] is ParameterDescription
    &&& (msgs[2] is RowDescription || msgs[2] is NoData)
}

/// The parameter type OIDs a clean prepare reply declares.
pub open spec fn prepare_reply_oids(msgs: Seq<BackendMessage>) -> Seq<u32> {
    match msgs[1] {
        BackendMessage::ParameterDescription(oids) => oids@,
        _ => Seq::empty(),
    }
}

/// The result columns a clean prepare reply declares; none for `NoData`.
pub open spec fn prepare_reply_fields(msgs: Seq<BackendMessage>) -> Seq<FieldDesc> {
    match msgs[2] {
        BackendMessage::RowDescription(fields) => fields@,
        _ => Seq::empty(),
    }
}

/// The error reported for a prepare reply that is not clean: the server's
/// own error if it sent one, a protocol error for an out-of-order message,
/// and `Closed` when the reply simply ends.
pub open spec fn prepare_reply_err(msgs: Seq<BackendMessage>) -> PgError {
    if msgs.len() == 0 {
        PgError::Closed
    } else {
        match msgs[0] {
            BackendMessage::ErrorResponse(f0) => PgError::Database(f0),
            BackendMessage::ParseComplete => if msgs.len() == 1 {
                PgError::Closed
            } else {
                match msgs[1] {
                    BackendMessage::ErrorResponse(f1) => PgError::Database(f1),
                    BackendMessage::ParameterDescription(_) => if msgs.len() == 2 {
                        PgError::Closed
                    } else {
                        match msgs[2] {
                            BackendMessage::ErrorResponse(f2) => PgError::Database(f2),
                            BackendMessage::RowDescription(_) | BackendMessage::NoData =>
                                PgError::Closed,
                            _ => PgError::UnexpectedMessage,
                        }
                    },
                    _ => PgError::UnexpectedMessage,
                }
            },
            _ => PgError::UnexpectedMessage,
        }
    }
}

/// Whether `stmt` is the statement a clean prepare reply describes, under
/// the given wire name: one parameter type per declared OID, and one column
/// per declared field, with zero table OIDs and ordinals normalized away.
pub open spec fn statement_matches(
    stmt: Statement,
    name: Seq<u8>,
    oids: Seq<u32>,
    fields: Seq<FieldDesc>,
) -> bool {
    &&& stmt.name@ == name
    &&& stmt.params@.len() == oids.len()
    &&& forall|i: int| 0 <= i < oids.len() ==> (#[trigger] stmt.params@[i]).oid == oids[i]
    &&& stmt.columns@.len() == fields.len()
    &&& forall|i: int|
        0 <= i < fields.len() ==> {
            let c = #[trigger] stmt.columns@[i];
            let f = fields[i];
            &&& c.name@ == f.name@
            &&& c.table_oid == (if f.table_oid == 0 {
                Option::<u32>::None
            } else {
                Option::Some(f.table_oid)
            })
            &&& c.column_id == (if f.column_id == 0 {
                Option::<i16>::None
            } else {
                Option::Some(f.column_id)
            })
            &&& c.ty.oid == f.type_oid
        }
}

/// Where a prepare handshake stands.
#[derive(Debug)]
pub enum PrepareState {
    /// Waiting for `ParseComplete`.
    AwaitParseComplete,
    /// Waiting for the `ParameterDescription`.
    AwaitParameterDescription,
    /// Waiting for the `RowDescription` or `NoData`, holding the declared
    /// parameter OIDs.
    AwaitRowDescription(Vec<u32>),
    /// The handshake ended, cleanly or not.
    Ended,
}

/// What one backend message meant to a prepare handshake.
#[derive(Debug)]
pub enum PrepareStep {
    /// Keep feeding the handshake.
    Continue,
    /// The handshake completed with this statement.
    Done(Statement),
    /// The handshake failed; feeding it further is undefined.
    Fail(PgError),
}

/// The decoding half of preparing one statement: feed it each backend
/// message after the request was submitted, and it produces the prepared
/// [`Statement`].
#[derive(Debug)]
pub struct PrepareFlow {
    /// The wire name assigned to the statement being prepared.
    pub name: Vec<u8>,
    /// Where the handshake stands.
    pub state: PrepareState,
}

impl PrepareFlow {
    /// Whether the handshake still accepts messages.
    pub open spec fn live(&self) -> bool {
        !(self.state is Ended)
    }

    /// A handshake is well formed when its wire name is well formed.
    pub open spec fn wf(&self) -> bool {
        &&& ascii_no_nul(self.name@)
        &&& self.name@.len() <= 0xFFFF
    }

    /// Starts the handshake for a statement under the given wire name.
    pub fn new(name: Vec<u8>) -> (r: PrepareFlow)
        requires
            ascii_no_nul(name@),
            name@.len() <= 0xFFFF,
        ensures
            r.name@ == name@,
            r.state is AwaitParseComplete,
            r.wf(),
            r.live(),
    {
        PrepareFlow { name, state: PrepareState::AwaitParseComplete }
    }

    /// Consumes one backend message of the handshake, in the expected order
    /// `ParseComplete`, `ParameterDescription`, then `RowDescription` or
    /// `NoData`; any other message fails with a protocol error, and a
    /// server-reported error is passed through.
    pub fn on_message(&mut self, m: BackendMessage) -> (r: PrepareStep)
        requires
            old(self).live(),
            old(self).wf(),
        ensures
            final(self).name@ == old(self).name@,
            final(self).wf(),
            match m {
                BackendMessage::ErrorResponse(fields) => {
                    &&& r matches PrepareStep::Fail(e) && e == PgError::Database(fields)
                    &&& final(self).state is Ended
                },
                _ => {
                    match old(self).state {
                        PrepareState::AwaitParseComplete => {
                            if m is ParseComplete {
                                &&& r is Continue
                                &&& final(self).state is AwaitParameterDescription
                            } else {
                                &&& r matches PrepareStep::Fail(e) && e is UnexpectedMessage
                                &&& final(self).state is Ended
                            }
                        },
                        PrepareState::AwaitParameterDescription => {
                            &&& (m matches BackendMessage::ParameterDescription(oids) ==> (r
                                is Continue && (final(self).state matches
                            PrepareState::AwaitRowDescription(o) && o@ == oids@)))
                            &&& (!(m is ParameterDescription) ==> ((r matches PrepareStep::Fail(e)
                                && e is UnexpectedMessage) && final(self).state is Ended))
                        },
                        PrepareState::AwaitRowDescription(oids) => {
                            &&& (m matches BackendMessage::RowDescription(fields) ==> ((r matches
                            PrepareStep::Done(stmt) && statement_matches(
                                stmt,
                                old(self).name@,
                                oids@,
                                fields@,
                            ) && stmt.wf()) && final(self).state is Ended))
                            &&& (m is NoData ==> ((r matches PrepareStep::Done(stmt)
                                && statement_matches(stmt, old(self).name@, oids@, Seq::empty())
                                && stmt.wf()) && final(self).state is Ended))
                            &&& (!(m is RowDescription) && !(m is NoData) ==> ((r matches
                            PrepareStep::Fail(e) && e is UnexpectedMessage) && final(self).state
                                is Ended))
                        },
                        PrepareState::Ended => true,
                    }
                },
            },
    {
        let mut state = PrepareState::Ended;
        core::mem::swap(&mut state, &mut self.state);
        match (state, m) {
            (PrepareState::AwaitParseComplete, BackendMessage::ParseComplete) => {
                self.state = PrepareState::AwaitParameterDescription;
                PrepareStep::Continue
            },
            (
                PrepareState::AwaitParameterDescription,
                BackendMessage::ParameterDescription(oids),
            ) => {
                self.state = PrepareState::AwaitRowDescription(oids);
                PrepareStep::Continue
            },
            (PrepareState::AwaitRowDescription(oids), BackendMessage::RowDescription(fields)) => {
                let params = types_of_oids(&oids);
                let columns = columns_of_fields(fields);
                let name = crate::wire::copy_bytes(&self.name);
                PrepareStep::Done(Statement::new(name, params, columns))
            },
            (PrepareState::AwaitRowDescription(oids), BackendMessage::NoData) => {
                let params = types_of_oids(&oids);
                let columns: Vec<crate::statement::Column> = Vec::new();
                let name = crate::wire::copy_bytes(&self.name);
                PrepareStep::Done(Statement::new(name, params, columns))
            },
            (_, BackendMessage::ErrorResponse(fields)) => PrepareStep::Fail(
                PgError::Database(fields),
            ),
            (_, _) => PrepareStep::Fail(PgError::UnexpectedMessage),
        }
    }
}

/// Resolves a list of declared parameter OIDs to the engine's type values.
fn types_of_oids(oids: &Vec<u32>) -> (r: Vec<PgType>)
    ensures
        r@.len() == oids@.len(),
        forall|i: int| 0 <= i < oids@.len() ==> (#[trigger] r@[i]).oid == oids@[i],
{
    let mut out: Vec<PgType> = Vec::new();
    let mut i: usize = 0;
    while i < oids.len()
        invariant
            0 <= i <= oids@.len(),
            out@.len() == i as nat,
            forall|k: int| 0 <= k < i ==> (#[trigger] out@[k]).oid == oids@[k],
        decreases oids@.len() - i,
    {
        out.push(PgType::new(oids[i]));
        i = i + 1;
    }
    out
}

/// Builds the column descriptors a `RowDescription` declares, preserving the
/// backend's order.
pub(crate) fn columns_of_fields(fields: Vec<FieldDesc>) -> (r: Vec<crate::statement::Column>)
    ensures
        r@.len() == fields@.len(),
        forall|i: int|
            0 <= i < fields@.len() ==> {
                let c = #[trigger] r@[i];
                let f = fields@[i];
                &&& c.name@ == f.name@
                &&& c.table_oid == (if f.table_oid == 0 {
                    Option::<u32>::None
                } else {
                    Option::Some(f.table_oid)
                })
                &&& c.column_id == (if f.column_id == 0 {
                    Option::<i16>::None
                } else {
                    Option::Some(f.column_id)
                })
                &&& c.ty.oid == f.type_oid
            },
{
    let mut fields = fields;
    let ghost all = fields@;
    let mut out: Vec<crate::statement::Column> = Vec::new();
    while fields.len() > 0
        invariant
            out@.len() + fields@.len() == all.len(),
            fields@ =~= all.subrange(out@.len() as int, all.len() as int),
            forall|i: int|
                0 <= i < out@.len() ==> {
                    let c = #[trigger] out@[i];
                    let f = all[i];
                    &&& c.name@ == f.name@
                    &&& c.table_oid == (if f.table_oid == 0 {
                        Option::<u32>::None
                    } else {
                        Option::Some(f.table_oid)
                    })
                    &&& c.column_id == (if f.column_id == 0 {
                        Option::<i16>::None
                    } else {
                        Option::Some(f.column_id)
                    })
                    &&& c.ty.oid == f.type_oid
                },
        decreases fields@.len(),
    {
        let f = fields.remove(0);
        out.push(column_from_field(f));
    }
    out
}

/// Consumes the reply to one prepare request and produces the prepared
/// statement: the reply must open with `ParseComplete`, a
/// `ParameterDescription`, and a `RowDescription` or `NoData`.
pub fn run_prepare(name: Vec<u8>, msgs: Vec<BackendMessage>) -> (r: Result<Statement, PgError>)
    requires
        ascii_no_nul(name@),
        name@.len() <= 0xFFFF,
    ensures
        r is Ok <==> prepare_reply_ok(msgs@),
        r is Ok ==> statement_matches(
            r->Ok_0,
            name@,
            prepare_reply_oids(msgs@),
            prepare_reply_fields(msgs@),
        ) && (r->Ok_0).wf(),
        r is Err ==> r->Err_0 == prepare_reply_err(msgs@),
{
    let mut pending = msgs;
    let ghost all = pending@;
    let mut flow = PrepareFlow::new(name);
    let mut taken: usize = 0;
    while pending.len() > 0
        invariant
            all == msgs@,
            taken + pending@.len() == all.len(),
            pending@ =~= all.subrange(taken as int, all.len() as int),
            flow.wf(),
            flow.name@ == name@,
            taken == 0 ==> flow.state is AwaitParseComplete,
            taken == 1 ==> flow.state is AwaitParameterDescription && all[0] is ParseComplete,
            taken == 2 ==> (flow.state matches PrepareState::AwaitRowDescription(o) && all[0]
                is ParseComplete && (all[1] matches BackendMessage::ParameterDescription(oids) && o@
                == oids@)),
            taken <= 2,
        decreases pending@.len(),
    {
        let ghost before = pending@;
        let m = pending.remove(0);
        proof {
            assert(before[0] == m);
            assert(before.drop_first() =~= pending@);
            assert(m == all[taken as int]);
        }
        match flow.on_message(m) {
            PrepareStep::Continue => {
                taken = taken + 1;
            },
            PrepareStep::Done(stmt) => {
                return Ok(stmt);
            },
            PrepareStep::Fail(e) => {
                return Err(e);
            },
        }
    }
    Err(PgError::Closed)
}

} // verus!
