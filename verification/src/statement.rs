//! Prepared statements and their column descriptors.

use vstd::prelude::*;

use crate::error::PgError;
use crate::frames::{close_statement_frame, frame_close_statement, frame_sync, sync_frame};
use crate::message::FieldDesc;
use crate::pgtype::PgType;
use crate::wire::{ascii_no_nul, dec_digits, dec_value, lemma_dec_digits_are_digits};

verus! {

/// Information about a column of a query.
#[derive(Debug)]
pub struct Column {
    /// The column's name, as raw bytes.
    pub name: Vec<u8>,
    /// The OID of the owning table, if the column belongs to one.
    pub table_oid: Option<u32>,
    /// The column's ordinal within its table, if it belongs to one.
    pub column_id: Option<i16>,
    /// The column's resolved type.
    pub ty: PgType,
}

impl Column {
    /// Returns the name of the column.
    pub fn name(&self) -> (r: &Vec<u8>)
        ensures
            r@ == self.name@,
    {
        &self.name
    }

    /// Returns the OID of the underlying database table.
    pub fn table_oid(&self) -> (r: Option<u32>)
        ensures
            r == self.table_oid,
    {
        self.table_oid
    }

    /// Returns the column's ordinal within the underlying database table.
    pub fn column_id(&self) -> (r: Option<i16>)
        ensures
            r == self.column_id,
    {
        self.column_id
    }

    /// Returns the type of the column.
    pub fn type_(&self) -> (r: &PgType)
        ensures
            r == self.ty,
    {
        &self.ty
    }
}

/// Builds a column descriptor from one decoded `RowDescription` field,
/// normalizing a zero table OID or ordinal — not valid identifiers on the
/// wire — to "not available".
pub fn column_from_field(f: FieldDesc) -> (c: Column)
    ensures
        c.name@ == f.name@,
        c.table_oid == (if f.table_oid == 0 {
            Option::<u32>::None
        } else {
            Option::Some(f.table_oid)
        }),
        c.column_id == (if f.column_id == 0 {
            Option::<i16>::None
        } else {
            Option::Some(f.column_id)
        }),
        c.ty.oid == f.type_oid,
{
    Column {
        name: f.name,
        table_oid: if f.table_oid == 0 {
            None
        } else {
            Some(f.table_oid)
        },
        column_id: if f.column_id == 0 {
            None
        } else {
            Some(f.column_id)
        },
        ty: PgType::new(f.type_oid),
    }
}

/// A prepared statement: its wire name (empty for the unnamed statement),
/// its declared parameter types, and its result columns.
///
/// The reference-counted sharing of one prepared object between rows and
/// callers, and the back-reference to the owning connection, are the
/// transport layer's concern; this value carries the protocol-visible state.
#[derive(Debug)]
pub struct Statement {
    /// The statement's wire name; empty means the unnamed statement.
    pub name: Vec<u8>,
    /// The expected types of the statement's parameters.
    pub params: Vec<PgType>,
    /// The columns returned when the statement is queried.
    pub columns: Vec<Column>,
}

impl Statement {
    /// A statement is well formed when its wire name is non-NUL ASCII and
    /// short enough for every frame that carries it.
    pub open spec fn wf(&self) -> bool {
        &&& ascii_no_nul(self.name@)
        &&& self.name@.len() <= 0xFFFF
    }

    /// Creates a named statement.
    pub fn new(name: Vec<u8>, params: Vec<PgType>, columns: Vec<Column>) -> (r: Statement)
        requires
            ascii_no_nul(name@),
            name@.len() <= 0xFFFF,
        ensures
            r.name@ == name@,
            r.params@ == params@,
            r.columns@ == columns@,
            r.wf(),
    {
        Statement { name, params, columns }
    }

    /// Creates an unnamed statement, which is never closed explicitly.
    pub fn unnamed(params: Vec<PgType>, columns: Vec<Column>) -> (r: Statement)
        ensures
            r.name@ == Seq::<u8>::empty(),
            r.params@ == params@,
            r.columns@ == columns@,
            r.wf(),
    {
        let name: Vec<u8> = Vec::new();
        proof {
            assert(name@ =~= Seq::<u8>::empty());
        }
        Statement { name, params, columns }
    }

    /// Returns the statement's wire name.
    pub fn name(&self) -> (r: &Vec<u8>)
        ensures
            r@ == self.name@,
    {
        &self.name
    }

    /// Returns the expected types of the statement's parameters.
    pub fn params(&self) -> (r: &Vec<PgType>)
        ensures
            r@ == self.params@,
    {
        &self.params
    }

    /// Returns information about the columns returned when the statement is
    /// queried.
    pub fn columns(&self) -> (r: &Vec<Column>)
        ensures
            r@ == self.columns@,
    {
        &self.columns
    }
}

/// Whether two column descriptors carry the same information.
pub open spec fn col_eq(a: Column, b: Column) -> bool {
    &&& a.name@ == b.name@
    &&& a.table_oid == b.table_oid
    &&& a.column_id == b.column_id
    &&& a.ty == b.ty
}

/// Whether two column lists carry the same information, column by column.
pub open spec fn cols_eq(a: Seq<Column>, b: Seq<Column>) -> bool {
    &&& a.len() == b.len()
    &&& forall|i: int| 0 <= i < a.len() ==> col_eq(#[trigger] a[i], #[trigger] b[i])
}

/// Whether two statements carry the same information: same wire name, same
/// parameter types, same columns.
pub open spec fn stmt_eq(a: Statement, b: Statement) -> bool {
    &&& a.name@ == b.name@
    &&& a.params@ == b.params@
    &&& cols_eq(a.columns@, b.columns@)
}

/// Statement equality is transitive.
pub proof fn lemma_stmt_eq_trans(a: Statement, b: Statement, c: Statement)
    requires
        stmt_eq(a, b),
        stmt_eq(b, c),
    ensures
        stmt_eq(a, c),
{
    assert forall|i: int| 0 <= i < a.columns@.len() implies col_eq(
        #[trigger] a.columns@[i],
        #[trigger] c.columns@[i],
    ) by {
        assert(col_eq(a.columns@[i], b.columns@[i]));
        assert(col_eq(b.columns@[i], c.columns@[i]));
    }
}

impl Column {
    /// Copies this column descriptor.
    pub fn duplicate(&self) -> (r: Column)
        ensures
            col_eq(r, *self),
    {
        Column {
            name: crate::wire::copy_bytes(&self.name),
            table_oid: self.table_oid,
            column_id: self.column_id,
            ty: self.ty,
        }
    }
}

impl Statement {
    /// Copies this statement handle, as sharing one prepared object between
    /// several rows or callers requires.
    pub fn duplicate(&self) -> (r: Statement)
        ensures
            stmt_eq(r, *self),
            r.wf() == self.wf(),
    {
        let mut params: Vec<PgType> = Vec::new();
        let mut i: usize = 0;
        while i < self.params.len()
            invariant
                0 <= i <= self.params@.len(),
                params@ =~= self.params@.take(i as int),
            decreases self.params@.len() - i,
        {
            params.push(self.params[i]);
            i = i + 1;
        }
        let mut columns: Vec<Column> = Vec::new();
        let mut j: usize = 0;
        while j < self.columns.len()
            invariant
                0 <= j <= self.columns@.len(),
                columns@.len() == j as nat,
                forall|k: int| 0 <= k < j ==> col_eq(#[trigger] columns@[k], self.columns@[k]),
            decreases self.columns@.len() - j,
        {
            columns.push(self.columns[j].duplicate());
            j = j + 1;
        }
        proof {
            assert(params@ =~= self.params@);
        }
        Statement { name: crate::wire::copy_bytes(&self.name), params, columns }
    }
}

/// The wire name assigned to the statement with the given serial number.
pub open spec fn spec_statement_name(id: nat) -> Seq<u8> {
    seq![115u8] + dec_digits(id)
}

/// Renders the wire name of the statement with the given serial number:
/// `"s"` followed by the number in decimal.
///
/// Serial numbers come from a monotonically increasing counter and are never
/// reused, even across reconnects, so a slow `Close` of an old statement can
/// never race a fresh statement of the same name.
pub fn statement_name(id: u64) -> (r: Vec<u8>)
    ensures
        r@ == spec_statement_name(id as nat),
        ascii_no_nul(r@),
        0 < r@.len() <= 0xFFFF,
{
    let mut out: Vec<u8> = Vec::new();
    out.push(115);
    crate::wire::push_dec_digits(id, &mut out);
    proof {
        assert(out@ =~= spec_statement_name(id as nat));
        lemma_dec_digits_are_digits(id as nat);
        assert(dec_digits(id as nat).len() <= 20) by {
            lemma_dec_digits_len(id as nat);
        }
        assert forall|i: int| 0 <= i < out@.len() implies 0 < #[trigger] out@[i] < 128 by {
            if i > 0 {
                assert(out@[i] == dec_digits(id as nat)[i - 1]);
            }
        }
    }
    out
}

/// Ten raised to the given power.
spec fn pow10(k: nat) -> nat
    decreases k,
{
    if k == 0 {
        1
    } else {
        (10 * pow10((k - 1) as nat)) as nat
    }
}

/// A number below the `k`-th power of ten has at most `k` decimal digits.
proof fn lemma_dec_digits_len_bound(n: nat, k: nat)
    requires
        k >= 1,
        n < pow10(k),
    ensures
        dec_digits(n).len() <= k,
    decreases n,
{
    if n >= 10 {
        reveal_with_fuel(pow10, 3);
        assert(pow10(1) == 10);
        assert(k >= 2);
        assert(pow10(k) == 10 * pow10((k - 1) as nat));
        assert(n / 10 < pow10((k - 1) as nat)) by (nonlinear_arith)
            requires
                n < pow10(k),
                pow10(k) == 10 * pow10((k - 1) as nat),
        ;
        lemma_dec_digits_len_bound(n / 10, (k - 1) as nat);
    }
}

/// The decimal digit string of a 64-bit number has at most 20 digits.
proof fn lemma_dec_digits_len(n: nat)
    requires
        n <= u64::MAX,
    ensures
        dec_digits(n).len() <= 20,
{
    reveal_with_fuel(pow10, 21);
    assert(pow10(20) == 100000000000000000000);
    lemma_dec_digits_len_bound(n, 20);
}

/// Distinct serial numbers yield distinct statement names, so a name in
/// flight can never collide with a newly assigned one.
pub proof fn lemma_statement_names_unique(a: nat, b: nat)
    ensures
        a != b ==> spec_statement_name(a) != spec_statement_name(b),
{
    if a != b && spec_statement_name(a) == spec_statement_name(b) {
        assert(dec_digits(a) =~= spec_statement_name(a).subrange(
            1,
            spec_statement_name(a).len() as int,
        ));
        assert(dec_digits(b) =~= spec_statement_name(b).subrange(
            1,
            spec_statement_name(b).len() as int,
        ));
        assert(dec_digits(a) == dec_digits(b));
        crate::wire::lemma_dec_digits_value(a);
        crate::wire::lemma_dec_digits_value(b);
        assert(dec_value(dec_digits(a)) == dec_value(dec_digits(b)));
        assert(false);
    }
}

/// The buffer a statement's last owner must send to close it: a `Close`
/// frame and a `Sync`, or nothing at all for the unnamed statement, which is
/// never closed explicitly.
///
/// Whether the owning connection is still reachable — the other half of the
/// teardown decision — is known only to the transport layer, which sends
/// this buffer best-effort and ignores failure.
pub fn close_request(stmt: &Statement) -> (r: Option<Vec<u8>>)
    requires
        stmt.wf(),
    ensures
        r is Some <==> stmt.name@.len() > 0,
        r is Some ==> r->0@ == close_statement_frame(stmt.name@) + sync_frame(),
{
    if stmt.name.len() == 0 {
        return None;
    }
    let mut buf: Vec<u8> = Vec::new();
    let r = frame_close_statement(&mut buf, &stmt.name);
    proof {
        assert(r is Ok);
    }
    match r {
        Ok(()) => {
            frame_sync(&mut buf);
            Some(buf)
        },
        Err(_) => None,
    }
}

} // verus!
