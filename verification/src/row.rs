//! Rows: indexing one backend `DataRow` by column position or name.
//!
//! A row never copies column bytes at construction; it parses the message's
//! field section into one optional byte range per column, an absent range
//! meaning SQL NULL.

use vstd::prelude::*;
use vstd::string::StringSliceAdditionalSpecFns;

use crate::error::PgError;
use crate::statement::{Column, Statement};
use crate::wire::{be_u32, ci_eq, dec_digits, spec_be_u32};

verus! {

/// The ranges denoted by a `DataRow` field section, starting at `pos` with
/// `remaining` fields to read: per field a big-endian 32-bit length — with
/// the sign bit set for SQL NULL — then that many bytes; the section must be
/// consumed exactly. `None` when the section is malformed.
pub open spec fn spec_parse_ranges(payload: Seq<u8>, pos: int, remaining: nat) -> Option<
    Seq<Option<(int, int)>>,
>
    decreases remaining,
{
    if remaining == 0 {
        if pos == payload.len() {
            Some(Seq::empty())
        } else {
            None
        }
    } else if pos + 4 > payload.len() {
        None
    } else {
        let len32 = spec_be_u32(payload[pos], payload[pos + 1], payload[pos + 2], payload[pos + 3]);
        if len32 >= 0x8000_0000 {
            match spec_parse_ranges(payload, pos + 4, (remaining - 1) as nat) {
                Some(rest) => Some(seq![Option::<(int, int)>::None] + rest),
                None => None,
            }
        } else if pos + 4 + len32 > payload.len() {
            None
        } else {
            match spec_parse_ranges(payload, pos + 4 + len32, (remaining - 1) as nat) {
                Some(rest) => Some(seq![Option::Some((pos + 4, pos + 4 + len32))] + rest),
                None => None,
            }
        }
    }
}

/// The view of an executable range vector as mathematical index pairs.
pub open spec fn ranges_view(rs: Seq<Option<(usize, usize)>>) -> Seq<Option<(int, int)>> {
    rs.map_values(
        |r: Option<(usize, usize)>|
            match r {
                Option::Some((a, b)) => Option::Some((a as int, b as int)),
                Option::None => Option::<(int, int)>::None,
            },
    )
}

/// Whether a `DataRow` with the given field count and payload denotes a row
/// of the given statement: its field section parses, and it carries exactly
/// one field per declared column.
pub open spec fn row_decodable(s: Statement, field_count: u16, payload: Seq<u8>) -> bool {
    &&& spec_parse_ranges(payload, 0, field_count as nat) is Some
    &&& field_count as nat == s.columns@.len()
}

/// Parses a `DataRow` field section into one optional byte range per field.
pub fn parse_row_ranges(payload: &Vec<u8>, field_count: u16) -> (r: Result<
    Vec<Option<(usize, usize)>>,
    PgError,
>)
    ensures
        r is Ok <==> spec_parse_ranges(payload@, 0, field_count as nat) is Some,
        r is Ok ==> Some(ranges_view(r->Ok_0@)) == spec_parse_ranges(
            payload@,
            0,
            field_count as nat,
        ),
        r is Err ==> r->Err_0 is Parse,
{
    let mut out: Vec<Option<(usize, usize)>> = Vec::new();
    let mut pos: usize = 0;
    let mut i: u16 = 0;
    while i < field_count
        invariant
            0 <= i <= field_count,
            pos <= payload@.len(),
            ranges_view(out@).len() == i as nat,
            spec_parse_ranges(payload@, 0, field_count as nat) == (match spec_parse_ranges(
                payload@,
                pos as int,
                (field_count - i) as nat,
            ) {
                Option::Some(rest) => Option::Some(ranges_view(out@) + rest),
                Option::None => Option::<Seq<Option<(int, int)>>>::None,
            }),
        decreases field_count - i,
    {
        if payload.len() - pos < 4 {
            return Err(PgError::Parse);
        }
        let len32 = be_u32(payload[pos], payload[pos + 1], payload[pos + 2], payload[pos + 3]);
        if len32 >= 0x8000_0000 {
            proof {
                let rest = spec_parse_ranges(payload@, pos as int + 4, (field_count - i - 1) as nat);
                if rest is Some {
                    assert(ranges_view(out@.push(Option::None)) + rest->0 =~= ranges_view(out@)
                        + (seq![Option::<(int, int)>::None] + rest->0)) by {
                        assert(ranges_view(out@.push(Option::None)) =~= ranges_view(out@).push(
                            Option::None,
                        ));
                    }
                }
            }
            out.push(None);
            pos = pos + 4;
        } else {
            let flen = len32 as usize;
            if payload.len() - (pos + 4) < flen {
                return Err(PgError::Parse);
            }
            let a = pos + 4;
            let b = pos + 4 + flen;
            proof {
                let rest = spec_parse_ranges(payload@, b as int, (field_count - i - 1) as nat);
                if rest is Some {
                    assert(ranges_view(out@.push(Option::Some((a, b)))) + rest->0 =~= ranges_view(
                        out@,
                    ) + (seq![Option::Some((a as int, b as int))] + rest->0)) by {
                        assert(ranges_view(out@.push(Option::Some((a, b)))) =~= ranges_view(
                            out@,
                        ).push(Option::Some((a as int, b as int))));
                    }
                }
            }
            out.push(Some((a, b)));
            pos = b;
        }
        i = i + 1;
    }
    if pos != payload.len() {
        return Err(PgError::Parse);
    }
    proof {
        assert(ranges_view(out@) + Seq::<Option<(int, int)>>::empty() =~= ranges_view(out@));
    }
    Ok(out)
}

/// Every range a well-formed field section denotes lies inside the payload,
/// with its start no later than its end.
pub proof fn lemma_parsed_ranges_in_bounds(payload: Seq<u8>, pos: int, remaining: nat)
    requires
        0 <= pos <= payload.len(),
        spec_parse_ranges(payload, pos, remaining) is Some,
    ensures
        forall|k: int|
            0 <= k < spec_parse_ranges(payload, pos, remaining)->0.len() ==> (
            #[trigger] spec_parse_ranges(payload, pos, remaining)->0[k] matches Option::Some(
                (a, b),
            ) ==> 0 <= a <= b <= payload.len()),
    decreases remaining,
{
    if remaining > 0 {
        let len32 = spec_be_u32(payload[pos], payload[pos + 1], payload[pos + 2], payload[pos + 3]);
        if len32 >= 0x8000_0000 {
            lemma_parsed_ranges_in_bounds(payload, pos + 4, (remaining - 1) as nat);
        } else {
            lemma_parsed_ranges_in_bounds(payload, pos + 4 + len32, (remaining - 1) as nat);
        }
    }
}

/// A well-formed field section denotes exactly one range per field.
pub proof fn lemma_parse_ranges_len(payload: Seq<u8>, pos: int, remaining: nat)
    requires
        spec_parse_ranges(payload, pos, remaining) is Some,
    ensures
        spec_parse_ranges(payload, pos, remaining)->0.len() == remaining,
    decreases remaining,
{
    if remaining > 0 {
        let len32 = spec_be_u32(payload[pos], payload[pos + 1], payload[pos + 2], payload[pos + 3]);
        if len32 >= 0x8000_0000 {
            lemma_parse_ranges_len(payload, pos + 4, (remaining - 1) as nat);
        } else {
            lemma_parse_ranges_len(payload, pos + 4 + len32, (remaining - 1) as nat);
        }
    }
}

/// A row of data returned from the database by a query.
#[derive(Debug)]
pub struct Row {
    /// The statement that produced this row.
    pub statement: Statement,
    /// The raw field section of the `DataRow` message.
    pub payload: Vec<u8>,
    /// One byte range into the payload per column, `None` for SQL NULL.
    pub ranges: Vec<Option<(usize, usize)>>,
}

impl Row {
    /// A row is well formed when it carries exactly one range per column of
    /// its statement and every range lies inside its payload.
    pub open spec fn wf(&self) -> bool {
        &&& self.ranges@.len() == self.statement.columns@.len()
        &&& forall|k: int|
            0 <= k < self.ranges@.len() ==> (#[trigger] self.ranges@[k] matches Option::Some(
            (a, b),
            ) ==> 0 <= a <= b <= self.payload@.len())
    }

    /// Builds a row from one `DataRow` message, parsing its field section
    /// and checking that it carries exactly one field per column.
    pub fn new(statement: Statement, field_count: u16, payload: Vec<u8>) -> (r: Result<
        Row,
        PgError,
    >)
        ensures
            r is Ok <==> row_decodable(statement, field_count, payload@),
            r is Ok ==> (r->Ok_0).wf(),
            r is Ok ==> (r->Ok_0).statement == statement && (r->Ok_0).payload@ == payload@ && Some(
                ranges_view((r->Ok_0).ranges@),
            ) == spec_parse_ranges(payload@, 0, field_count as nat),
            r is Err ==> r->Err_0 is Parse,
    {
        let ranges = match parse_row_ranges(&payload, field_count) {
            Ok(rs) => rs,
            Err(e) => {
                return Err(e);
            },
        };
        proof {
            lemma_parse_ranges_len(payload@, 0, field_count as nat);
            assert(ranges@.len() == ranges_view(ranges@).len());
        }
        if ranges.len() != statement.columns.len() {
            return Err(PgError::Parse);
        }
        proof {
            lemma_parsed_ranges_in_bounds(payload@, 0, field_count as nat);
            let parsed = spec_parse_ranges(payload@, 0, field_count as nat)->0;
            assert forall|k: int|
                0 <= k < ranges@.len() implies (#[trigger] ranges@[k] matches Option::Some((a, b))
                ==> 0 <= a <= b <= payload@.len()) by {
                assert(parsed[k] == ranges_view(ranges@)[k]);
            }
        }
        Ok(Row { statement, payload, ranges })
    }

    /// Returns information about the columns of data in the row.
    pub fn columns(&self) -> (r: &Vec<Column>)
        ensures
            r@ == self.statement.columns@,
    {
        self.statement.columns()
    }

    /// Returns the number of values in the row.
    pub fn len(&self) -> (r: usize)
        ensures
            r == self.statement.columns@.len(),
    {
        self.statement.columns().len()
    }

    /// Determines if the row contains no values.
    pub fn is_empty(&self) -> (r: bool)
        ensures
            r == (self.statement.columns@.len() == 0),
    {
        self.len() == 0
    }

    /// The raw bytes of the value at a resolved column position, or `None`
    /// for SQL NULL.
    pub open spec fn spec_value_at(&self, i: int) -> Option<Seq<u8>> {
        match self.ranges@[i] {
            Option::Some((a, b)) => Option::Some(self.payload@.subrange(a as int, b as int)),
            Option::None => Option::None,
        }
    }

    /// Reads a value from the row by numeric position or by column name.
    ///
    /// Returns the raw bytes of the value — `None` for SQL NULL — or a
    /// column error naming the identifier when it does not resolve.
    pub fn try_get<I: RowIndex>(&self, idx: I) -> (r: Result<Option<Vec<u8>>, PgError>)
        requires
            self.wf(),
        ensures
            r is Ok <==> idx.spec_idx(self.statement.columns@) is Some,
            r is Ok ==> value_matches(r->Ok_0, self.spec_value_at(
                idx.spec_idx(self.statement.columns@)->0,
            )),
            r is Err ==> (r->Err_0 matches PgError::Column(n) && n@ == idx.spec_render()),
    {
        let i = match idx.__idx(self.statement.columns()) {
            Some(i) => i,
            None => {
                return Err(PgError::Column(idx.render()));
            },
        };
        Ok(self.col_buffer(i))
    }

    /// Reads a value from the row by numeric position or by column name; the
    /// caller promises that the identifier resolves.
    pub fn get<I: RowIndex>(&self, idx: I) -> (r: Option<Vec<u8>>)
        requires
            self.wf(),
            idx.spec_idx(self.statement.columns@) is Some,
        ensures
            value_matches(r, self.spec_value_at(idx.spec_idx(self.statement.columns@)->0)),
    {
        match self.try_get(idx) {
            Ok(v) => v,
            Err(_) => {
                proof {
                    assert(false);
                }
                None
            },
        }
    }

    /// The raw bytes for the column at a resolved position.
    fn col_buffer(&self, i: usize) -> (r: Option<Vec<u8>>)
        requires
            self.wf(),
            i < self.ranges@.len(),
        ensures
            value_matches(r, self.spec_value_at(i as int)),
    {
        match self.ranges[i] {
            Some((a, b)) => Some(crate::wire::copy_range(&self.payload, a, b)),
            None => None,
        }
    }
}

/// Whether `row` is exactly the row that a `DataRow` with the given field
/// count and payload denotes for statement `s`.
pub open spec fn row_matches(s: Statement, row: Row, field_count: u16, payload: Seq<u8>) -> bool {
    &&& row.wf()
    &&& crate::statement::stmt_eq(row.statement, s)
    &&& row.payload@ == payload
    &&& Some(ranges_view(row.ranges@)) == spec_parse_ranges(payload, 0, field_count as nat)
}

/// Whether an executable value read from a row carries exactly the bytes the
/// model says it holds.
pub open spec fn value_matches(v: Option<Vec<u8>>, m: Option<Seq<u8>>) -> bool {
    match (v, m) {
        (Option::Some(v), Option::Some(m)) => v@ == m,
        (Option::None, Option::None) => true,
        _ => false,
    }
}

/// The position of the first column satisfying `f`, if any.
pub open spec fn first_match(cols: Seq<Column>, f: spec_fn(Column) -> bool) -> Option<int>
    decreases cols.len(),
{
    if cols.len() == 0 {
        None
    } else if f(cols[0]) {
        Some(0)
    } else {
        match first_match(cols.drop_first(), f) {
            Some(i) => Some(i + 1),
            None => None,
        }
    }
}

/// `first_match` finds the first satisfying column: the column there
/// satisfies `f`, no earlier one does, and a `None` means none does at all.
pub proof fn lemma_first_match(cols: Seq<Column>, f: spec_fn(Column) -> bool)
    ensures
        match first_match(cols, f) {
            Option::Some(i) => 0 <= i < cols.len() && f(cols[i]) && forall|k: int|
                0 <= k < i ==> !f(cols[k]),
            Option::None => forall|k: int| 0 <= k < cols.len() ==> !f(cols[k]),
        },
    decreases cols.len(),
{
    if cols.len() > 0 && !f(cols[0]) {
        let rest = cols.drop_first();
        lemma_first_match(rest, f);
        assert forall|k: int| 0 <= k < rest.len() implies #[trigger] rest[k] == cols[k + 1] by {}
        match first_match(rest, f) {
            Option::Some(i) => {
                assert(f(rest[i]));
                assert forall|k: int| 0 <= k < i + 1 implies !f(cols[k]) by {
                    if k > 0 {
                        assert(!f(rest[k - 1]));
                    }
                }
            },
            Option::None => {
                assert forall|k: int| 0 <= k < cols.len() implies !f(cols[k]) by {
                    if k > 0 {
                        assert(!f(rest[k - 1]));
                    }
                }
            },
        }
    }
}

/// The predicate satisfied by columns whose name equals `name` exactly.
pub open spec fn name_exact(name: Seq<u8>) -> spec_fn(Column) -> bool {
    |c: Column| c.name@ == name
}

/// The predicate satisfied by columns whose name equals `name` up to ASCII
/// case.
pub open spec fn name_ci(name: Seq<u8>) -> spec_fn(Column) -> bool {
    |c: Column| ci_eq(c.name@, name)
}

/// The position a name resolves to among columns: that of the first column
/// whose name matches exactly, or failing that the first whose name matches
/// ASCII case-insensitively.
pub open spec fn column_index(cols: Seq<Column>, name: Seq<u8>) -> Option<int> {
    match first_match(cols, name_exact(name)) {
        Option::Some(i) => Option::Some(i),
        Option::None => first_match(cols, name_ci(name)),
    }
}

/// Resolves a column name: first by exact match, then by ASCII
/// case-insensitive match, in declaration order.
pub fn find_column(cols: &Vec<Column>, name: &[u8]) -> (r: Option<usize>)
    ensures
        r is Some <==> column_index(cols@, name@) is Some,
        r is Some ==> r->0 as int == column_index(cols@, name@)->0 && 0 <= column_index(
            cols@,
            name@,
        )->0 < cols@.len(),
{
    let ghost exact = name_exact(name@);
    let ghost loose = name_ci(name@);
    let mut i: usize = 0;
    while i < cols.len()
        invariant
            0 <= i <= cols@.len(),
            forall|k: int| 0 <= k < i ==> !exact(#[trigger] cols@[k]),
            exact == name_exact(name@),
        decreases cols@.len() - i,
    {
        if crate::wire::bytes_eq(cols[i].name.as_slice(), name) {
            proof {
                lemma_first_match(cols@, exact);
                assert(exact(cols@[i as int]));
                if first_match(cols@, exact) is None {
                    assert(false);
                }
                if first_match(cols@, exact)->0 != i as int {
                    assert(false);
                }
            }
            return Some(i);
        }
        i = i + 1;
    }
    proof {
        lemma_first_match(cols@, exact);
        if first_match(cols@, exact) is Some {
            assert(exact(cols@[first_match(cols@, exact)->0]));
        }
        assert(first_match(cols@, exact) is None);
    }
    let mut j: usize = 0;
    while j < cols.len()
        invariant
            0 <= j <= cols@.len(),
            forall|k: int| 0 <= k < j ==> !loose(#[trigger] cols@[k]),
            loose == name_ci(name@),
            first_match(cols@, name_exact(name@)) is None,
        decreases cols@.len() - j,
    {
        if crate::wire::bytes_ci_eq(cols[j].name.as_slice(), name) {
            proof {
                assert(loose(cols@[j as int]));
                lemma_first_match(cols@, loose);
                if first_match(cols@, loose) is None {
                    assert(false);
                }
                if first_match(cols@, loose)->0 != j as int {
                    assert(false);
                }
            }
            return Some(j);
        }
        j = j + 1;
    }
    proof {
        lemma_first_match(cols@, loose);
        if first_match(cols@, loose) is Some {
            assert(loose(cols@[first_match(cols@, loose)->0]));
        }
        assert(first_match(cols@, loose) is None);
    }
    None
}

/// How row indexing resolves, for every column list: a numeric position
/// below the column count always resolves, to itself; a name resolves to
/// the first column whose name matches exactly, or — failing that — to the
/// first whose name matches ASCII case-insensitively, and fails only when
/// no column matches either way.
pub proof fn lemma_row_index_resolution(columns: Seq<Column>, i: usize, name: Seq<u8>)
    ensures
        (i as int) < columns.len() ==> i.spec_idx(columns) == Some(i as int),
        (i as int) >= columns.len() ==> i.spec_idx(columns) is None,
        match column_index(columns, name) {
            Option::Some(k) => 0 <= k < columns.len() && ((columns[k].name@ == name && forall|j: int|
                0 <= j < k ==> (#[trigger] columns[j]).name@ != name) || ((forall|j: int|
                0 <= j < columns.len() ==> (#[trigger] columns[j]).name@ != name) && ci_eq(
                columns[k].name@,
                name,
            ) && forall|j: int| 0 <= j < k ==> !ci_eq((#[trigger] columns[j]).name@, name))),
            Option::None => forall|j: int|
                0 <= j < columns.len() ==> ((#[trigger] columns[j]).name@ != name && !ci_eq(
                    columns[j].name@,
                    name,
                )),
        },
{
    let exact = name_exact(name);
    let loose = name_ci(name);
    lemma_first_match(columns, exact);
    lemma_first_match(columns, loose);
    match column_index(columns, name) {
        Option::Some(k) => {
            if first_match(columns, exact) is Some {
                assert(exact(columns[k]));
                assert forall|j: int| 0 <= j < k implies (#[trigger] columns[j]).name@ != name by {
                    assert(!exact(columns[j]));
                }
            } else {
                assert(loose(columns[k]));
                assert forall|j: int| 0 <= j < columns.len() implies (
                #[trigger] columns[j]).name@ != name by {
                    assert(!exact(columns[j]));
                }
                assert forall|j: int| 0 <= j < k implies !ci_eq(
                    (#[trigger] columns[j]).name@,
                    name,
                ) by {
                    assert(!loose(columns[j]));
                }
            }
        },
        Option::None => {
            assert forall|j: int| 0 <= j < columns.len() implies ((#[trigger] columns[j]).name@
                != name && !ci_eq(columns[j].name@, name)) by {
                assert(!exact(columns[j]));
                assert(!loose(columns[j]));
            }
        },
    }
}

/// A column-like value that exposes a name to match row indices against.
pub trait AsName {
    /// The name this value exposes.
    spec fn spec_name(&self) -> Seq<u8>;

    /// Returns the name this value exposes.
    fn as_name(&self) -> (r: &Vec<u8>)
        ensures
            r@ == self.spec_name(),
    ;
}

impl AsName for Column {
    open spec fn spec_name(&self) -> Seq<u8> {
        self.name@
    }

    fn as_name(&self) -> (r: &Vec<u8>)
        ensures
            r@ == self.spec_name(),
    {
        &self.name
    }
}

/// The marker bound of [`RowIndex`]: only the index types this crate ships
/// are meant to implement it.
pub trait Sealed {

}

impl Sealed for usize {

}

impl Sealed for &str {

}

/// A value that can index into the columns of a row: a numeric position or a
/// column name.
pub trait RowIndex: Sealed {
    /// The column position this value resolves to among the given columns.
    spec fn spec_idx(&self, columns: Seq<Column>) -> Option<int>;

    /// How this value is rendered in a column-not-found error.
    spec fn spec_render(&self) -> Seq<u8>;

    /// Resolves this value to a column position, always within bounds.
    fn __idx(&self, columns: &Vec<Column>) -> (r: Option<usize>)
        ensures
            r is Some <==> self.spec_idx(columns@) is Some,
            r is Some ==> r->0 as int == self.spec_idx(columns@)->0 && 0 <= self.spec_idx(
                columns@,
            )->0 < columns@.len(),
    ;

    /// Renders this value for a column-not-found error.
    fn render(&self) -> (r: Vec<u8>)
        ensures
            r@ == self.spec_render(),
    ;
}

impl RowIndex for usize {
    /// A numeric index resolves to itself when it is within bounds.
    open spec fn spec_idx(&self, columns: Seq<Column>) -> Option<int> {
        if (*self as int) < columns.len() {
            Some(*self as int)
        } else {
            None
        }
    }

    open spec fn spec_render(&self) -> Seq<u8> {
        dec_digits(*self as nat)
    }

    fn __idx(&self, columns: &Vec<Column>) -> (r: Option<usize>)
        ensures
            r is Some <==> self.spec_idx(columns@) is Some,
            r is Some ==> r->0 as int == self.spec_idx(columns@)->0 && 0 <= self.spec_idx(
                columns@,
            )->0 < columns@.len(),
    {
        if *self < columns.len() {
            Some(*self)
        } else {
            None
        }
    }

    fn render(&self) -> (r: Vec<u8>)
        ensures
            r@ == self.spec_render(),
    {
        let mut out: Vec<u8> = Vec::new();
        crate::wire::push_dec_digits(*self as u64, &mut out);
        proof {
            assert(out@ =~= dec_digits(*self as nat));
        }
        out
    }
}

impl RowIndex for &str {
    /// A name resolves to the first column matching exactly, or failing that
    /// the first matching ASCII case-insensitively.
    open spec fn spec_idx(&self, columns: Seq<Column>) -> Option<int> {
        column_index(columns, self.spec_bytes())
    }

    open spec fn spec_render(&self) -> Seq<u8> {
        self.spec_bytes()
    }

    fn __idx(&self, columns: &Vec<Column>) -> (r: Option<usize>)
        ensures
            r is Some <==> self.spec_idx(columns@) is Some,
            r is Some ==> r->0 as int == self.spec_idx(columns@)->0 && 0 <= self.spec_idx(
                columns@,
            )->0 < columns@.len(),
    {
        find_column(columns, self.as_bytes())
    }

    fn render(&self) -> (r: Vec<u8>)
        ensures
            r@ == self.spec_render(),
    {
        let mut out: Vec<u8> = Vec::new();
        let bytes = self.as_bytes();
        let mut i: usize = 0;
        while i < bytes.len()
            invariant
                0 <= i <= bytes@.len(),
                out@ =~= bytes@.take(i as int),
            decreases bytes@.len() - i,
        {
            out.push(bytes[i]);
            i = i + 1;
        }
        proof {
            assert(out@ =~= bytes@);
        }
        out
    }
}

} // verus!
