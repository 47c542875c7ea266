//! The engine's view of a resolved PostgreSQL type.
//!
//! Full type metadata (name, kind, schema) is the business of the type
//! catalog collaborator; everything this engine encodes or checks depends on
//! the type's OID alone, so that is what the model carries.

use vstd::prelude::*;

verus! {

/// A wire-protocol object identifier.
pub type Oid = u32;

/// A resolved PostgreSQL type, identified by its OID.
#[derive(Clone, Copy, Debug, PartialEq, Eq, Structural)]
pub struct PgType {
    /// The type's object identifier.
    pub oid: Oid,
}

impl PgType {
    /// The OID of this type.
    pub open spec fn spec_oid(&self) -> Oid {
        self.oid
    }

    /// Creates the type with the given OID.
    pub fn new(oid: Oid) -> (r: PgType)
        ensures
            r.spec_oid() == oid,
    {
        PgType { oid }
    }

    /// Returns the OID of this type.
    pub fn oid(&self) -> (r: Oid)
        ensures
            r == self.spec_oid(),
    {
        self.oid
    }
}

} // verus!
