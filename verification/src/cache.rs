//! The client-wide cache of resolved type information.
//!
//! A client resolves each OID it meets at most once: the cache is populated
//! lazily, grows monotonically, and is never evicted except by a full
//! clear. Beside the type map it keeps the auxiliary prepared statements
//! the type catalog uses to look metadata up.

use std::collections::HashMap;

use vstd::prelude::*;

use crate::pgtype::PgType;
use crate::statement::{stmt_eq, Statement};

verus! {

broadcast use vstd::std_specs::hash::group_hash_axioms;

/// The cache of type information and of the prepared statements used to
/// fetch it.
pub struct CachedTypeInfo {
    /// The statement resolving basic information for a type from its OID.
    pub typeinfo: Option<Statement>,
    /// The statement resolving a composite type's fields from its OID.
    pub typeinfo_composite: Option<Statement>,
    /// The statement resolving an enum type's variants from its OID.
    pub typeinfo_enum: Option<Statement>,
    /// The types already looked up, by OID.
    pub types: HashMap<u32, PgType>,
}

impl CachedTypeInfo {
    /// Creates an empty cache.
    pub fn new() -> (r: CachedTypeInfo)
        ensures
            r.typeinfo is None,
            r.typeinfo_composite is None,
            r.typeinfo_enum is None,
            r.types@ == Map::<u32, PgType>::empty(),
    {
        CachedTypeInfo {
            typeinfo: None,
            typeinfo_composite: None,
            typeinfo_enum: None,
            types: HashMap::new(),
        }
    }

    /// Looks up an already-resolved type by OID.
    pub fn type_(&self, oid: u32) -> (r: Option<PgType>)
        ensures
            r is Some <==> self.types@.contains_key(oid),
            r is Some ==> r->0 == self.types@[oid],
    {
        match self.types.get(&oid) {
            Some(t) => Some(*t),
            None => None,
        }
    }

    /// Records a resolved type; the rest of the cache is untouched, so the
    /// cache only ever grows until it is cleared.
    pub fn set_type(&mut self, oid: u32, ty: PgType)
        ensures
            final(self).types@ == old(self).types@.insert(oid, ty),
            final(self).typeinfo == old(self).typeinfo,
            final(self).typeinfo_composite == old(self).typeinfo_composite,
            final(self).typeinfo_enum == old(self).typeinfo_enum,
    {
        self.types.insert(oid, ty);
    }

    /// Clears the resolved-type map, so that changed definitions can be
    /// loaded anew; the auxiliary statements are kept.
    pub fn clear_type_cache(&mut self)
        ensures
            final(self).types@ == Map::<u32, PgType>::empty(),
            final(self).typeinfo == old(self).typeinfo,
            final(self).typeinfo_composite == old(self).typeinfo_composite,
            final(self).typeinfo_enum == old(self).typeinfo_enum,
    {
        self.types.clear();
    }

    /// Returns the cached basic-typeinfo statement, if one was recorded.
    pub fn typeinfo(&self) -> (r: Option<Statement>)
        ensures
            r is Some <==> self.typeinfo is Some,
            r is Some ==> stmt_eq(r->0, self.typeinfo->0),
    {
        match &self.typeinfo {
            Some(s) => Some(s.duplicate()),
            None => None,
        }
    }

    /// Records the basic-typeinfo statement.
    pub fn set_typeinfo(&mut self, s: Statement)
        ensures
            final(self).typeinfo == Some(s),
            final(self).typeinfo_composite == old(self).typeinfo_composite,
            final(self).typeinfo_enum == old(self).typeinfo_enum,
            final(self).types@ == old(self).types@,
    {
        self.typeinfo = Some(s);
    }

    /// Returns the cached composite-typeinfo statement, if one was recorded.
    pub fn typeinfo_composite(&self) -> (r: Option<Statement>)
        ensures
            r is Some <==> self.typeinfo_composite is Some,
            r is Some ==> stmt_eq(r->0, self.typeinfo_composite->0),
    {
        match &self.typeinfo_composite {
            Some(s) => Some(s.duplicate()),
            None => None,
        }
    }

    /// Records the composite-typeinfo statement.
    pub fn set_typeinfo_composite(&mut self, s: Statement)
        ensures
            final(self).typeinfo_composite == Some(s),
            final(self).typeinfo == old(self).typeinfo,
            final(self).typeinfo_enum == old(self).typeinfo_enum,
            final(self).types@ == old(self).types@,
    {
        self.typeinfo_composite = Some(s);
    }

    /// Returns the cached enum-typeinfo statement, if one was recorded.
    pub fn typeinfo_enum(&self) -> (r: Option<Statement>)
        ensures
            r is Some <==> self.typeinfo_enum is Some,
            r is Some ==> stmt_eq(r->0, self.typeinfo_enum->0),
    {
        match &self.typeinfo_enum {
            Some(s) => Some(s.duplicate()),
            None => None,
        }
    }

    /// Records the enum-typeinfo statement.
    pub fn set_typeinfo_enum(&mut self, s: Statement)
        ensures
            final(self).typeinfo_enum == Some(s),
            final(self).typeinfo == old(self).typeinfo,
            final(self).typeinfo_composite == old(self).typeinfo_composite,
            final(self).types@ == old(self).types@,
    {
        self.typeinfo_enum = Some(s);
    }
}

} // verus!
