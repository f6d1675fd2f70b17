//! The schema cache of the connector runtime: schemas fetched from the
//! registry, by schema ID.

use std::collections::HashMap;
use vstd::prelude::*;

use crate::schema::SchemaInfo;

verus! {

/// Calls `HashMap::capacity`, which depends on the allocation; nothing is stated of it.
#[verifier::external_body]
fn map_capacity(m: &HashMap<u64, SchemaInfo>) -> usize {
    m.capacity()
}

/// Cache statistics for monitoring.
#[derive(Debug, Clone, Copy)]
pub struct CacheStats {
    /// Number of cached schemas
    pub size: usize,
    /// Cache capacity
    pub capacity: usize,
}

/// Schemas fetched from the registry, by schema ID.
#[derive(Debug)]
pub struct SchemaCache {
    entries: HashMap<u64, SchemaInfo>,
}

impl SchemaInfo {
    /// A copy of this schema.
    pub fn duplicate(&self) -> (s: Self)
        ensures
            s.schema_id == self.schema_id,
            s.subject == self.subject,
            s.version == self.version,
            s.schema_type == self.schema_type,
            s.schema_definition@ == self.schema_definition@,
            s.fingerprint == self.fingerprint,
    {
        SchemaInfo {
            schema_id: self.schema_id,
            subject: self.subject.clone(),
            version: self.version,
            schema_type: self.schema_type.clone(),
            schema_definition: self.schema_definition.clone(),
            fingerprint: self.fingerprint.clone(),
        }
    }
}

impl SchemaCache {
    /// The cached schemas.
    pub closed spec fn view(&self) -> Map<u64, SchemaInfo> {
        self.entries@
    }

    /// An empty cache.
    pub fn new() -> (c: Self)
        ensures
            c.view() == Map::<u64, SchemaInfo>::empty(),
    {
        SchemaCache { entries: HashMap::new() }
    }

    /// The cached schema with this ID, if any.
    pub fn lookup(&self, schema_id: u64) -> (r: Option<&SchemaInfo>)
        ensures
            (r is Some) == self.view().contains_key(schema_id),
            r matches Some(s) ==> *s == self.view()[schema_id],
    {
        self.entries.get(&schema_id)
    }

    /// Caches a fetched schema under its ID.
    pub fn store(&mut self, schema_id: u64, schema: SchemaInfo)
        ensures
            final(self).view() == old(self).view().insert(schema_id, schema),
    {
        self.entries.insert(schema_id, schema);
    }

    /// Number of cached schemas.
    pub fn len(&self) -> (n: usize)
        ensures
            n == self.view().len(),
    {
        self.entries.len()
    }

    /// Statistics of the cache.
    pub fn stats(&self) -> (s: CacheStats)
        ensures
            s.size == self.view().len(),
    {
        CacheStats { size: self.entries.len(), capacity: map_capacity(&self.entries) }
    }

    /// Empties the cache.
    pub fn clear(&mut self)
        ensures
            final(self).view() == Map::<u64, SchemaInfo>::empty(),
    {
        self.entries.clear();
    }
}

/// A lookup after a store gives back the stored schema, and the lookups of
/// every other schema ID give what they gave before the store.
pub proof fn lemma_lookup_after_store(before: SchemaCache, after: SchemaCache, schema_id: u64, schema: SchemaInfo, other: u64)
    requires
        after.view() == before.view().insert(schema_id, schema),
    ensures
        after.view().contains_key(schema_id),
        after.view()[schema_id] == schema,
        other != schema_id ==> after.view().contains_key(other) == before.view().contains_key(other),
        other != schema_id && before.view().contains_key(other) ==> after.view()[other]
            == before.view()[other],
{
}

} // verus!
