//! The model of the two tracking tables.
//!
//! One tracking table exists per storage scope; each holds at most one
//! row per migration set id, recording the version that lineage last
//! reached in that scope. A lineage with no row is at version 0.

use crate::table::Table;
use vstd::prelude::*;

verus! {

/// The version stored for an id in one scope's tracking table; an id
/// with no row is at version 0, "never migrated".
pub open spec fn stored_version(t: Map<Seq<char>, u32>, id: Seq<char>) -> u32 {
    if t.contains_key(id) {
        t[id]
    } else {
        0
    }
}

/// The two tracking tables, one per storage scope.
pub struct TrackingState {
    /// The unqualified tracking table of the persistent scope.
    pub persistent: Table<u32>,
    /// The tracking table qualified under the transient namespace.
    pub transient: Table<u32>,
}

impl TrackingState {
    pub open spec fn wf(&self) -> bool {
        self.persistent.wf() && self.transient.wf()
    }

    /// The tracking table of the scope a migration set selects.
    pub open spec fn scope(&self, is_transient: bool) -> Map<Seq<char>, u32> {
        if is_transient {
            self.transient@
        } else {
            self.persistent@
        }
    }

    /// Two empty tracking tables: a database no migration ever ran against.
    pub fn new() -> (t: Self)
        ensures
            t.wf(),
            t.persistent@ == Map::<Seq<char>, u32>::empty(),
            t.transient@ == Map::<Seq<char>, u32>::empty(),
    {
        TrackingState { persistent: Table::new(), transient: Table::new() }
    }

    /// Reads the version stored for an id in one scope, 0 if no row exists.
    pub fn current_version(&self, is_transient: bool, id: &String) -> (v: u32)
        requires
            self.wf(),
        ensures
            v == stored_version(self.scope(is_transient), id@),
    {
        let table = if is_transient {
            &self.transient
        } else {
            &self.persistent
        };
        match table.get(id) {
            Some(v) => *v,
            None => 0,
        }
    }

    /// Writes or replaces the tracking row for an id in one scope,
    /// leaving the other scope untouched.
    pub fn set_version(&mut self, is_transient: bool, id: &String, version: u32)
        requires
            old(self).wf(),
        ensures
            final(self).wf(),
            final(self).scope(is_transient) == old(self).scope(is_transient).insert(
                id@,
                version,
            ),
            final(self).scope(!is_transient) == old(self).scope(!is_transient),
    {
        if is_transient {
            self.transient.set(id, version);
        } else {
            self.persistent.set(id, version);
        }
    }
}

} // verus!
