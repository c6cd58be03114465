//! The keyed storage abstraction.
//!
//! A generic store bound to one storage scope. Keys and values are
//! carried here in their encoded text form; choosing and applying an
//! encoding belongs to the caller. Before any read or write, a store's
//! owner submits the one-time migration set of [`kv_migration_set`] to
//! the migration manager, which creates the backing table; afterwards
//! `get`, `set` and `delete` each run as an independent transaction and
//! take no part in the manager's serialization.

use crate::migrations::MigrationData;
use crate::migrations::MigrationScriptData;
use crate::sql::scope_prefix;
use crate::sql::spec_scope_prefix;
use crate::table::Table;
use vstd::prelude::*;
use vstd::string::*;

verus! {

/// The id under which the keyed store's migration lineage is tracked.
pub open spec fn spec_kv_migration_id() -> Seq<char> {
    "sylphie_db_kv_store 8d1a6d01-37a8-44f9-96a5-a8fe12eb9bd6"@
}

/// The statement that creates a scope's key-value table if it does not exist.
pub open spec fn spec_create_kv_table_sql(is_transient: bool) -> Seq<char> {
    "CREATE TABLE IF NOT EXISTS "@ + spec_scope_prefix(is_transient)
        + "sylphie_db_kv_store ( key_data TEXT NOT NULL PRIMARY KEY, value_data TEXT NOT NULL ) WITHOUT ROWID; "@
}

/// Renders the creation statement for a scope's key-value table.
pub fn create_kv_table_sql(is_transient: bool) -> (r: String)
    ensures
        r@ == spec_create_kv_table_sql(is_transient),
{
    let mut s = String::from_str("CREATE TABLE IF NOT EXISTS ");
    s.append(scope_prefix(is_transient));
    s.append(
        "sylphie_db_kv_store ( key_data TEXT NOT NULL PRIMARY KEY, value_data TEXT NOT NULL ) WITHOUT ROWID; ",
    );
    s
}

/// The statement that reads the value stored for a key.
pub open spec fn spec_query_kv_sql(is_transient: bool) -> Seq<char> {
    "SELECT value_data FROM "@ + spec_scope_prefix(is_transient)
        + "sylphie_db_kv_store WHERE key_data = ?; "@
}

/// Renders the read statement for a scope's key-value table.
pub fn query_kv_sql(is_transient: bool) -> (r: String)
    ensures
        r@ == spec_query_kv_sql(is_transient),
{
    let mut s = String::from_str("SELECT value_data FROM ");
    s.append(scope_prefix(is_transient));
    s.append("sylphie_db_kv_store WHERE key_data = ?; ");
    s
}

/// The statement that writes or replaces the value stored for a key.
pub open spec fn spec_replace_kv_sql(is_transient: bool) -> Seq<char> {
    "REPLACE INTO "@ + spec_scope_prefix(is_transient)
        + "sylphie_db_kv_store (key_data, value_data) VALUES(?, ?); "@
}

/// Renders the upsert statement for a scope's key-value table.
pub fn replace_kv_sql(is_transient: bool) -> (r: String)
    ensures
        r@ == spec_replace_kv_sql(is_transient),
{
    let mut s = String::from_str("REPLACE INTO ");
    s.append(scope_prefix(is_transient));
    s.append("sylphie_db_kv_store (key_data, value_data) VALUES(?, ?); ");
    s
}

/// The statement that deletes the row stored for a key.
pub open spec fn spec_delete_kv_sql(is_transient: bool) -> Seq<char> {
    "DELETE FROM "@ + spec_scope_prefix(is_transient) + "sylphie_db_kv_store WHERE key_data = ?; "@
}

/// Renders the delete statement for a scope's key-value table.
pub fn delete_kv_sql(is_transient: bool) -> (r: String)
    ensures
        r@ == spec_delete_kv_sql(is_transient),
{
    let mut s = String::from_str("DELETE FROM ");
    s.append(scope_prefix(is_transient));
    s.append("sylphie_db_kv_store WHERE key_data = ?; ");
    s
}

/// The one-time migration set a keyed store submits before any read or
/// write: one script taking its scope from version 0 to version 1 by
/// creating the backing table.
pub fn kv_migration_set(is_transient: bool, registration_token: u64) -> (r: MigrationData)
    ensures
        r.migration_id@ == spec_kv_migration_id(),
        r.is_transient == is_transient,
        r.target_version == 1,
        r.registration_token == registration_token,
        r.scripts@.len() == 1,
        r.scripts@[0].from == 0,
        r.scripts@[0].to == 1,
        r.scripts@[0].script_data@ == spec_create_kv_table_sql(is_transient),
        crate::migrations::version_after(r.scripts@, 0) == 1,
{
    let script = MigrationScriptData {
        from: 0,
        to: 1,
        script_name: String::from_str("create_kv_store_table"),
        script_data: create_kv_table_sql(is_transient),
    };
    let mut scripts: Vec<MigrationScriptData> = Vec::new();
    scripts.push(script);
    let r = MigrationData {
        migration_id: String::from_str("sylphie_db_kv_store 8d1a6d01-37a8-44f9-96a5-a8fe12eb9bd6"),
        migration_set_name: String::from_str("kv_store"),
        is_transient,
        target_version: 1,
        scripts,
        registration_token,
    };
    proof {
        assert(r.scripts@.skip(1) =~= Seq::<MigrationScriptData>::empty());
        assert(crate::migrations::version_after(Seq::<MigrationScriptData>::empty(), 1) == 1);
    }
    r
}

/// A keyed store bound to one storage scope, holding its entries in
/// encoded text form.
pub struct KeyValueStore {
    is_transient: bool,
    entries: Table<String>,
}

impl KeyValueStore {
    /// The entries, as a map from encoded key to encoded value.
    pub closed spec fn view(&self) -> Map<Seq<char>, String> {
        self.entries@
    }

    /// Whether the store works against the transient scope.
    pub closed spec fn spec_is_transient(&self) -> bool {
        self.is_transient
    }

    pub closed spec fn wf(&self) -> bool {
        self.entries.wf()
    }

    /// An empty store bound to one scope.
    pub fn new(is_transient: bool) -> (s: Self)
        ensures
            s.wf(),
            s.spec_is_transient() == is_transient,
            s@ == Map::<Seq<char>, String>::empty(),
    {
        KeyValueStore { is_transient, entries: Table::new() }
    }

    /// Reads the value stored for a key, if any.
    pub fn get(&self, key: &String) -> (r: Option<&String>)
        requires
            self.wf(),
        ensures
            match r {
                Some(v) => self@.contains_key(key@) && *v == self@[key@],
                None => !self@.contains_key(key@),
            },
    {
        self.entries.get(key)
    }

    /// Writes a value for a key, replacing any value stored before.
    pub fn set(&mut self, key: &String, value: String)
        requires
            old(self).wf(),
        ensures
            final(self).wf(),
            final(self).spec_is_transient() == old(self).spec_is_transient(),
            final(self)@ == old(self)@.insert(key@, value),
    {
        self.entries.set(key, value);
    }

    /// Deletes the value stored for a key, if any.
    pub fn delete(&mut self, key: &String)
        requires
            old(self).wf(),
        ensures
            final(self).wf(),
            final(self).spec_is_transient() == old(self).spec_is_transient(),
            final(self)@ == old(self)@.remove(key@),
    {
        self.entries.remove(key);
    }
}

} // verus!
