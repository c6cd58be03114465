//! SQL templates for the tracking tables.
//!
//! Two structurally identical tracking tables exist, one per storage
//! scope; the transient one is qualified by a namespace prefix. The
//! exact table and column names, and the REPLACE-based upsert, are part
//! of the on-disk format and must not change.

use vstd::prelude::*;
use vstd::string::*;

verus! {

/// The namespace prefix that qualifies a statement for the transient scope.
pub open spec fn spec_scope_prefix(is_transient: bool) -> Seq<char> {
    if is_transient {
        "transient."@
    } else {
        ""@
    }
}

pub(crate) fn scope_prefix(is_transient: bool) -> (r: &'static str)
    ensures
        r@ == spec_scope_prefix(is_transient),
{
    if is_transient {
        "transient."
    } else {
        ""
    }
}

/// The statement that creates a scope's tracking table if it does not exist.
pub open spec fn spec_create_migrations_table_sql(is_transient: bool) -> Seq<char> {
    "CREATE TABLE IF NOT EXISTS "@ + spec_scope_prefix(is_transient)
        + "sylphie_db_migrations_tracking ( migration_name TEXT NOT NULL PRIMARY KEY, current_version INTEGER NOT NULL ) WITHOUT ROWID; "@
}

/// Renders the idempotent creation statement for a scope's tracking table.
pub fn create_migrations_table_sql(is_transient: bool) -> (r: String)
    ensures
        r@ == spec_create_migrations_table_sql(is_transient),
{
    let mut s = String::from_str("CREATE TABLE IF NOT EXISTS ");
    s.append(scope_prefix(is_transient));
    s.append(
        "sylphie_db_migrations_tracking ( migration_name TEXT NOT NULL PRIMARY KEY, current_version INTEGER NOT NULL ) WITHOUT ROWID; ",
    );
    s
}

/// The statement that reads a migration set's current version by id.
pub open spec fn spec_query_migrations_table_sql(is_transient: bool) -> Seq<char> {
    "SELECT current_version FROM "@ + spec_scope_prefix(is_transient)
        + "sylphie_db_migrations_tracking WHERE migration_name = ?; "@
}

/// Renders the version query for a scope's tracking table.
pub fn query_migrations_table_sql(is_transient: bool) -> (r: String)
    ensures
        r@ == spec_query_migrations_table_sql(is_transient),
{
    let mut s = String::from_str("SELECT current_version FROM ");
    s.append(scope_prefix(is_transient));
    s.append("sylphie_db_migrations_tracking WHERE migration_name = ?; ");
    s
}

/// The statement that writes or replaces a migration set's tracking row.
pub open spec fn spec_replace_migrations_table_sql(is_transient: bool) -> Seq<char> {
    "REPLACE INTO "@ + spec_scope_prefix(is_transient)
        + "sylphie_db_migrations_tracking (migration_name, current_version) VALUES(?, ?); "@
}

/// Renders the tracking-row upsert for a scope's tracking table.
pub fn replace_migrations_table_sql(is_transient: bool) -> (r: String)
    ensures
        r@ == spec_replace_migrations_table_sql(is_transient),
{
    let mut s = String::from_str("REPLACE INTO ");
    s.append(scope_prefix(is_transient));
    s.append("sylphie_db_migrations_tracking (migration_name, current_version) VALUES(?, ?); ");
    s
}

} // verus!
