//! A versioned schema migration engine for a database split into a
//! persistent and a transient storage scope.
//!
//! Migration sets are immutable descriptions of one schema lineage; the
//! migration manager applies them one at a time against a tracking table
//! that records the current version of each lineage per scope.

mod kv;
mod laws;
mod migrations;
mod sql;
mod table;
mod tracking;

pub use kv::KeyValueStore;
pub use kv::create_kv_table_sql;
pub use kv::delete_kv_sql;
pub use kv::kv_migration_set;
pub use kv::query_kv_sql;
pub use kv::replace_kv_sql;
pub use kv::spec_create_kv_table_sql;
pub use kv::spec_delete_kv_sql;
pub use kv::spec_kv_migration_id;
pub use kv::spec_query_kv_sql;
pub use kv::spec_replace_kv_sql;
pub use laws::lemma_applied_scripts_chain;
pub use laws::lemma_complete_chain_applies_fully;
pub use laws::lemma_idempotent_rerun;
pub use laws::lemma_walk_fixed_when_unmatched;
pub use migrations::AppliedRecord;
pub use migrations::MigrationData;
pub use migrations::MigrationError;
pub use migrations::MigrationManager;
pub use migrations::MigrationOutcome;
pub use migrations::MigrationPlan;
pub use migrations::MigrationScriptData;
pub use migrations::RegistrationCheck;
pub use migrations::applied_from;
pub use migrations::applied_indices;
pub use migrations::plan_scripts;
pub use migrations::registration_check;
pub use migrations::version_after;
pub use sql::create_migrations_table_sql;
pub use sql::query_migrations_table_sql;
pub use sql::replace_migrations_table_sql;
pub use sql::spec_create_migrations_table_sql;
pub use sql::spec_query_migrations_table_sql;
pub use sql::spec_replace_migrations_table_sql;
pub use sql::spec_scope_prefix;
pub use table::Table;
pub use tracking::TrackingState;
pub use tracking::stored_version;
