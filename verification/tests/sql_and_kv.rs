use sylphie_database::KeyValueStore;
use sylphie_database::MigrationManager;
use sylphie_database::RegistrationCheck;
use sylphie_database::TrackingState;
use sylphie_database::create_kv_table_sql;
use sylphie_database::create_migrations_table_sql;
use sylphie_database::kv_migration_set;
use sylphie_database::query_migrations_table_sql;
use sylphie_database::replace_migrations_table_sql;

#[test]
fn create_sql_is_stable() {
    assert_eq!(
        create_migrations_table_sql(false),
        "CREATE TABLE IF NOT EXISTS sylphie_db_migrations_tracking \
         ( migration_name TEXT NOT NULL PRIMARY KEY, current_version INTEGER NOT NULL ) \
         WITHOUT ROWID; "
    );
    assert_eq!(
        create_migrations_table_sql(true),
        "CREATE TABLE IF NOT EXISTS transient.sylphie_db_migrations_tracking \
         ( migration_name TEXT NOT NULL PRIMARY KEY, current_version INTEGER NOT NULL ) \
         WITHOUT ROWID; "
    );
}

#[test]
fn query_sql_is_stable() {
    assert_eq!(
        query_migrations_table_sql(false),
        "SELECT current_version FROM sylphie_db_migrations_tracking \
         WHERE migration_name = ?; "
    );
    assert_eq!(
        query_migrations_table_sql(true),
        "SELECT current_version FROM transient.sylphie_db_migrations_tracking \
         WHERE migration_name = ?; "
    );
}

#[test]
fn replace_sql_is_stable() {
    assert_eq!(
        replace_migrations_table_sql(false),
        "REPLACE INTO sylphie_db_migrations_tracking \
         (migration_name, current_version) VALUES(?, ?); "
    );
    assert_eq!(
        replace_migrations_table_sql(true),
        "REPLACE INTO transient.sylphie_db_migrations_tracking \
         (migration_name, current_version) VALUES(?, ?); "
    );
}

#[test]
fn kv_migration_set_creates_its_table() {
    let set = kv_migration_set(true, 9);
    assert!(set.is_transient);
    assert_eq!(set.target_version, 1);
    assert_eq!(set.registration_token, 9);
    assert_eq!(set.scripts.len(), 1);
    assert_eq!(set.scripts[0].from, 0);
    assert_eq!(set.scripts[0].to, 1);
    assert_eq!(set.scripts[0].script_data, create_kv_table_sql(true));
    assert_eq!(
        create_kv_table_sql(true),
        "CREATE TABLE IF NOT EXISTS transient.sylphie_db_kv_store \
         ( key_data TEXT NOT NULL PRIMARY KEY, value_data TEXT NOT NULL ) \
         WITHOUT ROWID; "
    );

    let mut manager = MigrationManager::new();
    let mut tracking = TrackingState::new();
    let outcome = manager.execute_migration(&mut tracking, &set).unwrap();
    assert_eq!(outcome.registration, RegistrationCheck::FirstRun);
    assert_eq!(outcome.final_version, 1);
    assert_eq!(tracking.current_version(true, &set.migration_id), 1);
}

#[test]
fn kv_store_reads_what_it_wrote() {
    let mut store = KeyValueStore::new(false);
    let key = "user:1".to_string();
    assert_eq!(store.get(&key), None);

    store.set(&key, "alpha".to_string());
    assert_eq!(store.get(&key), Some(&"alpha".to_string()));

    store.set(&key, "beta".to_string());
    assert_eq!(store.get(&key), Some(&"beta".to_string()));

    let other = "user:2".to_string();
    store.set(&other, "gamma".to_string());
    assert_eq!(store.get(&key), Some(&"beta".to_string()));

    store.delete(&key);
    assert_eq!(store.get(&key), None);
    assert_eq!(store.get(&other), Some(&"gamma".to_string()));

    // Deleting an absent key is a no-op.
    store.delete(&key);
    assert_eq!(store.get(&key), None);
}
