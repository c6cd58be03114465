use sylphie_database::MigrationData;
use sylphie_database::MigrationError;
use sylphie_database::MigrationManager;
use sylphie_database::MigrationScriptData;
use sylphie_database::RegistrationCheck;
use sylphie_database::TrackingState;
use sylphie_database::plan_scripts;

fn script(from: u32, to: u32, name: &str, body: &str) -> MigrationScriptData {
    MigrationScriptData {
        from,
        to,
        script_name: name.to_string(),
        script_data: body.to_string(),
    }
}

fn two_step_set(token: u64) -> MigrationData {
    MigrationData {
        migration_id: "test-set-1f2e".to_string(),
        migration_set_name: "test_set".to_string(),
        is_transient: false,
        target_version: 2,
        scripts: vec![
            script(0, 1, "create", "CREATE TABLE a (x INTEGER);"),
            script(1, 2, "addcol", "ALTER TABLE a ADD COLUMN y INTEGER;"),
        ],
        registration_token: token,
    }
}

#[test]
fn fresh_apply_reaches_target() {
    let mut manager = MigrationManager::new();
    let mut tracking = TrackingState::new();
    let set = two_step_set(1);

    let outcome = manager.execute_migration(&mut tracking, &set).unwrap();
    assert_eq!(outcome.registration, RegistrationCheck::FirstRun);
    assert_eq!(outcome.start_version, 0);
    assert_eq!(outcome.final_version, 2);
    assert_eq!(outcome.applied, vec![0, 1]);
    assert_eq!(tracking.current_version(false, &set.migration_id), 2);
}

#[test]
fn rerun_at_target_is_noop() {
    let mut manager = MigrationManager::new();
    let mut tracking = TrackingState::new();
    let set = two_step_set(1);

    manager.execute_migration(&mut tracking, &set).unwrap();
    let outcome = manager.execute_migration(&mut tracking, &set).unwrap();
    assert_eq!(outcome.registration, RegistrationCheck::Repeated);
    assert_eq!(outcome.start_version, 2);
    assert_eq!(outcome.final_version, 2);
    assert_eq!(outcome.applied, Vec::<usize>::new());
    assert_eq!(tracking.current_version(false, &set.migration_id), 2);
}

#[test]
fn conflicting_identity_warns_and_proceeds_from_stored_version() {
    let mut manager = MigrationManager::new();
    let mut tracking = TrackingState::new();
    let first = two_step_set(1);
    manager.execute_migration(&mut tracking, &first).unwrap();

    // A different set under the same id: the soft check reports the
    // conflict, and the scripts run against whatever version the first
    // set left stored. Asserted as a known risk, not desired behavior.
    let second = MigrationData {
        migration_id: first.migration_id.clone(),
        migration_set_name: "other_lineage".to_string(),
        is_transient: false,
        target_version: 3,
        scripts: vec![script(2, 3, "extend", "CREATE TABLE b (z INTEGER);")],
        registration_token: 2,
    };
    let outcome = manager.execute_migration(&mut tracking, &second).unwrap();
    assert_eq!(
        outcome.registration,
        RegistrationCheck::Conflicting { prior_name: "test_set".to_string() }
    );
    assert_eq!(outcome.start_version, 2);
    assert_eq!(outcome.applied, vec![0]);
    assert_eq!(tracking.current_version(false, &second.migration_id), 3);
}

#[test]
fn incomplete_chain_aborts_without_commit() {
    let mut manager = MigrationManager::new();
    let mut tracking = TrackingState::new();
    let set = MigrationData {
        migration_id: "gapped-set".to_string(),
        migration_set_name: "gapped".to_string(),
        is_transient: false,
        target_version: 3,
        scripts: vec![
            script(0, 1, "create", "CREATE TABLE a (x INTEGER);"),
            script(2, 3, "late", "CREATE TABLE c (w INTEGER);"),
        ],
        registration_token: 7,
    };

    let err = manager.execute_migration(&mut tracking, &set).unwrap_err();
    assert_eq!(
        err,
        MigrationError::VersionMismatch {
            set_name: "gapped".to_string(),
            target_version: 3,
            start_version: 0,
            reached_version: 1,
        }
    );
    // Nothing was committed: the stored version is unchanged and the set
    // was not recorded as executed.
    assert_eq!(tracking.current_version(false, &set.migration_id), 0);
    assert_eq!(manager.check_registration(&set), RegistrationCheck::FirstRun);
}

#[test]
fn scope_isolation_tracks_each_scope_independently() {
    let mut manager = MigrationManager::new();
    let mut tracking = TrackingState::new();

    let mut transient_set = two_step_set(1);
    transient_set.is_transient = true;
    manager.execute_migration(&mut tracking, &transient_set).unwrap();
    assert_eq!(tracking.current_version(true, &transient_set.migration_id), 2);
    assert_eq!(tracking.current_version(false, &transient_set.migration_id), 0);

    // A persistent set under the same id is tracked on its own row.
    let persistent_set = MigrationData {
        is_transient: false,
        target_version: 1,
        scripts: vec![script(0, 1, "create", "CREATE TABLE a (x INTEGER);")],
        registration_token: 2,
        ..two_step_set(2)
    };
    manager.execute_migration(&mut tracking, &persistent_set).unwrap();
    assert_eq!(tracking.current_version(false, &persistent_set.migration_id), 1);
    assert_eq!(tracking.current_version(true, &persistent_set.migration_id), 2);
}

#[test]
fn superset_of_history_skips_applied_scripts() {
    let set = two_step_set(1);
    let plan = plan_scripts(&set.scripts, 1);
    assert_eq!(plan.applied, vec![1]);
    assert_eq!(plan.final_version, 2);
}

#[test]
fn plan_walks_scripts_in_declaration_order() {
    let scripts = vec![
        script(1, 2, "second", "B"),
        script(0, 1, "first", "A"),
        script(2, 3, "third", "C"),
    ];
    // The walk is a single pass in declaration order: from version 0 the
    // 1->2 script standing first is skipped and never returned to, so a
    // mis-ordered set stalls at version 1.
    let plan = plan_scripts(&scripts, 0);
    assert_eq!(plan.applied, vec![1]);
    assert_eq!(plan.final_version, 1);
}

#[test]
fn empty_set_at_target_zero_commits_without_writing() {
    let mut manager = MigrationManager::new();
    let mut tracking = TrackingState::new();
    let set = MigrationData {
        migration_id: "empty-set".to_string(),
        migration_set_name: "empty".to_string(),
        is_transient: false,
        target_version: 0,
        scripts: Vec::new(),
        registration_token: 5,
    };

    let outcome = manager.execute_migration(&mut tracking, &set).unwrap();
    assert_eq!(outcome.start_version, 0);
    assert_eq!(outcome.final_version, 0);
    assert_eq!(outcome.applied, Vec::<usize>::new());
    // Version 0 still denotes "never migrated": no tracking row is written
    // when no script applies, but the set is recorded as executed.
    assert_eq!(tracking.current_version(false, &set.migration_id), 0);
    assert_eq!(manager.check_registration(&set), RegistrationCheck::Repeated);
}

#[test]
fn empty_set_with_positive_target_aborts() {
    let mut manager = MigrationManager::new();
    let mut tracking = TrackingState::new();
    let set = MigrationData {
        migration_id: "empty-set".to_string(),
        migration_set_name: "empty".to_string(),
        is_transient: false,
        target_version: 1,
        scripts: Vec::new(),
        registration_token: 5,
    };

    let err = manager.execute_migration(&mut tracking, &set).unwrap_err();
    assert_eq!(
        err,
        MigrationError::VersionMismatch {
            set_name: "empty".to_string(),
            target_version: 1,
            start_version: 0,
            reached_version: 0,
        }
    );
}

#[test]
fn repeat_and_conflict_detection_uses_tokens() {
    let mut manager = MigrationManager::new();
    let mut tracking = TrackingState::new();
    let set = two_step_set(40);
    assert_eq!(manager.check_registration(&set), RegistrationCheck::FirstRun);

    manager.execute_migration(&mut tracking, &set).unwrap();
    assert_eq!(manager.check_registration(&set), RegistrationCheck::Repeated);

    let rival = two_step_set(41);
    assert_eq!(
        manager.check_registration(&rival),
        RegistrationCheck::Conflicting { prior_name: "test_set".to_string() }
    );
}
