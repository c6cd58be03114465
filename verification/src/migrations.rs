//! The migration descriptor types, the script walk, and the manager's
//! serialized state machine.
//!
//! A migration set describes one schema lineage: an id under which its
//! current version is tracked, a target version, and an ordered list of
//! scripts, each moving the schema from one exact version to another.
//! Applying a set walks the scripts once in declaration order, running
//! each script whose `from` version equals the running version; the walk
//! must end at the target version or the whole call is discarded.

use crate::table::Table;
use crate::tracking::TrackingState;
use crate::tracking::stored_version;
use vstd::prelude::*;

verus! {

/// Stores the data for a given migration script: one atomic batch of
/// statements moving the schema between two exact versions.
#[derive(Debug)]
pub struct MigrationScriptData {
    /// The schema version this script migrates from.
    ///
    /// Version `0` represents a newly initialized database with no
    /// tables at all.
    pub from: u32,
    /// The schema version this script migrates to.
    pub to: u32,
    /// The name of the migration script.
    pub script_name: String,
    /// The migration script to run.
    pub script_data: String,
}

/// Stores the data for a given set of migrations: one schema lineage.
#[derive(Debug)]
pub struct MigrationData {
    /// The name under which this set's current version is stored in the
    /// tracking table.
    ///
    /// This must never change and must not conflict with any other
    /// migration set, so it should contain something unique such as an
    /// UUID.
    pub migration_id: String,
    /// The name of the migration set that is displayed to the user.
    pub migration_set_name: String,
    /// Whether this migration set is for the transient database.
    pub is_transient: bool,
    /// The schema version this set migrates to.
    pub target_version: u32,
    /// The scripts of this migration set.
    ///
    /// Each script is checked in order, and applied if its `from`
    /// version matches the running version, so scripts should be sorted
    /// in the order they are meant to apply in.
    pub scripts: Vec<MigrationScriptData>,
    /// A token distinguishing this set from any other set constructed in
    /// the same process, used only to tell a repeated registration of
    /// the same set apart from two different sets sharing an id.
    pub registration_token: u64,
}

/// The version the walk reaches: scripts are scanned once in order, and
/// each one whose `from` equals the running version advances it to `to`.
pub open spec fn version_after(scripts: Seq<MigrationScriptData>, v: u32) -> u32
    decreases scripts.len(),
{
    if scripts.len() == 0 {
        v
    } else if scripts[0].from == v {
        version_after(scripts.skip(1), scripts[0].to)
    } else {
        version_after(scripts.skip(1), v)
    }
}

/// The positions of the scripts the walk applies, offset by `off`.
pub open spec fn applied_from(scripts: Seq<MigrationScriptData>, off: int, v: u32) -> Seq<int>
    decreases scripts.len(),
{
    if scripts.len() == 0 {
        Seq::empty()
    } else if scripts[0].from == v {
        seq![off] + applied_from(scripts.skip(1), off + 1, scripts[0].to)
    } else {
        applied_from(scripts.skip(1), off + 1, v)
    }
}

/// The positions, in declaration order, of the scripts the walk applies
/// when it starts at version `v`.
pub open spec fn applied_indices(scripts: Seq<MigrationScriptData>, v: u32) -> Seq<int> {
    applied_from(scripts, 0, v)
}

/// The plan for one migration call: which scripts to run, in order, and
/// the version the walk ends at.
pub struct MigrationPlan {
    /// Positions into the set's script list, in the order they apply.
    pub applied: Vec<usize>,
    /// The version reached after the walk; the call may only commit if
    /// this equals the set's target version.
    pub final_version: u32,
}

/// Walks a script list once from `start_version` and returns which
/// scripts apply and where the walk ends.
pub fn plan_scripts(scripts: &Vec<MigrationScriptData>, start_version: u32) -> (r: MigrationPlan)
    ensures
        r.final_version == version_after(scripts@, start_version),
        r.applied@.map_values(|u: usize| u as int) == applied_indices(scripts@, start_version),
        forall|j: int| 0 <= j < r.applied@.len() ==> r.applied@[j] < scripts@.len(),
{
    let ghost all = scripts@;
    let mut applied: Vec<usize> = Vec::new();
    let mut current: u32 = start_version;
    let mut i: usize = 0;
    proof {
        assert(all.skip(0) =~= all);
        assert(applied@.map_values(|u: usize| u as int) =~= Seq::<int>::empty());
        assert(Seq::<int>::empty() + applied_from(all, 0, start_version) =~= applied_from(
            all,
            0,
            start_version,
        ));
    }
    while i < scripts.len()
        invariant
            i <= all.len(),
            all == scripts@,
            version_after(all.skip(i as int), current) == version_after(all, start_version),
            applied@.map_values(|u: usize| u as int) + applied_from(all.skip(i as int), i as int, current)
                == applied_indices(all, start_version),
            forall|j: int| 0 <= j < applied@.len() ==> applied@[j] < all.len(),
        decreases all.len() - i,
    {
        proof {
            assert(all.skip(i as int).len() == all.len() - i);
            assert(all.skip(i as int)[0] == all[i as int]);
            assert(all.skip(i as int).skip(1) =~= all.skip(i as int + 1));
        }
        if scripts[i].from == current {
            let ghost before = applied@;
            applied.push(i);
            proof {
                assert(applied@.map_values(|u: usize| u as int) =~= before.map_values(
                    |u: usize| u as int,
                ) + seq![i as int]);
                assert(before.map_values(|u: usize| u as int) + (seq![i as int] + applied_from(
                    all.skip(i as int + 1),
                    i as int + 1,
                    all[i as int].to,
                )) =~= (before.map_values(|u: usize| u as int) + seq![i as int]) + applied_from(
                    all.skip(i as int + 1),
                    i as int + 1,
                    all[i as int].to,
                ));
            }
            current = scripts[i].to;
        }
        i = i + 1;
    }
    proof {
        assert(all.skip(all.len() as int) =~= Seq::<MigrationScriptData>::empty());
        assert(applied@.map_values(|u: usize| u as int) + Seq::<int>::empty() =~= applied@
            .map_values(|u: usize| u as int));
    }
    MigrationPlan { applied, final_version: current }
}

/// What the manager's registry remembers of the set last executed for
/// an id: enough to tell a repeat from a conflicting registration.
pub struct AppliedRecord {
    /// The registration token of the set.
    pub token: u64,
    /// The display name of the set, reported when a conflict is found.
    pub set_name: String,
}

/// The outcome of comparing a set against the registry of sets already
/// executed this process. A conflict is a soft check only: it is
/// reported, never fatal.
#[derive(Debug, PartialEq, Eq)]
pub enum RegistrationCheck {
    /// No set with this id has been executed in this process.
    FirstRun,
    /// The same set was executed before; harmless, worth a warning.
    Repeated,
    /// A different set sharing the id was executed before: its scripts
    /// will run against whatever version that set left stored.
    Conflicting {
        /// The display name of the set executed earlier under this id.
        prior_name: String,
    },
}

/// How a set relates to the registry of sets already executed.
pub open spec fn registration_check(
    applied: Map<Seq<char>, AppliedRecord>,
    set: &MigrationData,
) -> RegistrationCheck {
    if !applied.contains_key(set.migration_id@) {
        RegistrationCheck::FirstRun
    } else if applied[set.migration_id@].token == set.registration_token {
        RegistrationCheck::Repeated
    } else {
        RegistrationCheck::Conflicting { prior_name: applied[set.migration_id@].set_name }
    }
}

/// The fatal, explicitly raised errors of the migration engine. Driver
/// failures are the caller's to carry; this engine raises only the
/// version-mismatch abort.
#[derive(Debug, PartialEq, Eq)]
pub enum MigrationError {
    /// The walk over the set's scripts ended at a version other than the
    /// set's target: the call is discarded without commit.
    VersionMismatch {
        /// The display name of the set that failed.
        set_name: String,
        /// The version the set intended to reach.
        target_version: u32,
        /// The stored version the walk started from.
        start_version: u32,
        /// The version the walk actually reached.
        reached_version: u32,
    },
}

/// What one committed migration call did.
#[derive(Debug)]
pub struct MigrationOutcome {
    /// How the set related to the sets already executed this process.
    pub registration: RegistrationCheck,
    /// The stored version the walk started from.
    pub start_version: u32,
    /// The version the walk ended at; equals the set's target.
    pub final_version: u32,
    /// Positions of the scripts that were applied, in order.
    pub applied: Vec<usize>,
}

/// The orchestrator: owns the process-lifetime state that serializes
/// migration application, tracks which sets ran, and detects conflicts.
///
/// Exclusive access (`&mut self`) stands in for the process-wide
/// serialization the embedding runtime must provide: at most one
/// migration call is mid-flight at any time.
pub struct MigrationManager {
    tables_created: bool,
    last_applied: Table<AppliedRecord>,
}

impl MigrationManager {
    /// Whether the two tracking tables have been created this process.
    pub closed spec fn spec_tables_created(&self) -> bool {
        self.tables_created
    }

    /// The registry of sets already executed, by id.
    pub closed spec fn applied_sets(&self) -> Map<Seq<char>, AppliedRecord> {
        self.last_applied@
    }

    pub closed spec fn wf(&self) -> bool {
        self.last_applied.wf()
    }

    /// A manager for a fresh process: no tables created, nothing applied.
    pub fn new() -> (m: Self)
        ensures
            m.wf(),
            !m.spec_tables_created(),
            m.applied_sets() == Map::<Seq<char>, AppliedRecord>::empty(),
    {
        MigrationManager { tables_created: false, last_applied: Table::new() }
    }

    /// Whether the tracking tables still need to be created this process.
    pub fn tables_needed(&self) -> (r: bool)
        ensures
            r == !self.spec_tables_created(),
    {
        !self.tables_created
    }

    /// Records that the two tracking tables were created, so that later
    /// calls skip the creation statements.
    pub fn mark_tables_created(&mut self)
        requires
            old(self).wf(),
        ensures
            final(self).wf(),
            final(self).spec_tables_created(),
            final(self).applied_sets() == old(self).applied_sets(),
    {
        self.tables_created = true;
    }

    /// Compares a set against the registry of sets already executed.
    pub fn check_registration(&self, set: &MigrationData) -> (r: RegistrationCheck)
        requires
            self.wf(),
        ensures
            r == registration_check(self.applied_sets(), set),
    {
        match self.last_applied.get(&set.migration_id) {
            Some(record) => {
                if record.token == set.registration_token {
                    RegistrationCheck::Repeated
                } else {
                    RegistrationCheck::Conflicting { prior_name: record.set_name.clone() }
                }
            },
            None => RegistrationCheck::FirstRun,
        }
    }

    /// Records a set as the last executed for its id, for future
    /// conflict detection. Called only after a successful commit.
    pub fn record_applied(&mut self, set: &MigrationData)
        requires
            old(self).wf(),
        ensures
            final(self).wf(),
            final(self).spec_tables_created() == old(self).spec_tables_created(),
            final(self).applied_sets() == old(self).applied_sets().insert(
                set.migration_id@,
                (AppliedRecord { token: set.registration_token, set_name: set.migration_set_name }),
            ),
    {
        let record = AppliedRecord {
            token: set.registration_token,
            set_name: set.migration_set_name.clone(),
        };
        self.last_applied.set(&set.migration_id, record);
    }

    /// Applies one migration set against the tracking state, with
    /// all-or-nothing semantics per call.
    ///
    /// The stored version for the set's id in the set's scope is read,
    /// the scripts are walked once in declaration order, and each script
    /// whose `from` matches the running version advances it. If the walk
    /// ends at the set's target version the new version is committed and
    /// the set is recorded for conflict detection; otherwise nothing is
    /// committed and a version-mismatch error reports the set's name,
    /// its target, and the versions the walk started and ended at. The
    /// scope the set does not select is never touched.
    pub fn execute_migration(
        &mut self,
        tracking: &mut TrackingState,
        set: &MigrationData,
    ) -> (r: Result<MigrationOutcome, MigrationError>)
        requires
            old(self).wf(),
            old(tracking).wf(),
        ensures
            final(self).wf(),
            final(tracking).wf(),
            final(self).spec_tables_created(),
            final(tracking).scope(!set.is_transient) == old(tracking).scope(!set.is_transient),
            ({
                let start = stored_version(
                    old(tracking).scope(set.is_transient),
                    set.migration_id@,
                );
                let reached = version_after(set.scripts@, start);
                let applied = applied_indices(set.scripts@, start);
                if reached == set.target_version {
                    &&& r is Ok
                    &&& r->Ok_0.start_version == start
                    &&& r->Ok_0.final_version == reached
                    &&& r->Ok_0.registration == registration_check(old(self).applied_sets(), set)
                    &&& r->Ok_0.applied@.map_values(|u: usize| u as int) == applied
                    &&& final(tracking).scope(set.is_transient) == (if applied.len() > 0 {
                        old(tracking).scope(set.is_transient).insert(set.migration_id@, reached)
                    } else {
                        old(tracking).scope(set.is_transient)
                    })
                    &&& final(self).applied_sets() == old(self).applied_sets().insert(
                        set.migration_id@,
                        (AppliedRecord {
                            token: set.registration_token,
                            set_name: set.migration_set_name,
                        }),
                    )
                } else {
                    &&& r is Err
                    &&& r->Err_0 == (MigrationError::VersionMismatch {
                        set_name: set.migration_set_name,
                        target_version: set.target_version,
                        start_version: start,
                        reached_version: reached,
                    })
                    &&& final(tracking).scope(set.is_transient) == old(tracking).scope(
                        set.is_transient,
                    )
                    &&& final(self).applied_sets() == old(self).applied_sets()
                }
            }),
    {
        self.tables_created = true;
        let registration = self.check_registration(set);
        let start_version = tracking.current_version(set.is_transient, &set.migration_id);
        let plan = plan_scripts(&set.scripts, start_version);
        if plan.final_version != set.target_version {
            return Err(
                MigrationError::VersionMismatch {
                    set_name: set.migration_set_name.clone(),
                    target_version: set.target_version,
                    start_version,
                    reached_version: plan.final_version,
                },
            );
        }
        if plan.applied.len() > 0 {
            tracking.set_version(set.is_transient, &set.migration_id, plan.final_version);
        }
        self.record_applied(set);
        Ok(
            MigrationOutcome {
                registration,
                start_version,
                final_version: plan.final_version,
                applied: plan.applied,
            },
        )
    }
}

} // verus!
