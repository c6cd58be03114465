//! Properties of the migration engine that relate several operations.

use crate::migrations::MigrationData;
use crate::migrations::MigrationManager;
use crate::migrations::MigrationScriptData;
use crate::migrations::RegistrationCheck;
use crate::migrations::applied_from;
use crate::migrations::applied_indices;
use crate::migrations::registration_check;
use crate::migrations::version_after;
use crate::tracking::TrackingState;
use crate::tracking::stored_version;
use vstd::prelude::*;

verus! {

/// If no script departs from version `v`, the walk from `v` applies no
/// script and stays at `v`.
pub proof fn lemma_walk_fixed_when_unmatched(scripts: Seq<MigrationScriptData>, off: int, v: u32)
    requires
        forall|i: int| 0 <= i < scripts.len() ==> scripts[i].from != v,
    ensures
        version_after(scripts, v) == v,
        applied_from(scripts, off, v).len() == 0,
    decreases scripts.len(),
{
    if scripts.len() > 0 {
        assert forall|i: int|
            0 <= i < scripts.skip(1).len() implies scripts.skip(1)[i].from != v by {
            assert(scripts.skip(1)[i] == scripts[i + 1]);
        }
        lemma_walk_fixed_when_unmatched(scripts.skip(1), off + 1, v);
    }
}

/// The scripts a walk applies form a chain: their positions are strictly
/// increasing and in range, the first applied script departs from the
/// walk's start version, each later one departs from the version the
/// previous one reached, and the walk ends at the version the last
/// applied script reaches — or stays at the start when none applies.
pub proof fn lemma_applied_scripts_chain(scripts: Seq<MigrationScriptData>, off: int, v: u32)
    ensures
        ({
            let a = applied_from(scripts, off, v);
            &&& forall|k: int| 0 <= k < a.len() ==> off <= #[trigger] a[k] < off + scripts.len()
            &&& forall|k: int| 0 <= k < a.len() - 1 ==> #[trigger] a[k] < a[k + 1]
            &&& a.len() > 0 ==> scripts[a[0] - off].from == v
            &&& forall|k: int|
                0 <= k < a.len() - 1 ==> scripts[#[trigger] a[k + 1] - off].from == scripts[a[k]
                    - off].to
            &&& a.len() > 0 ==> version_after(scripts, v) == scripts[a.last() - off].to
            &&& a.len() == 0 ==> version_after(scripts, v) == v
        }),
    decreases scripts.len(),
{
    if scripts.len() > 0 {
        let a = applied_from(scripts, off, v);
        let rest = scripts.skip(1);
        assert(forall|j: int| 0 <= j < rest.len() ==> rest[j] == scripts[j + 1]);
        if scripts[0].from == v {
            let tail = applied_from(rest, off + 1, scripts[0].to);
            lemma_applied_scripts_chain(rest, off + 1, scripts[0].to);
            assert(a == seq![off] + tail);
            assert(a[0] == off);
            assert(forall|k: int| 1 <= k < a.len() ==> a[k] == tail[k - 1]);
            if tail.len() > 0 {
                assert(rest[tail[0] - (off + 1)].from == scripts[0].to);
                assert(scripts[a[1] - off].from == scripts[a[0] - off].to);
                assert(a.last() == tail.last());
                assert(rest[tail.last() - (off + 1)] == scripts[a.last() - off]);
            }
        } else {
            lemma_applied_scripts_chain(rest, off + 1, v);
            assert(a == applied_from(rest, off + 1, v));
        }
    }
}

/// A set whose scripts stand in one unbroken chain — the first departs
/// from the walk's start version and every later one from the version
/// its predecessor reaches — is applied in full: every script runs, in
/// declaration order, and the walk ends at the last script's `to`.
pub proof fn lemma_complete_chain_applies_fully(
    scripts: Seq<MigrationScriptData>,
    off: int,
    v: u32,
)
    requires
        forall|i: int|
            0 <= i < scripts.len() ==> scripts[i].from == (if i == 0 {
                v
            } else {
                scripts[i - 1].to
            }),
    ensures
        version_after(scripts, v) == (if scripts.len() > 0 {
            scripts.last().to
        } else {
            v
        }),
        applied_from(scripts, off, v) == Seq::new(scripts.len(), |k: int| off + k),
    decreases scripts.len(),
{
    if scripts.len() == 0 {
        assert(applied_from(scripts, off, v) =~= Seq::new(0, |k: int| off + k));
    } else {
        let rest = scripts.skip(1);
        assert(forall|j: int| 0 <= j < rest.len() ==> rest[j] == scripts[j + 1]);
        assert(scripts[0].from == v);
        assert forall|i: int|
            0 <= i < rest.len() implies rest[i].from == (if i == 0 {
            scripts[0].to
        } else {
            rest[i - 1].to
        }) by {
            assert(rest[i] == scripts[i + 1]);
            if i > 0 {
                assert(rest[i - 1] == scripts[i]);
            }
        }
        lemma_complete_chain_applies_fully(rest, off + 1, scripts[0].to);
        assert(applied_from(scripts, off, v) =~= Seq::new(scripts.len(), |k: int| off + k));
        if rest.len() > 0 {
            assert(rest.last() == scripts.last());
        }
    }
}

/// Idempotent re-run: when the stored version for a set's id in the
/// set's scope already equals the set's target version, and no script of
/// the set departs from that version, running the set again applies no
/// script and the walk ends exactly at the target — so, by the contract
/// of [`MigrationManager::execute_migration`], the call commits, the
/// stored version is unchanged, and if the same set was recorded for its
/// id the call reports only a repeat.
pub proof fn lemma_idempotent_rerun(
    tracking: TrackingState,
    manager: MigrationManager,
    set: MigrationData,
)
    requires
        stored_version(tracking.scope(set.is_transient), set.migration_id@)
            == set.target_version,
        forall|i: int| 0 <= i < set.scripts@.len() ==> set.scripts@[i].from != set.target_version,
    ensures
        version_after(
            set.scripts@,
            stored_version(tracking.scope(set.is_transient), set.migration_id@),
        ) == set.target_version,
        applied_indices(
            set.scripts@,
            stored_version(tracking.scope(set.is_transient), set.migration_id@),
        ).len() == 0,
        (manager.applied_sets().contains_key(set.migration_id@)
            && manager.applied_sets()[set.migration_id@].token == set.registration_token)
            ==> registration_check(manager.applied_sets(), &set) == RegistrationCheck::Repeated,
{
    lemma_walk_fixed_when_unmatched(set.scripts@, 0, set.target_version);
}

} // verus!
