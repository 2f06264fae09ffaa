//! The decisions of applying and reverting a tweak: what is backed up, what
//! is changed, and with which value a tweak is put back.

use vstd::prelude::*;

use crate::backup::{recorded, BackupManager, BackupRecordView, BackupState, Timestamp};
use crate::text::str_eq;
use crate::tweaks::Tweak;

verus! {

/// What applying a tweak comes to, once its current value has been read.
pub enum ApplyStep {
    /// The current value could not be read: nothing is backed up or changed.
    Unreadable,
    /// A dry run: the value would be backed up and the tweak applied.
    DryRun { original: String },
    /// The value is backed up and the tweak must now be applied;
    /// `state_changed` says whether the backups must be saved first.
    Apply { state_changed: bool },
}

/// What reverting a tweak comes to, given the backups.
pub enum RevertStep {
    /// The tweak has no backup: it was most likely never applied.
    NoBackup,
    /// A dry run: the tweak would be put back to `original`.
    DryRun { original: String },
    /// The tweak must be put back to `original`; its backup is dropped once
    /// that succeeded.
    Revert { original: String },
}

/// The backups after applying tweak `tweak_id`, which found `original`
/// (none when it could not be read), at `timestamp`.
pub open spec fn applied_state(
    m: Map<Seq<char>, BackupRecordView>,
    tweak_id: Seq<char>,
    original: Option<Seq<char>>,
    dry_run: bool,
    timestamp: Timestamp,
) -> Map<Seq<char>, BackupRecordView> {
    match original {
        Some(o) => if dry_run {
            m
        } else {
            recorded(m, tweak_id, o, timestamp)
        },
        None => m,
    }
}

/// The value that tweak `tweak_id` is put back to: its backed up value.
pub open spec fn revert_value(m: Map<Seq<char>, BackupRecordView>, tweak_id: Seq<char>) -> Option<
    Seq<char>,
> {
    if m.contains_key(tweak_id) {
        Some(m[tweak_id].original_value)
    } else {
        None
    }
}

/// The characters of an optional string.
pub open spec fn string_option_view(s: Option<String>) -> Option<Seq<char>> {
    match s {
        Some(v) => Some(v@),
        None => None,
    }
}

/// Applies `tweak`, whose current value was read as `original`: backs the
/// value up in `state` (keeping an earlier backup) unless this is a dry run,
/// and says what is left to do.
pub fn apply_tweak<T: Tweak>(
    tweak: &T,
    backup_manager: &BackupManager,
    state: &mut BackupState,
    original: Option<String>,
    dry_run: bool,
) -> (step: ApplyStep)
    ensures
        exists|t: Timestamp|
            final(state)@ == #[trigger] applied_state(
                old(state)@,
                tweak.spec_id(),
                string_option_view(original),
                dry_run,
                t,
            ),
        match original {
            None => step is Unreadable,
            Some(o) => if dry_run {
                step matches ApplyStep::DryRun { original: d } && d@ == o@
            } else {
                step matches ApplyStep::Apply { state_changed } && state_changed == !old(
                    state,
                )@.contains_key(tweak.spec_id())
            },
        },
{
    let ghost ov = string_option_view(original);
    let ghost t0 = Timestamp { secs: 0, nanos: 0 };
    match original {
        None => {
            assert(applied_state(old(state)@, tweak.spec_id(), ov, dry_run, t0) == old(state)@);
            ApplyStep::Unreadable
        },
        Some(orig) => {
            if dry_run {
                assert(applied_state(old(state)@, tweak.spec_id(), ov, dry_run, t0) == old(state)@);
                ApplyStep::DryRun { original: orig }
            } else {
                let id = tweak.id();
                let changed = backup_manager.record_backup(state, id, orig.as_str());
                proof {
                    let t = choose|t: Timestamp| state@ == recorded(old(state)@, id@, orig@, t);
                    assert(applied_state(old(state)@, tweak.spec_id(), ov, dry_run, t) == state@);
                }
                ApplyStep::Apply { state_changed: changed }
            }
        },
    }
}

/// Whether `step` is the revert step of tweak `tweak_id` given the backups
/// `m`: none without a backup, else the backed up value, in a dry run or not.
pub open spec fn revert_step_matches(
    step: RevertStep,
    m: Map<Seq<char>, BackupRecordView>,
    tweak_id: Seq<char>,
    dry_run: bool,
) -> bool {
    match revert_value(m, tweak_id) {
        None => step is NoBackup,
        Some(v) => if dry_run {
            step matches RevertStep::DryRun { original } && original@ == v
        } else {
            step matches RevertStep::Revert { original } && original@ == v
        },
    }
}

/// Reverts `tweak` given the backups in `state`: to its backed up value,
/// or nothing when it has no backup.
pub fn revert_tweak<T: Tweak>(tweak: &T, state: &BackupState, dry_run: bool) -> (step: RevertStep)
    ensures
        revert_step_matches(step, state@, tweak.spec_id(), dry_run),
{
    match state.get(tweak.id()) {
        None => RevertStep::NoBackup,
        Some(record) => {
            let original = record.original_value.clone();
            if dry_run {
                RevertStep::DryRun { original }
            } else {
                RevertStep::Revert { original }
            }
        },
    }
}

/// A tweak applied from backups that hold none of it is reverted to the
/// value it found, and dropping its backup then gives back the backups
/// from before it was applied.
pub proof fn lemma_revert_restores_original(
    m: Map<Seq<char>, BackupRecordView>,
    tweak_id: Seq<char>,
    original: Seq<char>,
    t: Timestamp,
)
    requires
        !m.contains_key(tweak_id),
    ensures
        revert_value(applied_state(m, tweak_id, Some(original), false, t), tweak_id) == Some(
            original,
        ),
        applied_state(m, tweak_id, Some(original), false, t).remove(tweak_id) == m,
{
    assert(applied_state(m, tweak_id, Some(original), false, t).remove(tweak_id) =~= m);
}

/// Applying a tweak again never changes the value it will be reverted to:
/// that stays the value found the first time.
pub proof fn lemma_reapply_keeps_revert_value(
    m: Map<Seq<char>, BackupRecordView>,
    tweak_id: Seq<char>,
    original: Option<Seq<char>>,
    dry_run: bool,
    t: Timestamp,
)
    requires
        m.contains_key(tweak_id),
    ensures
        revert_value(applied_state(m, tweak_id, original, dry_run, t), tweak_id) == revert_value(
            m,
            tweak_id,
        ),
{
}

/// A dry run, or a tweak whose value cannot be read, leaves the backups as
/// they were.
pub proof fn lemma_dry_run_changes_nothing(
    m: Map<Seq<char>, BackupRecordView>,
    tweak_id: Seq<char>,
    original: Option<Seq<char>>,
    t: Timestamp,
)
    ensures
        applied_state(m, tweak_id, original, true, t) == m,
        applied_state(m, tweak_id, None, false, t) == m,
{
}

/// Whether the tweak is to be applied after its apply step, given whether
/// saving the backups succeeded: only for an `Apply` step, and only once
/// the backups that changed were saved, so that no tweak is applied before
/// its original value is kept.
pub fn apply_allowed(step: &ApplyStep, save_succeeded: bool) -> (r: bool)
    ensures
        r == (*step matches ApplyStep::Apply { state_changed } && (state_changed ==> save_succeeded)),
{
    match step {
        ApplyStep::Apply { state_changed } => !*state_changed || save_succeeded,
        _ => false,
    }
}

/// Whether the backup of a tweak is dropped after its revert step was
/// carried out: only after a revert that succeeded.
pub fn revert_finished(step: &RevertStep, revert_succeeded: bool) -> (drop_backup: bool)
    ensures
        drop_backup == (step is Revert && revert_succeeded),
{
    match step {
        RevertStep::Revert { .. } => revert_succeeded,
        _ => false,
    }
}

/// One tweak of "restore all": from the number of tweaks reverted so far,
/// the tweak's revert step and whether its revert succeeded, the new number
/// and whether its backup is dropped. A dry run counts every tweak that has
/// a backup; a real run counts, and drops the backup of, each tweak whose
/// revert succeeded.
pub fn revert_all_step(count: u64, step: &RevertStep, revert_succeeded: bool) -> (r: (u64, bool))
    requires
        count < u64::MAX,
    ensures
        r.0 == revert_all_step_spec(count as int, *step, revert_succeeded).0,
        r.1 == revert_all_step_spec(count as int, *step, revert_succeeded).1,
        match step {
            RevertStep::NoBackup => r == (count, false),
            RevertStep::DryRun { .. } => r == ((count + 1) as u64, false),
            RevertStep::Revert { .. } => r == if revert_succeeded {
                ((count + 1) as u64, true)
            } else {
                (count, false)
            },
        },
{
    let drop_backup = revert_finished(step, revert_succeeded);
    match step {
        RevertStep::NoBackup => (count, false),
        RevertStep::DryRun { .. } => (count + 1, false),
        RevertStep::Revert { .. } => if drop_backup {
            (count + 1, true)
        } else {
            (count, false)
        },
    }
}

/// "Restore all" over the tweaks `ids`, in order, from the backups `m`,
/// where `succeeded[i]` says whether the revert of `ids[i]` succeeded: the
/// number of tweaks reverted and the backups left.
pub open spec fn restore_all(
    m: Map<Seq<char>, BackupRecordView>,
    ids: Seq<Seq<char>>,
    succeeded: Seq<bool>,
    dry_run: bool,
) -> (int, Map<Seq<char>, BackupRecordView>)
    decreases ids.len(),
{
    if ids.len() == 0 {
        (0, m)
    } else {
        let (c, m1) = restore_all(m, ids.drop_last(), succeeded, dry_run);
        restore_step(c, m1, ids.last(), dry_run, succeeded[ids.len() - 1])
    }
}

/// One tweak of "restore all" from `c` tweaks reverted and the backups
/// `m1`: the new number and the backups left.
pub open spec fn restore_step(
    c: int,
    m1: Map<Seq<char>, BackupRecordView>,
    id: Seq<char>,
    dry_run: bool,
    succeeded: bool,
) -> (int, Map<Seq<char>, BackupRecordView>) {
    if revert_value(m1, id) is None {
        (c, m1)
    } else if dry_run {
        (c + 1, m1)
    } else if succeeded {
        (c + 1, m1.remove(id))
    } else {
        (c, m1)
    }
}

/// What `revert_all_step` gives: the new number of tweaks reverted and
/// whether the backup is dropped.
pub open spec fn revert_all_step_spec(count: int, step: RevertStep, revert_succeeded: bool) -> (int, bool) {
    match step {
        RevertStep::NoBackup => (count, false),
        RevertStep::DryRun { .. } => (count + 1, false),
        RevertStep::Revert { .. } => if revert_succeeded {
            (count + 1, true)
        } else {
            (count, false)
        },
    }
}

/// The steps that the library decides for "restore all" are those of
/// `restore_all`: for a revert step decided by `revert_tweak` on the
/// backups `m1`, `revert_all_step` and the dropping of the backup it asks
/// for give the number and the backups of `restore_step`.
pub proof fn lemma_revert_all_step_folds(
    c: int,
    m1: Map<Seq<char>, BackupRecordView>,
    id: Seq<char>,
    dry_run: bool,
    step: RevertStep,
    succeeded: bool,
)
    requires
        revert_step_matches(step, m1, id, dry_run),
    ensures
        ({
            let (c2, drop_backup) = revert_all_step_spec(c, step, succeeded);
            (c2, if drop_backup {
                m1.remove(id)
            } else {
                m1
            }) == restore_step(c, m1, id, dry_run, succeeded)
        }),
{
}

/// "Restore all" in a dry run keeps every backup; when every revert
/// succeeds it drops exactly the backups of the tweaks it went through and
/// keeps the others; and it never counts more tweaks than it went through.
pub proof fn lemma_restore_all(
    m: Map<Seq<char>, BackupRecordView>,
    ids: Seq<Seq<char>>,
    succeeded: Seq<bool>,
)
    ensures
        restore_all(m, ids, succeeded, true).1 == m,
        (forall|i: int| 0 <= i < ids.len() ==> #[trigger] succeeded[i]) ==> restore_all(
            m,
            ids,
            succeeded,
            false,
        ).1 == m.remove_keys(ids.to_set()),
        0 <= restore_all(m, ids, succeeded, false).0 <= ids.len(),
        0 <= restore_all(m, ids, succeeded, true).0 <= ids.len(),
    decreases ids.len(),
{
    if ids.len() == 0 {
        assert(m.remove_keys(ids.to_set()) =~= m);
    } else {
        let d = ids.drop_last();
        lemma_restore_all(m, d, succeeded);
        let id = ids.last();
        if forall|i: int| 0 <= i < ids.len() ==> #[trigger] succeeded[i] {
            assert(forall|i: int| 0 <= i < d.len() ==> #[trigger] succeeded[i]);
            assert(succeeded[ids.len() - 1]);
            assert(ids.to_set() =~= d.to_set().insert(id)) by {
                assert forall|x: Seq<char>| ids.to_set().contains(x) implies d.to_set().insert(
                    id,
                ).contains(x) by {
                    let i = choose|i: int| 0 <= i < ids.len() && ids[i] == x;
                    if i < ids.len() - 1 {
                        assert(d[i] == x);
                    }
                }
                assert forall|x: Seq<char>| d.to_set().insert(id).contains(x) implies ids.to_set().contains(
                    x,
                ) by {
                    if x != id {
                        let i = choose|i: int| 0 <= i < d.len() && d[i] == x;
                        assert(ids[i] == x);
                    } else {
                        assert(ids[ids.len() - 1] == x);
                    }
                }
            }
            let m1 = restore_all(m, d, succeeded, false).1;
            assert(m.remove_keys(ids.to_set()) =~= m1.remove(id));
        }
    }
}

/// The position of the first tweak in `tweaks` with identifier `id`.
pub fn find_tweak<T: Tweak>(tweaks: &Vec<T>, id: &str) -> (r: Option<usize>)
    ensures
        match r {
            Some(i) => i < tweaks@.len() && tweaks@[i as int].spec_id() == id@ && forall|j: int|
                0 <= j < i ==> (#[trigger] tweaks@[j]).spec_id() != id@,
            None => forall|j: int|
                0 <= j < tweaks@.len() ==> (#[trigger] tweaks@[j]).spec_id() != id@,
        },
{
    let mut i: usize = 0;
    while i < tweaks.len()
        invariant
            i <= tweaks@.len(),
            forall|j: int| 0 <= j < i ==> (#[trigger] tweaks@[j]).spec_id() != id@,
        decreases tweaks@.len() - i,
    {
        if str_eq(tweaks[i].id(), id) {
            return Some(i);
        }
        i = i + 1;
    }
    None
}

/// The name of the first tweak in `tweaks` with identifier `id`, or
/// `Desconhecido` (unknown) when there is none.
pub fn tweak_name_or_unknown<T: Tweak>(tweaks: &Vec<T>, id: &str) -> (r: &'static str)
    ensures
        match find_first(tweaks@, id@) {
            Some(i) => r@ == tweaks@[i].spec_name(),
            None => r@ == "Desconhecido"@,
        },
{
    match find_tweak(tweaks, id) {
        Some(i) => tweaks[i].name(),
        None => "Desconhecido",
    }
}

/// The position of the first tweak in `tweaks` with identifier `id`.
pub open spec fn find_first<T: Tweak>(tweaks: Seq<T>, id: Seq<char>) -> Option<int> {
    if exists|i: int| 0 <= i < tweaks.len() && (#[trigger] tweaks[i]).spec_id() == id {
        Some(
            choose|i: int|
                0 <= i < tweaks.len() && (#[trigger] tweaks[i]).spec_id() == id && forall|j: int|
                    0 <= j < i ==> (#[trigger] tweaks[j]).spec_id() != id,
        )
    } else {
        None
    }
}

} // verus!
