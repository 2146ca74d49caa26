use vstd::prelude::*;
use crate::action::ActionView;
use crate::disk::{after, answers, Disk};
use crate::paths::slot_path;
use crate::plan::{self_by_target, PlanView};
use crate::staging::{
    staging_request, staging_start, staging_turn, StagingEnd, StagingStep, StagingTurnView,
};
use crate::state::BackupView;

verus! {

/// A moment of staging, with the disk that it works on.
pub struct StagingRun {
    pub turn: StagingTurnView,
    pub backups: Seq<BackupView>,
    pub need_update_myself: bool,
    pub disk: Disk,
}

/// Staging as it begins on `disk`, with `backups` on record from earlier.
pub open spec fn staging_begin(backups: Seq<BackupView>, need: bool, disk: Disk) -> StagingRun {
    StagingRun {
        turn: StagingTurnView::Next(staging_start()),
        backups,
        need_update_myself: need,
        disk,
    }
}

/// The action that is asked for at `run`, if staging is still going on.
pub open spec fn staging_asks(run: StagingRun, plan: PlanView) -> Option<ActionView> {
    match run.turn {
        StagingTurnView::Next(s) => staging_request(s, plan, run.backups),
        _ => None,
    }
}

/// One step of staging on the disk: the action that staging asks for is carried out
/// with the result `ok`, and staging takes that reply in. Once staging is over,
/// nothing changes.
pub open spec fn staging_step(run: StagingRun, plan: PlanView, ok: bool) -> StagingRun {
    match run.turn {
        StagingTurnView::Next(s) => match staging_request(s, plan, run.backups) {
            Some(action) => {
                let outcome = staging_turn(s, plan, run.backups, run.need_update_myself, ok);
                StagingRun {
                    turn: outcome.turn,
                    backups: outcome.backups,
                    need_update_myself: outcome.need_update_myself,
                    disk: after(run.disk, action, ok),
                }
            },
            None => StagingRun { turn: StagingTurnView::Broken, ..run },
        },
        _ => run,
    }
}

/// Staging from `run` on, with one step for each of `replies`.
pub open spec fn staging_run(run: StagingRun, plan: PlanView, replies: Seq<bool>) -> StagingRun
    decreases replies.len(),
{
    if replies.len() == 0 {
        run
    } else {
        staging_run(staging_step(run, plan, replies[0]), plan, replies.drop_first())
    }
}

/// Whether each of `replies` is one that the disk can give at its step.
pub open spec fn staging_fits(run: StagingRun, plan: PlanView, replies: Seq<bool>) -> bool
    decreases replies.len(),
{
    if replies.len() == 0 {
        true
    } else {
        &&& match staging_asks(run, plan) {
            Some(action) => answers(run.disk, action, replies[0]),
            None => true,
        }
        &&& staging_fits(staging_step(run, plan, replies[0]), plan, replies.drop_first())
    }
}

/// Whether one of `backups`, from position `from` on, was taken from `path`.
pub open spec fn pending(backups: Seq<BackupView>, from: nat, path: Seq<char>) -> bool {
    exists|k: int| from <= k < backups.len() && #[trigger] backups[k].path == path
}

/// Whether the backups from position `from` on are what staging of `plan` makes:
/// each is for an entry of the plan below `bound` that is not the running
/// executable, it records that entry's target, and the entries come in rising order.
pub open spec fn from_plan(
    backups: Seq<BackupView>,
    from: nat,
    plan: PlanView,
    bound: nat,
) -> bool {
    &&& bound <= plan.files.len()
    &&& forall|k: int|
        from <= k < backups.len() ==> {
            &&& (#[trigger] backups[k]).index < bound
            &&& !plan.files[backups[k].index as int].is_self
            &&& backups[k].path == plan.files[backups[k].index as int].target
        }
    &&& forall|j: int, k: int|
        from <= j < k < backups.len() ==> (#[trigger] backups[j]).index < (
        #[trigger] backups[k]).index
}

/// Whether the backups from position `from` on lie in their slots on `disk`, with
/// what their targets held on `first`, and `disk` holds every other installed file
/// of `first` unchanged and no more.
pub open spec fn aside(backups: Seq<BackupView>, from: nat, disk: Disk, first: Disk) -> bool {
    &&& forall|k: int|
        from <= k < backups.len() ==> {
            &&& first.installed.contains_key((#[trigger] backups[k]).path)
            &&& disk.backups.contains_key(backups[k].index)
            &&& disk.backups[backups[k].index] == first.installed[backups[k].path]
        }
    &&& forall|j: int, k: int|
        from <= j < k < backups.len() ==> (#[trigger] backups[j]).path != (
        #[trigger] backups[k]).path
    &&& forall|p: Seq<char>| #[trigger]
        disk.installed.contains_key(p) <==> first.installed.contains_key(p) && !pending(
            backups,
            from,
            p,
        )
    &&& forall|p: Seq<char>| #[trigger]
        disk.installed.contains_key(p) ==> disk.installed[p] == first.installed[p]
}

/// Whether the backups account for every one of the first `upto` entries of `plan`
/// whose target was there on `first`: its target was moved into a backup slot, or
/// it is the running executable and the need to replace that is noted.
pub open spec fn complete(
    plan: PlanView,
    backups: Seq<BackupView>,
    need: bool,
    first: Disk,
    upto: nat,
) -> bool {
    forall|i: int|
        0 <= i < upto && first.installed.contains_key((#[trigger] plan.files[i]).target) ==> {
            ||| plan.files[i].is_self && need
            ||| pending(backups, 0, plan.files[i].target)
        }
}

/// What holds at every moment of staging that began on the disk `first` with
/// `earlier` on record.
pub open spec fn staging_holds(
    run: StagingRun,
    plan: PlanView,
    first: Disk,
    earlier: Seq<BackupView>,
) -> bool {
    match run.turn {
        StagingTurnView::Next(s) => match s.step {
            StagingStep::CheckBackupDir | StagingStep::RemoveBackupDir | StagingStep::CreateBackupDir => {
                &&& run.disk.installed == first.installed
                &&& run.backups == earlier
            },
            StagingStep::Undo => {
                &&& s.index < run.backups.len()
                &&& from_plan(run.backups, 0, plan, plan.files.len())
                &&& aside(run.backups, s.index, run.disk, first)
            },
            _ => {
                &&& s.index < plan.files.len()
                &&& s.step == StagingStep::CreateParent ==> plan.files[s.index as int].parent is Some
                &&& s.step == StagingStep::MoveAside ==> !plan.files[s.index as int].is_self
                &&& from_plan(run.backups, 0, plan, s.index)
                &&& aside(run.backups, 0, run.disk, first)
                &&& complete(plan, run.backups, run.need_update_myself, first, s.index)
            },
        },
        StagingTurnView::End(StagingEnd::Staged) => {
            &&& from_plan(run.backups, 0, plan, plan.files.len())
            &&& aside(run.backups, 0, run.disk, first)
            &&& complete(plan, run.backups, run.need_update_myself, first, plan.files.len())
        },
        StagingTurnView::End(StagingEnd::Failed) => {
            &&& run.disk.installed == first.installed
            &&& (run.backups == earlier || run.backups.len() == 0)
        },
        StagingTurnView::End(StagingEnd::Stuck) => from_plan(
            run.backups,
            0,
            plan,
            plan.files.len(),
        ),
        StagingTurnView::Broken => false,
    }
}

/// With no backup left out of place, the installed files are as they were at first.
pub proof fn lemma_nothing_pending(backups: Seq<BackupView>, from: nat, disk: Disk, first: Disk)
    requires
        from >= backups.len(),
        aside(backups, from, disk, first),
    ensures
        disk.installed == first.installed,
{
    assert forall|p: Seq<char>| !pending(backups, from, p) by {}
    assert(disk.installed =~= first.installed);
}

proof fn lemma_none_aside(disk: Disk)
    ensures
        aside(Seq::empty(), 0, disk, disk),
{
    assert forall|p: Seq<char>| !pending(Seq::empty(), 0, p) by {}
}

proof fn lemma_entry_holds(
    run: StagingRun,
    plan: PlanView,
    first: Disk,
    earlier: Seq<BackupView>,
    index: nat,
)
    requires
        index <= plan.files.len(),
        from_plan(run.backups, 0, plan, index),
        aside(run.backups, 0, run.disk, first),
        complete(plan, run.backups, run.need_update_myself, first, index),
    ensures
        ({
            let outcome = crate::staging::entry_at(
                plan,
                run.backups,
                run.need_update_myself,
                index,
            );
            staging_holds(
                StagingRun {
                    turn: outcome.turn,
                    backups: outcome.backups,
                    need_update_myself: outcome.need_update_myself,
                    disk: run.disk,
                },
                plan,
                first,
                earlier,
            )
        }),
{
    if index < plan.files.len() && plan.files[index as int].parent is None {
        lemma_from_plan_widens(run.backups, plan, index);
        lemma_undo_holds(run, plan, first, earlier, 0);
    }
}

proof fn lemma_undo_holds(
    run: StagingRun,
    plan: PlanView,
    first: Disk,
    earlier: Seq<BackupView>,
    undone: nat,
)
    requires
        from_plan(run.backups, 0, plan, plan.files.len()),
        aside(run.backups, undone, run.disk, first),
    ensures
        ({
            let outcome = crate::staging::undo_from(run.backups, run.need_update_myself, undone);
            staging_holds(
                StagingRun {
                    turn: outcome.turn,
                    backups: outcome.backups,
                    need_update_myself: outcome.need_update_myself,
                    disk: run.disk,
                },
                plan,
                first,
                earlier,
            )
        }),
{
    if undone >= run.backups.len() {
        lemma_nothing_pending(run.backups, undone, run.disk, first);
    }
}

/// A step of staging keeps what holds of staging, where the reply is one that the
/// disk can give.
pub proof fn lemma_staging_step_holds(
    run: StagingRun,
    plan: PlanView,
    first: Disk,
    earlier: Seq<BackupView>,
    ok: bool,
)
    requires
        staging_holds(run, plan, first, earlier),
        match staging_asks(run, plan) {
            Some(action) => answers(run.disk, action, ok),
            None => true,
        },
    ensures
        staging_holds(staging_step(run, plan, ok), plan, first, earlier),
{
    let next = staging_step(run, plan, ok);
    match run.turn {
        StagingTurnView::Next(s) => {
            let n = plan.files.len();
            match s.step {
                StagingStep::CheckBackupDir => {},
                StagingStep::RemoveBackupDir => {},
                StagingStep::CreateBackupDir => {
                    if ok && plan.self_known {
                        lemma_none_aside(first);
                        let cleared = StagingRun { backups: Seq::empty(), ..run };
                        assert(aside(cleared.backups, 0, cleared.disk, first));
                        lemma_entry_holds(cleared, plan, first, earlier, 0);
                    }
                },
                StagingStep::CreateParent => {},
                StagingStep::CheckSource => {
                    if !(ok && !s.parent_failed) {
                        lemma_undo_holds(run, plan, first, earlier, 0);
                    }
                },
                StagingStep::CheckTarget => {
                    if !ok {
                        lemma_entry_holds(run, plan, first, earlier, s.index + 1);
                    } else if plan.files[s.index as int].is_self {
                        let noted = StagingRun { need_update_myself: true, ..run };
                        lemma_entry_holds(noted, plan, first, earlier, s.index + 1);
                    }
                },
                StagingStep::MoveAside => {
                    if ok {
                        let target = plan.files[s.index as int].target;
                        let entry = BackupView { index: s.index, path: target };
                        let moved = StagingRun {
                            backups: run.backups.push(entry),
                            disk: next.disk,
                            ..run
                        };
                        lemma_move_aside(
                            run.backups,
                            entry,
                            slot_path(plan.backup_root, s.index),
                            run.disk,
                            first,
                        );
                        assert(complete(
                            plan,
                            moved.backups,
                            moved.need_update_myself,
                            first,
                            s.index + 1,
                        )) by {
                            assert(moved.backups[run.backups.len() as int].path == target);
                            assert(pending(moved.backups, 0, target));
                            assert forall|i: int|
                                0 <= i < s.index && first.installed.contains_key(
                                    (#[trigger] plan.files[i]).target,
                                ) && !(plan.files[i].is_self
                                    && run.need_update_myself) implies pending(
                                moved.backups,
                                0,
                                plan.files[i].target,
                            ) by {
                                let p = plan.files[i].target;
                                let k = choose|k: int|
                                    0 <= k < run.backups.len() && #[trigger] run.backups[k].path
                                        == p;
                                assert(moved.backups[k] == run.backups[k]);
                            }
                        }
                        assert(from_plan(moved.backups, 0, plan, s.index + 1)) by {
                            assert forall|k: int| 0 <= k < moved.backups.len() implies {
                                &&& (#[trigger] moved.backups[k]).index < s.index + 1
                                &&& !plan.files[moved.backups[k].index as int].is_self
                                &&& moved.backups[k].path == plan.files[moved.backups[k].index as int].target
                            } by {
                                if k < run.backups.len() {
                                    assert(moved.backups[k] == run.backups[k]);
                                }
                            }
                            assert forall|j: int, k: int|
                                0 <= j < k < moved.backups.len() implies (
                            #[trigger] moved.backups[j]).index < (
                            #[trigger] moved.backups[k]).index by {
                                assert(moved.backups[j] == run.backups[j]);
                                if k < run.backups.len() {
                                    assert(moved.backups[k] == run.backups[k]);
                                }
                            }
                        }
                        lemma_entry_holds(moved, plan, first, earlier, s.index + 1);
                    } else {
                        lemma_from_plan_widens(run.backups, plan, s.index);
                        lemma_undo_holds(run, plan, first, earlier, 0);
                    }
                },
                StagingStep::Undo => {
                    if ok {
                        let restored = StagingRun { disk: next.disk, ..run };
                        lemma_move_back(
                            run.backups,
                            s.index,
                            slot_path(plan.backup_root, run.backups[s.index as int].index),
                            run.disk,
                            first,
                        );
                        lemma_undo_holds(restored, plan, first, earlier, s.index + 1);
                    }
                },
            }
        },
        _ => {},
    }
}

proof fn lemma_from_plan_widens(backups: Seq<BackupView>, plan: PlanView, bound: nat)
    requires
        from_plan(backups, 0, plan, bound),
    ensures
        from_plan(backups, 0, plan, plan.files.len()),
{
}

proof fn lemma_move_aside(
    backups: Seq<BackupView>,
    entry: BackupView,
    slot: Seq<char>,
    disk: Disk,
    first: Disk,
)
    requires
        aside(backups, 0, disk, first),
        disk.installed.contains_key(entry.path),
        forall|k: int| 0 <= k < backups.len() ==> (#[trigger] backups[k]).index < entry.index,
    ensures
        aside(
            backups.push(entry),
            0,
            after(
                disk,
                ActionView::MoveToBackup { index: entry.index, target: entry.path, slot },
                true,
            ),
            first,
        ),
{
    let more = backups.push(entry);
    let moved = after(
        disk,
        ActionView::MoveToBackup { index: entry.index, target: entry.path, slot },
        true,
    );
    assert(!pending(backups, 0, entry.path));
    assert forall|k: int| 0 <= k < more.len() implies {
        &&& first.installed.contains_key((#[trigger] more[k]).path)
        &&& moved.backups.contains_key(more[k].index)
        &&& moved.backups[more[k].index] == first.installed[more[k].path]
    } by {
        if k < backups.len() {
            assert(more[k] == backups[k]);
        }
    }
    assert forall|j: int, k: int| 0 <= j < k < more.len() implies (#[trigger] more[j]).path != (
    #[trigger] more[k]).path by {
        assert(more[j] == backups[j]);
        if k < backups.len() {
            assert(more[k] == backups[k]);
        } else {
            assert(pending(backups, 0, backups[j].path));
        }
    }
    assert forall|p: Seq<char>| #[trigger]
        moved.installed.contains_key(p) <==> first.installed.contains_key(p) && !pending(
            more,
            0,
            p,
        ) by {
        if pending(more, 0, p) {
            let k = choose|k: int| 0 <= k < more.len() && #[trigger] more[k].path == p;
            if k < backups.len() {
                assert(more[k] == backups[k]);
                assert(pending(backups, 0, p));
            }
        }
        if pending(backups, 0, p) {
            let k = choose|k: int| 0 <= k < backups.len() && #[trigger] backups[k].path == p;
            assert(more[k] == backups[k]);
            assert(pending(more, 0, p));
        }
        if p == entry.path {
            assert(more[backups.len() as int].path == p);
            assert(pending(more, 0, p));
        }
    }
}

/// Moving the backup at `at` back leaves the backups after it in their slots, and
/// its target as it was at first.
pub proof fn lemma_move_back(
    backups: Seq<BackupView>,
    at: nat,
    slot: Seq<char>,
    disk: Disk,
    first: Disk,
)
    requires
        at < backups.len(),
        aside(backups, at, disk, first),
        forall|j: int, k: int|
            0 <= j < k < backups.len() ==> (#[trigger] backups[j]).index < (
            #[trigger] backups[k]).index,
    ensures
        aside(
            backups,
            at + 1,
            after(
                disk,
                ActionView::RestoreFromBackup {
                    index: backups[at as int].index,
                    slot,
                    target: backups[at as int].path,
                },
                true,
            ),
            first,
        ),
{
    let backup = backups[at as int];
    let restored = after(
        disk,
        ActionView::RestoreFromBackup { index: backup.index, slot, target: backup.path },
        true,
    );
    assert forall|p: Seq<char>| #[trigger]
        restored.installed.contains_key(p) <==> first.installed.contains_key(p) && !pending(
            backups,
            at + 1,
            p,
        ) by {
        if pending(backups, at + 1, p) {
            let k = choose|k: int| at + 1 <= k < backups.len() && #[trigger] backups[k].path == p;
            assert(pending(backups, at, p));
            assert(backups[at as int].path != backups[k].path);
        }
        if pending(backups, at, p) && p != backup.path {
            let k = choose|k: int| at <= k < backups.len() && #[trigger] backups[k].path == p;
            assert(pending(backups, at + 1, p));
        }
        if p == backup.path {
            assert(backups[at as int].path == p);
        }
    }
    assert forall|k: int| at + 1 <= k < backups.len() implies {
        &&& first.installed.contains_key((#[trigger] backups[k]).path)
        &&& restored.backups.contains_key(backups[k].index)
        &&& restored.backups[backups[k].index] == first.installed[backups[k].path]
    } by {
        assert(backups[at as int].index < backups[k].index);
    }
}

proof fn lemma_run_holds(
    run: StagingRun,
    plan: PlanView,
    first: Disk,
    earlier: Seq<BackupView>,
    replies: Seq<bool>,
)
    requires
        staging_holds(run, plan, first, earlier),
        staging_fits(run, plan, replies),
    ensures
        staging_holds(staging_run(run, plan, replies), plan, first, earlier),
    decreases replies.len(),
{
    if replies.len() > 0 {
        lemma_staging_step_holds(run, plan, first, earlier, replies[0]);
        lemma_run_holds(
            staging_step(run, plan, replies[0]),
            plan,
            first,
            earlier,
            replies.drop_first(),
        );
    }
}

/// Staging never reaches a state in which it has no action to ask for: whatever the
/// disk replies, it goes on or ends.
pub proof fn lemma_staging_never_breaks(
    plan: PlanView,
    earlier: Seq<BackupView>,
    need: bool,
    disk: Disk,
    replies: Seq<bool>,
)
    requires
        staging_fits(staging_begin(earlier, need, disk), plan, replies),
    ensures
        ({
            let end = staging_run(staging_begin(earlier, need, disk), plan, replies);
            &&& end.turn != StagingTurnView::Broken
            &&& end.turn is Next ==> staging_asks(end, plan) is Some
        }),
{
    lemma_run_holds(staging_begin(earlier, need, disk), plan, disk, earlier, replies);
}

/// Staging that fails leaves the installed files as it found them: whatever it had
/// moved into a backup slot is back in place, with the content it had, once staging
/// ends as `Failed`. (Where a backup cannot be moved back, staging ends as `Stuck`
/// and this does not hold.)
pub proof fn lemma_failed_staging_restores(
    plan: PlanView,
    earlier: Seq<BackupView>,
    need: bool,
    disk: Disk,
    replies: Seq<bool>,
)
    requires
        staging_fits(staging_begin(earlier, need, disk), plan, replies),
        staging_run(staging_begin(earlier, need, disk), plan, replies).turn
            == StagingTurnView::End(StagingEnd::Failed),
    ensures
        staging_run(staging_begin(earlier, need, disk), plan, replies).disk.installed
            == disk.installed,
{
    lemma_run_holds(staging_begin(earlier, need, disk), plan, disk, earlier, replies);
}

/// Staging never makes a backup of the running executable: at every moment, the
/// backups on record are those that were there before staging began, or each of them
/// is for an entry of the plan whose target is not the running executable.
pub proof fn lemma_staging_spares_self(
    plan: PlanView,
    earlier: Seq<BackupView>,
    need: bool,
    disk: Disk,
    replies: Seq<bool>,
)
    requires
        staging_fits(staging_begin(earlier, need, disk), plan, replies),
    ensures
        ({
            let now = staging_run(staging_begin(earlier, need, disk), plan, replies);
            ||| now.backups == earlier
            ||| forall|k: int|
                0 <= k < now.backups.len() ==> {
                    &&& (#[trigger] now.backups[k]).index < plan.files.len()
                    &&& !plan.files[now.backups[k].index as int].is_self
                }
        }),
{
    lemma_run_holds(staging_begin(earlier, need, disk), plan, disk, earlier, replies);
}

/// Staging that succeeds has every backup that it recorded in its slot: the slot
/// holds what the target held before staging began, the target is gone from the
/// installed files, and every installed file that was not moved is as it was. The
/// record is complete: every entry whose target was there before staging began has
/// a backup, unless it is the running executable, which is noted instead.
pub proof fn lemma_staged_backups_hold(
    plan: PlanView,
    earlier: Seq<BackupView>,
    need: bool,
    disk: Disk,
    replies: Seq<bool>,
)
    requires
        staging_fits(staging_begin(earlier, need, disk), plan, replies),
        staging_run(staging_begin(earlier, need, disk), plan, replies).turn
            == StagingTurnView::End(StagingEnd::Staged),
    ensures
        ({
            let end = staging_run(staging_begin(earlier, need, disk), plan, replies);
            &&& from_plan(end.backups, 0, plan, plan.files.len())
            &&& aside(end.backups, 0, end.disk, disk)
            &&& complete(plan, end.backups, end.need_update_myself, disk, plan.files.len())
        }),
{
    lemma_run_holds(staging_begin(earlier, need, disk), plan, disk, earlier, replies);
}

/// Staging that succeeds has noted the need to replace the running executable
/// wherever the plan has an entry for it whose target was there when staging began.
pub proof fn lemma_staging_notes_self(
    plan: PlanView,
    earlier: Seq<BackupView>,
    need: bool,
    disk: Disk,
    replies: Seq<bool>,
    index: int,
)
    requires
        self_by_target(plan),
        staging_fits(staging_begin(earlier, need, disk), plan, replies),
        staging_run(staging_begin(earlier, need, disk), plan, replies).turn
            == StagingTurnView::End(StagingEnd::Staged),
        0 <= index < plan.files.len(),
        plan.files[index].is_self,
        disk.installed.contains_key(plan.files[index].target),
    ensures
        staging_run(staging_begin(earlier, need, disk), plan, replies).need_update_myself,
{
    let end = staging_run(staging_begin(earlier, need, disk), plan, replies);
    lemma_run_holds(staging_begin(earlier, need, disk), plan, disk, earlier, replies);
    let target = plan.files[index].target;
    if pending(end.backups, 0, target) {
        let k = choose|k: int| 0 <= k < end.backups.len() && #[trigger] end.backups[k].path == target;
        let other = end.backups[k].index as int;
        assert(plan.files[other].target == plan.files[index].target);
        assert(!plan.files[other].is_self);
    }
}

} // verus!
