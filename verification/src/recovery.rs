use vstd::prelude::*;
use crate::action::{succeeded, ActionView, ReplyView};
use crate::copying::{left_to_watcher, CopyStep};
use crate::copying_laws::{
    copied_so_far, copied_targets, in_place, lemma_copy_places, lemma_skip_places,
};
use crate::disk::{after, answers, Disk};
use crate::paths::{backup_root_of, slot_path};
use crate::rollback::RollbackStep;
use crate::runner::{asks_for_update, launched, next_action, EnvironmentView, PhaseView};
use crate::staging::{staging_request, StagingStep, StagingTurnView};
use crate::staging_laws::{
    aside, complete, from_plan, lemma_move_back, lemma_nothing_pending, lemma_staging_step_holds,
    pending, staging_holds, staging_step, StagingRun,
};
use crate::state::{BackupView, RunningConfigView, RunningState};
use crate::update_laws::{run, step, World};

verus! {

/// Whether a disk in the state `disk` that does what it can answers `action` with
/// `ok`: besides what holds of any disk, a file that is there is deleted when that
/// is asked, and a backup that is there is moved back when that is asked.
pub open spec fn obliges(disk: Disk, action: ActionView, ok: bool) -> bool {
    match action {
        ActionView::DeleteFile { path } => ok == disk.installed.contains_key(path),
        ActionView::RestoreFromBackup { index, slot, target } => ok == disk.backups.contains_key(
            index,
        ),
        _ => answers(disk, action, ok),
    }
}

/// Whether each of `replies` is one that a disk that does what it can gives at its
/// step.
pub open spec fn willing(w: World, replies: Seq<ReplyView>) -> bool
    decreases replies.len(),
{
    if replies.len() == 0 {
        true
    } else {
        &&& obliges(w.disk, next_action(w.updater), succeeded(replies[0]))
        &&& willing(step(w, replies[0]), replies.drop_first())
    }
}

/// Whether one of `applied`, from position `from` on, is `path`.
pub open spec fn applied_from(applied: Seq<Seq<char>>, from: nat, path: Seq<char>) -> bool {
    exists|k: int| from <= k < applied.len() && #[trigger] applied[k] == path
}

/// Whether `disk` is what staging and copying make of `first`: every backup lies in
/// its slot with what its target held on `first`; none of the applied paths is one
/// that staging left in place; and apart from the applied paths from position `from`
/// on, the installed files are those of `first` that were not moved, unchanged.
pub open spec fn overlaid(
    disk: Disk,
    first: Disk,
    backups: Seq<BackupView>,
    applied: Seq<Seq<char>>,
    from: nat,
) -> bool {
    &&& forall|k: int|
        0 <= k < backups.len() ==> {
            &&& first.installed.contains_key((#[trigger] backups[k]).path)
            &&& disk.backups.contains_key(backups[k].index)
            &&& disk.backups[backups[k].index] == first.installed[backups[k].path]
        }
    &&& forall|j: int, k: int|
        0 <= j < k < backups.len() ==> (#[trigger] backups[j]).path != (
        #[trigger] backups[k]).path
    &&& forall|p: Seq<char>|
        !applied_from(applied, from, p) ==> (#[trigger] disk.installed.contains_key(p)
            <==> first.installed.contains_key(p) && !pending(backups, 0, p))
    &&& forall|p: Seq<char>|
        !applied_from(applied, from, p) && #[trigger] disk.installed.contains_key(p)
            ==> disk.installed[p] == first.installed[p]
    &&& forall|p: Seq<char>| #[trigger]
        applied_from(applied, 0, p) ==> !first.installed.contains_key(p) || pending(
            backups,
            0,
            p,
        )
}

proof fn lemma_aside_overlays(backups: Seq<BackupView>, disk: Disk, first: Disk)
    requires
        aside(backups, 0, disk, first),
    ensures
        overlaid(disk, first, backups, Seq::empty(), 0),
{
    assert forall|p: Seq<char>| !applied_from(Seq::empty(), 0, p) by {}
}

proof fn lemma_overlaid_settles(
    backups: Seq<BackupView>,
    applied: Seq<Seq<char>>,
    disk: Disk,
    first: Disk,
)
    requires
        overlaid(disk, first, backups, applied, applied.len()),
    ensures
        aside(backups, 0, disk, first),
{
    assert forall|p: Seq<char>| !applied_from(applied, applied.len(), p) by {}
}

proof fn lemma_copy_overlays(
    backups: Seq<BackupView>,
    applied: Seq<Seq<char>>,
    disk: Disk,
    first: Disk,
    source: Seq<char>,
    target: Seq<char>,
)
    requires
        overlaid(disk, first, backups, applied, 0),
        first.installed.contains_key(target) ==> pending(backups, 0, target),
    ensures
        overlaid(
            after(disk, ActionView::CopyFile { source, target }, true),
            first,
            backups,
            applied.push(target),
            0,
        ),
{
    let more = applied.push(target);
    let copied = after(disk, ActionView::CopyFile { source, target }, true);
    assert(more[applied.len() as int] == target);
    assert(applied_from(more, 0, target));
    assert forall|p: Seq<char>| applied_from(applied, 0, p) implies applied_from(more, 0, p) by {
        let k = choose|k: int| 0 <= k < applied.len() && #[trigger] applied[k] == p;
        assert(more[k] == p);
    }
    assert forall|p: Seq<char>| #[trigger]
        applied_from(more, 0, p) implies !first.installed.contains_key(p) || pending(
        backups,
        0,
        p,
    ) by {
        let k = choose|k: int| 0 <= k < more.len() && #[trigger] more[k] == p;
        if k < applied.len() {
            assert(applied[k] == p);
            assert(applied_from(applied, 0, p));
        }
    }
}

proof fn lemma_delete_overlays(
    backups: Seq<BackupView>,
    applied: Seq<Seq<char>>,
    at: nat,
    disk: Disk,
    first: Disk,
    ok: bool,
)
    requires
        at < applied.len(),
        overlaid(disk, first, backups, applied, at),
        ok == disk.installed.contains_key(applied[at as int]),
    ensures
        overlaid(
            after(disk, ActionView::DeleteFile { path: applied[at as int] }, ok),
            first,
            backups,
            applied,
            at + 1,
        ),
{
    let path = applied[at as int];
    let deleted = after(disk, ActionView::DeleteFile { path }, ok);
    assert(applied_from(applied, 0, path));
    assert forall|p: Seq<char>| applied_from(applied, at + 1, p) implies applied_from(
        applied,
        at,
        p,
    ) by {
        let k = choose|k: int| at + 1 <= k < applied.len() && #[trigger] applied[k] == p;
        assert(applied[k] == p);
    }
    assert forall|p: Seq<char>| !applied_from(applied, at + 1, p) && p != path implies !applied_from(
        applied,
        at,
        p,
    ) by {
        if applied_from(applied, at, p) {
            let k = choose|k: int| at <= k < applied.len() && #[trigger] applied[k] == p;
            assert(k != at);
            assert(applied[k] == p);
            assert(applied_from(applied, at + 1, p));
        }
    }
    assert forall|p: Seq<char>| !applied_from(applied, at + 1, p) implies (
    #[trigger] deleted.installed.contains_key(p) <==> first.installed.contains_key(p) && !pending(
        backups,
        0,
        p,
    )) by {
        if p != path {
            assert(!applied_from(applied, at, p));
            assert(disk.installed.contains_key(p) <==> first.installed.contains_key(p)
                && !pending(backups, 0, p));
        }
    }
    assert forall|p: Seq<char>|
        !applied_from(applied, at + 1, p) && #[trigger] deleted.installed.contains_key(
            p,
        ) implies deleted.installed[p] == first.installed[p] by {
        assert(p != path);
        assert(!applied_from(applied, at, p));
        assert(disk.installed.contains_key(p));
    }
}

/// Whether the update has applied every file to the disk that was `first` when it
/// began: the status is `Finish`; the target of every entry is in place, but for an
/// entry that is left to the replacement of the running executable; and every
/// backup on record still lies in its slot, with what its target held on `first`.
pub open spec fn applied(w: World, first: Disk) -> bool {
    let u = w.updater;
    &&& u.config.status == RunningState::Finish
    &&& w.disk.staged == first.staged
    &&& in_place(u.plan, u.flags.need_update_myself, u.plan.files.len(), w.disk)
    &&& overlaid(w.disk, first, u.config.file_path, u.config.moved_path, 0)
}

/// What holds at every moment of an update that was asked for afresh and began on
/// the disk `first`, where the disk does what it can.
pub open spec fn fresh_holds(w: World, first: Disk) -> bool {
    let u = w.updater;
    let config = u.config;
    let need = u.flags.need_update_myself;
    let backups = config.file_path;
    match u.phase {
        PhaseView::OpenForUpdate
        | PhaseView::RecordStart
        | PhaseView::RecordStagingPath
        | PhaseView::ReadManifest
        | PhaseView::RecordNoManifest
        | PhaseView::EndTarget => {
            &&& w.disk.installed == first.installed
            &&& w.disk.staged == first.staged
            &&& backups.len() == 0
            &&& config.moved_path.len() == 0
            &&& !u.skip_check
            &&& config.status == (if u.phase == PhaseView::RecordNoManifest {
                RunningState::Nothing
            } else {
                RunningState::UpdateButNotCheck
            })
        },
        PhaseView::OpenForRollback => false,
        PhaseView::Staging(s) => {
            &&& staging_holds(
                StagingRun {
                    turn: StagingTurnView::Next(s),
                    backups,
                    need_update_myself: need,
                    disk: w.disk,
                },
                u.plan,
                first,
                Seq::empty(),
            )
            &&& w.disk.staged == first.staged
            &&& config.moved_path.len() == 0
            &&& config.status == RunningState::UpdateButNotCheck
        },
        PhaseView::RecordStaged => {
            &&& from_plan(backups, 0, u.plan, u.plan.files.len())
            &&& aside(backups, 0, w.disk, first)
            &&& complete(u.plan, backups, need, first, u.plan.files.len())
            &&& w.disk.staged == first.staged
            &&& config.moved_path.len() == 0
            &&& config.status != RunningState::Finish
        },
        PhaseView::RecordStagingFailed => {
            &&& w.disk.installed == first.installed
            &&& config.status == RunningState::UpdateButNotCheck
        },
        PhaseView::Copying(c) => {
            &&& c.index < u.plan.files.len()
            &&& config.moved_path == copied_targets(u.plan, need, copied_so_far(c.step, c.index))
            &&& c.step == CopyStep::Watch ==> left_to_watcher(u.plan, need, c.index)
            &&& c.step == CopyStep::Copy ==> !left_to_watcher(u.plan, need, c.index)
            &&& c.step == CopyStep::Record ==> !left_to_watcher(u.plan, need, c.index)
            &&& config.status != RunningState::Finish
            &&& from_plan(backups, 0, u.plan, u.plan.files.len())
            &&& complete(u.plan, backups, need, first, u.plan.files.len())
            &&& overlaid(w.disk, first, backups, config.moved_path, 0)
            &&& w.disk.staged == first.staged
            &&& in_place(u.plan, need, copied_so_far(c.step, c.index), w.disk)
        },
        PhaseView::RecordFinish | PhaseView::Commit => applied(w, first),
        PhaseView::Grace | PhaseView::Clean | PhaseView::Relaunch => config.status
            == RunningState::Finish,
        PhaseView::Rollback(r) => {
            &&& from_plan(backups, 0, u.plan, u.plan.files.len())
            &&& config.status != RunningState::Finish
            &&& match r.step {
                RollbackStep::RecordFailed => overlaid(
                    w.disk,
                    first,
                    backups,
                    config.moved_path,
                    0,
                ),
                RollbackStep::Delete => {
                    &&& r.index < config.moved_path.len()
                    &&& overlaid(w.disk, first, backups, config.moved_path, r.index)
                },
                RollbackStep::RecordDeleted => {
                    &&& config.moved_path.len() == 0
                    &&& aside(backups, 0, w.disk, first)
                },
                RollbackStep::Restore => {
                    &&& r.index < backups.len()
                    &&& config.moved_path.len() == 0
                    &&& aside(backups, r.index, w.disk, first)
                },
                RollbackStep::RecordDone => w.disk.installed == first.installed,
            }
        },
        PhaseView::Quit => config.status == RunningState::Finish || w.disk.installed
            == first.installed,
        PhaseView::Abort => w.disk.installed == first.installed,
    }
}

proof fn lemma_fresh_step_staging(w: World, first: Disk, reply: ReplyView)
    requires
        fresh_holds(w, first),
        obliges(w.disk, next_action(w.updater), succeeded(reply)),
        w.updater.phase is Staging,
    ensures
        fresh_holds(step(w, reply), first),
{
    let u = w.updater;
    let backups = u.config.file_path;
    let ok = succeeded(reply);
    let next = step(w, reply);
    let s = u.phase->Staging_0;
    let at = StagingRun {
        turn: StagingTurnView::Next(s),
        backups,
        need_update_myself: u.flags.need_update_myself,
        disk: w.disk,
    };
    assert(staging_request(s, u.plan, backups) is Some);
    lemma_staging_step_holds(at, u.plan, first, Seq::empty(), ok);
    let then = staging_step(at, u.plan, ok);
    assert(then.disk == next.disk);
    assert(then.backups == next.updater.config.file_path);
    if s.step == StagingStep::Undo {
        assert(ok);
    }
}

proof fn lemma_fresh_step_staged(w: World, first: Disk, reply: ReplyView)
    requires
        fresh_holds(w, first),
        w.updater.phase == PhaseView::RecordStaged,
    ensures
        fresh_holds(step(w, reply), first),
{
    let u = w.updater;
    lemma_aside_overlays(u.config.file_path, w.disk, first);
    assert(u.config.moved_path =~= Seq::empty());
    assert(copied_targets(u.plan, u.flags.need_update_myself, 0) =~= Seq::empty());
}

proof fn lemma_fresh_step_copy(w: World, first: Disk, reply: ReplyView)
    requires
        fresh_holds(w, first),
        obliges(w.disk, next_action(w.updater), succeeded(reply)),
        w.updater.phase is Copying,
        w.updater.phase->Copying_0.step == CopyStep::Copy,
    ensures
        fresh_holds(step(w, reply), first),
{
    let u = w.updater;
    let config = u.config;
    let need = u.flags.need_update_myself;
    let c = u.phase->Copying_0;
    let file = u.plan.files[c.index as int];
    if succeeded(reply) {
        lemma_copy_overlays(
            config.file_path,
            config.moved_path,
            w.disk,
            first,
            file.source,
            file.target,
        );
        lemma_copy_places(u.plan, need, c.index, w.disk);
    }
}

proof fn lemma_fresh_step_watch(w: World, first: Disk, reply: ReplyView)
    requires
        fresh_holds(w, first),
        w.updater.phase is Copying,
        w.updater.phase->Copying_0.step == CopyStep::Watch,
    ensures
        fresh_holds(step(w, reply), first),
{
    let u = w.updater;
    let c = u.phase->Copying_0;
    lemma_skip_places(u.plan, u.flags.need_update_myself, c.index, w.disk);
}

proof fn lemma_fresh_step_copying(w: World, first: Disk, reply: ReplyView)
    requires
        fresh_holds(w, first),
        w.updater.phase is Copying,
        w.updater.phase->Copying_0.step != CopyStep::Copy,
        w.updater.phase->Copying_0.step != CopyStep::Watch,
    ensures
        fresh_holds(step(w, reply), first),
{
}

proof fn lemma_fresh_step_rollback(w: World, first: Disk, reply: ReplyView)
    requires
        fresh_holds(w, first),
        obliges(w.disk, next_action(w.updater), succeeded(reply)),
        w.updater.phase is Rollback,
    ensures
        fresh_holds(step(w, reply), first),
{
    let u = w.updater;
    let config = u.config;
    let backups = config.file_path;
    let ok = succeeded(reply);
    let next = step(w, reply);
    let r = u.phase->Rollback_0;
    match r.step {
        RollbackStep::RecordFailed => {
            if config.moved_path.len() == 0 {
                lemma_overlaid_settles(backups, config.moved_path, w.disk, first);
            }
        },
        RollbackStep::Delete => {
            lemma_delete_overlays(backups, config.moved_path, r.index, w.disk, first, ok);
            if r.index + 1 >= config.moved_path.len() {
                lemma_overlaid_settles(backups, config.moved_path, next.disk, first);
            }
        },
        RollbackStep::RecordDeleted => {
            if backups.len() == 0 {
                lemma_nothing_pending(backups, 0, w.disk, first);
            }
        },
        RollbackStep::Restore => {
            assert(ok);
            lemma_move_back(
                backups,
                r.index,
                slot_path(backup_root_of(config.update_temp_path), backups[r.index as int].index),
                w.disk,
                first,
            );
            if r.index + 1 >= backups.len() {
                lemma_nothing_pending(backups, r.index + 1, next.disk, first);
            }
        },
        RollbackStep::RecordDone => {},
    }
}

proof fn lemma_fresh_step(w: World, first: Disk, reply: ReplyView)
    requires
        fresh_holds(w, first),
        obliges(w.disk, next_action(w.updater), succeeded(reply)),
    ensures
        fresh_holds(step(w, reply), first),
{
    let u = w.updater;
    match u.phase {
        PhaseView::EndTarget => {
            if succeeded(reply) {
                assert(u.config.file_path =~= Seq::empty());
            }
        },
        PhaseView::Staging(_) => {
            lemma_fresh_step_staging(w, first, reply);
        },
        PhaseView::RecordStaged => {
            lemma_fresh_step_staged(w, first, reply);
        },
        PhaseView::Copying(c) => {
            if c.step == CopyStep::Copy {
                lemma_fresh_step_copy(w, first, reply);
            } else if c.step == CopyStep::Watch {
                lemma_fresh_step_watch(w, first, reply);
            } else {
                lemma_fresh_step_copying(w, first, reply);
            }
        },
        PhaseView::Rollback(_) => {
            lemma_fresh_step_rollback(w, first, reply);
        },
        _ => {},
    }
}

proof fn lemma_fresh_run(w: World, first: Disk, replies: Seq<ReplyView>)
    requires
        fresh_holds(w, first),
        willing(w, replies),
    ensures
        fresh_holds(run(w, replies), first),
    decreases replies.len(),
{
    if replies.len() > 0 {
        lemma_fresh_step(w, first, replies[0]);
        lemma_fresh_run(step(w, replies[0]), first, replies.drop_first());
    }
}

/// An update that was asked for afresh and ends without the status `Finish` leaves
/// every installed file as it found it, with the content it had: whether it ended
/// before it changed anything, failed in staging, or failed in copying and was
/// rolled back. This holds on a disk that does what it can, whatever else fails.
pub proof fn lemma_update_finishes_or_reverts(
    env: EnvironmentView,
    checkpoint: Option<RunningConfigView>,
    disk: Disk,
    replies: Seq<ReplyView>,
)
    requires
        asks_for_update(env),
        willing(World { updater: launched(env, checkpoint), disk }, replies),
    ensures
        ({
            let end = run(World { updater: launched(env, checkpoint), disk }, replies);
            end.updater.phase == PhaseView::Quit || end.updater.phase == PhaseView::Abort ==> {
                ||| end.updater.config.status == RunningState::Finish
                ||| end.disk.installed == disk.installed
            }
        }),
{
    lemma_fresh_run(World { updater: launched(env, checkpoint), disk }, disk, replies);
}

/// An update that was asked for afresh and fails in staging has every installed
/// file back in place when it writes the checkpoint afterwards, and has left the
/// status as it was: on a disk that does what it can, whatever staging had moved
/// aside is where it came from.
pub proof fn lemma_failed_staging_is_undone(
    env: EnvironmentView,
    checkpoint: Option<RunningConfigView>,
    disk: Disk,
    replies: Seq<ReplyView>,
)
    requires
        asks_for_update(env),
        willing(World { updater: launched(env, checkpoint), disk }, replies),
        run(World { updater: launched(env, checkpoint), disk }, replies).updater.phase
            == PhaseView::RecordStagingFailed,
    ensures
        ({
            let end = run(World { updater: launched(env, checkpoint), disk }, replies);
            &&& end.disk.installed == disk.installed
            &&& end.updater.config.status == RunningState::UpdateButNotCheck
        }),
{
    lemma_fresh_run(World { updater: launched(env, checkpoint), disk }, disk, replies);
}

/// An update that was asked for afresh and has copied its last file has applied
/// every file: when it writes the status `Finish` and when it gives the signal to
/// replace the running executable, the target of every entry that is not left to
/// that replacement holds what a staged file for it held, and every backup on
/// record still lies in its slot.
pub proof fn lemma_finished_update_is_applied(
    env: EnvironmentView,
    checkpoint: Option<RunningConfigView>,
    disk: Disk,
    replies: Seq<ReplyView>,
)
    requires
        asks_for_update(env),
        willing(World { updater: launched(env, checkpoint), disk }, replies),
    ensures
        ({
            let end = run(World { updater: launched(env, checkpoint), disk }, replies);
            end.updater.phase == PhaseView::RecordFinish || end.updater.phase
                == PhaseView::Commit ==> applied(end, disk)
        }),
{
    lemma_fresh_run(World { updater: launched(env, checkpoint), disk }, disk, replies);
}

} // verus!
