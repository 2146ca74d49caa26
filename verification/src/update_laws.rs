use vstd::prelude::*;
use crate::action::{succeeded, ActionView, ReplyView};
use crate::copying::{CopyStep, CopyTurnView, CopyingView};
use crate::copying_laws::{
    applied_upto, copied_so_far, copied_targets, copy_holds, in_place, lemma_copied_targets_count,
    lemma_copy_places, lemma_copy_start_holds, lemma_copy_step_holds, lemma_skip_places, CopyRun,
};
use crate::disk::{after, answers, Disk};
use crate::manifest::ManifestEntryView;
use crate::paths::parent_of;
use crate::rollback::{RollbackStep, RollbackTurnView, RollbackView};
use crate::rollback_laws::{lemma_rollback_step_holds, rollback_holds, RollbackRun};
use crate::runner::{
    asks_for_update, launched, next_action, next_state, EnvironmentView, PhaseView, UpdaterView,
};
use crate::staging::{StagingStep, StagingView};
use crate::state::{in_index_order, RunningConfigView, RunningState};

verus! {

/// An update at some moment, with the disk that it works on.
pub struct World {
    pub updater: UpdaterView,
    pub disk: Disk,
}

/// One step of an update on the disk: the action that the update asks for is
/// carried out, the reply says what came of it, and the update takes the reply in.
pub open spec fn step(w: World, reply: ReplyView) -> World {
    World {
        updater: next_state(w.updater, reply),
        disk: after(w.disk, next_action(w.updater), succeeded(reply)),
    }
}

/// The update from `w` on, with one step for each of `replies`.
pub open spec fn run(w: World, replies: Seq<ReplyView>) -> World
    decreases replies.len(),
{
    if replies.len() == 0 {
        w
    } else {
        run(step(w, replies[0]), replies.drop_first())
    }
}

/// Whether each of `replies` is one that the disk can give at its step.
pub open spec fn fits(w: World, replies: Seq<ReplyView>) -> bool
    decreases replies.len(),
{
    if replies.len() == 0 {
        true
    } else {
        &&& answers(w.disk, next_action(w.updater), succeeded(replies[0]))
        &&& fits(step(w, replies[0]), replies.drop_first())
    }
}

/// Whether staging in state `s` can go on: the entry or the backup in hand is
/// there.
pub open spec fn staging_in_range(s: StagingView, u: UpdaterView) -> bool {
    match s.step {
        StagingStep::CheckBackupDir | StagingStep::RemoveBackupDir | StagingStep::CreateBackupDir => true,
        StagingStep::Undo => s.index < u.config.file_path.len(),
        StagingStep::CreateParent => s.index < u.plan.files.len()
            && u.plan.files[s.index as int].parent is Some,
        _ => s.index < u.plan.files.len(),
    }
}

/// Whether the copying in state `c` can go on: the entry in hand is there.
pub open spec fn copying_in_range(c: CopyingView, u: UpdaterView) -> bool {
    c.step != CopyStep::RecordFailure ==> c.index < u.plan.files.len()
}

/// Whether the rollback in state `r` can go on: the applied path or the backup in
/// hand is there.
pub open spec fn rollback_in_range(r: RollbackView, u: UpdaterView) -> bool {
    match r.step {
        RollbackStep::Delete => r.index < u.config.moved_path.len(),
        RollbackStep::Restore => r.index < u.config.file_path.len(),
        _ => true,
    }
}

/// Whether the part of the update that is at work can go on.
pub open spec fn in_range(u: UpdaterView) -> bool {
    match u.phase {
        PhaseView::Staging(s) => staging_in_range(s, u),
        PhaseView::Copying(c) => copying_in_range(c, u),
        PhaseView::Rollback(r) => rollback_in_range(r, u),
        _ => true,
    }
}

/// A step of an update that can go on leaves an update that can go on, and it gives
/// up in one case only: when the application could not be ended.
pub proof fn lemma_step_in_range(u: UpdaterView, reply: ReplyView)
    requires
        in_range(u),
    ensures
        in_range(next_state(u, reply)),
        next_action(u) == ActionView::Abort ==> u.phase == PhaseView::Abort,
        next_state(u, reply).phase == PhaseView::Abort ==> u.phase == PhaseView::Abort || (u.phase
            == PhaseView::EndTarget && !succeeded(reply)),
{
}

proof fn lemma_run_in_range(w: World, replies: Seq<ReplyView>)
    requires
        in_range(w.updater),
    ensures
        in_range(run(w, replies).updater),
    decreases replies.len(),
{
    if replies.len() > 0 {
        lemma_step_in_range(w.updater, replies[0]);
        lemma_run_in_range(step(w, replies[0]), replies.drop_first());
    }
}

/// Whatever it was started with and whatever replies it gets, an update is always in
/// a state from which it can go on: it never asks for `Abort` because it has lost
/// its place.
pub proof fn lemma_update_stays_in_range(
    env: EnvironmentView,
    checkpoint: Option<RunningConfigView>,
    disk: Disk,
    replies: Seq<ReplyView>,
)
    ensures
        in_range(run(World { updater: launched(env, checkpoint), disk }, replies).updater),
{
    lemma_run_in_range(World { updater: launched(env, checkpoint), disk }, replies);
}

/// `found` with the staging directory that the update has settled on.
pub open spec fn with_staging(found: RunningConfigView, u: UpdaterView) -> RunningConfigView {
    RunningConfigView { update_temp_path: u.config.update_temp_path, ..found }
}

/// The checkpoint of an update that was taken up at the copying and has copied
/// every file: the status is `Finish`, and the target of every entry of the plan
/// was added to the applied paths that `found` held.
pub open spec fn finished_after(found: RunningConfigView, u: UpdaterView) -> RunningConfigView {
    RunningConfigView {
        status: RunningState::Finish,
        ..applied_upto(with_staging(found, u), u.plan, false, u.plan.files.len())
    }
}

/// What holds at every moment of an update that was taken up from the checkpoint
/// `found`, which says `Updating`.
pub open spec fn resumed_holds(w: World, found: RunningConfigView) -> bool {
    let u = w.updater;
    &&& u.skip_check
    &&& !u.flags.need_update_myself
    &&& found.status == RunningState::Updating
    &&& match u.phase {
        PhaseView::OpenForUpdate | PhaseView::RecordStart => u.config == found,
        PhaseView::RecordStagingPath | PhaseView::ReadManifest | PhaseView::EndTarget => u.config
            == with_staging(found, u),
        PhaseView::RecordNoManifest => u.config.status == RunningState::Nothing,
        PhaseView::Copying(c) => copy_holds(
            CopyRun { turn: CopyTurnView::Next(c), config: u.config, disk: w.disk },
            u.plan,
            false,
            with_staging(found, u),
        ),
        PhaseView::RecordFinish
        | PhaseView::Commit
        | PhaseView::Grace
        | PhaseView::Clean
        | PhaseView::Relaunch => u.config == finished_after(found, u),
        PhaseView::Rollback(r) => rollback_holds(
            RollbackRun { turn: RollbackTurnView::Next(r), config: u.config, disk: w.disk },
        ),
        PhaseView::Quit => u.config.status == RunningState::Finish ==> u.config == finished_after(
            found,
            u,
        ),
        PhaseView::Abort => u.config.status != RunningState::Finish,
        _ => false,
    }
}

proof fn lemma_resumed_step(w: World, found: RunningConfigView, reply: ReplyView)
    requires
        resumed_holds(w, found),
    ensures
        resumed_holds(step(w, reply), found),
{
    let u = w.updater;
    let ok = succeeded(reply);
    let earlier = with_staging(found, u);
    match u.phase {
        PhaseView::EndTarget | PhaseView::RecordStaged => {
            lemma_copy_start_holds(u.plan, false, u.config, w.disk);
        },
        PhaseView::Copying(c) => {
            let at = CopyRun { turn: CopyTurnView::Next(c), config: u.config, disk: w.disk };
            lemma_copy_step_holds(at, u.plan, false, earlier, ok);
        },
        PhaseView::Rollback(r) => {
            let at = RollbackRun { turn: RollbackTurnView::Next(r), config: u.config, disk: w.disk };
            lemma_rollback_step_holds(at, ok);
        },
        _ => {},
    }
}

proof fn lemma_resumed_run(w: World, found: RunningConfigView, replies: Seq<ReplyView>)
    requires
        resumed_holds(w, found),
    ensures
        resumed_holds(run(w, replies), found),
    decreases replies.len(),
{
    if replies.len() > 0 {
        lemma_resumed_step(w, found, replies[0]);
        lemma_resumed_run(step(w, replies[0]), found, replies.drop_first());
    }
}

/// Whether `action` is one that only staging asks for.
pub open spec fn is_staging_action(action: ActionView) -> bool {
    ||| action is BackupDirExists
    ||| action is RemoveBackupDir
    ||| action is CreateBackupDir
    ||| action is CreateParentDir
    ||| action is SourceIsFile
    ||| action is TargetExists
    ||| action is MoveToBackup
}

/// An update that is taken up from a checkpoint that says `Updating` does no
/// staging: it goes straight to the copying. Once its status is `Finish`, the
/// backups on record are those of the checkpoint, and the applied paths are those of
/// the checkpoint followed by the target of every entry of the manifest, in order:
/// the copying starts again at the first entry, whatever the checkpoint says was
/// applied before.
pub proof fn lemma_resumed_update_copies_only(
    env: EnvironmentView,
    found: RunningConfigView,
    disk: Disk,
    replies: Seq<ReplyView>,
)
    requires
        !asks_for_update(env),
        found.status == RunningState::Updating,
    ensures
        ({
            let end = run(World { updater: launched(env, Some(found)), disk }, replies).updater;
            let copied = copied_targets(end.plan, false, end.plan.files.len());
            &&& !(end.phase is Staging)
            &&& !is_staging_action(next_action(end))
            &&& copied.len() == end.plan.files.len()
            &&& end.config.status == RunningState::Finish ==> {
                &&& end.config.file_path == found.file_path
                &&& end.config.moved_path == found.moved_path + copied
            }
        }),
{
    let start = World { updater: launched(env, Some(found)), disk };
    lemma_resumed_run(start, found, replies);
    lemma_run_in_range(start, replies);
    let end = run(start, replies).updater;
    lemma_copied_targets_count(end.plan, false, end.plan.files.len());
}

/// What holds of the disk at every moment of an update that was taken up from the
/// checkpoint `found`, which says `Updating`: the entries that the copying has
/// dealt with are in place.
spec fn resumed_places(w: World, found: RunningConfigView) -> bool {
    let u = w.updater;
    &&& resumed_holds(w, found)
    &&& match u.phase {
        PhaseView::Copying(c) => in_place(u.plan, false, copied_so_far(c.step, c.index), w.disk),
        PhaseView::RecordFinish | PhaseView::Commit => in_place(
            u.plan,
            false,
            u.plan.files.len(),
            w.disk,
        ),
        _ => true,
    }
}

proof fn lemma_resumed_places_step(w: World, found: RunningConfigView, reply: ReplyView)
    requires
        resumed_places(w, found),
        answers(w.disk, next_action(w.updater), succeeded(reply)),
    ensures
        resumed_places(step(w, reply), found),
{
    let u = w.updater;
    lemma_resumed_step(w, found, reply);
    match u.phase {
        PhaseView::Copying(c) => {
            if c.step == CopyStep::Copy && succeeded(reply) {
                lemma_copy_places(u.plan, false, c.index, w.disk);
            }
            if c.step == CopyStep::Watch {
                lemma_skip_places(u.plan, false, c.index, w.disk);
            }
        },
        _ => {},
    }
}

proof fn lemma_resumed_places_run(w: World, found: RunningConfigView, replies: Seq<ReplyView>)
    requires
        resumed_places(w, found),
        fits(w, replies),
    ensures
        resumed_places(run(w, replies), found),
    decreases replies.len(),
{
    if replies.len() > 0 {
        lemma_resumed_places_step(w, found, replies[0]);
        lemma_resumed_places_run(step(w, replies[0]), found, replies.drop_first());
    }
}

/// An update that is taken up from a checkpoint that says `Updating` and copies its
/// last file has every file in place: when it writes the status `Finish`, the target
/// of every entry of the manifest is installed and holds what a staged file for it
/// held, whichever of them an earlier process had copied already.
pub proof fn lemma_resumed_update_puts_files_in_place(
    env: EnvironmentView,
    found: RunningConfigView,
    disk: Disk,
    replies: Seq<ReplyView>,
)
    requires
        !asks_for_update(env),
        found.status == RunningState::Updating,
        fits(World { updater: launched(env, Some(found)), disk }, replies),
    ensures
        ({
            let end = run(World { updater: launched(env, Some(found)), disk }, replies);
            end.updater.phase == PhaseView::RecordFinish ==> {
                &&& end.updater.config.status == RunningState::Finish
                &&& in_place(end.updater.plan, false, end.updater.plan.files.len(), end.disk)
            }
        }),
{
    lemma_resumed_places_run(World { updater: launched(env, Some(found)), disk }, found, replies);
}

/// The reply of a world in which nothing goes wrong: the manifest is read as
/// `manifest`, and every other action succeeds.
pub open spec fn good_reply(u: UpdaterView, manifest: Seq<ManifestEntryView>) -> ReplyView {
    if u.phase == PhaseView::ReadManifest {
        ReplyView::Manifest(Some(manifest))
    } else {
        ReplyView::Done(true)
    }
}

/// The update from `w` on, for `steps` steps in which nothing goes wrong.
pub open spec fn run_well(w: World, manifest: Seq<ManifestEntryView>, steps: nat) -> World
    decreases steps,
{
    if steps == 0 {
        w
    } else {
        run_well(step(w, good_reply(w.updater, manifest)), manifest, (steps - 1) as nat)
    }
}

/// Whether the update has copied every file and has only to wind up.
pub open spec fn winding_up(u: UpdaterView) -> bool {
    &&& u.config.status == RunningState::Finish
    &&& match u.phase {
        PhaseView::RecordFinish
        | PhaseView::Commit
        | PhaseView::Grace
        | PhaseView::Clean
        | PhaseView::Relaunch
        | PhaseView::Quit => true,
        _ => false,
    }
}

proof fn lemma_winds_up(w: World, manifest: Seq<ManifestEntryView>, steps: nat)
    requires
        winding_up(w.updater),
    ensures
        winding_up(run_well(w, manifest, steps).updater),
    decreases steps,
{
    if steps > 0 {
        lemma_winds_up(step(w, good_reply(w.updater, manifest)), manifest, (steps - 1) as nat);
    }
}

proof fn lemma_copies_well(w: World, manifest: Seq<ManifestEntryView>, steps: nat, index: nat)
    requires
        w.updater.phase == PhaseView::Copying(CopyingView { step: CopyStep::Progress, index }),
        !w.updater.flags.need_update_myself,
        index < w.updater.plan.files.len(),
        steps >= 3 * (w.updater.plan.files.len() - index),
    ensures
        winding_up(run_well(w, manifest, steps).updater),
    decreases w.updater.plan.files.len() - index,
{
    let w1 = step(w, good_reply(w.updater, manifest));
    let w2 = step(w1, good_reply(w1.updater, manifest));
    let w3 = step(w2, good_reply(w2.updater, manifest));
    assert(run_well(w, manifest, steps) == run_well(w1, manifest, (steps - 1) as nat));
    assert(run_well(w1, manifest, (steps - 1) as nat) == run_well(
        w2,
        manifest,
        (steps - 2) as nat,
    ));
    assert(run_well(w2, manifest, (steps - 2) as nat) == run_well(
        w3,
        manifest,
        (steps - 3) as nat,
    ));
    if index + 1 < w.updater.plan.files.len() {
        lemma_copies_well(w3, manifest, (steps - 3) as nat, index + 1);
    } else {
        lemma_winds_up(w3, manifest, (steps - 3) as nat);
    }
}

/// An update that is taken up from a checkpoint that says `Updating` reaches the
/// status `Finish` when nothing goes wrong: the checkpoint file opens, the
/// executable has a directory above it, the manifest is read, the application ends,
/// the running executable is known and every copy succeeds. It does so after five
/// steps and three more for each entry of the manifest, and keeps that status.
pub proof fn lemma_resumed_update_finishes(
    env: EnvironmentView,
    found: RunningConfigView,
    disk: Disk,
    manifest: Seq<ManifestEntryView>,
    steps: nat,
)
    requires
        !asks_for_update(env),
        found.status == RunningState::Updating,
        parent_of(found.exe_path) is Some,
        env.current_exe is Some,
        steps >= 5 + 3 * manifest.len(),
    ensures
        run_well(
            World { updater: launched(env, Some(found)), disk },
            manifest,
            steps,
        ).updater.config.status == RunningState::Finish,
{
    let w0 = World { updater: launched(env, Some(found)), disk };
    let w1 = step(w0, good_reply(w0.updater, manifest));
    let w2 = step(w1, good_reply(w1.updater, manifest));
    let w3 = step(w2, good_reply(w2.updater, manifest));
    let w4 = step(w3, good_reply(w3.updater, manifest));
    let w5 = step(w4, good_reply(w4.updater, manifest));
    assert(run_well(w0, manifest, steps) == run_well(w1, manifest, (steps - 1) as nat));
    assert(run_well(w1, manifest, (steps - 1) as nat) == run_well(
        w2,
        manifest,
        (steps - 2) as nat,
    ));
    assert(run_well(w2, manifest, (steps - 2) as nat) == run_well(
        w3,
        manifest,
        (steps - 3) as nat,
    ));
    assert(run_well(w3, manifest, (steps - 3) as nat) == run_well(
        w4,
        manifest,
        (steps - 4) as nat,
    ));
    assert(run_well(w4, manifest, (steps - 4) as nat) == run_well(
        w5,
        manifest,
        (steps - 5) as nat,
    ));
    assert(w1.updater.phase == PhaseView::RecordStart);
    assert(w2.updater.phase == PhaseView::RecordStagingPath);
    assert(w3.updater.phase == PhaseView::ReadManifest);
    assert(w4.updater.phase == PhaseView::EndTarget);
    assert(w4.updater.plan.files.len() == manifest.len());
    assert(w4.updater.plan.self_known);
    if manifest.len() == 0 {
        lemma_winds_up(w5, manifest, (steps - 5) as nat);
    } else {
        lemma_copies_well(w5, manifest, (steps - 5) as nat, 0);
    }
}

/// What holds of the backups on record at every moment: they are in the order of
/// their indices, and while staging goes through the entries, each is for an entry
/// before the one in hand.
pub open spec fn backups_in_order(u: UpdaterView) -> bool {
    &&& in_index_order(u.config.file_path)
    &&& match u.phase {
        PhaseView::Staging(s) => match s.step {
            StagingStep::CreateParent
            | StagingStep::CheckSource
            | StagingStep::CheckTarget
            | StagingStep::MoveAside => forall|k: int|
                0 <= k < u.config.file_path.len() ==> (#[trigger] u.config.file_path[k]).index
                    < s.index,
            _ => true,
        },
        _ => true,
    }
}

proof fn lemma_step_in_order(u: UpdaterView, reply: ReplyView)
    requires
        backups_in_order(u),
    ensures
        backups_in_order(next_state(u, reply)),
{
    let next = next_state(u, reply);
    match u.phase {
        PhaseView::Staging(s) => {
            if s.step == StagingStep::MoveAside && succeeded(reply) && s.index
                < u.plan.files.len() {
                let before = u.config.file_path;
                let now = next.config.file_path;
                assert forall|j: int, k: int| 0 <= j < k < now.len() implies (
                #[trigger] now[j]).index < (#[trigger] now[k]).index by {
                    assert(now[j] == before[j]);
                    if k < before.len() {
                        assert(now[k] == before[k]);
                    }
                }
                assert forall|k: int| 0 <= k < now.len() implies (#[trigger] now[k]).index
                    < s.index + 1 by {
                    if k < before.len() {
                        assert(now[k] == before[k]);
                    }
                }
            }
        },
        _ => {},
    }
}

proof fn lemma_run_in_order(w: World, replies: Seq<ReplyView>)
    requires
        backups_in_order(w.updater),
    ensures
        backups_in_order(run(w, replies).updater),
    decreases replies.len(),
{
    if replies.len() > 0 {
        lemma_step_in_order(w.updater, replies[0]);
        lemma_run_in_order(step(w, replies[0]), replies.drop_first());
    }
}

/// The backups on record are a map from indices to paths at every moment: where
/// the checkpoint that was found holds no index twice and has its backups in the
/// order of their indices, so has the checkpoint of the update, whatever happens.
pub proof fn lemma_backups_stay_in_order(
    env: EnvironmentView,
    checkpoint: Option<RunningConfigView>,
    disk: Disk,
    replies: Seq<ReplyView>,
)
    requires
        checkpoint is Some ==> in_index_order(checkpoint->0.file_path),
    ensures
        in_index_order(
            run(World { updater: launched(env, checkpoint), disk }, replies).updater.config.file_path,
        ),
{
    lemma_run_in_order(World { updater: launched(env, checkpoint), disk }, replies);
}

} // verus!
