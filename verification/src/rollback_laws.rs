use vstd::prelude::*;
use crate::action::ActionView;
use crate::disk::{after, Disk};
use crate::rollback::{
    rollback_begin, rollback_request, rollback_turn, RollbackStep, RollbackTurnView,
};
use crate::state::{RunningConfigView, RunningState};

verus! {

/// A moment of a rollback, with the disk that it works on.
pub struct RollbackRun {
    pub turn: RollbackTurnView,
    pub config: RunningConfigView,
    pub disk: Disk,
}

/// A rollback of `config` as it begins on `disk`.
pub open spec fn rollback_start(config: RunningConfigView, disk: Disk) -> RollbackRun {
    let outcome = rollback_begin(config);
    RollbackRun { turn: outcome.turn, config: outcome.config, disk }
}

/// The action that is asked for at `run`, if the rollback is still going on.
pub open spec fn rollback_asks(run: RollbackRun) -> Option<ActionView> {
    match run.turn {
        RollbackTurnView::Next(s) => rollback_request(s, run.config),
        _ => None,
    }
}

/// One step of a rollback on the disk: the action that the rollback asks for is
/// carried out with the result `ok`, and the rollback goes on. Once it is over,
/// nothing changes.
pub open spec fn rollback_step(run: RollbackRun, ok: bool) -> RollbackRun {
    match run.turn {
        RollbackTurnView::Next(s) => match rollback_request(s, run.config) {
            Some(action) => {
                let outcome = rollback_turn(s, run.config);
                RollbackRun {
                    turn: outcome.turn,
                    config: outcome.config,
                    disk: after(run.disk, action, ok),
                }
            },
            None => RollbackRun { turn: RollbackTurnView::Broken, ..run },
        },
        _ => run,
    }
}

/// A rollback from `run` on, with one step for each of `replies`.
pub open spec fn rollback_run(run: RollbackRun, replies: Seq<bool>) -> RollbackRun
    decreases replies.len(),
{
    if replies.len() == 0 {
        run
    } else {
        rollback_run(rollback_step(run, replies[0]), replies.drop_first())
    }
}

/// What holds at every moment of a rollback: it is in a state that it can go on
/// from, the applied paths are gone from the checkpoint once they are dealt with, and
/// so are the backups in the end.
pub open spec fn rollback_holds(run: RollbackRun) -> bool {
    match run.turn {
        RollbackTurnView::Next(s) => match s.step {
            RollbackStep::RecordFailed => run.config.status == RunningState::Failed,
            RollbackStep::Delete => {
                &&& s.index < run.config.moved_path.len()
                &&& run.config.status == RunningState::Failed
            },
            RollbackStep::RecordDeleted => {
                &&& run.config.moved_path.len() == 0
                &&& run.config.status == RunningState::Failed
            },
            RollbackStep::Restore => {
                &&& s.index < run.config.file_path.len()
                &&& run.config.moved_path.len() == 0
                &&& run.config.status == RunningState::Failed
            },
            RollbackStep::RecordDone => settled(run.config),
        },
        RollbackTurnView::Done => settled(run.config),
        RollbackTurnView::Broken => false,
    }
}

/// Whether `config` records nothing that a rollback would undo, and says so.
pub open spec fn settled(config: RunningConfigView) -> bool {
    &&& config.status == RunningState::Nothing
    &&& nothing_to_undo(config)
}

/// Whether `config` records no applied path and no backup.
pub open spec fn nothing_to_undo(config: RunningConfigView) -> bool {
    &&& config.moved_path.len() == 0
    &&& config.file_path.len() == 0
}

/// A step of a rollback keeps what holds of a rollback.
pub proof fn lemma_rollback_step_holds(run: RollbackRun, ok: bool)
    requires
        rollback_holds(run),
    ensures
        rollback_holds(rollback_step(run, ok)),
{
}

proof fn lemma_run_holds(run: RollbackRun, replies: Seq<bool>)
    requires
        rollback_holds(run),
    ensures
        rollback_holds(rollback_run(run, replies)),
    decreases replies.len(),
{
    if replies.len() > 0 {
        lemma_rollback_step_holds(run, replies[0]);
        lemma_run_holds(rollback_step(run, replies[0]), replies.drop_first());
    }
}

/// What holds at every moment of a rollback of a checkpoint that records nothing to
/// undo: the disk is as it was, and there is still nothing to undo.
spec fn idle_holds(run: RollbackRun, disk: Disk) -> bool {
    &&& run.disk == disk
    &&& nothing_to_undo(run.config)
    &&& match run.turn {
        RollbackTurnView::Next(s) => s.step != RollbackStep::Delete && s.step
            != RollbackStep::Restore,
        _ => true,
    }
}

proof fn lemma_idle_run_holds(run: RollbackRun, disk: Disk, replies: Seq<bool>)
    requires
        idle_holds(run, disk),
    ensures
        idle_holds(rollback_run(run, replies), disk),
    decreases replies.len(),
{
    if replies.len() > 0 {
        lemma_idle_run_holds(rollback_step(run, replies[0]), disk, replies.drop_first());
    }
}

/// A rollback never reaches a state in which it has no action to ask for, and when it
/// is done the checkpoint says `Nothing` and records no applied path and no backup.
pub proof fn lemma_rollback_settles(config: RunningConfigView, disk: Disk, replies: Seq<bool>)
    ensures
        ({
            let end = rollback_run(rollback_start(config, disk), replies);
            &&& end.turn != RollbackTurnView::Broken
            &&& end.turn is Next ==> rollback_asks(end) is Some
            &&& end.turn == RollbackTurnView::Done ==> settled(end.config)
        }),
{
    lemma_run_holds(rollback_start(config, disk), replies);
}

/// A rollback of a checkpoint that records no applied path and no backup leaves
/// every file as it is, at every moment and whatever the disk replies.
pub proof fn lemma_rollback_of_nothing(config: RunningConfigView, disk: Disk, replies: Seq<bool>)
    requires
        nothing_to_undo(config),
    ensures
        rollback_run(rollback_start(config, disk), replies).disk == disk,
{
    lemma_idle_run_holds(rollback_start(config, disk), disk, replies);
}

/// Rolling back twice is the same as rolling back once: after a rollback that ran to
/// its end, a second rollback of the checkpoint that the first one left changes no
/// file, whatever the disk replies.
pub proof fn lemma_rollback_twice(
    config: RunningConfigView,
    disk: Disk,
    first: Seq<bool>,
    second: Seq<bool>,
)
    requires
        rollback_run(rollback_start(config, disk), first).turn == RollbackTurnView::Done,
    ensures
        ({
            let once = rollback_run(rollback_start(config, disk), first);
            let twice = rollback_run(rollback_start(once.config, once.disk), second);
            twice.disk == once.disk
        }),
{
    let once = rollback_run(rollback_start(config, disk), first);
    lemma_rollback_settles(config, disk, first);
    lemma_rollback_of_nothing(once.config, once.disk, second);
}

} // verus!
