use vstd::prelude::*;
use crate::action::{action_view, Action, ActionView};
use crate::paths::{backup_root, backup_root_of, backup_slot, slot_path};
use crate::state::{RunningConfig, RunningConfigView, RunningState};

verus! {

/// What the rollback is waiting for.
#[derive(Clone, Copy, Debug, PartialEq, Eq, Structural)]
pub enum RollbackStep {
    /// The write of the checkpoint with the status `Failed`.
    RecordFailed,
    /// The deletion of an applied file.
    Delete,
    /// The write of the checkpoint without applied paths.
    RecordDeleted,
    /// The move of a backup back to where it came from.
    Restore,
    /// The write of the checkpoint with the status `Nothing` and without backups.
    RecordDone,
}

/// Where the rollback stands: the step it waits for, and how many applied paths or
/// backups it has dealt with.
#[derive(Clone, Copy, Debug, PartialEq, Eq)]
pub struct Rollback {
    pub step: RollbackStep,
    pub index: usize,
}

/// A `Rollback` as contracts see it.
pub struct RollbackView {
    pub step: RollbackStep,
    pub index: nat,
}

impl View for Rollback {
    type V = RollbackView;

    open spec fn view(&self) -> RollbackView {
        RollbackView { step: self.step, index: self.index as nat }
    }
}

/// What the rollback does after a reply.
#[derive(Clone, Copy, Debug, PartialEq, Eq)]
pub enum RollbackTurn {
    /// It goes on from there.
    Next(Rollback),
    /// It is over.
    Done,
    /// It was not in a state that a rollback of this checkpoint can reach.
    Broken,
}

/// A `RollbackTurn` as contracts see it.
pub enum RollbackTurnView {
    Next(RollbackView),
    Done,
    Broken,
}

impl View for RollbackTurn {
    type V = RollbackTurnView;

    open spec fn view(&self) -> RollbackTurnView {
        match *self {
            RollbackTurn::Next(s) => RollbackTurnView::Next(s@),
            RollbackTurn::Done => RollbackTurnView::Done,
            RollbackTurn::Broken => RollbackTurnView::Broken,
        }
    }
}

/// What a step of the rollback leaves behind: where it stands, and the checkpoint.
pub struct RollbackOutcome {
    pub turn: RollbackTurnView,
    pub config: RunningConfigView,
}

/// How a rollback of `config` begins: the status becomes `Failed`, and that is
/// written down first.
pub open spec fn rollback_begin(config: RunningConfigView) -> RollbackOutcome {
    RollbackOutcome {
        turn: RollbackTurnView::Next(RollbackView { step: RollbackStep::RecordFailed, index: 0 }),
        config: RunningConfigView { status: RunningState::Failed, ..config },
    }
}

/// The rollback has dealt with `deleted` of the applied paths: the next one is
/// deleted, and when none is left the list is cleared and the checkpoint written.
pub open spec fn delete_from(config: RunningConfigView, deleted: nat) -> RollbackOutcome {
    if deleted < config.moved_path.len() {
        RollbackOutcome {
            turn: RollbackTurnView::Next(
                RollbackView { step: RollbackStep::Delete, index: deleted },
            ),
            config,
        }
    } else {
        RollbackOutcome {
            turn: RollbackTurnView::Next(
                RollbackView { step: RollbackStep::RecordDeleted, index: 0 },
            ),
            config: RunningConfigView { moved_path: Seq::empty(), ..config },
        }
    }
}

/// The rollback has dealt with `restored` of the backups: the next one is moved
/// back, and when none is left the record of them is cleared, the status becomes
/// `Nothing` and the checkpoint is written.
pub open spec fn restore_from(config: RunningConfigView, restored: nat) -> RollbackOutcome {
    if restored < config.file_path.len() {
        RollbackOutcome {
            turn: RollbackTurnView::Next(
                RollbackView { step: RollbackStep::Restore, index: restored },
            ),
            config,
        }
    } else {
        RollbackOutcome {
            turn: RollbackTurnView::Next(RollbackView { step: RollbackStep::RecordDone, index: 0 }),
            config: RunningConfigView {
                status: RunningState::Nothing,
                file_path: Seq::empty(),
                ..config
            },
        }
    }
}

/// What the rollback does when the action it asked for in state `s` was carried out.
///
/// Every applied path is deleted, in the order in which the paths were recorded, and
/// then every backup is moved back, in the order in which the backups were recorded.
/// Whether a deletion or a move succeeded makes no difference: the rollback goes on
/// to the next.
pub open spec fn rollback_turn(s: RollbackView, config: RunningConfigView) -> RollbackOutcome {
    match s.step {
        RollbackStep::RecordFailed => delete_from(config, 0),
        RollbackStep::Delete => if s.index < config.moved_path.len() {
            delete_from(config, s.index + 1)
        } else {
            RollbackOutcome { turn: RollbackTurnView::Broken, config }
        },
        RollbackStep::RecordDeleted => restore_from(config, 0),
        RollbackStep::Restore => if s.index < config.file_path.len() {
            restore_from(config, s.index + 1)
        } else {
            RollbackOutcome { turn: RollbackTurnView::Broken, config }
        },
        RollbackStep::RecordDone => RollbackOutcome { turn: RollbackTurnView::Done, config },
    }
}

/// The action that the rollback asks for in state `s`, or `None` where `s` is not a
/// state that a rollback of this checkpoint can reach. The backup slots are looked
/// for below the staging directory that the checkpoint names.
pub open spec fn rollback_request(s: RollbackView, config: RunningConfigView) -> Option<
    ActionView,
> {
    match s.step {
        RollbackStep::RecordFailed | RollbackStep::RecordDeleted | RollbackStep::RecordDone => Some(
            ActionView::Persist,
        ),
        RollbackStep::Delete => if s.index < config.moved_path.len() {
            Some(ActionView::DeleteFile { path: config.moved_path[s.index as int] })
        } else {
            None
        },
        RollbackStep::Restore => if s.index < config.file_path.len() {
            let backup = config.file_path[s.index as int];
            Some(
                ActionView::RestoreFromBackup {
                    index: backup.index,
                    slot: slot_path(backup_root_of(config.update_temp_path), backup.index),
                    target: backup.path,
                },
            )
        } else {
            None
        },
    }
}

fn delete_next(config: &mut RunningConfig, deleted: usize) -> (turn: RollbackTurn)
    ensures
        ({
            let outcome = delete_from(old(config)@, deleted as nat);
            &&& turn@ == outcome.turn
            &&& final(config)@ == outcome.config
        }),
{
    if deleted < config.moved_path.len() {
        RollbackTurn::Next(Rollback { step: RollbackStep::Delete, index: deleted })
    } else {
        config.moved_path = Vec::new();
        assert(config@.moved_path =~= Seq::empty());
        RollbackTurn::Next(Rollback { step: RollbackStep::RecordDeleted, index: 0 })
    }
}

fn restore_next(config: &mut RunningConfig, restored: usize) -> (turn: RollbackTurn)
    ensures
        ({
            let outcome = restore_from(old(config)@, restored as nat);
            &&& turn@ == outcome.turn
            &&& final(config)@ == outcome.config
        }),
{
    if restored < config.file_path.len() {
        RollbackTurn::Next(Rollback { step: RollbackStep::Restore, index: restored })
    } else {
        config.status = RunningState::Nothing;
        config.file_path = Vec::new();
        assert(config@.file_path =~= Seq::empty());
        RollbackTurn::Next(Rollback { step: RollbackStep::RecordDone, index: 0 })
    }
}

impl Rollback {
    /// Begins the rollback of the update that `config` records.
    pub fn begin(config: &mut RunningConfig) -> (turn: RollbackTurn)
        ensures
            ({
                let outcome = rollback_begin(old(config)@);
                &&& turn@ == outcome.turn
                &&& final(config)@ == outcome.config
            }),
    {
        config.status = RunningState::Failed;
        RollbackTurn::Next(Rollback { step: RollbackStep::RecordFailed, index: 0 })
    }

    /// The action that the rollback asks for next.
    pub fn request(&self, config: &RunningConfig) -> (action: Option<Action>)
        ensures
            action_view(action) == rollback_request(self@, config@),
    {
        match self.step {
            RollbackStep::RecordFailed => Some(Action::Persist),
            RollbackStep::RecordDeleted => Some(Action::Persist),
            RollbackStep::RecordDone => Some(Action::Persist),
            RollbackStep::Delete => {
                if self.index < config.moved_path.len() {
                    Some(Action::DeleteFile { path: config.moved_path[self.index].clone() })
                } else {
                    None
                }
            },
            RollbackStep::Restore => {
                if self.index < config.file_path.len() {
                    let backup = &config.file_path[self.index];
                    let root = backup_root(config.update_temp_path.as_str());
                    Some(
                        Action::RestoreFromBackup {
                            index: backup.index,
                            slot: backup_slot(root.as_str(), backup.index),
                            target: backup.path.clone(),
                        },
                    )
                } else {
                    None
                }
            },
        }
    }

    /// Goes on after the action that was asked for was carried out, whether or not
    /// it succeeded.
    pub fn advance(self, config: &mut RunningConfig) -> (turn: RollbackTurn)
        ensures
            ({
                let outcome = rollback_turn(self@, old(config)@);
                &&& turn@ == outcome.turn
                &&& final(config)@ == outcome.config
            }),
    {
        match self.step {
            RollbackStep::RecordFailed => delete_next(config, 0),
            RollbackStep::Delete => {
                if self.index < config.moved_path.len() {
                    delete_next(config, self.index + 1)
                } else {
                    RollbackTurn::Broken
                }
            },
            RollbackStep::RecordDeleted => restore_next(config, 0),
            RollbackStep::Restore => {
                if self.index < config.file_path.len() {
                    restore_next(config, self.index + 1)
                } else {
                    RollbackTurn::Broken
                }
            },
            RollbackStep::RecordDone => RollbackTurn::Done,
        }
    }
}

} // verus!
