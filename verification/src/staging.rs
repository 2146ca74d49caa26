use vstd::prelude::*;
use crate::action::{action_view, Action, ActionView};
use crate::flags::{set_need_update_myself, SelfUpdateFlags};
use crate::paths::{backup_slot, slot_path};
use crate::plan::{Plan, PlanView};
use crate::state::{BackupEntry, BackupView, RunningConfig, RunningConfigView};

verus! {

/// What staging is waiting for.
#[derive(Clone, Copy, Debug, PartialEq, Eq, Structural)]
pub enum StagingStep {
    /// Whether a backup directory is left over from an earlier attempt.
    CheckBackupDir,
    /// The removal of that directory.
    RemoveBackupDir,
    /// The creation of an empty backup directory.
    CreateBackupDir,
    /// The creation of the directory that holds the target of the entry in hand.
    CreateParent,
    /// Whether the staged file of the entry in hand is there.
    CheckSource,
    /// Whether the target of the entry in hand is there.
    CheckTarget,
    /// The move of the target of the entry in hand into its backup slot.
    MoveAside,
    /// The move of a backup back to where it came from, after a failure.
    Undo,
}

/// Where staging stands: the step it waits for and the entry in hand. While backups
/// are being undone, `index` counts the backups that are back in place.
#[derive(Clone, Copy, Debug, PartialEq, Eq)]
pub struct Staging {
    pub step: StagingStep,
    pub index: usize,
    /// Whether the directory for the target in hand could not be created.
    pub parent_failed: bool,
}

/// A `Staging` as contracts see it.
pub struct StagingView {
    pub step: StagingStep,
    pub index: nat,
    pub parent_failed: bool,
}

impl View for Staging {
    type V = StagingView;

    open spec fn view(&self) -> StagingView {
        StagingView {
            step: self.step,
            index: self.index as nat,
            parent_failed: self.parent_failed,
        }
    }
}

/// How staging ended.
#[derive(Clone, Copy, Debug, PartialEq, Eq, Structural)]
pub enum StagingEnd {
    /// Every target that was in the way lies in its backup slot.
    Staged,
    /// Staging failed, and every move that it had made was undone.
    Failed,
    /// Staging failed, and a backup could not be moved back: the backups that are
    /// still out of place remain on record.
    Stuck,
}

/// What staging does after a reply.
#[derive(Clone, Copy, Debug, PartialEq, Eq)]
pub enum StagingTurn {
    /// It goes on from there.
    Next(Staging),
    /// It is over.
    End(StagingEnd),
    /// It was not in a state that staging of this plan can reach.
    Broken,
}

/// A `StagingTurn` as contracts see it.
pub enum StagingTurnView {
    Next(StagingView),
    End(StagingEnd),
    Broken,
}

impl View for StagingTurn {
    type V = StagingTurnView;

    open spec fn view(&self) -> StagingTurnView {
        match *self {
            StagingTurn::Next(s) => StagingTurnView::Next(s@),
            StagingTurn::End(e) => StagingTurnView::End(e),
            StagingTurn::Broken => StagingTurnView::Broken,
        }
    }
}

/// What a step of staging leaves behind: where staging stands, the backups on
/// record, and whether the running executable is known to need replacing.
pub struct StagingOutcome {
    pub turn: StagingTurnView,
    pub backups: Seq<BackupView>,
    pub need_update_myself: bool,
}

/// Staging as it begins.
pub open spec fn staging_start() -> StagingView {
    StagingView { step: StagingStep::CheckBackupDir, index: 0, parent_failed: false }
}

/// Staging has failed with `undone` of the recorded backups back in place: the
/// next one is moved back, and when none is left the record is cleared.
pub open spec fn undo_from(backups: Seq<BackupView>, need: bool, undone: nat) -> StagingOutcome {
    if undone < backups.len() {
        StagingOutcome {
            turn: StagingTurnView::Next(
                StagingView { step: StagingStep::Undo, index: undone, parent_failed: false },
            ),
            backups,
            need_update_myself: need,
        }
    } else {
        StagingOutcome {
            turn: StagingTurnView::End(StagingEnd::Failed),
            backups: Seq::empty(),
            need_update_myself: need,
        }
    }
}

/// Staging turns to the entry at `index`: past the last entry it is done, and an
/// entry whose target has no directory above it makes it fail.
pub open spec fn entry_at(
    plan: PlanView,
    backups: Seq<BackupView>,
    need: bool,
    index: nat,
) -> StagingOutcome {
    if index >= plan.files.len() {
        StagingOutcome {
            turn: StagingTurnView::End(StagingEnd::Staged),
            backups,
            need_update_myself: need,
        }
    } else if plan.files[index as int].parent is None {
        undo_from(backups, need, 0)
    } else {
        StagingOutcome {
            turn: StagingTurnView::Next(
                StagingView { step: StagingStep::CreateParent, index, parent_failed: false },
            ),
            backups,
            need_update_myself: need,
        }
    }
}

/// Staging goes on to `step` for the entry in hand, and nothing on record changes.
pub open spec fn go_on(
    s: StagingView,
    step: StagingStep,
    parent_failed: bool,
    backups: Seq<BackupView>,
    need: bool,
) -> StagingOutcome {
    StagingOutcome {
        turn: StagingTurnView::Next(StagingView { step, index: s.index, parent_failed }),
        backups,
        need_update_myself: need,
    }
}

/// Staging is over or broken, and nothing on record changes.
pub open spec fn stop(turn: StagingTurnView, backups: Seq<BackupView>, need: bool) -> StagingOutcome {
    StagingOutcome { turn, backups, need_update_myself: need }
}

/// What staging of `plan` does when the action it asked for in state `s` is answered
/// with `ok`.
///
/// The backup directory is emptied first. Then, entry by entry: the directory for the
/// target is created, the staged file must be there, and a target that exists is
/// moved into the backup slot of its index and recorded, unless it is the running
/// executable, which is only noted. The first failure sends staging back through
/// the recorded backups in the order in which they were made.
pub open spec fn staging_turn(
    s: StagingView,
    plan: PlanView,
    backups: Seq<BackupView>,
    need: bool,
    ok: bool,
) -> StagingOutcome {
    let failed = StagingTurnView::End(StagingEnd::Failed);
    let in_plan = s.index < plan.files.len();
    match s.step {
        StagingStep::CheckBackupDir => if ok {
            go_on(s, StagingStep::RemoveBackupDir, false, backups, need)
        } else {
            go_on(s, StagingStep::CreateBackupDir, false, backups, need)
        },
        StagingStep::RemoveBackupDir => if ok {
            go_on(s, StagingStep::CreateBackupDir, false, backups, need)
        } else {
            stop(failed, backups, need)
        },
        StagingStep::CreateBackupDir => if ok && plan.self_known {
            entry_at(plan, Seq::empty(), need, 0)
        } else {
            stop(failed, backups, need)
        },
        StagingStep::CreateParent => if in_plan {
            go_on(s, StagingStep::CheckSource, !ok, backups, need)
        } else {
            stop(StagingTurnView::Broken, backups, need)
        },
        StagingStep::CheckSource => if !in_plan {
            stop(StagingTurnView::Broken, backups, need)
        } else if ok && !s.parent_failed {
            go_on(s, StagingStep::CheckTarget, false, backups, need)
        } else {
            undo_from(backups, need, 0)
        },
        StagingStep::CheckTarget => if !in_plan {
            stop(StagingTurnView::Broken, backups, need)
        } else if !ok {
            entry_at(plan, backups, need, s.index + 1)
        } else if plan.files[s.index as int].is_self {
            entry_at(plan, backups, true, s.index + 1)
        } else {
            go_on(s, StagingStep::MoveAside, false, backups, need)
        },
        StagingStep::MoveAside => if !in_plan {
            stop(StagingTurnView::Broken, backups, need)
        } else if ok {
            entry_at(
                plan,
                backups.push(
                    BackupView { index: s.index, path: plan.files[s.index as int].target },
                ),
                need,
                s.index + 1,
            )
        } else {
            undo_from(backups, need, 0)
        },
        StagingStep::Undo => if s.index >= backups.len() {
            stop(StagingTurnView::Broken, backups, need)
        } else if ok {
            undo_from(backups, need, s.index + 1)
        } else {
            stop(StagingTurnView::End(StagingEnd::Stuck), backups, need)
        },
    }
}

/// The action that staging of `plan` asks for in state `s`, or `None` where `s` is
/// not a state that staging of this plan can reach.
pub open spec fn staging_request(
    s: StagingView,
    plan: PlanView,
    backups: Seq<BackupView>,
) -> Option<ActionView> {
    let file = plan.files[s.index as int];
    let in_plan = s.index < plan.files.len();
    match s.step {
        StagingStep::CheckBackupDir => Some(ActionView::BackupDirExists { dir: plan.backup_root }),
        StagingStep::RemoveBackupDir => Some(ActionView::RemoveBackupDir { dir: plan.backup_root }),
        StagingStep::CreateBackupDir => Some(ActionView::CreateBackupDir { dir: plan.backup_root }),
        StagingStep::CreateParent => if in_plan && file.parent is Some {
            Some(ActionView::CreateParentDir { dir: file.parent->0 })
        } else {
            None
        },
        StagingStep::CheckSource => if in_plan {
            Some(ActionView::SourceIsFile { path: file.source })
        } else {
            None
        },
        StagingStep::CheckTarget => if in_plan {
            Some(ActionView::TargetExists { path: file.target })
        } else {
            None
        },
        StagingStep::MoveAside => if in_plan {
            Some(
                ActionView::MoveToBackup {
                    index: s.index,
                    target: file.target,
                    slot: slot_path(plan.backup_root, s.index),
                },
            )
        } else {
            None
        },
        StagingStep::Undo => if s.index < backups.len() {
            let backup = backups[s.index as int];
            Some(
                ActionView::RestoreFromBackup {
                    index: backup.index,
                    slot: slot_path(plan.backup_root, backup.index),
                    target: backup.path,
                },
            )
        } else {
            None
        },
    }
}

/// `config` with `backups` on record in place of its own.
pub open spec fn with_backups(config: RunningConfigView, backups: Seq<BackupView>) -> RunningConfigView {
    RunningConfigView { file_path: backups, ..config }
}

impl Staging {
    /// Staging as it begins.
    pub fn start() -> (s: Staging)
        ensures
            s@ == staging_start(),
    {
        Staging { step: StagingStep::CheckBackupDir, index: 0, parent_failed: false }
    }

    /// The action that staging asks for next.
    pub fn request(&self, plan: &Plan, config: &RunningConfig) -> (action: Option<Action>)
        ensures
            action_view(action) == staging_request(self@, plan@, config@.file_path),
    {
        let in_plan = self.index < plan.files.len();
        match self.step {
            StagingStep::CheckBackupDir => Some(
                Action::BackupDirExists { dir: plan.backup_root.clone() },
            ),
            StagingStep::RemoveBackupDir => Some(
                Action::RemoveBackupDir { dir: plan.backup_root.clone() },
            ),
            StagingStep::CreateBackupDir => Some(
                Action::CreateBackupDir { dir: plan.backup_root.clone() },
            ),
            StagingStep::CreateParent => {
                if in_plan {
                    match &plan.files[self.index].parent {
                        Some(dir) => Some(Action::CreateParentDir { dir: dir.clone() }),
                        None => None,
                    }
                } else {
                    None
                }
            },
            StagingStep::CheckSource => {
                if in_plan {
                    Some(Action::SourceIsFile { path: plan.files[self.index].source.clone() })
                } else {
                    None
                }
            },
            StagingStep::CheckTarget => {
                if in_plan {
                    Some(Action::TargetExists { path: plan.files[self.index].target.clone() })
                } else {
                    None
                }
            },
            StagingStep::MoveAside => {
                if in_plan {
                    Some(
                        Action::MoveToBackup {
                            index: self.index,
                            target: plan.files[self.index].target.clone(),
                            slot: backup_slot(plan.backup_root.as_str(), self.index),
                        },
                    )
                } else {
                    None
                }
            },
            StagingStep::Undo => {
                if self.index < config.file_path.len() {
                    let backup = &config.file_path[self.index];
                    Some(
                        Action::RestoreFromBackup {
                            index: backup.index,
                            slot: backup_slot(plan.backup_root.as_str(), backup.index),
                            target: backup.path.clone(),
                        },
                    )
                } else {
                    None
                }
            },
        }
    }

    /// Takes in the reply to the action that was asked for: `ok` says whether it
    /// succeeded. Staging changes nothing in the checkpoint but the backups on
    /// record, and nothing in the flags but the need to replace the running
    /// executable.
    pub fn advance(
        self,
        plan: &Plan,
        config: &mut RunningConfig,
        flags: &mut SelfUpdateFlags,
        ok: bool,
    ) -> (turn: StagingTurn)
        ensures
            ({
                let outcome = staging_turn(
                    self@,
                    plan@,
                    old(config)@.file_path,
                    old(flags).need_update_myself,
                    ok,
                );
                &&& turn@ == outcome.turn
                &&& final(config)@ == with_backups(old(config)@, outcome.backups)
                &&& final(flags).need_update_myself == outcome.need_update_myself
                &&& final(flags).update_myself_now == old(flags).update_myself_now
            }),
    {
        let in_plan = self.index < plan.files.len();
        proof {
            assert(config@ == with_backups(config@, config@.file_path));
        }
        match self.step {
            StagingStep::CheckBackupDir => {
                if ok {
                    StagingTurn::Next(
                        Staging { step: StagingStep::RemoveBackupDir, parent_failed: false, ..self },
                    )
                } else {
                    StagingTurn::Next(
                        Staging { step: StagingStep::CreateBackupDir, parent_failed: false, ..self },
                    )
                }
            },
            StagingStep::RemoveBackupDir => {
                if ok {
                    StagingTurn::Next(
                        Staging { step: StagingStep::CreateBackupDir, parent_failed: false, ..self },
                    )
                } else {
                    StagingTurn::End(StagingEnd::Failed)
                }
            },
            StagingStep::CreateBackupDir => {
                if ok && plan.self_known {
                    config.file_path = Vec::new();
                    assert(config@.file_path =~= Seq::empty());
                    enter_entry(plan, config, 0)
                } else {
                    StagingTurn::End(StagingEnd::Failed)
                }
            },
            StagingStep::CreateParent => {
                if in_plan {
                    StagingTurn::Next(
                        Staging { step: StagingStep::CheckSource, parent_failed: !ok, ..self },
                    )
                } else {
                    StagingTurn::Broken
                }
            },
            StagingStep::CheckSource => {
                if !in_plan {
                    StagingTurn::Broken
                } else if ok && !self.parent_failed {
                    StagingTurn::Next(
                        Staging { step: StagingStep::CheckTarget, parent_failed: false, ..self },
                    )
                } else {
                    undo_backups(config, 0)
                }
            },
            StagingStep::CheckTarget => {
                if !in_plan {
                    StagingTurn::Broken
                } else if !ok {
                    enter_entry(plan, config, self.index + 1)
                } else if plan.files[self.index].is_self {
                    set_need_update_myself(flags, true);
                    enter_entry(plan, config, self.index + 1)
                } else {
                    StagingTurn::Next(
                        Staging { step: StagingStep::MoveAside, parent_failed: false, ..self },
                    )
                }
            },
            StagingStep::MoveAside => {
                if !in_plan {
                    StagingTurn::Broken
                } else if ok {
                    let entry = BackupEntry {
                        index: self.index,
                        path: plan.files[self.index].target.clone(),
                    };
                    let ghost before = config@.file_path;
                    config.file_path.push(entry);
                    assert(config@.file_path =~= before.push(entry@));
                    enter_entry(plan, config, self.index + 1)
                } else {
                    undo_backups(config, 0)
                }
            },
            StagingStep::Undo => {
                if self.index >= config.file_path.len() {
                    StagingTurn::Broken
                } else if ok {
                    undo_backups(config, self.index + 1)
                } else {
                    StagingTurn::End(StagingEnd::Stuck)
                }
            },
        }
    }
}

fn undo_backups(config: &mut RunningConfig, undone: usize) -> (turn: StagingTurn)
    ensures
        ({
            let outcome = undo_from(old(config)@.file_path, false, undone as nat);
            &&& turn@ == outcome.turn
            &&& final(config)@ == with_backups(old(config)@, outcome.backups)
        }),
{
    if undone < config.file_path.len() {
        assert(config@ == with_backups(config@, config@.file_path));
        StagingTurn::Next(Staging { step: StagingStep::Undo, index: undone, parent_failed: false })
    } else {
        config.file_path = Vec::new();
        assert(config@.file_path =~= Seq::empty());
        StagingTurn::End(StagingEnd::Failed)
    }
}

fn enter_entry(plan: &Plan, config: &mut RunningConfig, index: usize) -> (turn: StagingTurn)
    ensures
        ({
            let outcome = entry_at(plan@, old(config)@.file_path, false, index as nat);
            &&& turn@ == outcome.turn
            &&& final(config)@ == with_backups(old(config)@, outcome.backups)
        }),
{
    if index >= plan.files.len() {
        assert(config@ == with_backups(config@, config@.file_path));
        StagingTurn::End(StagingEnd::Staged)
    } else if plan.files[index].parent.is_none() {
        undo_backups(config, 0)
    } else {
        assert(config@ == with_backups(config@, config@.file_path));
        StagingTurn::Next(
            Staging { step: StagingStep::CreateParent, index, parent_failed: false },
        )
    }
}

} // verus!
