use vstd::prelude::*;
use crate::action::{action_view, Action, ActionView};
use crate::flags::{need_update_myself, SelfUpdateFlags};
use crate::plan::{Plan, PlanView};
use crate::state::{RunningConfig, RunningConfigView, RunningState};

verus! {

/// What the copying of the staged files is waiting for.
#[derive(Clone, Copy, Debug, PartialEq, Eq, Structural)]
pub enum CopyStep {
    /// The report that the entry in hand is being worked on.
    Progress,
    /// The arrangement to replace the running executable once the update commits.
    Watch,
    /// The copy of the staged file over its target.
    Copy,
    /// The write of the checkpoint after a copy that succeeded.
    Record,
    /// The write of the checkpoint after a copy that failed.
    RecordFailure,
}

/// Where the copying stands: the step it waits for and the entry in hand.
#[derive(Clone, Copy, Debug, PartialEq, Eq)]
pub struct Copying {
    pub step: CopyStep,
    pub index: usize,
}

/// A `Copying` as contracts see it.
pub struct CopyingView {
    pub step: CopyStep,
    pub index: nat,
}

impl View for Copying {
    type V = CopyingView;

    open spec fn view(&self) -> CopyingView {
        CopyingView { step: self.step, index: self.index as nat }
    }
}

/// How the copying ended.
#[derive(Clone, Copy, Debug, PartialEq, Eq, Structural)]
pub enum CopyEnd {
    /// Every entry was dealt with.
    Copied,
    /// A copy failed, or the running executable is not known: the update has to be
    /// rolled back.
    Failed,
}

/// What the copying does after a reply.
#[derive(Clone, Copy, Debug, PartialEq, Eq)]
pub enum CopyTurn {
    /// It goes on from there.
    Next(Copying),
    /// It is over.
    End(CopyEnd),
    /// It was not in a state that the copying of this plan can reach.
    Broken,
}

/// A `CopyTurn` as contracts see it.
pub enum CopyTurnView {
    Next(CopyingView),
    End(CopyEnd),
    Broken,
}

impl View for CopyTurn {
    type V = CopyTurnView;

    open spec fn view(&self) -> CopyTurnView {
        match *self {
            CopyTurn::Next(s) => CopyTurnView::Next(s@),
            CopyTurn::End(e) => CopyTurnView::End(e),
            CopyTurn::Broken => CopyTurnView::Broken,
        }
    }
}

/// What a step of the copying leaves behind: where it stands, and the checkpoint.
pub struct CopyOutcome {
    pub turn: CopyTurnView,
    pub config: RunningConfigView,
}

/// The copying turns to the entry at `index`: past the last entry it is done.
pub open spec fn copy_entry_at(plan: PlanView, index: nat) -> CopyTurnView {
    if index >= plan.files.len() {
        CopyTurnView::End(CopyEnd::Copied)
    } else {
        CopyTurnView::Next(CopyingView { step: CopyStep::Progress, index })
    }
}

/// How the copying of `plan` begins: with the first entry, or not at all where the
/// running executable is not known.
pub open spec fn copy_begin(plan: PlanView) -> CopyTurnView {
    if plan.self_known {
        copy_entry_at(plan, 0)
    } else {
        CopyTurnView::End(CopyEnd::Failed)
    }
}

/// Whether the entry at `index` is left to the replacement of the running
/// executable: its target is that executable, and staging has found it in place.
pub open spec fn left_to_watcher(plan: PlanView, need: bool, index: nat) -> bool {
    need && plan.files[index as int].is_self
}

/// What the copying of `plan` does when the action it asked for in state `s` is
/// answered with `ok`.
///
/// Entry by entry, progress is reported, and then the staged file is copied over
/// its target, the target is added to the applied paths and the checkpoint is
/// written. An entry for the running executable is not copied: its replacement is
/// arranged for the moment when the update commits. The first copy that fails ends
/// the copying, with the status `Failed` written to the checkpoint.
pub open spec fn copy_turn(
    s: CopyingView,
    plan: PlanView,
    config: RunningConfigView,
    need: bool,
    ok: bool,
) -> CopyOutcome {
    let in_plan = s.index < plan.files.len();
    match s.step {
        CopyStep::Progress => if !in_plan {
            CopyOutcome { turn: CopyTurnView::Broken, config }
        } else if left_to_watcher(plan, need, s.index) {
            CopyOutcome {
                turn: CopyTurnView::Next(CopyingView { step: CopyStep::Watch, index: s.index }),
                config,
            }
        } else {
            CopyOutcome {
                turn: CopyTurnView::Next(CopyingView { step: CopyStep::Copy, index: s.index }),
                config,
            }
        },
        CopyStep::Watch => if in_plan {
            CopyOutcome { turn: copy_entry_at(plan, s.index + 1), config }
        } else {
            CopyOutcome { turn: CopyTurnView::Broken, config }
        },
        CopyStep::Copy => if !in_plan {
            CopyOutcome { turn: CopyTurnView::Broken, config }
        } else if ok {
            CopyOutcome {
                turn: CopyTurnView::Next(CopyingView { step: CopyStep::Record, index: s.index }),
                config: RunningConfigView {
                    moved_path: config.moved_path.push(plan.files[s.index as int].target),
                    ..config
                },
            }
        } else {
            CopyOutcome {
                turn: CopyTurnView::Next(
                    CopyingView { step: CopyStep::RecordFailure, index: s.index },
                ),
                config: RunningConfigView { status: RunningState::Failed, ..config },
            }
        },
        CopyStep::Record => if in_plan {
            CopyOutcome { turn: copy_entry_at(plan, s.index + 1), config }
        } else {
            CopyOutcome { turn: CopyTurnView::Broken, config }
        },
        CopyStep::RecordFailure => CopyOutcome {
            turn: CopyTurnView::End(CopyEnd::Failed),
            config,
        },
    }
}

/// The action that the copying of `plan` asks for in state `s`, or `None` where `s`
/// is not a state that the copying of this plan can reach.
pub open spec fn copy_request(s: CopyingView, plan: PlanView) -> Option<ActionView> {
    let file = plan.files[s.index as int];
    let in_plan = s.index < plan.files.len();
    match s.step {
        CopyStep::Progress => if in_plan {
            Some(ActionView::Progress { done: s.index + 1, total: plan.files.len() })
        } else {
            None
        },
        CopyStep::Watch => if in_plan {
            Some(
                ActionView::ReplaceSelf {
                    target: file.target,
                    staged: file.source,
                    retired: file.retired,
                },
            )
        } else {
            None
        },
        CopyStep::Copy => if in_plan {
            Some(ActionView::CopyFile { source: file.source, target: file.target })
        } else {
            None
        },
        CopyStep::Record => if in_plan {
            Some(ActionView::Persist)
        } else {
            None
        },
        CopyStep::RecordFailure => Some(ActionView::Persist),
    }
}

fn copy_entry(plan: &Plan, index: usize) -> (turn: CopyTurn)
    ensures
        turn@ == copy_entry_at(plan@, index as nat),
{
    if index >= plan.files.len() {
        CopyTurn::End(CopyEnd::Copied)
    } else {
        CopyTurn::Next(Copying { step: CopyStep::Progress, index })
    }
}

fn clone_option(text: &Option<String>) -> (copy: Option<String>)
    ensures
        crate::paths::text_of(copy) == crate::paths::text_of(*text),
{
    match text {
        Some(s) => Some(s.clone()),
        None => None,
    }
}

impl Copying {
    /// How the copying of `plan` begins.
    pub fn begin(plan: &Plan) -> (turn: CopyTurn)
        ensures
            turn@ == copy_begin(plan@),
    {
        if plan.self_known {
            copy_entry(plan, 0)
        } else {
            CopyTurn::End(CopyEnd::Failed)
        }
    }

    /// The action that the copying asks for next.
    pub fn request(&self, plan: &Plan) -> (action: Option<Action>)
        ensures
            action_view(action) == copy_request(self@, plan@),
    {
        if self.index >= plan.files.len() {
            return match self.step {
                CopyStep::RecordFailure => Some(Action::Persist),
                _ => None,
            };
        }
        let file = &plan.files[self.index];
        match self.step {
            CopyStep::Progress => Some(
                Action::Progress { done: self.index + 1, total: plan.files.len() },
            ),
            CopyStep::Watch => Some(
                Action::ReplaceSelf {
                    target: file.target.clone(),
                    staged: file.source.clone(),
                    retired: clone_option(&file.retired),
                },
            ),
            CopyStep::Copy => Some(
                Action::CopyFile { source: file.source.clone(), target: file.target.clone() },
            ),
            CopyStep::Record => Some(Action::Persist),
            CopyStep::RecordFailure => Some(Action::Persist),
        }
    }

    /// Takes in the reply to the action that was asked for: `ok` says whether it
    /// succeeded.
    pub fn advance(
        self,
        plan: &Plan,
        config: &mut RunningConfig,
        flags: &SelfUpdateFlags,
        ok: bool,
    ) -> (turn: CopyTurn)
        ensures
            ({
                let outcome = copy_turn(
                    self@,
                    plan@,
                    old(config)@,
                    flags.need_update_myself,
                    ok,
                );
                &&& turn@ == outcome.turn
                &&& final(config)@ == outcome.config
            }),
    {
        if self.index >= plan.files.len() {
            return match self.step {
                CopyStep::RecordFailure => CopyTurn::End(CopyEnd::Failed),
                _ => CopyTurn::Broken,
            };
        }
        match self.step {
            CopyStep::Progress => {
                if need_update_myself(flags) && plan.files[self.index].is_self {
                    CopyTurn::Next(Copying { step: CopyStep::Watch, index: self.index })
                } else {
                    CopyTurn::Next(Copying { step: CopyStep::Copy, index: self.index })
                }
            },
            CopyStep::Watch => copy_entry(plan, self.index + 1),
            CopyStep::Copy => {
                if ok {
                    let target = plan.files[self.index].target.clone();
                    let ghost before = config@.moved_path;
                    config.moved_path.push(target);
                    assert(config@.moved_path =~= before.push(target@));
                    CopyTurn::Next(Copying { step: CopyStep::Record, index: self.index })
                } else {
                    config.status = RunningState::Failed;
                    CopyTurn::Next(Copying { step: CopyStep::RecordFailure, index: self.index })
                }
            },
            CopyStep::Record => copy_entry(plan, self.index + 1),
            CopyStep::RecordFailure => CopyTurn::End(CopyEnd::Failed),
        }
    }
}

} // verus!
