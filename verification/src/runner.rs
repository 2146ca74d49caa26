use vstd::prelude::*;
use vstd::string::StringExecFns;
use crate::action::{succeeded, Action, ActionView, Reply, ReplyView};
use crate::copying::{
    copy_begin, copy_request, copy_turn, CopyEnd, CopyTurn, CopyTurnView, Copying, CopyingView,
};
use crate::flags::{mark_update_myself_now, SelfUpdateFlags};
use crate::paths::{
    file_name, file_name_of, is_absolute, is_absolute_path, join, joined, parent, parent_of,
    text_of,
};
use crate::plan::{resolved, Plan, PlanView};
use crate::rollback::{
    rollback_begin, rollback_request, rollback_turn, Rollback, RollbackTurn, RollbackTurnView,
    RollbackView,
};
use crate::staging::{
    staging_request, staging_start, staging_turn, with_backups, Staging, StagingEnd, StagingTurn,
    StagingTurnView, StagingView,
};
use crate::state::{fresh_config, RunningConfig, RunningConfigView, RunningState};

verus! {

/// What the process was started with.
#[derive(Clone, Debug, PartialEq, Eq)]
pub struct Environment {
    /// The request for a fresh update: the path of the application's executable.
    /// It counts only where it is absolute.
    pub exe_path: Option<String>,
    /// The staging directory to use in place of the default. It counts only where
    /// it is absolute.
    pub update_temp_path: Option<String>,
    /// The name of the manifest file to use in place of the default.
    pub update_config_file_name: Option<String>,
    /// The path of the executable that runs the update, where it could be found.
    pub current_exe: Option<String>,
}

/// An `Environment` as contracts see it.
pub struct EnvironmentView {
    pub exe_path: Option<Seq<char>>,
    pub update_temp_path: Option<Seq<char>>,
    pub update_config_file_name: Option<Seq<char>>,
    pub current_exe: Option<Seq<char>>,
}

impl View for Environment {
    type V = EnvironmentView;

    open spec fn view(&self) -> EnvironmentView {
        EnvironmentView {
            exe_path: text_of(self.exe_path),
            update_temp_path: text_of(self.update_temp_path),
            update_config_file_name: text_of(self.update_config_file_name),
            current_exe: text_of(self.current_exe),
        }
    }
}

/// What the update is waiting for.
#[derive(Clone, Copy, Debug, PartialEq, Eq)]
pub enum Phase {
    /// The opening of the checkpoint file, before an update.
    OpenForUpdate,
    /// The opening of the checkpoint file, before a rollback.
    OpenForRollback,
    /// The first write of the checkpoint.
    RecordStart,
    /// The write of the checkpoint with the staging directory in it.
    RecordStagingPath,
    /// The manifest.
    ReadManifest,
    /// The write of the checkpoint after the manifest could not be read.
    RecordNoManifest,
    /// The end of the application that is to be updated.
    EndTarget,
    /// A step of staging.
    Staging(Staging),
    /// The write of the checkpoint after staging succeeded.
    RecordStaged,
    /// The write of the checkpoint after staging failed.
    RecordStagingFailed,
    /// A step of the copying.
    Copying(Copying),
    /// The write of the checkpoint after every file was copied.
    RecordFinish,
    /// The signal that the running executable may be replaced.
    Commit,
    /// The pause that gives that replacement time to happen.
    Grace,
    /// The removal of the staging directory.
    Clean,
    /// The start of the updated application.
    Relaunch,
    /// A step of the rollback.
    Rollback(Rollback),
    /// Nothing: the update is over.
    Quit,
    /// Nothing: the update was given up.
    Abort,
}

/// A `Phase` as contracts see it.
pub enum PhaseView {
    OpenForUpdate,
    OpenForRollback,
    RecordStart,
    RecordStagingPath,
    ReadManifest,
    RecordNoManifest,
    EndTarget,
    Staging(StagingView),
    RecordStaged,
    RecordStagingFailed,
    Copying(CopyingView),
    RecordFinish,
    Commit,
    Grace,
    Clean,
    Relaunch,
    Rollback(RollbackView),
    Quit,
    Abort,
}

impl View for Phase {
    type V = PhaseView;

    open spec fn view(&self) -> PhaseView {
        match *self {
            Phase::OpenForUpdate => PhaseView::OpenForUpdate,
            Phase::OpenForRollback => PhaseView::OpenForRollback,
            Phase::RecordStart => PhaseView::RecordStart,
            Phase::RecordStagingPath => PhaseView::RecordStagingPath,
            Phase::ReadManifest => PhaseView::ReadManifest,
            Phase::RecordNoManifest => PhaseView::RecordNoManifest,
            Phase::EndTarget => PhaseView::EndTarget,
            Phase::Staging(s) => PhaseView::Staging(s@),
            Phase::RecordStaged => PhaseView::RecordStaged,
            Phase::RecordStagingFailed => PhaseView::RecordStagingFailed,
            Phase::Copying(c) => PhaseView::Copying(c@),
            Phase::RecordFinish => PhaseView::RecordFinish,
            Phase::Commit => PhaseView::Commit,
            Phase::Grace => PhaseView::Grace,
            Phase::Clean => PhaseView::Clean,
            Phase::Relaunch => PhaseView::Relaunch,
            Phase::Rollback(r) => PhaseView::Rollback(r@),
            Phase::Quit => PhaseView::Quit,
            Phase::Abort => PhaseView::Abort,
        }
    }
}

/// An update in progress: what it waits for and all that it knows.
///
/// Whoever drives it asks for its `action`, carries the action out, and hands the
/// reply to `advance`, until the action is `Quit` or `Abort`.
#[derive(Debug)]
pub struct Updater {
    pub phase: Phase,
    /// Whether staging is left out, because an earlier process completed it.
    pub skip_check: bool,
    pub config: RunningConfig,
    pub flags: SelfUpdateFlags,
    pub env: Environment,
    /// The directory that the application is installed in.
    pub install_root: String,
    /// The path of the manifest file.
    pub manifest_path: String,
    pub plan: Plan,
}

/// An `Updater` as contracts see it.
pub struct UpdaterView {
    pub phase: PhaseView,
    pub skip_check: bool,
    pub config: RunningConfigView,
    pub flags: SelfUpdateFlags,
    pub env: EnvironmentView,
    pub install_root: Seq<char>,
    pub manifest_path: Seq<char>,
    pub plan: PlanView,
}

impl View for Updater {
    type V = UpdaterView;

    open spec fn view(&self) -> UpdaterView {
        UpdaterView {
            phase: self.phase@,
            skip_check: self.skip_check,
            config: self.config@,
            flags: self.flags,
            env: self.env@,
            install_root: self.install_root@,
            manifest_path: self.manifest_path@,
            plan: self.plan@,
        }
    }
}

/// The checkpoint of a process that has no update to record.
pub open spec fn idle_config() -> RunningConfigView {
    RunningConfigView { status: RunningState::Nothing, ..fresh_config(Seq::empty()) }
}

/// The plan before a manifest was read: no file.
pub open spec fn empty_plan() -> PlanView {
    PlanView { backup_root: Seq::empty(), self_known: false, files: Seq::empty() }
}

/// Whether `env` asks for a fresh update: it names an executable by an absolute path.
pub open spec fn asks_for_update(env: EnvironmentView) -> bool {
    env.exe_path is Some && is_absolute_path(env.exe_path->0)
}

/// How a process begins, given what it was started with and the checkpoint that an
/// earlier process left (`None` where there is none, or none that can be read).
///
/// A request for a fresh update starts one from a new checkpoint, whatever an
/// earlier process left. Without a request, a checkpoint that says `Failed` is
/// rolled back, one that says `Updating` is taken up at the copying, one that says
/// `UpdateButNotCheck` is taken up at staging, and in every other case there is
/// nothing to do.
pub open spec fn launched(env: EnvironmentView, checkpoint: Option<RunningConfigView>) -> UpdaterView {
    let blank = UpdaterView {
        phase: PhaseView::Quit,
        skip_check: false,
        config: idle_config(),
        flags: SelfUpdateFlags { need_update_myself: false, update_myself_now: false },
        env,
        install_root: Seq::empty(),
        manifest_path: Seq::empty(),
        plan: empty_plan(),
    };
    if asks_for_update(env) {
        UpdaterView {
            phase: PhaseView::OpenForUpdate,
            config: fresh_config(env.exe_path->0),
            ..blank
        }
    } else {
        match checkpoint {
            None => blank,
            Some(config) => match config.status {
                RunningState::Failed => UpdaterView {
                    phase: PhaseView::OpenForRollback,
                    config,
                    ..blank
                },
                RunningState::Updating => UpdaterView {
                    phase: PhaseView::OpenForUpdate,
                    skip_check: true,
                    config,
                    ..blank
                },
                RunningState::UpdateButNotCheck => UpdaterView {
                    phase: PhaseView::OpenForUpdate,
                    config,
                    ..blank
                },
                _ => UpdaterView { config, ..blank },
            },
        }
    }
}

/// The name of the staging directory where the environment names none.
pub open spec fn default_staging_name() -> Seq<char> {
    "update_temp"@
}

/// The name of the manifest file where the environment names none.
pub open spec fn default_manifest_name() -> Seq<char> {
    "update-config.json"@
}

/// The staging directory of an application installed in `install_root`.
pub open spec fn staging_dir(env: EnvironmentView, install_root: Seq<char>) -> Seq<char> {
    if env.update_temp_path is Some && is_absolute_path(env.update_temp_path->0) {
        env.update_temp_path->0
    } else {
        joined(install_root, default_staging_name())
    }
}

/// The path of the manifest in the staging directory `staging`.
pub open spec fn manifest_file(env: EnvironmentView, staging: Seq<char>) -> Seq<char> {
    match env.update_config_file_name {
        Some(name) => joined(staging, name),
        None => joined(staging, default_manifest_name()),
    }
}

/// The update gives up.
pub open spec fn aborted(u: UpdaterView) -> UpdaterView {
    UpdaterView { phase: PhaseView::Abort, ..u }
}

/// The update ends.
pub open spec fn quits(u: UpdaterView) -> UpdaterView {
    UpdaterView { phase: PhaseView::Quit, ..u }
}

/// The rollback begins.
pub open spec fn enters_rollback(u: UpdaterView) -> UpdaterView {
    let outcome = rollback_begin(u.config);
    match outcome.turn {
        RollbackTurnView::Next(r) => UpdaterView {
            phase: PhaseView::Rollback(r),
            config: outcome.config,
            ..u
        },
        RollbackTurnView::Done => UpdaterView { config: outcome.config, ..quits(u) },
        RollbackTurnView::Broken => UpdaterView { config: outcome.config, ..aborted(u) },
    }
}

/// The update goes on after a step of the copying: to the next step, to the record
/// of its success, or to the rollback.
pub open spec fn after_copying(u: UpdaterView, turn: CopyTurnView) -> UpdaterView {
    match turn {
        CopyTurnView::Next(c) => UpdaterView { phase: PhaseView::Copying(c), ..u },
        CopyTurnView::End(CopyEnd::Copied) => UpdaterView {
            phase: PhaseView::RecordFinish,
            config: RunningConfigView { status: RunningState::Finish, ..u.config },
            ..u
        },
        CopyTurnView::End(CopyEnd::Failed) => enters_rollback(u),
        CopyTurnView::Broken => aborted(u),
    }
}

/// The update goes on after a step of staging: to the next step, to the record of
/// its success with the status `Updating`, or to the record of its failure, which
/// leaves the status as it was.
pub open spec fn after_staging(u: UpdaterView, turn: StagingTurnView) -> UpdaterView {
    match turn {
        StagingTurnView::Next(s) => UpdaterView { phase: PhaseView::Staging(s), ..u },
        StagingTurnView::End(StagingEnd::Staged) => UpdaterView {
            phase: PhaseView::RecordStaged,
            config: RunningConfigView { status: RunningState::Updating, ..u.config },
            ..u
        },
        StagingTurnView::End(_) => UpdaterView { phase: PhaseView::RecordStagingFailed, ..u },
        StagingTurnView::Broken => aborted(u),
    }
}

/// The update settles where the application is installed, where the new files are
/// staged and where the manifest lies. An executable without a directory above it
/// ends the update.
pub open spec fn settles_paths(u: UpdaterView) -> UpdaterView {
    match parent_of(u.config.exe_path) {
        None => quits(u),
        Some(root) => {
            let staging = staging_dir(u.env, root);
            UpdaterView {
                phase: PhaseView::RecordStagingPath,
                config: RunningConfigView { update_temp_path: staging, ..u.config },
                install_root: root,
                manifest_path: manifest_file(u.env, staging),
                ..u
            }
        },
    }
}

/// The update takes in the manifest. Without one it records the status `Nothing`
/// and ends.
pub open spec fn takes_manifest(u: UpdaterView, reply: ReplyView) -> UpdaterView {
    match reply {
        ReplyView::Manifest(Some(manifest)) => UpdaterView {
            phase: PhaseView::EndTarget,
            plan: resolved(manifest, u.install_root, u.config.update_temp_path, u.env.current_exe),
            ..u
        },
        _ => UpdaterView {
            phase: PhaseView::RecordNoManifest,
            config: RunningConfigView { status: RunningState::Nothing, ..u.config },
            ..u
        },
    }
}

/// Whether the staging directory is removed after the update: only one that bears
/// the default name is.
pub open spec fn cleans_staging(u: UpdaterView) -> bool {
    file_name_of(u.config.update_temp_path) == Some(default_staging_name())
}

/// The update after `reply` to the action that it asked for.
pub open spec fn next_state(u: UpdaterView, reply: ReplyView) -> UpdaterView {
    let ok = succeeded(reply);
    match u.phase {
        PhaseView::OpenForUpdate => if ok {
            UpdaterView { phase: PhaseView::RecordStart, ..u }
        } else {
            quits(u)
        },
        PhaseView::OpenForRollback => if ok {
            enters_rollback(u)
        } else {
            quits(u)
        },
        PhaseView::RecordStart => settles_paths(u),
        PhaseView::RecordStagingPath => UpdaterView { phase: PhaseView::ReadManifest, ..u },
        PhaseView::ReadManifest => takes_manifest(u, reply),
        PhaseView::RecordNoManifest => quits(u),
        PhaseView::EndTarget => if !ok {
            aborted(u)
        } else if u.skip_check {
            after_copying(u, copy_begin(u.plan))
        } else {
            UpdaterView { phase: PhaseView::Staging(staging_start()), ..u }
        },
        PhaseView::Staging(s) => {
            let outcome = staging_turn(
                s,
                u.plan,
                u.config.file_path,
                u.flags.need_update_myself,
                ok,
            );
            after_staging(
                UpdaterView {
                    config: with_backups(u.config, outcome.backups),
                    flags: SelfUpdateFlags {
                        need_update_myself: outcome.need_update_myself,
                        ..u.flags
                    },
                    ..u
                },
                outcome.turn,
            )
        },
        PhaseView::RecordStaged => after_copying(u, copy_begin(u.plan)),
        PhaseView::RecordStagingFailed => quits(u),
        PhaseView::Copying(c) => {
            let outcome = copy_turn(c, u.plan, u.config, u.flags.need_update_myself, ok);
            after_copying(UpdaterView { config: outcome.config, ..u }, outcome.turn)
        },
        PhaseView::RecordFinish => UpdaterView {
            phase: PhaseView::Commit,
            flags: SelfUpdateFlags { update_myself_now: true, ..u.flags },
            ..u
        },
        PhaseView::Commit => UpdaterView { phase: PhaseView::Grace, ..u },
        PhaseView::Grace => if cleans_staging(u) {
            UpdaterView { phase: PhaseView::Clean, ..u }
        } else {
            UpdaterView { phase: PhaseView::Relaunch, ..u }
        },
        PhaseView::Clean => UpdaterView { phase: PhaseView::Relaunch, ..u },
        PhaseView::Relaunch => quits(u),
        PhaseView::Rollback(r) => {
            let outcome = rollback_turn(r, u.config);
            match outcome.turn {
                RollbackTurnView::Next(r) => UpdaterView {
                    phase: PhaseView::Rollback(r),
                    config: outcome.config,
                    ..u
                },
                RollbackTurnView::Done => UpdaterView { config: outcome.config, ..quits(u) },
                RollbackTurnView::Broken => UpdaterView { config: outcome.config, ..aborted(u) },
            }
        },
        PhaseView::Quit => u,
        PhaseView::Abort => u,
    }
}

/// The length of the pause between the signal that the running executable may be
/// replaced and the clean-up, in milliseconds.
pub open spec fn grace_millis() -> nat {
    500
}

/// The action of a part of the update, or `Abort` where that part has none.
pub open spec fn or_abort(action: Option<ActionView>) -> ActionView {
    match action {
        Some(a) => a,
        None => ActionView::Abort,
    }
}

/// The action that the update asks for.
pub open spec fn next_action(u: UpdaterView) -> ActionView {
    match u.phase {
        PhaseView::OpenForUpdate | PhaseView::OpenForRollback => ActionView::OpenCheckpoint,
        PhaseView::RecordStart
        | PhaseView::RecordStagingPath
        | PhaseView::RecordNoManifest
        | PhaseView::RecordStaged
        | PhaseView::RecordStagingFailed
        | PhaseView::RecordFinish => ActionView::Persist,
        PhaseView::ReadManifest => ActionView::LoadManifest { path: u.manifest_path },
        PhaseView::EndTarget => ActionView::EndTarget { exe: u.config.exe_path },
        PhaseView::Staging(s) => or_abort(staging_request(s, u.plan, u.config.file_path)),
        PhaseView::Copying(c) => or_abort(copy_request(c, u.plan)),
        PhaseView::Commit => ActionView::Commit,
        PhaseView::Grace => ActionView::Pause { millis: grace_millis() },
        PhaseView::Clean => ActionView::RemoveStaging { dir: u.config.update_temp_path },
        PhaseView::Relaunch => ActionView::Relaunch { exe: u.config.exe_path },
        PhaseView::Rollback(r) => or_abort(rollback_request(r, u.config)),
        PhaseView::Quit => ActionView::Quit,
        PhaseView::Abort => ActionView::Abort,
    }
}

/// The view of an optional checkpoint.
pub open spec fn checkpoint_view(checkpoint: Option<RunningConfig>) -> Option<RunningConfigView> {
    match checkpoint {
        Some(config) => Some(config@),
        None => None,
    }
}

fn idle() -> (config: RunningConfig)
    ensures
        config@ == idle_config(),
{
    let mut config = RunningConfig::fresh(String::new());
    config.status = RunningState::Nothing;
    config
}

fn no_plan() -> (plan: Plan)
    ensures
        plan@ == empty_plan(),
{
    let plan = Plan { backup_root: String::new(), self_known: false, files: Vec::new() };
    assert(plan@.files =~= Seq::empty());
    plan
}

impl Updater {
    /// Begins the work of a process: `env` is what it was started with, and
    /// `checkpoint` what an earlier process left, `None` where there is no
    /// checkpoint file or it cannot be read.
    pub fn launch(env: Environment, checkpoint: Option<RunningConfig>) -> (u: Updater)
        ensures
            u@ == launched(env@, checkpoint_view(checkpoint)),
    {
        let requested = match &env.exe_path {
            Some(path) => if is_absolute(path.as_str()) {
                Some(path.clone())
            } else {
                None
            },
            None => None,
        };
        let mut phase = Phase::Quit;
        let mut skip_check = false;
        let config = match requested {
            Some(exe_path) => {
                phase = Phase::OpenForUpdate;
                RunningConfig::fresh(exe_path)
            },
            None => match checkpoint {
                None => idle(),
                Some(config) => {
                    match config.status {
                        RunningState::Failed => {
                            phase = Phase::OpenForRollback;
                        },
                        RunningState::Updating => {
                            phase = Phase::OpenForUpdate;
                            skip_check = true;
                        },
                        RunningState::UpdateButNotCheck => {
                            phase = Phase::OpenForUpdate;
                        },
                        _ => {},
                    }
                    config
                },
            },
        };
        Updater {
            phase,
            skip_check,
            config,
            flags: SelfUpdateFlags::new(),
            env,
            install_root: String::new(),
            manifest_path: String::new(),
            plan: no_plan(),
        }
    }

    /// Whether the update is over: its action is `Quit` or `Abort`, and stays so.
    pub fn is_over(&self) -> (over: bool)
        ensures
            over == (self@.phase == PhaseView::Quit || self@.phase == PhaseView::Abort),
    {
        match self.phase {
            Phase::Quit => true,
            Phase::Abort => true,
            _ => false,
        }
    }

    /// The action that the update asks for next.
    pub fn action(&self) -> (action: Action)
        ensures
            action@ == next_action(self@),
    {
        let part = match self.phase {
            Phase::OpenForUpdate => Some(Action::OpenCheckpoint),
            Phase::OpenForRollback => Some(Action::OpenCheckpoint),
            Phase::RecordStart => Some(Action::Persist),
            Phase::RecordStagingPath => Some(Action::Persist),
            Phase::RecordNoManifest => Some(Action::Persist),
            Phase::RecordStaged => Some(Action::Persist),
            Phase::RecordStagingFailed => Some(Action::Persist),
            Phase::RecordFinish => Some(Action::Persist),
            Phase::ReadManifest => Some(Action::LoadManifest { path: self.manifest_path.clone() }),
            Phase::EndTarget => Some(Action::EndTarget { exe: self.config.exe_path.clone() }),
            Phase::Staging(s) => s.request(&self.plan, &self.config),
            Phase::Copying(c) => c.request(&self.plan),
            Phase::Commit => Some(Action::Commit),
            Phase::Grace => Some(Action::Pause { millis: 500 }),
            Phase::Clean => Some(Action::RemoveStaging { dir: self.config.update_temp_path.clone() }),
            Phase::Relaunch => Some(Action::Relaunch { exe: self.config.exe_path.clone() }),
            Phase::Rollback(r) => r.request(&self.config),
            Phase::Quit => Some(Action::Quit),
            Phase::Abort => None,
        };
        match part {
            Some(action) => action,
            None => Action::Abort,
        }
    }

    /// Takes in the reply to the action that the update asked for.
    pub fn advance(&mut self, reply: Reply)
        ensures
            final(self)@ == next_state(old(self)@, reply@),
    {
        let ok = reply.is_success();
        match self.phase {
            Phase::OpenForUpdate => {
                if ok {
                    self.phase = Phase::RecordStart;
                } else {
                    self.phase = Phase::Quit;
                }
            },
            Phase::OpenForRollback => {
                if ok {
                    self.enter_rollback();
                } else {
                    self.phase = Phase::Quit;
                }
            },
            Phase::RecordStart => {
                self.settle_paths();
            },
            Phase::RecordStagingPath => {
                self.phase = Phase::ReadManifest;
            },
            Phase::ReadManifest => {
                self.take_manifest(reply);
            },
            Phase::RecordNoManifest => {
                self.phase = Phase::Quit;
            },
            Phase::EndTarget => {
                if !ok {
                    self.phase = Phase::Abort;
                } else if self.skip_check {
                    let turn = Copying::begin(&self.plan);
                    self.go_on_copying(turn);
                } else {
                    self.phase = Phase::Staging(Staging::start());
                }
            },
            Phase::Staging(s) => {
                let turn = s.advance(&self.plan, &mut self.config, &mut self.flags, ok);
                match turn {
                    StagingTurn::Next(s) => {
                        self.phase = Phase::Staging(s);
                    },
                    StagingTurn::End(StagingEnd::Staged) => {
                        self.config.status = RunningState::Updating;
                        self.phase = Phase::RecordStaged;
                    },
                    StagingTurn::End(_) => {
                        self.phase = Phase::RecordStagingFailed;
                    },
                    StagingTurn::Broken => {
                        self.phase = Phase::Abort;
                    },
                }
            },
            Phase::RecordStaged => {
                let turn = Copying::begin(&self.plan);
                self.go_on_copying(turn);
            },
            Phase::RecordStagingFailed => {
                self.phase = Phase::Quit;
            },
            Phase::Copying(c) => {
                let turn = c.advance(&self.plan, &mut self.config, &self.flags, ok);
                self.go_on_copying(turn);
            },
            Phase::RecordFinish => {
                let _ = mark_update_myself_now(&mut self.flags);
                self.phase = Phase::Commit;
            },
            Phase::Commit => {
                self.phase = Phase::Grace;
            },
            Phase::Grace => {
                let default_name = match file_name(self.config.update_temp_path.as_str()) {
                    Some(name) => name == String::from_str("update_temp"),
                    None => false,
                };
                if default_name {
                    self.phase = Phase::Clean;
                } else {
                    self.phase = Phase::Relaunch;
                }
            },
            Phase::Clean => {
                self.phase = Phase::Relaunch;
            },
            Phase::Relaunch => {
                self.phase = Phase::Quit;
            },
            Phase::Rollback(r) => {
                let turn = r.advance(&mut self.config);
                self.go_on_rollback(turn);
            },
            Phase::Quit => {},
            Phase::Abort => {},
        }
    }

    fn go_on_rollback(&mut self, turn: RollbackTurn)
        ensures
            final(self)@ == (match turn@ {
                RollbackTurnView::Next(r) => UpdaterView {
                    phase: PhaseView::Rollback(r),
                    ..old(self)@
                },
                RollbackTurnView::Done => quits(old(self)@),
                RollbackTurnView::Broken => aborted(old(self)@),
            }),
    {
        match turn {
            RollbackTurn::Next(r) => {
                self.phase = Phase::Rollback(r);
            },
            RollbackTurn::Done => {
                self.phase = Phase::Quit;
            },
            RollbackTurn::Broken => {
                self.phase = Phase::Abort;
            },
        }
    }

    fn enter_rollback(&mut self)
        ensures
            final(self)@ == enters_rollback(old(self)@),
    {
        let turn = Rollback::begin(&mut self.config);
        self.go_on_rollback(turn);
    }

    fn go_on_copying(&mut self, turn: CopyTurn)
        ensures
            final(self)@ == after_copying(old(self)@, turn@),
    {
        match turn {
            CopyTurn::Next(c) => {
                self.phase = Phase::Copying(c);
            },
            CopyTurn::End(CopyEnd::Copied) => {
                self.config.status = RunningState::Finish;
                self.phase = Phase::RecordFinish;
            },
            CopyTurn::End(CopyEnd::Failed) => {
                self.enter_rollback();
            },
            CopyTurn::Broken => {
                self.phase = Phase::Abort;
            },
        }
    }

    fn settle_paths(&mut self)
        ensures
            final(self)@ == settles_paths(old(self)@),
    {
        match parent(self.config.exe_path.as_str()) {
            None => {
                self.phase = Phase::Quit;
            },
            Some(root) => {
                let named = match &self.env.update_temp_path {
                    Some(path) => if is_absolute(path.as_str()) {
                        Some(path.clone())
                    } else {
                        None
                    },
                    None => None,
                };
                let staging = match named {
                    Some(path) => path,
                    None => join(root.as_str(), "update_temp"),
                };
                let manifest_path = match &self.env.update_config_file_name {
                    Some(name) => join(staging.as_str(), name.as_str()),
                    None => join(staging.as_str(), "update-config.json"),
                };
                self.config.update_temp_path = staging;
                self.install_root = root;
                self.manifest_path = manifest_path;
                self.phase = Phase::RecordStagingPath;
            },
        }
    }

    fn take_manifest(&mut self, reply: Reply)
        ensures
            final(self)@ == takes_manifest(old(self)@, reply@),
    {
        match reply {
            Reply::Manifest(Some(manifest)) => {
                self.plan = Plan::resolve(
                    &manifest,
                    self.install_root.as_str(),
                    self.config.update_temp_path.as_str(),
                    &self.env.current_exe,
                );
                self.phase = Phase::EndTarget;
            },
            _ => {
                self.config.status = RunningState::Nothing;
                self.phase = Phase::RecordNoManifest;
            },
        }
    }
}

} // verus!
