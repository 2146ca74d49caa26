use vstd::prelude::*;
use crate::action::ActionView;
use crate::copying::{
    copy_begin, copy_request, copy_turn, left_to_watcher, CopyEnd, CopyStep, CopyTurnView,
};
use crate::disk::{after, answers, Disk};
use crate::plan::{self_by_target, PlanView};
use crate::state::{RunningConfigView, RunningState};

verus! {

/// A moment of the copying, with the disk that it works on.
pub struct CopyRun {
    pub turn: CopyTurnView,
    pub config: RunningConfigView,
    pub disk: Disk,
}

/// The copying of `plan` as it begins on `disk`, with the checkpoint `config`.
pub open spec fn copy_start(plan: PlanView, config: RunningConfigView, disk: Disk) -> CopyRun {
    CopyRun { turn: copy_begin(plan), config, disk }
}

/// The action that is asked for at `run`, if the copying is still going on.
pub open spec fn copy_asks(run: CopyRun, plan: PlanView) -> Option<ActionView> {
    match run.turn {
        CopyTurnView::Next(s) => copy_request(s, plan),
        _ => None,
    }
}

/// One step of the copying on the disk: the action that the copying asks for is
/// carried out with the result `ok`, and the copying takes that reply in. Once it
/// is over, nothing changes.
pub open spec fn copy_step(run: CopyRun, plan: PlanView, need: bool, ok: bool) -> CopyRun {
    match run.turn {
        CopyTurnView::Next(s) => match copy_request(s, plan) {
            Some(action) => {
                let outcome = copy_turn(s, plan, run.config, need, ok);
                CopyRun {
                    turn: outcome.turn,
                    config: outcome.config,
                    disk: after(run.disk, action, ok),
                }
            },
            None => CopyRun { turn: CopyTurnView::Broken, ..run },
        },
        _ => run,
    }
}

/// The copying from `run` on, with one step for each of `replies`.
pub open spec fn copy_run(run: CopyRun, plan: PlanView, need: bool, replies: Seq<bool>) -> CopyRun
    decreases replies.len(),
{
    if replies.len() == 0 {
        run
    } else {
        copy_run(copy_step(run, plan, need, replies[0]), plan, need, replies.drop_first())
    }
}

/// Whether each of `replies` is one that the disk can give at its step.
pub open spec fn copy_fits(run: CopyRun, plan: PlanView, need: bool, replies: Seq<bool>) -> bool
    decreases replies.len(),
{
    if replies.len() == 0 {
        true
    } else {
        &&& match copy_asks(run, plan) {
            Some(action) => answers(run.disk, action, replies[0]),
            None => true,
        }
        &&& copy_fits(copy_step(run, plan, need, replies[0]), plan, need, replies.drop_first())
    }
}

/// The targets of the first `upto` entries of `plan`, in order, without those that
/// are left to the replacement of the running executable.
pub open spec fn copied_targets(plan: PlanView, need: bool, upto: nat) -> Seq<Seq<char>>
    decreases upto,
{
    if upto == 0 {
        Seq::empty()
    } else {
        let before = copied_targets(plan, need, (upto - 1) as nat);
        if left_to_watcher(plan, need, (upto - 1) as nat) {
            before
        } else {
            before.push(plan.files[upto - 1].target)
        }
    }
}

/// `config` with `applied` as its applied paths.
pub open spec fn with_applied(config: RunningConfigView, applied: Seq<Seq<char>>) -> RunningConfigView {
    RunningConfigView { moved_path: applied, ..config }
}

/// `earlier` with the targets of the first `upto` entries added to its applied paths.
pub open spec fn applied_upto(
    earlier: RunningConfigView,
    plan: PlanView,
    need: bool,
    upto: nat,
) -> RunningConfigView {
    with_applied(earlier, earlier.moved_path + copied_targets(plan, need, upto))
}

/// What holds at every moment of the copying that began with the checkpoint
/// `earlier`: the applied paths are those of `earlier` and, after them, the target of
/// each entry that was copied so far.
pub open spec fn copy_holds(run: CopyRun, plan: PlanView, need: bool, earlier: RunningConfigView) -> bool {
    match run.turn {
        CopyTurnView::Next(s) => {
            &&& plan.self_known
            &&& s.index < plan.files.len()
            &&& match s.step {
                CopyStep::Progress => run.config == applied_upto(earlier, plan, need, s.index),
                CopyStep::Watch => {
                    &&& run.config == applied_upto(earlier, plan, need, s.index)
                    &&& left_to_watcher(plan, need, s.index)
                },
                CopyStep::Copy => {
                    &&& run.config == applied_upto(earlier, plan, need, s.index)
                    &&& !left_to_watcher(plan, need, s.index)
                },
                CopyStep::Record => run.config == applied_upto(earlier, plan, need, s.index + 1),
                CopyStep::RecordFailure => stopped_at(run.config, earlier, plan, need, s.index),
            }
        },
        CopyTurnView::End(CopyEnd::Copied) => {
            &&& plan.self_known
            &&& run.config == applied_upto(earlier, plan, need, plan.files.len())
        },
        CopyTurnView::End(CopyEnd::Failed) => {
            ||| !plan.self_known && run.config == earlier
            ||| exists|upto: nat| upto < plan.files.len() && #[trigger] stopped_at(
                run.config,
                earlier,
                plan,
                need,
                upto,
            )
        },
        CopyTurnView::Broken => false,
    }
}

/// Whether `config` is what the copying leaves when the copy of the entry at `upto`
/// fails: the status `Failed`, and the targets of the entries before it applied.
pub open spec fn stopped_at(
    config: RunningConfigView,
    earlier: RunningConfigView,
    plan: PlanView,
    need: bool,
    upto: nat,
) -> bool {
    config == RunningConfigView {
        status: RunningState::Failed,
        ..applied_upto(earlier, plan, need, upto)
    }
}

proof fn lemma_nothing_copied(earlier: RunningConfigView, plan: PlanView, need: bool)
    ensures
        applied_upto(earlier, plan, need, 0) == earlier,
{
    assert(earlier.moved_path + copied_targets(plan, need, 0) =~= earlier.moved_path);
}

proof fn lemma_one_more(earlier: RunningConfigView, plan: PlanView, need: bool, index: nat)
    requires
        index < plan.files.len(),
    ensures
        left_to_watcher(plan, need, index) ==> applied_upto(earlier, plan, need, index + 1)
            == applied_upto(earlier, plan, need, index),
        !left_to_watcher(plan, need, index) ==> applied_upto(earlier, plan, need, index + 1)
            == with_applied(
            earlier,
            applied_upto(earlier, plan, need, index).moved_path.push(
                plan.files[index as int].target,
            ),
        ),
{
    let before = copied_targets(plan, need, index);
    if !left_to_watcher(plan, need, index) {
        let target = plan.files[index as int].target;
        assert(earlier.moved_path + before.push(target) =~= (earlier.moved_path + before).push(
            target,
        ));
    }
}

/// A step of the copying keeps what holds of the copying.
pub proof fn lemma_copy_step_holds(
    run: CopyRun,
    plan: PlanView,
    need: bool,
    earlier: RunningConfigView,
    ok: bool,
)
    requires
        copy_holds(run, plan, need, earlier),
    ensures
        copy_holds(copy_step(run, plan, need, ok), plan, need, earlier),
{
    match run.turn {
        CopyTurnView::Next(s) => {
            lemma_one_more(earlier, plan, need, s.index);
            match s.step {
                CopyStep::RecordFailure => {
                    assert(stopped_at(run.config, earlier, plan, need, s.index));
                },
                _ => {},
            }
        },
        _ => {},
    }
}

proof fn lemma_run_holds(
    run: CopyRun,
    plan: PlanView,
    need: bool,
    earlier: RunningConfigView,
    replies: Seq<bool>,
)
    requires
        copy_holds(run, plan, need, earlier),
    ensures
        copy_holds(copy_run(run, plan, need, replies), plan, need, earlier),
    decreases replies.len(),
{
    if replies.len() > 0 {
        lemma_copy_step_holds(run, plan, need, earlier, replies[0]);
        lemma_run_holds(
            copy_step(run, plan, need, replies[0]),
            plan,
            need,
            earlier,
            replies.drop_first(),
        );
    }
}

/// What holds of the copying holds when it begins.
pub proof fn lemma_copy_start_holds(plan: PlanView, need: bool, config: RunningConfigView, disk: Disk)
    ensures
        copy_holds(copy_start(plan, config, disk), plan, need, config),
{
    lemma_nothing_copied(config, plan, need);
}

/// The copying never reaches a state in which it has no action to ask for.
pub proof fn lemma_copying_never_breaks(
    plan: PlanView,
    need: bool,
    config: RunningConfigView,
    disk: Disk,
    replies: Seq<bool>,
)
    ensures
        ({
            let end = copy_run(copy_start(plan, config, disk), plan, need, replies);
            &&& end.turn != CopyTurnView::Broken
            &&& end.turn is Next ==> copy_asks(end, plan) is Some
        }),
{
    lemma_copy_start_holds(plan, need, config, disk);
    lemma_run_holds(copy_start(plan, config, disk), plan, need, config, replies);
}

/// The copying that runs to its end has added to the applied paths, after those
/// that the checkpoint held before, the target of every entry that is not left to
/// the replacement of the running executable, in index order and each once. It has
/// changed nothing else in the checkpoint.
pub proof fn lemma_copying_applies_all(
    plan: PlanView,
    need: bool,
    config: RunningConfigView,
    disk: Disk,
    replies: Seq<bool>,
)
    requires
        copy_run(copy_start(plan, config, disk), plan, need, replies).turn == CopyTurnView::End(
            CopyEnd::Copied,
        ),
    ensures
        copy_run(copy_start(plan, config, disk), plan, need, replies).config == applied_upto(
            config,
            plan,
            need,
            plan.files.len(),
        ),
{
    lemma_copy_start_holds(plan, need, config, disk);
    lemma_run_holds(copy_start(plan, config, disk), plan, need, config, replies);
}

/// At every moment of the copying, the applied paths are those that the checkpoint
/// held before and, after them, the targets of the entries up to some index that
/// are not left to the replacement of the running executable.
pub proof fn lemma_copying_applies_in_order(
    plan: PlanView,
    need: bool,
    config: RunningConfigView,
    disk: Disk,
    replies: Seq<bool>,
)
    ensures
        exists|upto: nat|
            upto <= plan.files.len() && copy_run(
                copy_start(plan, config, disk),
                plan,
                need,
                replies,
            ).config.moved_path == #[trigger] applied_upto(config, plan, need, upto).moved_path,
{
    let end = copy_run(copy_start(plan, config, disk), plan, need, replies);
    lemma_copy_start_holds(plan, need, config, disk);
    lemma_run_holds(copy_start(plan, config, disk), plan, need, config, replies);
    lemma_nothing_copied(config, plan, need);
    match end.turn {
        CopyTurnView::Next(s) => {
            if s.step == CopyStep::Record {
                assert(end.config.moved_path == applied_upto(
                    config,
                    plan,
                    need,
                    s.index + 1,
                ).moved_path);
            } else {
                assert(end.config.moved_path == applied_upto(
                    config,
                    plan,
                    need,
                    s.index,
                ).moved_path);
            }
        },
        CopyTurnView::End(CopyEnd::Copied) => {
            assert(end.config.moved_path == applied_upto(
                config,
                plan,
                need,
                plan.files.len(),
            ).moved_path);
        },
        CopyTurnView::End(CopyEnd::Failed) => {
            if !plan.self_known && end.config == config {
                assert(end.config.moved_path == applied_upto(config, plan, need, 0).moved_path);
            } else {
                let upto = choose|upto: nat|
                    upto < plan.files.len() && #[trigger] stopped_at(
                        end.config,
                        config,
                        plan,
                        need,
                        upto,
                    );
                assert(end.config.moved_path == applied_upto(config, plan, need, upto).moved_path);
            }
        },
        CopyTurnView::Broken => {},
    }
}

/// Where staging has found the running executable in place, none of the paths that
/// the copying applies is the target of an entry for the running executable: each
/// is the target of an entry that is not.
pub proof fn lemma_copied_targets_spare_self(plan: PlanView, upto: nat, at: int)
    requires
        upto <= plan.files.len(),
        0 <= at < copied_targets(plan, true, upto).len(),
    ensures
        exists|i: int|
            0 <= i < upto && !(#[trigger] plan.files[i]).is_self && plan.files[i].target
                == copied_targets(plan, true, upto)[at],
    decreases upto,
{
    if upto > 0 {
        let before = copied_targets(plan, true, (upto - 1) as nat);
        if at < before.len() {
            lemma_copied_targets_spare_self(plan, (upto - 1) as nat, at);
            let i = choose|i: int|
                0 <= i < upto - 1 && !(#[trigger] plan.files[i]).is_self && plan.files[i].target
                    == before[at];
            assert(0 <= i < upto && !plan.files[i].is_self && plan.files[i].target
                == copied_targets(plan, true, upto)[at]);
        } else {
            let i = upto - 1;
            assert(0 <= i < upto && !plan.files[i].is_self && plan.files[i].target
                == copied_targets(plan, true, upto)[at]);
        }
    }
}

/// As many entries are copied as are not left to the replacement of the running
/// executable: at most one for each entry of the plan.
pub proof fn lemma_copied_targets_count(plan: PlanView, need: bool, upto: nat)
    ensures
        copied_targets(plan, need, upto).len() <= upto,
        !need ==> copied_targets(plan, need, upto).len() == upto,
    decreases upto,
{
    if upto > 0 {
        lemma_copied_targets_count(plan, need, (upto - 1) as nat);
    }
}

/// Where staging has found the running executable in place, the copying never adds
/// its path to the applied paths: at every moment, each applied path that the
/// checkpoint did not hold before is the target of an entry that is not for the
/// running executable.
pub proof fn lemma_copying_spares_self(
    plan: PlanView,
    config: RunningConfigView,
    disk: Disk,
    replies: Seq<bool>,
    at: int,
)
    requires
        config.moved_path.len() <= at < copy_run(
            copy_start(plan, config, disk),
            plan,
            true,
            replies,
        ).config.moved_path.len(),
    ensures
        exists|i: int|
            0 <= i < plan.files.len() && !(#[trigger] plan.files[i]).is_self
                && plan.files[i].target == copy_run(
                copy_start(plan, config, disk),
                plan,
                true,
                replies,
            ).config.moved_path[at],
{
    let end = copy_run(copy_start(plan, config, disk), plan, true, replies);
    lemma_copying_applies_in_order(plan, true, config, disk, replies);
    let upto = choose|upto: nat|
        upto <= plan.files.len() && end.config.moved_path == #[trigger] applied_upto(
            config,
            plan,
            true,
            upto,
        ).moved_path;
    let copied = copied_targets(plan, true, upto);
    assert(end.config.moved_path[at] == copied[at - config.moved_path.len()]);
    lemma_copied_targets_spare_self(plan, upto, at - config.moved_path.len());
    let i = choose|i: int|
        0 <= i < upto && !(#[trigger] plan.files[i]).is_self && plan.files[i].target
            == copied[at - config.moved_path.len()];
    assert(0 <= i < plan.files.len() && !plan.files[i].is_self && plan.files[i].target
        == end.config.moved_path[at]);
}

/// Where staging has found the running executable in place, its path is never among
/// the applied paths that the copying adds: none of them is the target of an entry
/// for the running executable.
pub proof fn lemma_copying_never_applies_self(
    plan: PlanView,
    config: RunningConfigView,
    disk: Disk,
    replies: Seq<bool>,
    index: int,
    at: int,
)
    requires
        self_by_target(plan),
        0 <= index < plan.files.len(),
        plan.files[index].is_self,
        config.moved_path.len() <= at < copy_run(
            copy_start(plan, config, disk),
            plan,
            true,
            replies,
        ).config.moved_path.len(),
    ensures
        copy_run(copy_start(plan, config, disk), plan, true, replies).config.moved_path[at]
            != plan.files[index].target,
{
    let end = copy_run(copy_start(plan, config, disk), plan, true, replies);
    lemma_copying_spares_self(plan, config, disk, replies, at);
    let i = choose|i: int|
        0 <= i < plan.files.len() && !(#[trigger] plan.files[i]).is_self && plan.files[i].target
            == end.config.moved_path[at];
    if end.config.moved_path[at] == plan.files[index].target {
        assert(plan.files[i].target == plan.files[index].target);
    }
}

/// Whenever the copying reports progress, the files in hand are at least one and at
/// most all: the share that it reports lies above 0 and is at most 1.
pub proof fn lemma_progress_is_a_share(
    plan: PlanView,
    need: bool,
    config: RunningConfigView,
    disk: Disk,
    replies: Seq<bool>,
)
    ensures
        match copy_asks(copy_run(copy_start(plan, config, disk), plan, need, replies), plan) {
            Some(ActionView::Progress { done, total }) => 0 < done <= total && total
                == plan.files.len(),
            _ => true,
        },
{
    lemma_copying_never_breaks(plan, need, config, disk, replies);
}

/// How many of the entries of the plan have their targets among the applied paths
/// when the copying is at the step `step` of the entry at `index`.
pub open spec fn copied_so_far(step: CopyStep, index: nat) -> nat {
    if step == CopyStep::Record {
        index + 1
    } else {
        index
    }
}

/// Whether the entry at `index` is in place on `disk`: its target is installed, and
/// holds what the staged file of one of the first `upto` entries held that has the
/// same target and is not left to the replacement of the running executable.
pub open spec fn entry_in_place(
    plan: PlanView,
    need: bool,
    upto: nat,
    disk: Disk,
    index: int,
) -> bool {
    &&& disk.installed.contains_key(plan.files[index].target)
    &&& exists|j: int|
        0 <= j < upto && !left_to_watcher(plan, need, j as nat) && (
        #[trigger] plan.files[j]).target == plan.files[index].target
            && disk.installed[plan.files[index].target] == disk.staged[plan.files[j].source]
}

/// Whether the first `upto` entries of `plan` are in place on `disk`, but for those
/// that are left to the replacement of the running executable.
pub open spec fn in_place(plan: PlanView, need: bool, upto: nat, disk: Disk) -> bool {
    forall|i: int|
        0 <= i < upto && !left_to_watcher(plan, need, i as nat) ==> #[trigger] entry_in_place(
            plan,
            need,
            upto,
            disk,
            i,
        )
}

/// What holds of the disk at every moment of the copying: the entries that were
/// dealt with are in place.
spec fn placed(run: CopyRun, plan: PlanView, need: bool, staged: Map<Seq<char>, Seq<u8>>) -> bool {
    &&& run.disk.staged == staged
    &&& match run.turn {
        CopyTurnView::Next(s) => {
            &&& s.index < plan.files.len()
            &&& s.step == CopyStep::Copy ==> !left_to_watcher(plan, need, s.index)
            &&& s.step == CopyStep::Watch ==> left_to_watcher(plan, need, s.index)
            &&& s.step == CopyStep::Record ==> in_place(plan, need, s.index + 1, run.disk)
            &&& s.step != CopyStep::Record ==> in_place(plan, need, s.index, run.disk)
        },
        CopyTurnView::End(CopyEnd::Copied) => in_place(plan, need, plan.files.len(), run.disk),
        CopyTurnView::End(CopyEnd::Failed) => true,
        CopyTurnView::Broken => false,
    }
}

/// A copy that succeeds puts one more entry in place.
pub proof fn lemma_copy_places(plan: PlanView, need: bool, index: nat, disk: Disk)
    requires
        index < plan.files.len(),
        !left_to_watcher(plan, need, index),
        in_place(plan, need, index, disk),
        disk.staged.contains_key(plan.files[index as int].source),
    ensures
        in_place(
            plan,
            need,
            index + 1,
            after(
                disk,
                ActionView::CopyFile {
                    source: plan.files[index as int].source,
                    target: plan.files[index as int].target,
                },
                true,
            ),
        ),
{
    let file = plan.files[index as int];
    let copied = after(
        disk,
        ActionView::CopyFile { source: file.source, target: file.target },
        true,
    );
    assert forall|i: int|
        0 <= i < index + 1 && !left_to_watcher(plan, need, i as nat) implies #[trigger] entry_in_place(
        plan,
        need,
        index + 1,
        copied,
        i,
    ) by {
        if plan.files[i].target == file.target {
            let j = index as int;
            assert(0 <= j < index + 1 && !left_to_watcher(plan, need, j as nat)
                && plan.files[j].target == plan.files[i].target
                && copied.installed[plan.files[i].target] == copied.staged[plan.files[j].source]);
        } else {
            assert(entry_in_place(plan, need, index, disk, i));
            let j = choose|j: int|
                0 <= j < index && !left_to_watcher(plan, need, j as nat) && (
                #[trigger] plan.files[j]).target == plan.files[i].target
                    && disk.installed[plan.files[i].target] == disk.staged[plan.files[j].source];
            assert(0 <= j < index + 1 && !left_to_watcher(plan, need, j as nat)
                && plan.files[j].target == plan.files[i].target
                && copied.installed[plan.files[i].target] == copied.staged[plan.files[j].source]);
        }
    }
}

/// An entry that is left to the replacement of the running executable needs no
/// copy to be in place.
pub proof fn lemma_skip_places(plan: PlanView, need: bool, index: nat, disk: Disk)
    requires
        left_to_watcher(plan, need, index),
        in_place(plan, need, index, disk),
    ensures
        in_place(plan, need, index + 1, disk),
{
    assert forall|i: int|
        0 <= i < index + 1 && !left_to_watcher(plan, need, i as nat) implies #[trigger] entry_in_place(
        plan,
        need,
        index + 1,
        disk,
        i,
    ) by {
        assert(entry_in_place(plan, need, index, disk, i));
        let j = choose|j: int|
            0 <= j < index && !left_to_watcher(plan, need, j as nat) && (
            #[trigger] plan.files[j]).target == plan.files[i].target
                && disk.installed[plan.files[i].target] == disk.staged[plan.files[j].source];
        assert(0 <= j < index + 1 && !left_to_watcher(plan, need, j as nat)
            && plan.files[j].target == plan.files[i].target
            && disk.installed[plan.files[i].target] == disk.staged[plan.files[j].source]);
    }
}

proof fn lemma_placed_step(
    run: CopyRun,
    plan: PlanView,
    need: bool,
    staged: Map<Seq<char>, Seq<u8>>,
    ok: bool,
)
    requires
        placed(run, plan, need, staged),
        match copy_asks(run, plan) {
            Some(action) => answers(run.disk, action, ok),
            None => true,
        },
    ensures
        placed(copy_step(run, plan, need, ok), plan, need, staged),
{
    match run.turn {
        CopyTurnView::Next(s) => {
            if s.step == CopyStep::Copy && ok {
                lemma_copy_places(plan, need, s.index, run.disk);
            }
            if s.step == CopyStep::Watch {
                lemma_skip_places(plan, need, s.index, run.disk);
            }
        },
        _ => {},
    }
}

proof fn lemma_placed_run(
    run: CopyRun,
    plan: PlanView,
    need: bool,
    staged: Map<Seq<char>, Seq<u8>>,
    replies: Seq<bool>,
)
    requires
        placed(run, plan, need, staged),
        copy_fits(run, plan, need, replies),
    ensures
        placed(copy_run(run, plan, need, replies), plan, need, staged),
    decreases replies.len(),
{
    if replies.len() > 0 {
        lemma_placed_step(run, plan, need, staged, replies[0]);
        lemma_placed_run(
            copy_step(run, plan, need, replies[0]),
            plan,
            need,
            staged,
            replies.drop_first(),
        );
    }
}

/// The copying that runs to its end has put every file in place: the target of each
/// entry that is not left to the replacement of the running executable is installed,
/// and holds what a staged file for that target held. No staged file has changed.
pub proof fn lemma_copying_puts_files_in_place(
    plan: PlanView,
    need: bool,
    config: RunningConfigView,
    disk: Disk,
    replies: Seq<bool>,
)
    requires
        copy_fits(copy_start(plan, config, disk), plan, need, replies),
        copy_run(copy_start(plan, config, disk), plan, need, replies).turn == CopyTurnView::End(
            CopyEnd::Copied,
        ),
    ensures
        ({
            let end = copy_run(copy_start(plan, config, disk), plan, need, replies);
            &&& end.disk.staged == disk.staged
            &&& in_place(plan, need, plan.files.len(), end.disk)
        }),
{
    lemma_placed_run(copy_start(plan, config, disk), plan, need, disk.staged, replies);
}

} // verus!
