use updater::action::{Action, Reply};
use updater::copying::{CopyEnd, CopyStep, CopyTurn, Copying};
use updater::flags::{
    mark_update_myself_now, need_update_myself, set_need_update_myself, update_myself_now,
    SelfUpdateFlags,
};
use updater::manifest::{Manifest, ManifestEntry};
use updater::paths::{backup_root, backup_slot, decimal_string};
use updater::plan::{Plan, PlannedFile};
use updater::rollback::{Rollback, RollbackStep, RollbackTurn};
use updater::staging::{Staging, StagingEnd, StagingStep, StagingTurn};
use updater::state::{BackupEntry, RunningConfig, RunningState};

fn files() -> Manifest {
    Manifest {
        added: vec![ManifestEntry { file_path: "bin/tool".to_string(), hash: "h0".to_string() }],
        changed: vec![
            ManifestEntry { file_path: "updater".to_string(), hash: "h1".to_string() },
            ManifestEntry { file_path: "data.db".to_string(), hash: "h2".to_string() },
        ],
    }
}

fn plan() -> Plan {
    Plan::resolve(&files(), "/srv/app", "/srv/stage", &Some("/srv/app/updater".to_string()))
}

fn config() -> RunningConfig {
    let mut config = RunningConfig::fresh("/srv/app/main".to_string());
    config.update_temp_path = "/srv/stage".to_string();
    config
}

#[test]
fn decimal_string_of_small_and_large_numbers() {
    assert_eq!(decimal_string(0), "0");
    assert_eq!(decimal_string(7), "7");
    assert_eq!(decimal_string(10), "10");
    assert_eq!(decimal_string(109), "109");
    assert_eq!(decimal_string(9_876_543_210), "9876543210");
    assert_eq!(decimal_string(usize::MAX), usize::MAX.to_string());
}

#[test]
fn decimal_string_agrees_with_std() {
    for n in 0..2_000usize {
        assert_eq!(decimal_string(n), n.to_string());
    }
}

#[test]
fn backup_root_lies_in_the_staging_directory() {
    assert_eq!(backup_root("/srv/stage"), "/srv/stage/.update_temp_path_old_version");
    assert_eq!(backup_root("/srv/stage/"), "/srv/stage/.update_temp_path_old_version");
}

#[test]
fn backup_slot_is_named_by_the_index() {
    assert_eq!(backup_slot("/srv/stage/old", 0), "/srv/stage/old/0");
    assert_eq!(backup_slot("/srv/stage/old", 42), "/srv/stage/old/42");
}

#[test]
fn fresh_checkpoint_records_the_request_only() {
    let config = RunningConfig::fresh("/srv/app/main".to_string());
    assert_eq!(config.status, RunningState::UpdateButNotCheck);
    assert_eq!(config.exe_path, "/srv/app/main");
    assert_eq!(config.update_temp_path, "");
    assert!(config.file_path.is_empty());
    assert!(config.moved_path.is_empty());
}

#[test]
fn flags_start_lowered_and_are_raised_one_by_one() {
    let mut flags = SelfUpdateFlags::new();
    assert!(!need_update_myself(&flags));
    assert!(!update_myself_now(&flags));
    set_need_update_myself(&mut flags, true);
    assert!(need_update_myself(&flags));
    assert!(!update_myself_now(&flags));
    assert!(mark_update_myself_now(&mut flags));
    assert!(update_myself_now(&flags));
    assert!(need_update_myself(&flags));
    set_need_update_myself(&mut flags, false);
    assert!(!need_update_myself(&flags));
    assert!(update_myself_now(&flags));
    assert!(mark_update_myself_now(&mut flags));
}

#[test]
fn reply_counts_as_success_only_when_it_says_so() {
    assert!(Reply::Done(true).is_success());
    assert!(!Reply::Done(false).is_success());
    assert!(!Reply::Manifest(None).is_success());
    assert!(!Reply::Manifest(Some(files())).is_success());
}

#[test]
fn plan_holds_one_file_for_each_entry_in_manifest_order() {
    let plan = plan();
    assert_eq!(plan.backup_root, "/srv/stage/.update_temp_path_old_version");
    assert!(plan.self_known);
    assert_eq!(
        plan.files,
        vec![
            PlannedFile {
                target: "/srv/app/bin/tool".to_string(),
                parent: Some("/srv/app/bin".to_string()),
                source: "/srv/stage/h0".to_string(),
                is_self: false,
                retired: None,
            },
            PlannedFile {
                target: "/srv/app/updater".to_string(),
                parent: Some("/srv/app".to_string()),
                source: "/srv/stage/h1".to_string(),
                is_self: true,
                retired: Some("/srv/stage/updater_old".to_string()),
            },
            PlannedFile {
                target: "/srv/app/data.db".to_string(),
                parent: Some("/srv/app".to_string()),
                source: "/srv/stage/h2".to_string(),
                is_self: false,
                retired: None,
            },
        ]
    );
}

#[test]
fn plan_without_a_known_executable_has_no_self() {
    let plan = Plan::resolve(&files(), "/srv/app", "/srv/stage", &None);
    assert!(!plan.self_known);
    assert!(plan.files.iter().all(|f| !f.is_self && f.retired.is_none()));
    assert_eq!(plan.files.len(), 3);
}

#[test]
fn plan_takes_an_absolute_entry_as_it_stands() {
    let manifest = Manifest {
        added: vec![ManifestEntry { file_path: "/etc/tool.conf".to_string(), hash: "h".to_string() }],
        changed: vec![],
    };
    let plan = Plan::resolve(&manifest, "/srv/app", "/srv/stage", &None);
    assert_eq!(plan.files[0].target, "/etc/tool.conf");
    assert_eq!(plan.files[0].parent, Some("/etc".to_string()));
}

#[test]
fn plan_marks_a_target_without_a_directory() {
    let manifest = Manifest {
        added: vec![ManifestEntry { file_path: "".to_string(), hash: "h".to_string() }],
        changed: vec![],
    };
    let plan = Plan::resolve(&manifest, "", "/srv/stage", &None);
    assert_eq!(plan.files[0].target, "");
    assert_eq!(plan.files[0].parent, None);
}

#[test]
fn staging_walks_one_entry() {
    let plan = plan();
    let mut config = config();
    config.file_path.push(BackupEntry { index: 9, path: "/stale".to_string() });
    let mut flags = SelfUpdateFlags::new();

    let s = Staging::start();
    assert_eq!(
        s.request(&plan, &config),
        Some(Action::BackupDirExists { dir: plan.backup_root.clone() })
    );
    let StagingTurn::Next(s) = s.advance(&plan, &mut config, &mut flags, false) else {
        panic!("staging ended");
    };
    assert_eq!(s.step, StagingStep::CreateBackupDir);
    assert_eq!(config.file_path.len(), 1);
    let StagingTurn::Next(s) = s.advance(&plan, &mut config, &mut flags, true) else {
        panic!("staging ended");
    };
    assert!(config.file_path.is_empty());
    assert_eq!((s.step, s.index), (StagingStep::CreateParent, 0));
    assert_eq!(
        s.request(&plan, &config),
        Some(Action::CreateParentDir { dir: "/srv/app/bin".to_string() })
    );
    let StagingTurn::Next(s) = s.advance(&plan, &mut config, &mut flags, true) else {
        panic!("staging ended");
    };
    assert_eq!(
        s.request(&plan, &config),
        Some(Action::SourceIsFile { path: "/srv/stage/h0".to_string() })
    );
    let StagingTurn::Next(s) = s.advance(&plan, &mut config, &mut flags, true) else {
        panic!("staging ended");
    };
    assert_eq!(
        s.request(&plan, &config),
        Some(Action::TargetExists { path: "/srv/app/bin/tool".to_string() })
    );
    let StagingTurn::Next(s) = s.advance(&plan, &mut config, &mut flags, true) else {
        panic!("staging ended");
    };
    assert_eq!(
        s.request(&plan, &config),
        Some(Action::MoveToBackup {
            index: 0,
            target: "/srv/app/bin/tool".to_string(),
            slot: "/srv/stage/.update_temp_path_old_version/0".to_string(),
        })
    );
    let StagingTurn::Next(s) = s.advance(&plan, &mut config, &mut flags, true) else {
        panic!("staging ended");
    };
    assert_eq!(
        config.file_path,
        vec![BackupEntry { index: 0, path: "/srv/app/bin/tool".to_string() }]
    );
    assert_eq!((s.step, s.index), (StagingStep::CreateParent, 1));
    assert!(!flags.need_update_myself);
}

#[test]
fn staging_notes_the_running_executable_only_where_it_exists() {
    let plan = plan();
    let at_self = Staging { step: StagingStep::CheckTarget, index: 1, parent_failed: false };

    let mut config = config();
    let mut flags = SelfUpdateFlags::new();
    let turn = at_self.advance(&plan, &mut config, &mut flags, false);
    assert_eq!(
        turn,
        StagingTurn::Next(Staging { step: StagingStep::CreateParent, index: 2, parent_failed: false })
    );
    assert!(!flags.need_update_myself);

    let turn = at_self.advance(&plan, &mut config, &mut flags, true);
    assert_eq!(
        turn,
        StagingTurn::Next(Staging { step: StagingStep::CreateParent, index: 2, parent_failed: false })
    );
    assert!(flags.need_update_myself);
    assert!(config.file_path.is_empty());
}

#[test]
fn staging_ends_after_the_last_entry() {
    let plan = plan();
    let mut config = config();
    let mut flags = SelfUpdateFlags::new();
    let last = Staging { step: StagingStep::CheckTarget, index: 2, parent_failed: false };
    assert_eq!(
        last.advance(&plan, &mut config, &mut flags, false),
        StagingTurn::End(StagingEnd::Staged)
    );
}

#[test]
fn staging_undoes_in_the_order_of_the_record() {
    let plan = plan();
    let mut config = config();
    config.file_path = vec![
        BackupEntry { index: 0, path: "/srv/app/bin/tool".to_string() },
        BackupEntry { index: 2, path: "/srv/app/data.db".to_string() },
    ];
    let mut flags = SelfUpdateFlags::new();
    let failing = Staging { step: StagingStep::CheckSource, index: 2, parent_failed: false };
    let StagingTurn::Next(s) = failing.advance(&plan, &mut config, &mut flags, false) else {
        panic!("staging ended");
    };
    assert_eq!((s.step, s.index), (StagingStep::Undo, 0));
    assert_eq!(
        s.request(&plan, &config),
        Some(Action::RestoreFromBackup {
            index: 0,
            slot: "/srv/stage/.update_temp_path_old_version/0".to_string(),
            target: "/srv/app/bin/tool".to_string(),
        })
    );
    let StagingTurn::Next(s) = s.advance(&plan, &mut config, &mut flags, true) else {
        panic!("staging ended");
    };
    assert_eq!(
        s.request(&plan, &config),
        Some(Action::RestoreFromBackup {
            index: 2,
            slot: "/srv/stage/.update_temp_path_old_version/2".to_string(),
            target: "/srv/app/data.db".to_string(),
        })
    );
    assert_eq!(config.file_path.len(), 2);
    assert_eq!(
        s.advance(&plan, &mut config, &mut flags, true),
        StagingTurn::End(StagingEnd::Failed)
    );
    assert!(config.file_path.is_empty());
}

#[test]
fn staging_is_stuck_when_a_backup_cannot_be_moved_back() {
    let plan = plan();
    let mut config = config();
    config.file_path = vec![BackupEntry { index: 0, path: "/srv/app/bin/tool".to_string() }];
    let mut flags = SelfUpdateFlags::new();
    let undoing = Staging { step: StagingStep::Undo, index: 0, parent_failed: false };
    assert_eq!(
        undoing.advance(&plan, &mut config, &mut flags, false),
        StagingTurn::End(StagingEnd::Stuck)
    );
    assert_eq!(config.file_path.len(), 1);
}

#[test]
fn staging_fails_on_a_target_without_a_directory() {
    let manifest = Manifest {
        added: vec![ManifestEntry { file_path: "".to_string(), hash: "h".to_string() }],
        changed: vec![],
    };
    let plan = Plan::resolve(&manifest, "", "/srv/stage", &Some("/srv/app/updater".to_string()));
    let mut config = config();
    let mut flags = SelfUpdateFlags::new();
    let s = Staging { step: StagingStep::CreateBackupDir, index: 0, parent_failed: false };
    assert_eq!(
        s.advance(&plan, &mut config, &mut flags, true),
        StagingTurn::End(StagingEnd::Failed)
    );
}

#[test]
fn staging_outside_the_plan_is_broken() {
    let plan = plan();
    let mut config = config();
    let mut flags = SelfUpdateFlags::new();
    let lost = Staging { step: StagingStep::MoveAside, index: 3, parent_failed: false };
    assert_eq!(lost.request(&plan, &config), None);
    assert_eq!(lost.advance(&plan, &mut config, &mut flags, true), StagingTurn::Broken);
    let lost = Staging { step: StagingStep::Undo, index: 0, parent_failed: false };
    assert_eq!(lost.request(&plan, &config), None);
    assert_eq!(lost.advance(&plan, &mut config, &mut flags, true), StagingTurn::Broken);
}

#[test]
fn copying_begins_with_progress_on_the_first_entry() {
    let plan = plan();
    let CopyTurn::Next(c) = Copying::begin(&plan) else {
        panic!("copying ended");
    };
    assert_eq!((c.step, c.index), (CopyStep::Progress, 0));
    assert_eq!(c.request(&plan), Some(Action::Progress { done: 1, total: 3 }));
}

#[test]
fn copying_of_nothing_is_done_at_once() {
    let empty = Plan::resolve(
        &Manifest { added: vec![], changed: vec![] },
        "/srv/app",
        "/srv/stage",
        &Some("/srv/app/updater".to_string()),
    );
    assert_eq!(Copying::begin(&empty), CopyTurn::End(CopyEnd::Copied));
    let unknown = Plan::resolve(&files(), "/srv/app", "/srv/stage", &None);
    assert_eq!(Copying::begin(&unknown), CopyTurn::End(CopyEnd::Failed));
}

#[test]
fn copying_records_each_copy_and_stops_at_the_first_failure() {
    let plan = plan();
    let mut config = config();
    config.status = RunningState::Updating;
    let flags = SelfUpdateFlags::new();

    let c = Copying { step: CopyStep::Copy, index: 0 };
    assert_eq!(
        c.request(&plan),
        Some(Action::CopyFile {
            source: "/srv/stage/h0".to_string(),
            target: "/srv/app/bin/tool".to_string(),
        })
    );
    let turn = c.advance(&plan, &mut config, &flags, true);
    assert_eq!(turn, CopyTurn::Next(Copying { step: CopyStep::Record, index: 0 }));
    assert_eq!(config.moved_path, vec!["/srv/app/bin/tool".to_string()]);
    assert_eq!(config.status, RunningState::Updating);

    let c = Copying { step: CopyStep::Copy, index: 2 };
    let turn = c.advance(&plan, &mut config, &flags, false);
    assert_eq!(turn, CopyTurn::Next(Copying { step: CopyStep::RecordFailure, index: 2 }));
    assert_eq!(config.moved_path, vec!["/srv/app/bin/tool".to_string()]);
    assert_eq!(config.status, RunningState::Failed);
    let CopyTurn::Next(c) = turn else {
        panic!("copying ended");
    };
    assert_eq!(c.request(&plan), Some(Action::Persist));
    assert_eq!(c.advance(&plan, &mut config, &flags, true), CopyTurn::End(CopyEnd::Failed));
}

#[test]
fn copying_leaves_the_running_executable_to_its_replacement() {
    let plan = plan();
    let mut config = config();
    let mut flags = SelfUpdateFlags::new();
    let at_self = Copying { step: CopyStep::Progress, index: 1 };
    assert_eq!(
        at_self.advance(&plan, &mut config, &flags, true),
        CopyTurn::Next(Copying { step: CopyStep::Copy, index: 1 })
    );
    set_need_update_myself(&mut flags, true);
    let turn = at_self.advance(&plan, &mut config, &flags, true);
    assert_eq!(turn, CopyTurn::Next(Copying { step: CopyStep::Watch, index: 1 }));
    let CopyTurn::Next(c) = turn else {
        panic!("copying ended");
    };
    assert_eq!(
        c.request(&plan),
        Some(Action::ReplaceSelf {
            target: "/srv/app/updater".to_string(),
            staged: "/srv/stage/h1".to_string(),
            retired: Some("/srv/stage/updater_old".to_string()),
        })
    );
    assert_eq!(
        c.advance(&plan, &mut config, &flags, true),
        CopyTurn::Next(Copying { step: CopyStep::Progress, index: 2 })
    );
    assert!(config.moved_path.is_empty());
}

#[test]
fn copying_outside_the_plan_is_broken() {
    let plan = plan();
    let mut config = config();
    let flags = SelfUpdateFlags::new();
    let lost = Copying { step: CopyStep::Copy, index: 3 };
    assert_eq!(lost.request(&plan), None);
    assert_eq!(lost.advance(&plan, &mut config, &flags, true), CopyTurn::Broken);
}

#[test]
fn rollback_of_an_empty_checkpoint_only_writes() {
    let mut config = config();
    let RollbackTurn::Next(r) = Rollback::begin(&mut config) else {
        panic!("rollback ended");
    };
    assert_eq!(config.status, RunningState::Failed);
    assert_eq!(r.request(&config), Some(Action::Persist));
    let RollbackTurn::Next(r) = r.advance(&mut config) else {
        panic!("rollback ended");
    };
    assert_eq!(r.step, RollbackStep::RecordDeleted);
    assert_eq!(r.request(&config), Some(Action::Persist));
    let RollbackTurn::Next(r) = r.advance(&mut config) else {
        panic!("rollback ended");
    };
    assert_eq!(r.step, RollbackStep::RecordDone);
    assert_eq!(config.status, RunningState::Nothing);
    assert_eq!(r.request(&config), Some(Action::Persist));
    assert_eq!(r.advance(&mut config), RollbackTurn::Done);
}

#[test]
fn rollback_looks_for_the_slots_where_the_checkpoint_says() {
    let mut config = config();
    config.update_temp_path = "/elsewhere".to_string();
    config.file_path = vec![BackupEntry { index: 12, path: "/srv/app/x".to_string() }];
    let r = Rollback { step: RollbackStep::Restore, index: 0 };
    assert_eq!(
        r.request(&config),
        Some(Action::RestoreFromBackup {
            index: 12,
            slot: "/elsewhere/.update_temp_path_old_version/12".to_string(),
            target: "/srv/app/x".to_string(),
        })
    );
}

#[test]
fn rollback_outside_the_record_is_broken() {
    let mut config = config();
    let lost = Rollback { step: RollbackStep::Delete, index: 0 };
    assert_eq!(lost.request(&config), None);
    assert_eq!(lost.advance(&mut config), RollbackTurn::Broken);
    let lost = Rollback { step: RollbackStep::Restore, index: 0 };
    assert_eq!(lost.request(&config), None);
    assert_eq!(lost.advance(&mut config), RollbackTurn::Broken);
}
