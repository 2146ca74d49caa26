use std::collections::BTreeMap;

use updater::action::{Action, Reply};
use updater::manifest::{Manifest, ManifestEntry};
use updater::runner::{Environment, Phase, Updater};
use updater::state::{BackupEntry, RunningConfig, RunningState};

const EXE: &str = "/opt/app/main";
const STAGING: &str = "/opt/app/update_temp";
const BACKUPS: &str = "/opt/app/update_temp/.update_temp_path_old_version";

/// A disk in memory, with the ways in which it can be made to fail.
struct World {
    files: BTreeMap<String, String>,
    manifest: Option<Manifest>,
    checkpoint_opens: bool,
    target_ends: bool,
    failing_copies: Vec<String>,
    failing_moves: Vec<String>,
    failing_restores: Vec<String>,
    failing_parents: Vec<String>,
    pending_swap: Option<(String, String, Option<String>)>,
    persisted: Vec<RunningConfig>,
    relaunched: Vec<String>,
    progress: Vec<(usize, usize)>,
}

fn world(files: &[(&str, &str)], manifest: Option<Manifest>) -> World {
    World {
        files: files.iter().map(|(p, c)| (p.to_string(), c.to_string())).collect(),
        manifest,
        checkpoint_opens: true,
        target_ends: true,
        failing_copies: Vec::new(),
        failing_moves: Vec::new(),
        failing_restores: Vec::new(),
        failing_parents: Vec::new(),
        pending_swap: None,
        persisted: Vec::new(),
        relaunched: Vec::new(),
        progress: Vec::new(),
    }
}

fn under(dir: &str, path: &str) -> bool {
    path.len() > dir.len() && path.starts_with(dir) && path.as_bytes()[dir.len()] == b'/'
}

fn remove_tree(world: &mut World, dir: &str) {
    let doomed: Vec<String> = world.files.keys().filter(|p| under(dir, p)).cloned().collect();
    for path in doomed {
        world.files.remove(&path);
    }
}

fn rename(world: &mut World, from: &str, to: &str) -> bool {
    match world.files.remove(from) {
        Some(content) => {
            world.files.insert(to.to_string(), content);
            true
        }
        None => false,
    }
}

fn perform(world: &mut World, updater: &Updater, action: &Action) -> Reply {
    match action {
        Action::OpenCheckpoint => Reply::Done(world.checkpoint_opens),
        Action::Persist => {
            world.persisted.push(updater.config.clone());
            Reply::Done(true)
        }
        Action::LoadManifest { .. } => Reply::Manifest(world.manifest.clone()),
        Action::EndTarget { .. } => Reply::Done(world.target_ends),
        Action::BackupDirExists { dir } => {
            Reply::Done(world.files.keys().any(|p| under(dir, p)))
        }
        Action::RemoveBackupDir { dir } => {
            remove_tree(world, dir);
            Reply::Done(true)
        }
        Action::CreateBackupDir { .. } => Reply::Done(true),
        Action::CreateParentDir { dir } => Reply::Done(!world.failing_parents.contains(dir)),
        Action::SourceIsFile { path } => Reply::Done(world.files.contains_key(path)),
        Action::TargetExists { path } => Reply::Done(world.files.contains_key(path)),
        Action::MoveToBackup { target, slot, .. } => {
            if world.failing_moves.contains(target) {
                Reply::Done(false)
            } else {
                Reply::Done(rename(world, target, slot))
            }
        }
        Action::RestoreFromBackup { slot, target, .. } => {
            if world.failing_restores.contains(target) {
                Reply::Done(false)
            } else {
                Reply::Done(rename(world, slot, target))
            }
        }
        Action::Progress { done, total } => {
            world.progress.push((*done, *total));
            Reply::Done(true)
        }
        Action::ReplaceSelf { target, staged, retired } => {
            world.pending_swap = Some((target.clone(), staged.clone(), retired.clone()));
            Reply::Done(true)
        }
        Action::CopyFile { source, target } => {
            if world.failing_copies.contains(target) {
                return Reply::Done(false);
            }
            match world.files.get(source).cloned() {
                Some(content) => {
                    world.files.insert(target.clone(), content);
                    Reply::Done(true)
                }
                None => Reply::Done(false),
            }
        }
        Action::DeleteFile { path } => Reply::Done(world.files.remove(path).is_some()),
        Action::Commit => {
            if let Some((target, staged, Some(retired))) = world.pending_swap.take() {
                rename(world, &target, &retired);
                rename(world, &staged, &target);
            }
            Reply::Done(true)
        }
        Action::Pause { .. } => Reply::Done(true),
        Action::RemoveStaging { dir } => {
            remove_tree(world, dir);
            Reply::Done(true)
        }
        Action::Relaunch { exe } => {
            world.relaunched.push(exe.clone());
            Reply::Done(true)
        }
        Action::Quit | Action::Abort => Reply::Done(true),
    }
}

/// Drives the update to its end and returns every action that it asked for, the
/// last one being `Quit` or `Abort`.
fn drive(updater: &mut Updater, world: &mut World) -> Vec<Action> {
    let mut trace = Vec::new();
    for _ in 0..10_000 {
        let action = updater.action();
        trace.push(action.clone());
        if updater.is_over() {
            return trace;
        }
        let reply = perform(world, updater, &action);
        updater.advance(reply);
    }
    panic!("the update did not end");
}

fn entry(file_path: &str, hash: &str) -> ManifestEntry {
    ManifestEntry { file_path: file_path.to_string(), hash: hash.to_string() }
}

fn manifest(added: &[(&str, &str)], changed: &[(&str, &str)]) -> Manifest {
    Manifest {
        added: added.iter().map(|(p, h)| entry(p, h)).collect(),
        changed: changed.iter().map(|(p, h)| entry(p, h)).collect(),
    }
}

fn request() -> Environment {
    Environment {
        exe_path: Some(EXE.to_string()),
        update_temp_path: None,
        update_config_file_name: None,
        current_exe: Some("/opt/app/updater".to_string()),
    }
}

fn no_request() -> Environment {
    Environment { exe_path: None, ..request() }
}

fn checkpoint(status: RunningState, backups: &[(usize, &str)], applied: &[&str]) -> RunningConfig {
    RunningConfig {
        status,
        file_path: backups
            .iter()
            .map(|(index, path)| BackupEntry { index: *index, path: path.to_string() })
            .collect(),
        update_temp_path: STAGING.to_string(),
        exe_path: EXE.to_string(),
        moved_path: applied.iter().map(|p| p.to_string()).collect(),
    }
}

fn slot(index: usize) -> String {
    format!("{BACKUPS}/{index}")
}

fn moves(trace: &[Action]) -> Vec<(usize, String)> {
    trace
        .iter()
        .filter_map(|a| match a {
            Action::MoveToBackup { index, target, .. } => Some((*index, target.clone())),
            _ => None,
        })
        .collect()
}

fn restores(trace: &[Action]) -> Vec<(usize, String)> {
    trace
        .iter()
        .filter_map(|a| match a {
            Action::RestoreFromBackup { index, target, .. } => Some((*index, target.clone())),
            _ => None,
        })
        .collect()
}

fn copies(trace: &[Action]) -> Vec<String> {
    trace
        .iter()
        .filter_map(|a| match a {
            Action::CopyFile { target, .. } => Some(target.clone()),
            _ => None,
        })
        .collect()
}

fn deletions(trace: &[Action]) -> Vec<String> {
    trace
        .iter()
        .filter_map(|a| match a {
            Action::DeleteFile { path } => Some(path.clone()),
            _ => None,
        })
        .collect()
}

fn touches_files(action: &Action) -> bool {
    matches!(
        action,
        Action::MoveToBackup { .. }
            | Action::RestoreFromBackup { .. }
            | Action::CopyFile { .. }
            | Action::DeleteFile { .. }
            | Action::RemoveBackupDir { .. }
            | Action::RemoveStaging { .. }
    )
}

#[test]
fn single_file_update_moves_copies_finishes_and_relaunches() {
    let mut disk = world(
        &[("/opt/app/app.bin", "old"), ("/opt/app/update_temp/h1", "new")],
        Some(manifest(&[("app.bin", "h1")], &[])),
    );
    let mut updater = Updater::launch(request(), None);
    let trace = drive(&mut updater, &mut disk);

    assert_eq!(moves(&trace), vec![(0, "/opt/app/app.bin".to_string())]);
    assert!(trace.contains(&Action::MoveToBackup {
        index: 0,
        target: "/opt/app/app.bin".to_string(),
        slot: slot(0),
    }));
    assert!(trace.contains(&Action::CopyFile {
        source: "/opt/app/update_temp/h1".to_string(),
        target: "/opt/app/app.bin".to_string(),
    }));
    assert_eq!(updater.config.status, RunningState::Finish);
    assert_eq!(disk.persisted.last().unwrap().status, RunningState::Finish);
    assert!(trace.contains(&Action::RemoveStaging { dir: STAGING.to_string() }));
    assert_eq!(disk.relaunched, vec![EXE.to_string()]);
    assert_eq!(trace.last(), Some(&Action::Quit));
    assert_eq!(disk.files.get("/opt/app/app.bin").map(String::as_str), Some("new"));
    assert!(disk.files.keys().all(|p| !under(STAGING, p)));
}

#[test]
fn single_file_update_asks_for_its_actions_in_order() {
    let mut disk = world(
        &[("/opt/app/app.bin", "old"), ("/opt/app/update_temp/h1", "new")],
        Some(manifest(&[("app.bin", "h1")], &[])),
    );
    let mut updater = Updater::launch(request(), None);
    let trace = drive(&mut updater, &mut disk);
    let expected = vec![
        Action::OpenCheckpoint,
        Action::Persist,
        Action::Persist,
        Action::LoadManifest { path: "/opt/app/update_temp/update-config.json".to_string() },
        Action::EndTarget { exe: EXE.to_string() },
        Action::BackupDirExists { dir: BACKUPS.to_string() },
        Action::CreateBackupDir { dir: BACKUPS.to_string() },
        Action::CreateParentDir { dir: "/opt/app".to_string() },
        Action::SourceIsFile { path: "/opt/app/update_temp/h1".to_string() },
        Action::TargetExists { path: "/opt/app/app.bin".to_string() },
        Action::MoveToBackup {
            index: 0,
            target: "/opt/app/app.bin".to_string(),
            slot: slot(0),
        },
        Action::Persist,
        Action::Progress { done: 1, total: 1 },
        Action::CopyFile {
            source: "/opt/app/update_temp/h1".to_string(),
            target: "/opt/app/app.bin".to_string(),
        },
        Action::Persist,
        Action::Persist,
        Action::Commit,
        Action::Pause { millis: 500 },
        Action::RemoveStaging { dir: STAGING.to_string() },
        Action::Relaunch { exe: EXE.to_string() },
        Action::Quit,
    ];
    assert_eq!(trace, expected);
    let statuses: Vec<RunningState> = disk.persisted.iter().map(|c| c.status).collect();
    assert_eq!(
        statuses,
        vec![
            RunningState::UpdateButNotCheck,
            RunningState::UpdateButNotCheck,
            RunningState::Updating,
            RunningState::Updating,
            RunningState::Finish,
        ]
    );
    assert_eq!(disk.persisted[1].update_temp_path, STAGING);
    assert_eq!(
        disk.persisted[2].file_path,
        vec![BackupEntry { index: 0, path: "/opt/app/app.bin".to_string() }]
    );
    assert_eq!(disk.persisted[3].moved_path, vec!["/opt/app/app.bin".to_string()]);
}

#[test]
fn missing_staged_file_fails_staging_before_any_move() {
    let mut disk = world(&[("/opt/app/app.bin", "old")], Some(manifest(&[("app.bin", "h1")], &[])));
    let before = disk.files.clone();
    let mut updater = Updater::launch(request(), None);
    let trace = drive(&mut updater, &mut disk);

    assert!(moves(&trace).is_empty());
    assert!(copies(&trace).is_empty());
    assert!(deletions(&trace).is_empty());
    assert!(restores(&trace).is_empty());
    assert_eq!(updater.config.status, RunningState::UpdateButNotCheck);
    assert!(disk.persisted.iter().all(|c| c.status == RunningState::UpdateButNotCheck));
    assert!(disk.relaunched.is_empty());
    assert_eq!(trace.last(), Some(&Action::Quit));
    assert_eq!(disk.files, before);
}

#[test]
fn failed_second_copy_is_rolled_back() {
    let mut disk = world(
        &[
            ("/opt/app/a.bin", "old a"),
            ("/opt/app/b.bin", "old b"),
            ("/opt/app/update_temp/ha", "new a"),
            ("/opt/app/update_temp/hb", "new b"),
        ],
        Some(manifest(&[("a.bin", "ha")], &[("b.bin", "hb")])),
    );
    disk.failing_copies.push("/opt/app/b.bin".to_string());
    let mut updater = Updater::launch(request(), None);
    let trace = drive(&mut updater, &mut disk);

    let failed_at = disk.persisted.iter().position(|c| c.status == RunningState::Failed).unwrap();
    assert_eq!(disk.persisted[failed_at - 1].moved_path, vec!["/opt/app/a.bin".to_string()]);
    assert_eq!(disk.persisted[failed_at].moved_path, vec!["/opt/app/a.bin".to_string()]);
    assert_eq!(deletions(&trace), vec!["/opt/app/a.bin".to_string()]);
    assert_eq!(
        restores(&trace),
        vec![(0, "/opt/app/a.bin".to_string()), (1, "/opt/app/b.bin".to_string())]
    );
    assert_eq!(updater.config.status, RunningState::Nothing);
    assert_eq!(disk.persisted.last().unwrap().status, RunningState::Nothing);
    assert!(updater.config.file_path.is_empty());
    assert!(updater.config.moved_path.is_empty());
    assert_eq!(disk.files.get("/opt/app/a.bin").map(String::as_str), Some("old a"));
    assert_eq!(disk.files.get("/opt/app/b.bin").map(String::as_str), Some("old b"));
    assert!(disk.relaunched.is_empty());
    assert_eq!(trace.last(), Some(&Action::Quit));
    assert!(!trace.contains(&Action::Commit));
}

#[test]
fn rollback_writes_the_checkpoint_after_each_stage() {
    let mut disk = world(
        &[("/opt/app/a.bin", "new a"), (slot(0).as_str(), "old a"), (slot(3).as_str(), "old d")],
        None,
    );
    let found = checkpoint(
        RunningState::Failed,
        &[(0, "/opt/app/a.bin"), (3, "/opt/app/d.bin")],
        &["/opt/app/a.bin", "/opt/app/c.bin"],
    );
    let mut updater = Updater::launch(no_request(), Some(found));
    let trace = drive(&mut updater, &mut disk);
    let expected = vec![
        Action::OpenCheckpoint,
        Action::Persist,
        Action::DeleteFile { path: "/opt/app/a.bin".to_string() },
        Action::DeleteFile { path: "/opt/app/c.bin".to_string() },
        Action::Persist,
        Action::RestoreFromBackup {
            index: 0,
            slot: slot(0),
            target: "/opt/app/a.bin".to_string(),
        },
        Action::RestoreFromBackup {
            index: 3,
            slot: slot(3),
            target: "/opt/app/d.bin".to_string(),
        },
        Action::Persist,
        Action::Quit,
    ];
    assert_eq!(trace, expected);
    assert_eq!(disk.persisted.len(), 3);
    assert_eq!(disk.persisted[0].status, RunningState::Failed);
    assert_eq!(disk.persisted[0].moved_path.len(), 2);
    assert_eq!(disk.persisted[1].status, RunningState::Failed);
    assert!(disk.persisted[1].moved_path.is_empty());
    assert_eq!(disk.persisted[1].file_path.len(), 2);
    assert_eq!(disk.persisted[2], checkpoint(RunningState::Nothing, &[], &[]));
    assert_eq!(disk.files.get("/opt/app/a.bin").map(String::as_str), Some("old a"));
    assert_eq!(disk.files.get("/opt/app/d.bin").map(String::as_str), Some("old d"));
    assert_eq!(disk.files.len(), 2);
}

#[test]
fn rollback_goes_on_after_a_failed_deletion_or_restore() {
    let mut disk = world(&[(slot(1).as_str(), "old b")], None);
    disk.failing_restores.push("/opt/app/a.bin".to_string());
    let found = checkpoint(
        RunningState::Failed,
        &[(0, "/opt/app/a.bin"), (1, "/opt/app/b.bin")],
        &["/opt/app/gone.bin", "/opt/app/gone_too.bin"],
    );
    let mut updater = Updater::launch(no_request(), Some(found));
    let trace = drive(&mut updater, &mut disk);
    assert_eq!(deletions(&trace).len(), 2);
    assert_eq!(restores(&trace).len(), 2);
    assert_eq!(updater.config, checkpoint(RunningState::Nothing, &[], &[]));
    assert_eq!(disk.files.get("/opt/app/b.bin").map(String::as_str), Some("old b"));
}

#[test]
fn second_rollback_changes_no_file() {
    let mut disk = world(
        &[("/opt/app/a.bin", "new a"), (slot(0).as_str(), "old a"), ("/opt/app/keep", "k")],
        None,
    );
    let found = checkpoint(RunningState::Failed, &[(0, "/opt/app/a.bin")], &["/opt/app/a.bin"]);
    let mut first = Updater::launch(no_request(), Some(found));
    drive(&mut first, &mut disk);
    let after_first = disk.files.clone();
    assert_eq!(after_first.get("/opt/app/a.bin").map(String::as_str), Some("old a"));

    let mut left = first.config.clone();
    assert_eq!(left.status, RunningState::Nothing);
    left.status = RunningState::Failed;
    let mut second = Updater::launch(no_request(), Some(left));
    let trace = drive(&mut second, &mut disk);
    assert!(trace.iter().all(|a| !touches_files(a)));
    assert_eq!(disk.files, after_first);
    assert_eq!(second.config, first.config);
}

#[test]
fn staging_that_fails_partway_puts_every_target_back() {
    let mut disk = world(
        &[
            ("/opt/app/a.bin", "old a"),
            ("/opt/app/lib/b.so", "old b"),
            ("/opt/app/c.bin", "old c"),
            ("/opt/app/update_temp/ha", "new a"),
            ("/opt/app/update_temp/hb", "new b"),
        ],
        Some(manifest(&[("a.bin", "ha"), ("lib/b.so", "hb")], &[("c.bin", "hc")])),
    );
    let before = disk.files.clone();
    let mut updater = Updater::launch(request(), None);
    let trace = drive(&mut updater, &mut disk);

    assert_eq!(
        moves(&trace),
        vec![(0, "/opt/app/a.bin".to_string()), (1, "/opt/app/lib/b.so".to_string())]
    );
    assert_eq!(restores(&trace), moves(&trace));
    assert!(copies(&trace).is_empty());
    assert_eq!(disk.files, before);
    assert!(updater.config.file_path.is_empty());
    assert_eq!(updater.config.status, RunningState::UpdateButNotCheck);
    assert_eq!(trace.last(), Some(&Action::Quit));
}

#[test]
fn staging_fails_when_a_target_cannot_be_moved() {
    let mut disk = world(
        &[
            ("/opt/app/a.bin", "old a"),
            ("/opt/app/b.bin", "old b"),
            ("/opt/app/update_temp/ha", "new a"),
            ("/opt/app/update_temp/hb", "new b"),
        ],
        Some(manifest(&[("a.bin", "ha"), ("b.bin", "hb")], &[])),
    );
    disk.failing_moves.push("/opt/app/b.bin".to_string());
    let before = disk.files.clone();
    let mut updater = Updater::launch(request(), None);
    let trace = drive(&mut updater, &mut disk);
    assert_eq!(restores(&trace), vec![(0, "/opt/app/a.bin".to_string())]);
    assert_eq!(disk.files, before);
    assert!(updater.config.file_path.is_empty());
}

#[test]
fn staging_fails_when_a_parent_directory_cannot_be_created() {
    let mut disk = world(
        &[("/opt/app/a.bin", "old a"), ("/opt/app/update_temp/ha", "new a"), ("/opt/app/update_temp/hb", "new b")],
        Some(manifest(&[("a.bin", "ha"), ("deep/b.bin", "hb")], &[])),
    );
    disk.failing_parents.push("/opt/app/deep".to_string());
    let before = disk.files.clone();
    let mut updater = Updater::launch(request(), None);
    let trace = drive(&mut updater, &mut disk);
    assert!(trace.contains(&Action::CreateParentDir { dir: "/opt/app/deep".to_string() }));
    assert!(trace.contains(&Action::SourceIsFile { path: "/opt/app/update_temp/hb".to_string() }));
    assert!(!trace.contains(&Action::TargetExists { path: "/opt/app/deep/b.bin".to_string() }));
    assert_eq!(restores(&trace), vec![(0, "/opt/app/a.bin".to_string())]);
    assert_eq!(disk.files, before);
}

#[test]
fn staging_that_cannot_undo_keeps_the_backups_on_record() {
    let mut disk = world(
        &[
            ("/opt/app/a.bin", "old a"),
            ("/opt/app/b.bin", "old b"),
            ("/opt/app/update_temp/ha", "new a"),
            ("/opt/app/update_temp/hb", "new b"),
        ],
        Some(manifest(&[("a.bin", "ha"), ("b.bin", "hb"), ("c.bin", "hc")], &[])),
    );
    disk.failing_restores.push("/opt/app/a.bin".to_string());
    let mut updater = Updater::launch(request(), None);
    let trace = drive(&mut updater, &mut disk);
    assert_eq!(restores(&trace), vec![(0, "/opt/app/a.bin".to_string())]);
    assert_eq!(
        updater.config.file_path,
        vec![
            BackupEntry { index: 0, path: "/opt/app/a.bin".to_string() },
            BackupEntry { index: 1, path: "/opt/app/b.bin".to_string() },
        ]
    );
    assert_eq!(disk.persisted.last().unwrap().file_path.len(), 2);
    assert_eq!(updater.config.status, RunningState::UpdateButNotCheck);
    assert_eq!(trace.last(), Some(&Action::Quit));
}

#[test]
fn staging_clears_a_backup_directory_left_over() {
    let mut disk = world(
        &[(slot(7).as_str(), "stale"), ("/opt/app/update_temp/ha", "new a")],
        Some(manifest(&[("a.bin", "ha")], &[])),
    );
    let mut updater = Updater::launch(request(), None);
    let trace = drive(&mut updater, &mut disk);
    let at = trace.iter().position(|a| *a == Action::BackupDirExists { dir: BACKUPS.to_string() });
    let at = at.unwrap();
    assert_eq!(trace[at + 1], Action::RemoveBackupDir { dir: BACKUPS.to_string() });
    assert_eq!(trace[at + 2], Action::CreateBackupDir { dir: BACKUPS.to_string() });
    assert!(moves(&trace).is_empty());
    assert_eq!(updater.config.status, RunningState::Finish);
    assert_eq!(disk.files.get("/opt/app/a.bin").map(String::as_str), Some("new a"));
}

#[test]
fn resumed_update_copies_without_staging_and_finishes() {
    let mut disk = world(
        &[
            (slot(0).as_str(), "old a"),
            ("/opt/app/update_temp/ha", "new a"),
            ("/opt/app/update_temp/hb", "new b"),
        ],
        Some(manifest(&[("a.bin", "ha"), ("b.bin", "hb")], &[])),
    );
    let found = checkpoint(RunningState::Updating, &[(0, "/opt/app/a.bin")], &[]);
    let mut updater = Updater::launch(no_request(), Some(found));
    assert!(updater.skip_check);
    let trace = drive(&mut updater, &mut disk);

    assert!(!trace.iter().any(|a| matches!(
        a,
        Action::BackupDirExists { .. }
            | Action::RemoveBackupDir { .. }
            | Action::CreateBackupDir { .. }
            | Action::CreateParentDir { .. }
            | Action::SourceIsFile { .. }
            | Action::TargetExists { .. }
            | Action::MoveToBackup { .. }
            | Action::RestoreFromBackup { .. }
    )));
    assert_eq!(copies(&trace), vec!["/opt/app/a.bin".to_string(), "/opt/app/b.bin".to_string()]);
    assert_eq!(updater.config.status, RunningState::Finish);
    assert_eq!(
        updater.config.moved_path,
        vec!["/opt/app/a.bin".to_string(), "/opt/app/b.bin".to_string()]
    );
    assert_eq!(
        updater.config.file_path,
        vec![BackupEntry { index: 0, path: "/opt/app/a.bin".to_string() }]
    );
    assert_eq!(disk.relaunched, vec![EXE.to_string()]);
    assert_eq!(disk.files.get("/opt/app/b.bin").map(String::as_str), Some("new b"));
}

#[test]
fn resumed_update_copies_every_entry_again() {
    let mut disk = world(
        &[
            ("/opt/app/a.bin", "new a"),
            ("/opt/app/update_temp/ha", "new a"),
            ("/opt/app/update_temp/hb", "new b"),
        ],
        Some(manifest(&[("a.bin", "ha"), ("b.bin", "hb")], &[])),
    );
    let found = checkpoint(RunningState::Updating, &[], &["/opt/app/a.bin"]);
    let mut updater = Updater::launch(no_request(), Some(found));
    let trace = drive(&mut updater, &mut disk);
    assert_eq!(copies(&trace), vec!["/opt/app/a.bin".to_string(), "/opt/app/b.bin".to_string()]);
    assert_eq!(
        updater.config.moved_path,
        vec![
            "/opt/app/a.bin".to_string(),
            "/opt/app/a.bin".to_string(),
            "/opt/app/b.bin".to_string(),
        ]
    );
    assert_eq!(updater.config.status, RunningState::Finish);
}

#[test]
fn resumed_update_that_was_not_staged_is_staged_first() {
    let mut disk = world(
        &[("/opt/app/a.bin", "old a"), ("/opt/app/update_temp/ha", "new a")],
        Some(manifest(&[], &[("a.bin", "ha")])),
    );
    let found = checkpoint(RunningState::UpdateButNotCheck, &[], &[]);
    let mut updater = Updater::launch(no_request(), Some(found));
    assert!(!updater.skip_check);
    let trace = drive(&mut updater, &mut disk);
    assert_eq!(moves(&trace), vec![(0, "/opt/app/a.bin".to_string())]);
    assert_eq!(updater.config.status, RunningState::Finish);
}

#[test]
fn running_executable_is_neither_backed_up_nor_applied() {
    let mut disk = world(
        &[
            ("/opt/app/a.bin", "old a"),
            ("/opt/app/updater", "old updater"),
            ("/opt/app/update_temp/ha", "new a"),
            ("/opt/app/update_temp/hu", "new updater"),
        ],
        Some(manifest(&[("a.bin", "ha")], &[("updater", "hu")])),
    );
    let mut updater = Updater::launch(request(), None);
    let trace = drive(&mut updater, &mut disk);

    assert_eq!(moves(&trace), vec![(0, "/opt/app/a.bin".to_string())]);
    assert_eq!(copies(&trace), vec!["/opt/app/a.bin".to_string()]);
    assert!(updater.flags.need_update_myself);
    assert!(updater.flags.update_myself_now);
    assert!(disk.persisted.iter().all(|c| c.file_path.iter().all(|b| b.index != 1)));
    assert!(disk
        .persisted
        .iter()
        .all(|c| !c.moved_path.contains(&"/opt/app/updater".to_string())));
    assert!(trace.contains(&Action::ReplaceSelf {
        target: "/opt/app/updater".to_string(),
        staged: "/opt/app/update_temp/hu".to_string(),
        retired: Some("/opt/app/update_temp/updater_old".to_string()),
    }));
    let watch = trace.iter().position(|a| matches!(a, Action::ReplaceSelf { .. })).unwrap();
    let commit = trace.iter().position(|a| *a == Action::Commit).unwrap();
    assert!(watch < commit);
    assert_eq!(updater.config.status, RunningState::Finish);
    assert_eq!(disk.files.get("/opt/app/updater").map(String::as_str), Some("new updater"));
    assert_eq!(disk.progress, vec![(1, 2), (2, 2)]);
}

#[test]
fn running_executable_is_compared_as_a_path() {
    let mut disk = world(
        &[("/opt/app/updater", "old updater"), ("/opt/app/update_temp/hu", "new updater")],
        Some(manifest(&[("updater", "hu")], &[])),
    );
    let env = Environment { current_exe: Some("/opt/app//updater".to_string()), ..request() };
    let mut updater = Updater::launch(env, None);
    let trace = drive(&mut updater, &mut disk);
    assert!(moves(&trace).is_empty());
    assert!(copies(&trace).is_empty());
    assert!(trace.iter().any(|a| matches!(a, Action::ReplaceSelf { .. })));
}

#[test]
fn resumed_update_copies_over_the_running_executable() {
    let mut disk = world(
        &[("/opt/app/updater", "old updater"), ("/opt/app/update_temp/hu", "new updater")],
        Some(manifest(&[("updater", "hu")], &[])),
    );
    let found = checkpoint(RunningState::Updating, &[], &[]);
    let mut updater = Updater::launch(no_request(), Some(found));
    let trace = drive(&mut updater, &mut disk);
    assert!(!updater.flags.need_update_myself);
    assert_eq!(copies(&trace), vec!["/opt/app/updater".to_string()]);
    assert_eq!(updater.config.moved_path, vec!["/opt/app/updater".to_string()]);
}

#[test]
fn unknown_running_executable_fails_staging_after_the_backup_directory() {
    let mut disk = world(
        &[("/opt/app/a.bin", "old a"), ("/opt/app/update_temp/ha", "new a")],
        Some(manifest(&[("a.bin", "ha")], &[])),
    );
    let env = Environment { current_exe: None, ..request() };
    let mut updater = Updater::launch(env, None);
    let trace = drive(&mut updater, &mut disk);
    assert!(trace.contains(&Action::CreateBackupDir { dir: BACKUPS.to_string() }));
    assert!(!trace.iter().any(|a| matches!(a, Action::CreateParentDir { .. })));
    assert!(moves(&trace).is_empty());
    assert_eq!(updater.config.status, RunningState::UpdateButNotCheck);
    assert_eq!(trace.last(), Some(&Action::Quit));
}

#[test]
fn unknown_running_executable_rolls_a_resumed_update_back() {
    let mut disk = world(
        &[(slot(0).as_str(), "old a"), ("/opt/app/update_temp/ha", "new a")],
        Some(manifest(&[("a.bin", "ha")], &[])),
    );
    let env = Environment { current_exe: None, ..no_request() };
    let found = checkpoint(RunningState::Updating, &[(0, "/opt/app/a.bin")], &[]);
    let mut updater = Updater::launch(env, Some(found));
    let trace = drive(&mut updater, &mut disk);
    assert!(copies(&trace).is_empty());
    assert_eq!(restores(&trace), vec![(0, "/opt/app/a.bin".to_string())]);
    assert_eq!(updater.config.status, RunningState::Nothing);
    assert_eq!(disk.files.get("/opt/app/a.bin").map(String::as_str), Some("old a"));
}

#[test]
fn nothing_is_done_without_a_request_or_a_checkpoint() {
    let mut updater = Updater::launch(no_request(), None);
    assert_eq!(updater.phase, Phase::Quit);
    assert!(updater.is_over());
    assert_eq!(updater.action(), Action::Quit);
    updater.advance(Reply::Done(true));
    assert_eq!(updater.action(), Action::Quit);
}

#[test]
fn nothing_is_done_for_a_finished_or_idle_checkpoint() {
    for status in [RunningState::Finish, RunningState::Nothing] {
        let found = checkpoint(status, &[(0, "/opt/app/a.bin")], &["/opt/app/a.bin"]);
        let updater = Updater::launch(no_request(), Some(found.clone()));
        assert_eq!(updater.action(), Action::Quit);
        assert_eq!(updater.config, found);
    }
}

#[test]
fn request_with_a_relative_path_does_not_count() {
    let env = Environment { exe_path: Some("app/main".to_string()), ..request() };
    let updater = Updater::launch(env.clone(), None);
    assert_eq!(updater.action(), Action::Quit);
    let found = checkpoint(RunningState::Failed, &[], &[]);
    let updater = Updater::launch(env, Some(found));
    assert_eq!(updater.phase, Phase::OpenForRollback);
}

#[test]
fn request_starts_from_a_new_checkpoint_whatever_was_left() {
    let found = checkpoint(RunningState::Failed, &[(0, "/opt/app/a.bin")], &["/opt/app/a.bin"]);
    let updater = Updater::launch(request(), Some(found));
    assert_eq!(updater.phase, Phase::OpenForUpdate);
    assert!(!updater.skip_check);
    assert_eq!(
        updater.config,
        RunningConfig {
            status: RunningState::UpdateButNotCheck,
            file_path: vec![],
            update_temp_path: String::new(),
            exe_path: EXE.to_string(),
            moved_path: vec![],
        }
    );
    assert!(!updater.flags.need_update_myself);
    assert!(!updater.flags.update_myself_now);
}

#[test]
fn checkpoint_file_that_cannot_be_opened_ends_the_update() {
    let mut disk = world(&[], Some(manifest(&[], &[])));
    disk.checkpoint_opens = false;
    let mut updater = Updater::launch(request(), None);
    assert_eq!(drive(&mut updater, &mut disk), vec![Action::OpenCheckpoint, Action::Quit]);

    let found = checkpoint(RunningState::Failed, &[(0, "/opt/app/a.bin")], &[]);
    let mut updater = Updater::launch(no_request(), Some(found.clone()));
    assert_eq!(drive(&mut updater, &mut disk), vec![Action::OpenCheckpoint, Action::Quit]);
    assert_eq!(updater.config, found);
}

#[test]
fn executable_without_a_directory_ends_the_update() {
    let mut disk = world(&[], Some(manifest(&[], &[])));
    let env = Environment { exe_path: Some("/".to_string()), ..request() };
    let mut updater = Updater::launch(env, None);
    let trace = drive(&mut updater, &mut disk);
    assert_eq!(trace, vec![Action::OpenCheckpoint, Action::Persist, Action::Quit]);
}

#[test]
fn unreadable_manifest_records_nothing_and_ends() {
    let mut disk = world(&[("/opt/app/a.bin", "old a")], None);
    let mut updater = Updater::launch(request(), None);
    let trace = drive(&mut updater, &mut disk);
    assert_eq!(
        trace,
        vec![
            Action::OpenCheckpoint,
            Action::Persist,
            Action::Persist,
            Action::LoadManifest { path: "/opt/app/update_temp/update-config.json".to_string() },
            Action::Persist,
            Action::Quit,
        ]
    );
    assert_eq!(disk.persisted.last().unwrap().status, RunningState::Nothing);
}

#[test]
fn reply_of_the_wrong_kind_counts_as_no_manifest() {
    let mut updater = Updater::launch(request(), None);
    updater.advance(Reply::Done(true));
    updater.advance(Reply::Done(true));
    updater.advance(Reply::Done(true));
    assert_eq!(updater.phase, Phase::ReadManifest);
    updater.advance(Reply::Done(true));
    assert_eq!(updater.phase, Phase::RecordNoManifest);
    assert_eq!(updater.config.status, RunningState::Nothing);
}

#[test]
fn manifest_in_place_of_a_result_counts_as_failure() {
    let mut updater = Updater::launch(request(), None);
    updater.advance(Reply::Manifest(Some(manifest(&[], &[]))));
    assert_eq!(updater.phase, Phase::Quit);
}

#[test]
fn application_that_keeps_running_aborts_the_update() {
    let mut disk = world(
        &[("/opt/app/a.bin", "old a"), ("/opt/app/update_temp/ha", "new a")],
        Some(manifest(&[("a.bin", "ha")], &[])),
    );
    disk.target_ends = false;
    let before = disk.files.clone();
    let mut updater = Updater::launch(request(), None);
    let trace = drive(&mut updater, &mut disk);
    assert_eq!(trace.last(), Some(&Action::Abort));
    assert_eq!(trace[trace.len() - 2], Action::EndTarget { exe: EXE.to_string() });
    assert!(trace.iter().all(|a| !touches_files(a)));
    assert_eq!(disk.files, before);
    assert_eq!(updater.phase, Phase::Abort);
    updater.advance(Reply::Done(true));
    assert_eq!(updater.action(), Action::Abort);
}

#[test]
fn staging_directory_from_the_environment_is_used_and_kept() {
    let mut disk = world(
        &[("/var/stage/ha", "new a")],
        Some(manifest(&[("a.bin", "ha")], &[])),
    );
    let env = Environment {
        update_temp_path: Some("/var/stage".to_string()),
        update_config_file_name: Some("files.json".to_string()),
        ..request()
    };
    let mut updater = Updater::launch(env, None);
    let trace = drive(&mut updater, &mut disk);
    assert!(trace.contains(&Action::LoadManifest { path: "/var/stage/files.json".to_string() }));
    assert!(trace.contains(&Action::CopyFile {
        source: "/var/stage/ha".to_string(),
        target: "/opt/app/a.bin".to_string(),
    }));
    assert!(!trace.iter().any(|a| matches!(a, Action::RemoveStaging { .. })));
    assert_eq!(updater.config.update_temp_path, "/var/stage");
    assert_eq!(updater.config.status, RunningState::Finish);
    assert!(disk.files.contains_key("/var/stage/ha"));
    assert_eq!(disk.relaunched, vec![EXE.to_string()]);
}

#[test]
fn staging_directory_from_the_environment_is_removed_when_it_bears_the_default_name() {
    let mut disk = world(
        &[("/var/update_temp/ha", "new a")],
        Some(manifest(&[("a.bin", "ha")], &[])),
    );
    let env = Environment { update_temp_path: Some("/var/update_temp".to_string()), ..request() };
    let mut updater = Updater::launch(env, None);
    let trace = drive(&mut updater, &mut disk);
    assert!(trace.contains(&Action::RemoveStaging { dir: "/var/update_temp".to_string() }));
    assert!(!disk.files.contains_key("/var/update_temp/ha"));
}

#[test]
fn relative_staging_directory_from_the_environment_does_not_count() {
    let mut disk = world(&[], None);
    let env = Environment { update_temp_path: Some("stage".to_string()), ..request() };
    let mut updater = Updater::launch(env, None);
    let trace = drive(&mut updater, &mut disk);
    assert!(trace.contains(&Action::LoadManifest {
        path: "/opt/app/update_temp/update-config.json".to_string()
    }));
}

#[test]
fn empty_manifest_finishes_without_touching_a_target() {
    let mut disk = world(&[("/opt/app/a.bin", "old a")], Some(manifest(&[], &[])));
    let mut updater = Updater::launch(request(), None);
    let trace = drive(&mut updater, &mut disk);
    assert!(moves(&trace).is_empty());
    assert!(copies(&trace).is_empty());
    assert!(disk.progress.is_empty());
    assert_eq!(updater.config.status, RunningState::Finish);
    assert_eq!(disk.files.get("/opt/app/a.bin").map(String::as_str), Some("old a"));
}

#[test]
fn entries_are_numbered_through_added_and_changed() {
    let mut disk = world(
        &[
            ("/opt/app/b.bin", "old b"),
            ("/opt/app/c.bin", "old c"),
            ("/opt/app/update_temp/ha", "new a"),
            ("/opt/app/update_temp/hb", "new b"),
            ("/opt/app/update_temp/hc", "new c"),
        ],
        Some(manifest(&[("a.bin", "ha")], &[("b.bin", "hb"), ("c.bin", "hc")])),
    );
    let mut updater = Updater::launch(request(), None);
    let trace = drive(&mut updater, &mut disk);
    assert_eq!(
        moves(&trace),
        vec![(1, "/opt/app/b.bin".to_string()), (2, "/opt/app/c.bin".to_string())]
    );
    assert_eq!(disk.progress, vec![(1, 3), (2, 3), (3, 3)]);
    assert_eq!(
        updater.config.moved_path,
        vec![
            "/opt/app/a.bin".to_string(),
            "/opt/app/b.bin".to_string(),
            "/opt/app/c.bin".to_string(),
        ]
    );
}
