//! The limits, names and locks of the ownership catalogs.

use pi_coding::workflow::store::{ChainStep, ComponentKind};
use pi_coding::workflow_worktree::catalog::{
    acquire_repo_lock, catalog_chain_step, check_catalog_read, check_catalog_write,
    fresh_catalog_name, lock_file_fits, lock_is_stale, lock_token_matches, new_lock_record,
    process_is_alive, reject_catalog_links, signal_target, temporary_catalog_name, LockAttempt,
    LockProbe, LockStep, ProcessLockStep, ProcessRepoLocks, SignalReply, CATALOG_MAX_BYTES,
    LOCK_FILE_MAX_BYTES, REPO_LOCK_TIMEOUT_MS, STALE_REPO_LOCK_AGE_MS,
};
use pi_coding::workflow_worktree::manager::WorkflowWorktreeManager;
use pi_coding::workflow_worktree::overlay::{
    check_overlay_catalog_read, check_overlay_catalog_write, OverlayBackend, OverlayCatalogEntry,
    OverlayWorkflowManager,
};
use pi_coding::workflow_worktree::{RepoDiscovery, WorkflowWorktreeIdentity, WorktreeError};

fn probe(is_file: bool, age_ms: u64, alive: bool) -> LockProbe {
    LockProbe {
        is_file: Some(is_file),
        age_ms: Some(age_ms),
        record: Some(new_lock_record(1, 0)),
        alive,
    }
}

#[test]
fn only_old_orphaned_files_are_stale_locks() {
    let old = STALE_REPO_LOCK_AGE_MS;
    assert!(lock_is_stale(&probe(true, old, false)));
    assert!(!lock_is_stale(&probe(true, old, true)));
    assert!(!lock_is_stale(&probe(true, old - 1, false)));
    assert!(!lock_is_stale(&probe(false, old, false)));
    let unknown = LockProbe { is_file: Some(true), age_ms: Some(old), record: None, alive: true };
    assert!(lock_is_stale(&unknown));
}

#[test]
fn only_a_definite_absence_is_death() {
    assert!(process_is_alive(5, SignalReply::Delivered));
    assert!(process_is_alive(5, SignalReply::NotPermitted));
    assert!(process_is_alive(5, SignalReply::OtherFailure));
    assert!(!process_is_alive(5, SignalReply::NoSuchProcess));
    assert!(process_is_alive(u32::MAX, SignalReply::NoSuchProcess));
    assert_eq!(signal_target(5), Some(5));
    assert_eq!(signal_target(u32::MAX), None);
}

#[test]
fn a_lock_is_retried_until_its_time_is_up() {
    assert!(matches!(acquire_repo_lock(&LockAttempt::Written, 0), LockStep::Acquired));
    let broken = LockAttempt::Held { stale: true, removed: true };
    assert!(matches!(acquire_repo_lock(&broken, 0), LockStep::Retry));
    let held = LockAttempt::Held { stale: false, removed: false };
    assert!(matches!(acquire_repo_lock(&held, REPO_LOCK_TIMEOUT_MS - 1), LockStep::Sleep));
    assert!(matches!(acquire_repo_lock(&held, REPO_LOCK_TIMEOUT_MS), LockStep::GiveUp(_)));
    let unwritten = LockAttempt::WriteFailed("disk".to_owned());
    assert!(matches!(acquire_repo_lock(&unwritten, 0), LockStep::Discard(_)));
    let refused = LockAttempt::Failed("denied".to_owned());
    assert!(matches!(acquire_repo_lock(&refused, 0), LockStep::GiveUp(_)));
}

#[test]
fn repositories_do_not_block_each_other() {
    let mut locks = ProcessRepoLocks::new();
    assert!(matches!(locks.acquire_process_lock("a", 0), ProcessLockStep::Acquired));
    assert!(matches!(locks.acquire_process_lock("a/", 0), ProcessLockStep::Wait(_)));
    assert!(matches!(locks.acquire_process_lock("b", 0), ProcessLockStep::Acquired));
    assert!(matches!(
        locks.acquire_process_lock("a", 10),
        ProcessLockStep::Wait(left) if left == REPO_LOCK_TIMEOUT_MS - 10
    ));
    assert!(matches!(
        locks.acquire_process_lock("a", REPO_LOCK_TIMEOUT_MS),
        ProcessLockStep::TimedOut(_)
    ));
    locks.release("a");
    assert!(matches!(locks.acquire_process_lock("a", 0), ProcessLockStep::Acquired));
}

#[test]
fn tokens_are_fresh_and_checked() {
    let first = new_lock_record(7, 9);
    let second = new_lock_record(7, 9);
    assert_eq!((first.pid, first.created_at_ms), (7, 9));
    assert_eq!(first.token.len(), 32);
    assert!(first.token.chars().all(|c| c.is_ascii_digit() || ('a'..='f').contains(&c)));
    assert_ne!(first.token, second.token);
    assert!(!lock_token_matches(&None, &second.token));
    let token = first.token.clone();
    let record = Some(first);
    assert!(lock_token_matches(&record, &token));
    assert!(!lock_token_matches(&record, &second.token));
}

#[test]
fn oversized_files_are_refused() {
    let max = CATALOG_MAX_BYTES;
    assert!(check_catalog_read(max, max).is_ok());
    assert!(check_catalog_read(max + 1, 0).is_err());
    assert!(check_catalog_read(0, max + 1).is_err());
    assert!(check_catalog_write(max).is_ok());
    assert!(check_catalog_write(max + 1).is_err());
    assert!(check_overlay_catalog_read(max, max).is_ok());
    assert!(check_overlay_catalog_read(0, max + 1).is_err());
    assert!(check_overlay_catalog_write(max + 1).is_err());
    assert!(lock_file_fits(LOCK_FILE_MAX_BYTES, 0));
    assert!(!lock_file_fits(0, LOCK_FILE_MAX_BYTES + 1));
}

#[test]
fn links_in_the_way_are_refused() {
    assert_eq!(
        catalog_chain_step(&ComponentKind::Directory).ok(),
        Some(ChainStep::Descend)
    );
    assert_eq!(catalog_chain_step(&ComponentKind::Missing).ok(), Some(ChainStep::Create));
    assert!(matches!(
        catalog_chain_step(&ComponentKind::Symlink),
        Err(WorktreeError::Symlink)
    ));
    assert!(matches!(catalog_chain_step(&ComponentKind::Other), Err(WorktreeError::Other(_))));
    let clean = vec![ComponentKind::Directory, ComponentKind::Missing, ComponentKind::Symlink];
    assert!(reject_catalog_links(&clean).is_ok(), "nothing lies below what is missing");
    let linked = vec![ComponentKind::Directory, ComponentKind::Symlink];
    assert!(matches!(reject_catalog_links(&linked), Err(WorktreeError::Symlink)));
}

#[test]
fn catalogs_have_their_places_and_temporary_names() {
    let d = RepoDiscovery {
        repo_root: "/r".to_owned(),
        common_git_dir: "/r/.git".to_owned(),
        git_dir: "/r/.git".to_owned(),
        head_commit: "c".to_owned(),
    };
    let manager = WorkflowWorktreeManager::new("/r");
    assert_eq!(manager.catalog_path(&d), "/r/.git/pi-workflow/worktrees.json");
    assert_eq!(manager.with_catalog_path("/c.json").catalog_path(&d), "/c.json");
    let overlay = OverlayWorkflowManager::new("/r", "/m");
    assert_eq!(overlay.catalog_path(), "/m/pi-workflow/overlay-workflows.json");
    assert_eq!(overlay.lock_dir(), "/m/pi-workflow");
    assert_eq!((overlay.source_cwd(), overlay.managed_root()), ("/r", "/m"));
    let name = Some("worktrees.json".to_owned());
    let fixed = temporary_catalog_name(&name, "t0");
    assert!(fixed.contains("worktrees.json") && fixed.contains("t0"));
    assert_ne!(fresh_catalog_name(&name), fresh_catalog_name(&name));
}

#[test]
fn layers_lie_beside_the_merged_view() {
    let identity = WorkflowWorktreeIdentity {
        workflow_id: "wf".to_owned(),
        source_root: "/src".to_owned(),
        common_git_dir: "/m".to_owned(),
        worktree_path: "/m/overlay-workflows/wf/merged".to_owned(),
        branch: "rpi/overlay/wf".to_owned(),
        base_commit: "c".to_owned(),
        head_commit: "c".to_owned(),
        created_at_ms: 1,
    };
    let entry = OverlayCatalogEntry::from_identity(&identity, OverlayBackend::Kernel);
    assert_eq!(entry.upper_path(), "/m/overlay-workflows/wf/upper");
    assert_eq!(entry.work_path(), "/m/overlay-workflows/wf/work");
    let layers = entry.layers();
    assert_eq!(layers.source, "/src");
    assert_eq!(layers.merged, identity.worktree_path);
    let other = OverlayCatalogEntry::from_identity(&identity, OverlayBackend::Rcopy);
    assert!(!entry.same_as(&other));
    assert!(identity.same_as(&entry.identity()));
    let mut respelled = identity.clone();
    respelled.worktree_path = "/m//overlay-workflows/wf/./merged/".to_owned();
    assert!(identity.same_as(&respelled) && identity == respelled);
    assert!(entry == OverlayCatalogEntry::from_identity(&respelled, OverlayBackend::Kernel));
    respelled.branch = "rpi/overlay/wf/".to_owned();
    assert!(identity != respelled, "only paths go by their components");
    let mut elsewhere = identity.clone();
    elsewhere.source_root = "src".to_owned();
    assert!(identity != elsewhere);
}
