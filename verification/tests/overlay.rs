//! Overlay and in-place isolation, driven over trees kept in memory, and the
//! namespaces of repositories and sessions.

use pi_coding::workflow_worktree::isolation::WorkflowIsolation;
use pi_coding::workflow_worktree::manager::WorkflowWorktreeManager;
use pi_coding::workflow_worktree::namespace::encode_session_id;
use pi_coding::workflow_worktree::noop::NoopWorkflowIsolation;
use pi_coding::workflow_worktree::overlay::{
    default_backend_candidates, sync_tree_excluding, EntryKind, OverlayBackend, OverlayCatalog,
    OverlayCatalogEntry, OverlayWorkflowManager, SyncAction, TreeEntry, OVERLAY_BRANCH_PREFIX,
};
use pi_coding::workflow_worktree::steps::{Ancestry, WorktreeFacts, WorktreeStep, WorktreeWork};
use pi_coding::workflow_worktree::{
    CreateWorktreeOptions, IntegrateOptions, IntegrateOutcome, RepoDiscovery,
    WorkflowIsolationSetting, WorkflowWorktreeIdentity, WorktreeError,
};
use std::collections::{BTreeMap, BTreeSet};

struct World {
    git: bool,
    head: String,
    heads: Vec<String>,
    working: Vec<OverlayBackend>,
    mounted: BTreeSet<String>,
    standing: BTreeSet<String>,
    catalog: BTreeMap<String, OverlayCatalogEntry>,
    log: Vec<String>,
    dirty: bool,
    clock: u64,
}

impl World {
    fn new(git: bool) -> World {
        World {
            git,
            head: "c1".to_owned(),
            heads: vec!["c1".to_owned()],
            working: vec![OverlayBackend::FuseOverlayfs, OverlayBackend::Rcopy],
            mounted: BTreeSet::new(),
            standing: BTreeSet::new(),
            catalog: BTreeMap::new(),
            log: Vec::new(),
            dirty: false,
            clock: 0,
        }
    }

    fn advance(&mut self, head: &str) {
        self.head = head.to_owned();
        self.heads.push(head.to_owned());
    }

    fn load(&self) -> OverlayCatalog {
        let mut catalog = OverlayCatalog::new();
        for (id, entry) in &self.catalog {
            catalog.insert(
                id.clone(),
                OverlayCatalogEntry::from_identity(&entry.identity(), entry.backend),
            );
        }
        catalog
    }

    fn perform(&mut self, work: WorktreeWork, f: &mut WorktreeFacts) {
        match work {
            WorktreeWork::CanonicalSource(p) => f.canonical_source = Some(Ok(p)),
            WorktreeWork::PrepareManagedRoot(p) => f.managed_root = Some(Ok(p)),
            WorktreeWork::PrepareExpectedRoot(p) => f.expected_root = Some(Ok(p)),
            WorktreeWork::CheckOutside { .. } => f.outside = Some(Ok(())),
            WorktreeWork::Discover(path) => {
                f.discovery = Some(if self.git {
                    Ok(RepoDiscovery {
                        repo_root: path.clone(),
                        common_git_dir: format!("{path}/.git"),
                        git_dir: format!("{path}/.git"),
                        head_commit: "c1".to_owned(),
                    })
                } else {
                    Err(WorktreeError::NotGit)
                });
            }
            WorktreeWork::ProbeLocation(p) => f.occupied = Some(self.standing.contains(&p)),
            WorktreeWork::PrepareOverlayDir(_) => f.overlay_dir = Some(Ok(())),
            WorktreeWork::PrepareCatalogDir(_) => f.catalog_dir = Some(Ok(())),
            WorktreeWork::StartOverlay { layers, backends } => {
                let found = backends.iter().find(|b| self.working.contains(b)).copied();
                if found.is_some() {
                    self.mounted.insert(layers.merged.clone());
                    self.standing.insert(layers.merged);
                }
                f.overlay_started = Some(found.ok_or_else(|| "no backend".to_owned()));
            }
            WorktreeWork::ReadHead(_) => f.head = Some(Ok(self.head.clone())),
            WorktreeWork::Now => {
                self.clock += 1;
                f.now_ms = Some(self.clock);
            }
            WorktreeWork::Lock(dir) => {
                self.log.push(format!("lock {dir}"));
                f.lock = Some(Ok(()));
            }
            WorktreeWork::LoadOverlayCatalog => f.overlay_catalog = Some(Ok(self.load())),
            WorktreeWork::ReloadOverlayCatalog => f.fresh_overlay_catalog = Some(Ok(self.load())),
            WorktreeWork::SaveOverlayCatalog(c) => {
                self.catalog = (0..c.len())
                    .map(|i| {
                        let entry = c.value(i);
                        let copy =
                            OverlayCatalogEntry::from_identity(&entry.identity(), entry.backend);
                        (c.key(i).to_owned(), copy)
                    })
                    .collect();
                f.saved = Some(Ok(()));
            }
            WorktreeWork::ProbeCheckout(p) => f.present = Some(self.standing.contains(&p)),
            WorktreeWork::ProbeMount { layers, .. } => {
                f.mounted = Some(self.mounted.contains(&layers.merged));
            }
            WorktreeWork::Remount { layers, backend } => {
                self.log.push(format!("remount {backend:?}"));
                f.remounted = Some(if self.working.contains(&backend) {
                    self.mounted.insert(layers.merged);
                    Ok(())
                } else {
                    Err("mount refused".to_owned())
                });
            }
            WorktreeWork::ProbeGit(_) => f.has_git = Some(self.git),
            WorktreeWork::CheckAncestry { ancestor, descendant, .. } => {
                let at = |c: &String| self.heads.iter().position(|h| h == c);
                let is = at(&ancestor) <= at(&descendant);
                f.ancestry = Some(Ok(if is { Ancestry::Ancestor } else { Ancestry::NotAncestor }));
            }
            WorktreeWork::ProbeDirty(_) => f.dirty = Some(Ok(self.dirty)),
            WorktreeWork::ProbeSourceDirty(_) => f.source_dirty = Some(Ok(false)),
            WorktreeWork::SyncBack { from, to } => {
                self.log.push(format!("sync {from} to {to}"));
                f.synced = Some(Ok(()));
            }
            WorktreeWork::ProbeSourceChanged(_) => f.source_changed = Some(Ok(true)),
            WorktreeWork::StageAll(_) => f.staged = Some(Ok(())),
            WorktreeWork::CommitAll { message, .. } => {
                self.log.push(message);
                f.committed = Some(Ok(()));
            }
            WorktreeWork::ReadSourceHead(_) => f.source_head = Some(Ok("merged".to_owned())),
            WorktreeWork::CanonicalManaged(p) => f.canonical_managed = Some(Ok(p)),
            WorktreeWork::StopOverlay { layers, .. } => {
                self.mounted.remove(&layers.merged);
                f.stopped = Some(Ok(()));
            }
            WorktreeWork::RemoveMerged(p) => {
                self.standing.remove(&p);
                f.merged_removed = Some(Ok(()));
            }
            WorktreeWork::RemoveOverlayDir(p) => {
                self.log.push(format!("remove {p}"));
                f.dir_removed = Some(Ok(()));
            }
            WorktreeWork::ProbeMerged(p) => f.overlay_entries.push(self.standing.contains(&p)),
            WorktreeWork::CountAhead { .. } => f.ahead = Some(Ok(2)),
            WorktreeWork::ListChanged { .. } => f.changed = Some(Ok(vec!["a.txt".to_owned()])),
            _ => panic!("no other work is asked for"),
        }
    }

    fn run<T>(
        &mut self,
        operation: impl Fn(&WorktreeFacts) -> WorktreeStep<T>,
    ) -> Result<T, WorktreeError> {
        let mut facts = WorktreeFacts::new();
        for _ in 0..200 {
            match operation(&facts) {
                WorktreeStep::Need(work) => self.perform(work, &mut facts),
                WorktreeStep::Fail(error) => return Err(error),
                WorktreeStep::Done(value) => return Ok(value),
            }
        }
        panic!("the operation does not end");
    }
}

fn done<T>(outcome: Result<T, WorktreeError>) -> T {
    match outcome {
        Ok(value) => value,
        Err(error) => panic!("{}", error.message()),
    }
}

fn message<T>(outcome: Result<T, WorktreeError>) -> String {
    match outcome {
        Ok(_) => panic!("the operation must fail"),
        Err(error) => error.message(),
    }
}

fn overlay() -> OverlayWorkflowManager {
    OverlayWorkflowManager::new("/sandbox/source", "/sandbox/managed")
}

fn options() -> CreateWorktreeOptions {
    CreateWorktreeOptions {
        managed_root: "/sandbox/managed".to_owned(),
        base_commit: None,
        timeout_ms: None,
    }
}

fn names(of: &[&str]) -> Vec<String> {
    of.iter().map(|n| (*n).to_owned()).collect()
}

#[test]
fn sync_tree_excluding_mirrors_source_and_preserves_excluded_and_deletes() {
    let entry = |name: &str, kind: EntryKind| TreeEntry { name: name.to_owned(), kind };
    let src = vec![entry("keep.txt", EntryKind::File), entry("sub", EntryKind::Directory)];
    let dst = vec![
        entry("keep.txt", EntryKind::File),
        entry("stale.txt", EntryKind::File),
        entry(".git", EntryKind::File),
    ];
    let plan = sync_tree_excluding(&src, &dst, &names(&[".git"]));
    assert!(plan.contains(&SyncAction::Copy("keep.txt".to_owned())));
    assert!(plan.contains(&SyncAction::Descend("sub".to_owned())));
    assert!(
        plan.contains(&SyncAction::Remove("stale.txt".to_owned())),
        "stale entries must be removed"
    );
    assert!(
        plan.iter().all(|step| !format!("{step:?}").contains(".git")),
        "excluded top-level entries must survive the sync"
    );
    let made = plan.iter().position(|s| *s == SyncAction::MakeDirectory("sub".to_owned()));
    let entered = plan.iter().position(|s| *s == SyncAction::Descend("sub".to_owned()));
    assert!(made.is_some() && made < entered);

    let deep = sync_tree_excluding(&vec![entry("deep.txt", EntryKind::File)], &Vec::new(), &Vec::new());
    assert_eq!(deep, vec![SyncAction::Copy("deep.txt".to_owned())]);
    let link = sync_tree_excluding(&vec![entry("link", EntryKind::Symlink)], &Vec::new(), &Vec::new());
    assert_eq!(link, vec![SyncAction::Relink("link".to_owned())]);
}

#[test]
fn a_sync_removes_what_is_of_another_kind_first() {
    let kinds = [EntryKind::Directory, EntryKind::Symlink, EntryKind::File];
    for from in kinds {
        for to in kinds {
            let plan = sync_tree_excluding(
                &vec![TreeEntry { name: "x".to_owned(), kind: from }],
                &vec![TreeEntry { name: "x".to_owned(), kind: to }],
                &Vec::new(),
            );
            let x = || "x".to_owned();
            let mut wanted = match from {
                EntryKind::Directory if to == from => vec![SyncAction::Descend(x())],
                EntryKind::Directory => vec![SyncAction::MakeDirectory(x()), SyncAction::Descend(x())],
                EntryKind::Symlink => vec![SyncAction::Relink(x())],
                EntryKind::File => vec![SyncAction::Copy(x())],
            };
            if to != from {
                wanted.insert(0, SyncAction::Remove(x()));
            }
            assert_eq!(plan, wanted, "{from:?} over {to:?}");
        }
    }
}

/// A tree of files with their contents, links with their targets and directories.
#[derive(Clone, Debug, PartialEq)]
enum Node {
    Directory(BTreeMap<String, Node>),
    Symlink(String),
    File(String),
}

fn listing(tree: &BTreeMap<String, Node>) -> Vec<TreeEntry> {
    tree.iter()
        .map(|(name, node)| TreeEntry {
            name: name.clone(),
            kind: match node {
                Node::Directory(_) => EntryKind::Directory,
                Node::Symlink(_) => EntryKind::Symlink,
                Node::File(_) => EntryKind::File,
            },
        })
        .collect()
}

fn sync(src: &BTreeMap<String, Node>, dst: &mut BTreeMap<String, Node>, excluded: &[&str]) {
    for step in sync_tree_excluding(&listing(src), &listing(dst), &names(excluded)) {
        match step {
            SyncAction::Remove(n) => assert!(dst.remove(&n).is_some()),
            SyncAction::MakeDirectory(n) => {
                assert!(dst.insert(n, Node::Directory(BTreeMap::new())).is_none())
            }
            SyncAction::Descend(n) => match (&src[&n], dst.get_mut(&n)) {
                (Node::Directory(from), Some(Node::Directory(to))) => sync(from, to, &[]),
                other => panic!("no directory to enter: {other:?}"),
            },
            SyncAction::Relink(n) => {
                assert!(!matches!(dst.get(&n), Some(Node::Directory(_) | Node::File(_))));
                dst.insert(n.clone(), src[&n].clone());
            }
            SyncAction::Copy(n) => {
                assert!(!matches!(dst.get(&n), Some(Node::Directory(_) | Node::Symlink(_))));
                dst.insert(n.clone(), src[&n].clone());
            }
        }
    }
}

#[test]
fn a_sync_makes_an_exact_copy_at_every_depth() {
    let tree = |items: &[(&str, Node)]| -> BTreeMap<String, Node> {
        items.iter().map(|(n, node)| (n.to_string(), node.clone())).collect()
    };
    let file = |s: &str| Node::File(s.to_owned());
    let link = |s: &str| Node::Symlink(s.to_owned());
    let src = tree(&[
        ("a", file("new")),
        ("b", Node::Directory(tree(&[("deep", file("1")), ("l", link("deep"))]))),
        ("c", link("/elsewhere")),
        ("d", Node::Directory(tree(&[]))),
        (".git", file("of the copy")),
    ]);
    let mut dst = tree(&[
        ("a", link("/outside")),
        ("b", link("/outside")),
        ("c", Node::Directory(tree(&[("x", file("x"))]))),
        ("d", Node::Directory(tree(&[("stale", file("s"))]))),
        ("gone", file("g")),
        (".git", file("protected")),
    ]);
    sync(&src, &mut dst, &[".git"]);
    let mut wanted = src.clone();
    wanted.insert(".git".to_owned(), file("protected"));
    assert_eq!(dst, wanted);
}

#[test]
fn overlay_catalog_round_trips_backends_and_identities() {
    let identity = WorkflowWorktreeIdentity {
        workflow_id: "wf-1".to_owned(),
        source_root: "/sandbox/source".to_owned(),
        common_git_dir: "/sandbox/managed".to_owned(),
        worktree_path: "/sandbox/managed/merged".to_owned(),
        branch: format!("{OVERLAY_BRANCH_PREFIX}wf-1"),
        base_commit: "abc".to_owned(),
        head_commit: "abc".to_owned(),
        created_at_ms: 42,
    };
    let mut catalog = OverlayCatalog::new();
    catalog.insert(
        "wf-1".to_owned(),
        OverlayCatalogEntry::from_identity(&identity, OverlayBackend::Kernel),
    );
    let entry = catalog.get("wf-1").expect("entry");
    assert!(entry.identity() == identity);
    assert_eq!(entry.backend, OverlayBackend::Kernel);
}

#[test]
fn noop_identity_is_deterministic_and_matches_verify() {
    let mut world = World::new(false);
    let source = "/sandbox/source";
    let noop = NoopWorkflowIsolation::new(source);
    let first = done(world.run(|f| noop.identity("wf-det", f)));
    let second = done(world.run(|f| noop.identity("wf-det", f)));
    assert!(first == second, "noop identities must be fully deterministic");
    assert_eq!(first.worktree_path, source);
    assert_eq!(first.branch, "rpi/none/wf-det");
    assert_eq!(noop.kind(), WorkflowIsolationSetting::NoIsolation);
    done(world.run(|f| noop.verify_owned(&first, f)));
    let (current, cwd) = done(world.run(|f| noop.verify_owned_current("wf-det", f)));
    assert!(current == first);
    assert_eq!(cwd.path(), source);
}

#[test]
fn an_overlay_takes_the_first_backend_that_works() {
    assert_eq!(
        default_backend_candidates(),
        [OverlayBackend::Kernel, OverlayBackend::FuseOverlayfs, OverlayBackend::Rcopy]
    );
    let mut world = World::new(true);
    let manager = overlay();
    let identity = done(world.run(|f| manager.create("wf", &options(), f)));
    assert_eq!(identity.worktree_path, "/sandbox/managed/overlay-workflows/wf/merged");
    assert_eq!(identity.branch, "rpi/overlay/wf");
    assert_eq!(identity.base_commit, "c1");
    assert_eq!(world.catalog["wf"].backend, OverlayBackend::FuseOverlayfs);
    assert_eq!(manager.kind(), WorkflowIsolationSetting::Overlayfs);

    let narrow = overlay().with_backend_candidates(vec![OverlayBackend::Kernel]);
    assert_eq!(
        message(world.run(|f| narrow.create("other", &options(), f))),
        "worktree operation failed: workflow overlay isolation failed: no backend"
    );
    assert!(!world.catalog.contains_key("other"));
}

#[test]
fn an_overlay_outside_a_repository_has_no_commits() {
    let mut world = World::new(false);
    let manager = overlay();
    let identity = done(world.run(|f| manager.create("wf", &options(), f)));
    assert_eq!(identity.base_commit, "none");
    assert_eq!(identity.head_commit, "none");
    let status = done(world.run(|f| manager.inspect("wf", f)));
    assert!(!status.dirty && status.ahead_commits == 0 && status.changed_files.is_empty());
}

#[test]
fn a_lost_mount_is_made_again_with_the_recorded_backend() {
    let mut world = World::new(true);
    let manager = overlay();
    let identity = done(world.run(|f| manager.create("wf", &options(), f)));
    world.mounted.clear();
    let cwd = done(world.run(|f| manager.verify_owned(&identity, f)));
    assert_eq!(cwd.path(), identity.worktree_path);
    assert!(world.log.contains(&"remount FuseOverlayfs".to_owned()));

    world.mounted.clear();
    world.working.clear();
    assert_eq!(
        message(world.run(|f| manager.verify_owned(&identity, f))),
        "worktree operation failed: re-establishing workflow overlay mount: mount refused"
    );
}

#[test]
fn a_lost_copy_is_not_made_again() {
    let mut world = World::new(true);
    let manager = overlay().with_backend_candidates(vec![OverlayBackend::Rcopy]);
    let identity = done(world.run(|f| manager.create("wf", &options(), f)));
    world.standing.clear();
    assert!(message(world.run(|f| manager.verify_owned(&identity, f)))
        .ends_with("recorded merged working copy is missing"));
}

#[test]
fn an_overlay_adopts_progress_but_no_rewind() {
    let mut world = World::new(true);
    let manager = overlay();
    let original = done(world.run(|f| manager.create("wf", &options(), f)));
    world.advance("c2");
    let (refreshed, _) = done(world.run(|f| manager.verify_owned_current("wf", f)));
    assert_eq!(refreshed.head_commit, "c2");
    assert!(world.run(|f| manager.verify_owned(&refreshed, f)).is_ok());
    assert!(message(world.run(|f| manager.verify_owned(&original, f)))
        .ends_with("provided identity does not exactly match the ownership catalog"));
    world.head = "c1".to_owned();
    assert!(message(world.run(|f| manager.verify_owned_current("wf", f)))
        .ends_with("live overlay HEAD rewound or diverged from the recorded history"));
}

#[test]
fn an_overlay_is_copied_back_in_one_commit() {
    let mut world = World::new(true);
    let manager = overlay();
    let identity = done(world.run(|f| manager.create("wf", &options(), f)));
    let integrate = IntegrateOptions::default();
    world.dirty = true;
    assert!(matches!(
        world.run(|f| manager.integrate("wf", &integrate, f)),
        Err(WorktreeError::DirtyWorktree(ref id)) if id == "wf"
    ));
    world.dirty = false;
    let outcome = done(world.run(|f| manager.integrate("wf", &integrate, f)));
    assert!(matches!(
        outcome,
        IntegrateOutcome::Applied { ref result_commit, merge_commit: None, .. }
            if result_commit == "merged"
    ));
    let copied = format!("sync {} to /sandbox/source", identity.worktree_path);
    assert!(world.log.contains(&copied));
    assert!(world.log.contains(&"workflow wf: integrate overlay changes".to_owned()));
}

#[test]
fn an_overlay_is_removed_with_its_directory() {
    let mut world = World::new(true);
    let manager = overlay();
    let keep = done(world.run(|f| manager.create("keep", &options(), f)));
    let gone = done(world.run(|f| manager.create("gone", &options(), f)));
    done(world.run(|f| manager.remove(&gone, f)));
    assert!(!world.standing.contains(&gone.worktree_path));
    assert!(world.log.contains(&"remove /sandbox/managed/overlay-workflows/gone".to_owned()));
    assert!(done(world.run(|f| manager.list(f))) == vec![keep.clone()]);

    world.standing.remove(&keep.worktree_path);
    assert_eq!(done(world.run(|f| manager.prune_stale(f))), ["keep"]);
    assert!(done(world.run(|f| manager.list(f))).is_empty());
}

#[test]
fn another_managed_root_is_refused() {
    let mut world = World::new(true);
    let manager = overlay();
    let mut other = options();
    other.managed_root = "/sandbox/elsewhere".to_owned();
    assert_eq!(
        message(world.run(|f| manager.create("wf", &other, f))),
        "worktree operation failed: managed root does not match the overlay isolation manager's root"
    );
}

#[test]
fn in_place_workflows_have_nothing_to_merge_or_remove() {
    let mut world = World::new(true);
    let noop = NoopWorkflowIsolation::new("/sandbox/source");
    let identity = done(world.run(|f| noop.create("wf", &options(), f)));
    assert!(matches!(
        done(world.run(|f| noop.integrate("wf", &IntegrateOptions::default(), f))),
        IntegrateOutcome::Applied { merge_commit: None, .. }
    ));
    done(world.run(|f| noop.remove(&identity, f)));
    assert!(done(world.run(|f| noop.list(f))).is_empty());
    assert!(done(world.run(|f| noop.prune_stale(f))).is_empty());
    let mut forged = identity.clone();
    forged.worktree_path = "/elsewhere".to_owned();
    assert!(matches!(
        world.run(|f| noop.verify_owned(&forged, f)),
        Err(WorktreeError::OwnershipMismatch { .. })
    ));
}

#[test]
fn sessions_and_repositories_have_their_own_namespaces() {
    let mut world = World::new(true);
    let manager = WorkflowWorktreeManager::new("/sandbox/source");
    let repo = done(world.run(|f| manager.repository_namespace(f)));
    assert_eq!(repo, "afd5c6b394022aca77f1e5bb96f6840b");
    assert_eq!(done(world.run(|f| manager.session_namespace("s1", f))), format!("{repo}/s1"));
    let mut plain = World::new(false);
    assert_eq!(done(plain.run(|f| manager.session_namespace("s1", f))), "s1");

    assert_eq!(encode_session_id(""), "session");
    assert_eq!(encode_session_id("plain-1"), "plain-1");
    assert_eq!(encode_session_id("a/b:c"), "a-b-c-3b07f8");
    assert_eq!(encode_session_id("a:b/c"), "a-b-c-fb7456");
    let uuid = "0190a1b2-c3d4-7e5f-8a9b-0123456789ab";
    assert_eq!(encode_session_id(uuid), uuid);
    let odd = ["", "session", ".", "..", "a-b-c-3b07f8", "a/b:c", "a:b/c", "a-b-c", "-abcdef"];
    for (i, a) in odd.iter().enumerate() {
        let segment = encode_session_id(a);
        assert!(!segment.contains(['/', '\\', ':']) && segment != "." && segment != "..", "{segment}");
        for b in &odd[i + 1..] {
            assert_ne!(segment, encode_session_id(b), "{a} and {b}");
        }
    }
}
