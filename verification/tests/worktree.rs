//! The worktree manager, driven over a repository kept in memory.

use pi_coding::workflow_worktree::catalog::WorktreeCatalog;
use pi_coding::workflow_worktree::manager::WorkflowWorktreeManager;
use pi_coding::workflow_worktree::steps::{
    git_args, Ancestry, EntryProbe, WorktreeFacts, WorktreeStep, WorktreeWork,
};
use pi_coding::workflow_worktree::{
    CreateWorktreeOptions, IntegrateOptions, IntegrateOutcome, IntegrateStrategy, RepoDiscovery,
    TrustedWorkflowCwd, WorkflowWorktreeIdentity, WorkflowWorktreeStatus, WorktreeError,
    WORKFLOW_BRANCH_PREFIX, WORKTREE_ROOT_DIR_NAME,
};
use std::collections::{BTreeMap, BTreeSet};

type Tree = BTreeMap<String, String>;

struct Commit {
    parents: Vec<String>,
    files: Tree,
}

/// A repository with its checkouts, and the directories around it.
struct World {
    repo: String,
    managed: String,
    catalog: Option<Vec<WorkflowWorktreeIdentity>>,
    commits: BTreeMap<String, Commit>,
    branches: BTreeMap<String, String>,
    /// Path of each registered worktree, with its branch.
    worktrees: BTreeMap<String, String>,
    /// What lies in each checkout.
    trees: BTreeMap<String, Tree>,
    directories: BTreeSet<String>,
    links: BTreeSet<String>,
    refused: BTreeSet<&'static str>,
    commands: Vec<Vec<String>>,
    clock: u64,
}

impl World {
    fn new(source_name: &str, managed_name: &str) -> World {
        let repo = format!("/sandbox/{source_name}");
        let mut world = World {
            managed: format!("/sandbox/{managed_name}"),
            catalog: None,
            commits: BTreeMap::new(),
            branches: BTreeMap::new(),
            worktrees: BTreeMap::new(),
            trees: BTreeMap::new(),
            directories: BTreeSet::new(),
            links: BTreeSet::new(),
            refused: BTreeSet::new(),
            commands: Vec::new(),
            clock: 1_700_000_000_000,
            repo: repo.clone(),
        };
        world.worktrees.insert(repo.clone(), "main".to_owned());
        world.trees.insert(repo.clone(), Tree::new());
        world.commit_file(&repo, "README.md", "base\n");
        world
    }

    fn manager(&self) -> WorkflowWorktreeManager {
        WorkflowWorktreeManager::new(&self.repo)
            .with_catalog_path("/sandbox/catalog with spaces.json")
            .with_timeout(30_000)
    }

    fn options(&self) -> CreateWorktreeOptions {
        CreateWorktreeOptions {
            managed_root: self.managed.clone(),
            base_commit: None,
            timeout_ms: Some(30_000),
        }
    }

    fn commit(&mut self, cwd: &str, parents: Vec<String>, files: Tree) -> String {
        let id = format!("{:040x}", self.commits.len() + 1);
        self.commits.insert(id.clone(), Commit { parents, files });
        let branch = self.worktrees[cwd].clone();
        self.branches.insert(branch, id.clone());
        id
    }

    fn commit_file(&mut self, cwd: &str, relative: &str, contents: &str) -> String {
        self.write(cwd, relative, contents);
        let parents = self.branches.get(&self.worktrees[cwd]).cloned().into_iter().collect();
        let files = self.trees[cwd].clone();
        self.commit(cwd, parents, files)
    }

    fn write(&mut self, cwd: &str, relative: &str, contents: &str) {
        let tree = self.trees.get_mut(cwd).expect("checkout");
        tree.insert(relative.to_owned(), contents.to_owned());
    }

    fn reset(&mut self, cwd: &str, commit: &str) {
        let branch = self.worktrees[cwd].clone();
        self.branches.insert(branch, commit.to_owned());
        self.trees.insert(cwd.to_owned(), self.commits[commit].files.clone());
    }

    fn add_worktree(&mut self, path: &str, branch: &str) {
        let files = self.commits[&self.branches[branch]].files.clone();
        self.worktrees.insert(path.to_owned(), branch.to_owned());
        self.trees.insert(path.to_owned(), files);
    }

    fn head(&self, cwd: &str) -> Option<String> {
        self.worktrees.get(cwd).and_then(|branch| self.branches.get(branch)).cloned()
    }

    fn dirty(&self, cwd: &str) -> bool {
        let head = self.head(cwd).expect("head");
        self.trees[cwd] != self.commits[&head].files
    }

    fn stands(&self, path: &str) -> bool {
        self.trees.contains_key(path) || self.directories.contains(path)
    }

    fn ancestors(&self, commit: &str) -> BTreeSet<String> {
        let mut seen = BTreeSet::new();
        let mut left = vec![commit.to_owned()];
        while let Some(id) = left.pop() {
            if seen.insert(id.clone()) {
                left.extend(self.commits[&id].parents.iter().cloned());
            }
        }
        seen
    }

    fn merge(&mut self, identity: &WorkflowWorktreeIdentity, head: &str) -> IntegrateOutcome {
        let repo = self.repo.clone();
        let ours = self.head(&repo).expect("source head");
        let base = self.commits[&identity.base_commit].files.clone();
        let mut merged = self.commits[&ours].files.clone();
        let mut conflicts = Vec::new();
        for (path, theirs) in &self.commits[head].files {
            let (was, is) = (base.get(path), merged.get(path));
            if was == Some(theirs) || is == Some(theirs) {
                continue;
            }
            if was != is {
                conflicts.push(path.clone());
            } else {
                merged.insert(path.clone(), theirs.clone());
            }
        }
        if !conflicts.is_empty() {
            return IntegrateOutcome::Conflicted {
                strategy: IntegrateStrategy::Merge,
                conflicts,
                workflow_id: identity.workflow_id.clone(),
                branch: identity.branch.clone(),
                head_commit: head.to_owned(),
            };
        }
        self.trees.insert(repo.clone(), merged.clone());
        let result = self.commit(&repo, vec![ours, head.to_owned()], merged);
        IntegrateOutcome::Applied {
            strategy: IntegrateStrategy::Merge,
            result_commit: result.clone(),
            merge_commit: Some(result),
        }
    }

    fn load(&self) -> WorktreeCatalog {
        let mut catalog = WorktreeCatalog::new();
        for identity in self.catalog.iter().flatten() {
            catalog.insert(identity.workflow_id.clone(), identity.clone());
        }
        catalog
    }

    fn failed(&self, what: &str) -> WorktreeError {
        WorktreeError::CommandFailed {
            status: 128,
            args: vec![what.to_owned()],
            stderr: "fatal".to_owned(),
        }
    }

    fn canonical(&self, path: String) -> Result<String, WorktreeError> {
        if self.links.contains(&path) {
            Err(WorktreeError::Symlink)
        } else {
            Ok(path)
        }
    }

    fn perform(&mut self, timeout_ms: u64, work: WorktreeWork, f: &mut WorktreeFacts) {
        if let Some(args) = git_args(&work) {
            self.commands.push(args);
        }
        match work {
            WorktreeWork::CanonicalSource(path) => {
                f.canonical_source = Some(self.canonical(path));
            }
            WorktreeWork::Discover(path) => {
                f.discovery = Some(if timeout_ms == 0 {
                    Err(WorktreeError::Timeout {
                        timeout_ms,
                        args: vec!["rev-parse".to_owned(), "--show-toplevel".to_owned()],
                    })
                } else if path != self.repo {
                    Err(WorktreeError::NotGit)
                } else {
                    match self.head(&path) {
                        None => Err(self.failed("rev-parse")),
                        Some(head_commit) => Ok(RepoDiscovery {
                            repo_root: path.clone(),
                            common_git_dir: format!("{path}/.git"),
                            git_dir: format!("{path}/.git"),
                            head_commit,
                        }),
                    }
                });
            }
            WorktreeWork::PrepareManagedRoot(path) => {
                let root = self.canonical(path);
                if let Ok(root) = &root {
                    self.directories.insert(root.clone());
                }
                f.managed_root = Some(root);
            }
            WorktreeWork::CheckOutside { managed, source } => {
                let inside = managed == source || managed.starts_with(&format!("{source}/"));
                f.outside = Some(if inside { Err("nested".to_owned()) } else { Ok(()) });
            }
            WorktreeWork::Lock(_) => f.lock = Some(Ok(())),
            WorktreeWork::LoadCatalog => f.catalog = Some(Ok(self.load())),
            WorktreeWork::ReloadCatalog => f.fresh_catalog = Some(Ok(self.load())),
            WorktreeWork::SaveCatalog(catalog) => {
                let saved = (0..catalog.len()).map(|i| catalog.value(i).clone()).collect();
                self.catalog = Some(saved);
                f.saved = Some(Ok(()));
            }
            WorktreeWork::ResolveCommit(revision) => {
                f.base_commit = Some(match self.branches.get(&revision) {
                    Some(commit) => Ok(commit.clone()),
                    None if self.commits.contains_key(&revision) => Ok(revision),
                    None => Err(self.failed("rev-parse")),
                });
            }
            WorktreeWork::AllocateBranch(id) => {
                let first = format!("{WORKFLOW_BRANCH_PREFIX}{id}");
                let mut name = first.clone();
                let mut n = 1;
                while self.branches.contains_key(&name) {
                    n += 1;
                    name = format!("{first}-{n}");
                }
                f.branch = Some(Ok(name));
            }
            WorktreeWork::ProbeLocation(path) => f.occupied = Some(self.stands(&path)),
            WorktreeWork::MakeParent(path) => {
                let parent = path.rsplit_once('/').expect("parent").0.to_owned();
                self.directories.insert(parent);
                f.parent = Some(Ok(()));
            }
            WorktreeWork::MakeBranch { branch, commit } => {
                self.branches.insert(branch, commit);
                f.branch_made = Some(Ok(()));
            }
            WorktreeWork::AddWorktree { path, branch } => {
                f.worktree_made = Some(if self.refused.contains("add") {
                    Err(self.failed("worktree add"))
                } else {
                    self.add_worktree(&path, &branch);
                    Ok(())
                });
            }
            WorktreeWork::ProbeBranch(branch) => {
                f.branch_left = Some(Ok(self.branches.contains_key(&branch)));
            }
            WorktreeWork::DropBranch(branch) => {
                self.branches.remove(&branch);
                f.branch_dropped = Some(Ok(()));
            }
            WorktreeWork::CanonicalCheckout(path) => f.checkout = Some(self.canonical(path)),
            WorktreeWork::VerifyRegistration { path, branch, commit } => {
                let ok = self.worktrees.get(&path) == Some(&branch)
                    && self.branches.get(&branch) == Some(&commit);
                f.registration = Some(if ok { Ok(()) } else { Err(self.failed("worktree")) });
            }
            WorktreeWork::ReadHead(path) => {
                f.head = Some(self.head(&path).ok_or_else(|| self.failed("rev-parse")));
            }
            WorktreeWork::Now => {
                self.clock += 1;
                f.now_ms = Some(self.clock);
            }
            WorktreeWork::CanonicalCommon(path) => f.canonical_common = Some(self.canonical(path)),
            WorktreeWork::CanonicalRecordedSource(path) => {
                f.recorded_source = Some(self.canonical(path));
            }
            WorktreeWork::VerifyOwnership(identity) => {
                let live = self.worktrees.get(&identity.worktree_path) == Some(&identity.branch);
                f.ownership = Some(if live {
                    Ok(())
                } else {
                    Err(WorktreeError::ownership(&identity.workflow_id, "not registered"))
                });
            }
            WorktreeWork::ProbeDirty(path) => f.dirty = Some(Ok(self.dirty(&path))),
            WorktreeWork::ProbeSourceDirty(path) => f.source_dirty = Some(Ok(self.dirty(&path))),
            WorktreeWork::ReadSourceHead(path) => {
                f.source_head = Some(self.head(&path).ok_or_else(|| self.failed("rev-parse")));
            }
            WorktreeWork::CountAhead { path: _, base, head } => {
                let old = self.ancestors(&base);
                let ahead = self.ancestors(&head).difference(&old).count() as u64;
                f.ahead = Some(Ok(ahead));
            }
            WorktreeWork::ListChanged { path, base } => {
                let old = &self.commits[&base].files;
                let now = &self.trees[&path];
                let changed =
                    now.iter().filter(|(p, c)| old.get(*p) != Some(*c)).map(|(p, _)| p.clone());
                f.changed = Some(Ok(changed.collect()));
            }
            WorktreeWork::Integrate { strategy: _, identity, head } => {
                f.outcome = Some(Ok(self.merge(&identity, &head)));
            }
            WorktreeWork::CheckAncestry { path: _, ancestor, descendant } => {
                let is = self.ancestors(&descendant).contains(&ancestor);
                f.ancestry = Some(Ok(if is { Ancestry::Ancestor } else { Ancestry::NotAncestor }));
            }
            WorktreeWork::ProbeRegistered(path) => {
                f.registered = Some(Ok(self.worktrees.contains_key(&path)));
            }
            WorktreeWork::ProbeCheckout(path) => f.present = Some(self.trees.contains_key(&path)),
            WorktreeWork::RemoveWorktree(path) => {
                self.worktrees.remove(&path);
                self.trees.remove(&path);
                f.worktree_removed = Some(Ok(()));
            }
            WorktreeWork::PruneWorktrees => f.pruned = Some(Ok(())),
            WorktreeWork::ProbeEntry(identity) => {
                f.entries.push(Ok(EntryProbe {
                    present: self.trees.contains_key(&identity.worktree_path),
                    registered: self.worktrees.contains_key(&identity.worktree_path),
                    branch_alive: self.branches.contains_key(&identity.branch),
                }));
            }
            _ => panic!("no work of another manager is asked for"),
        }
    }

    fn run<T>(
        &mut self,
        timeout_ms: u64,
        operation: impl Fn(&WorktreeFacts) -> WorktreeStep<T>,
    ) -> Result<T, WorktreeError> {
        let mut facts = WorktreeFacts::new();
        for _ in 0..200 {
            match operation(&facts) {
                WorktreeStep::Need(work) => self.perform(timeout_ms, work, &mut facts),
                WorktreeStep::Fail(error) => return Err(error),
                WorktreeStep::Done(value) => return Ok(value),
            }
        }
        panic!("the operation does not end");
    }

    fn create_with(
        &mut self,
        id: &str,
        options: CreateWorktreeOptions,
    ) -> Result<WorkflowWorktreeIdentity, WorktreeError> {
        let manager = self.manager();
        let timeout = manager.timeout(options.timeout_ms);
        self.run(timeout, |f| manager.create(id, &options, f))
    }

    fn create(&mut self, id: &str) -> WorkflowWorktreeIdentity {
        let options = self.options();
        done(self.create_with(id, options))
    }

    fn inspect(&mut self, id: &str) -> WorkflowWorktreeStatus {
        let manager = self.manager();
        done(self.run(30_000, |f| manager.inspect(id, f)))
    }

    fn integrate(&mut self, id: &str) -> Result<IntegrateOutcome, WorktreeError> {
        let manager = self.manager();
        let options = IntegrateOptions::default();
        self.run(30_000, |f| manager.integrate(id, &options, f))
    }

    fn remove(&mut self, identity: &WorkflowWorktreeIdentity) -> Result<(), WorktreeError> {
        let manager = self.manager();
        self.run(30_000, |f| manager.remove(identity, f))
    }

    fn verify(
        &mut self,
        identity: &WorkflowWorktreeIdentity,
    ) -> Result<TrustedWorkflowCwd, WorktreeError> {
        let manager = self.manager();
        self.run(30_000, |f| manager.verify_owned(identity, f))
    }

    fn verify_current(
        &mut self,
        id: &str,
    ) -> Result<(WorkflowWorktreeIdentity, TrustedWorkflowCwd), WorktreeError> {
        let manager = self.manager();
        self.run(30_000, |f| manager.verify_owned_current(id, f))
    }

    fn list(&mut self) -> Vec<WorkflowWorktreeIdentity> {
        let manager = self.manager();
        done(self.run(30_000, |f| manager.list(f)))
    }
}

fn done<T>(outcome: Result<T, WorktreeError>) -> T {
    match outcome {
        Ok(value) => value,
        Err(error) => panic!("{}", error.message()),
    }
}

fn refused<T>(outcome: Result<T, WorktreeError>) -> WorktreeError {
    match outcome {
        Ok(_) => panic!("the operation must fail"),
        Err(error) => error,
    }
}

#[test]
fn two_isolated_worktrees_support_concurrent_edits_and_space_argv() {
    let mut world = World::new("source repo with spaces", "managed root with spaces");
    let first = world.create("workflow-a");
    let second = world.create("workflow-b");
    assert_ne!(first.worktree_path, second.worktree_path);
    assert!(!first.worktree_path.starts_with(&world.repo));
    assert!(!second.worktree_path.starts_with(&world.repo));
    assert!(first.worktree_path.contains("managed root with spaces"));
    assert!(world.commands.contains(&vec![
        "worktree".to_owned(),
        "add".to_owned(),
        "--".to_owned(),
        first.worktree_path.clone(),
        first.branch.clone(),
    ]));

    world.write(&first.worktree_path, "first edit.txt", "first\n");
    world.write(&second.worktree_path, "second edit.txt", "second\n");
    assert!(!world.trees[&first.worktree_path].contains_key("second edit.txt"));
    assert!(!world.trees[&second.worktree_path].contains_key("first edit.txt"));
    assert!(!world.trees[&world.repo].contains_key("first edit.txt"));

    world.commit_file(&first.worktree_path, "file with spaces.txt", "argv safe\n");
    let status = world.inspect("workflow-a");
    assert_eq!(status.ahead_commits, 1);
    assert!(status.changed_files.iter().any(|path| path == "file with spaces.txt"));
}

#[test]
fn foreign_worktree_removal_is_rejected_without_touching_either_tree() {
    let mut world = World::new("source", "managed");
    let owned = world.create("owned");
    let foreign_branch = "foreign/not-managed";
    let foreign_path = "/sandbox/foreign worktree with spaces";
    let head = owned.base_commit.clone();
    world.branches.insert(foreign_branch.to_owned(), head);
    world.add_worktree(foreign_path, foreign_branch);

    let forged = WorkflowWorktreeIdentity {
        workflow_id: owned.workflow_id.clone(),
        source_root: owned.source_root.clone(),
        common_git_dir: owned.common_git_dir.clone(),
        worktree_path: foreign_path.to_owned(),
        branch: foreign_branch.to_owned(),
        base_commit: owned.base_commit.clone(),
        head_commit: owned.head_commit.clone(),
        created_at_ms: owned.created_at_ms,
    };
    let error = refused(world.remove(&forged));
    assert!(matches!(error, WorktreeError::OwnershipMismatch { .. }));
    assert!(world.stands(foreign_path));
    assert!(world.stands(&owned.worktree_path));
    assert!(world.branches.contains_key(foreign_branch));
}

#[test]
fn clean_merge_integration_applies_committed_workflow_change() {
    let mut world = World::new("source with spaces", "managed");
    let identity = world.create("feature");
    let workflow_head = world.commit_file(&identity.worktree_path, "feature.txt", "integrated\n");

    let status = world.inspect("feature");
    assert!(!status.dirty);
    assert_eq!(status.ahead_commits, 1);
    assert_eq!(status.identity.head_commit, workflow_head);

    match done(world.integrate("feature")) {
        IntegrateOutcome::Applied { result_commit, merge_commit, .. } => {
            assert_eq!(merge_commit.as_deref(), Some(result_commit.as_str()));
        }
        _ => panic!("expected applied integration"),
    }
    assert_eq!(world.trees[&world.repo]["feature.txt"], "integrated\n");
    assert!(world.stands(&identity.worktree_path));
    assert!(world.branches.contains_key(&identity.branch));
}

#[test]
fn dirty_worktree_integration_fails_without_ignoring_uncommitted_files() {
    let mut world = World::new("source", "managed");
    let identity = world.create("dirty-worktree");
    world.write(&identity.worktree_path, "untracked.txt", "not committed\n");
    let error = refused(world.integrate("dirty-worktree"));
    assert!(matches!(error, WorktreeError::DirtyWorktree(ref id) if id == "dirty-worktree"));
    assert!(world.trees[&identity.worktree_path].contains_key("untracked.txt"));
}

#[test]
fn conflicting_merge_aborts_source_and_preserves_owned_resources() {
    let mut world = World::new("source", "managed");
    let identity = world.create("conflict");
    let workflow_head =
        world.commit_file(&identity.worktree_path, "README.md", "workflow side\n");
    let repo = world.repo.clone();
    world.commit_file(&repo, "README.md", "source side\n");
    match done(world.integrate("conflict")) {
        IntegrateOutcome::Conflicted { conflicts, workflow_id, branch, head_commit, .. } => {
            assert_eq!(conflicts, vec!["README.md"]);
            assert_eq!(workflow_id, identity.workflow_id);
            assert_eq!(branch, identity.branch);
            assert_eq!(head_commit, workflow_head);
        }
        _ => panic!("expected conflicted integration"),
    }
    assert!(world.stands(&identity.worktree_path));
    assert!(world.branches.contains_key(&identity.branch));
    assert!(!world.dirty(&repo));
    assert_eq!(world.trees[&repo]["README.md"], "source side\n");
    assert_eq!(world.trees[&identity.worktree_path]["README.md"], "workflow side\n");
}

#[test]
fn removal_requires_exact_catalog_identity_and_cleans_only_owned_resources() {
    let mut world = World::new("source", "managed");
    let keep = world.create("keep");
    let remove = world.create("remove");
    let head = keep.base_commit.clone();
    world.branches.insert("foreign/keep".to_owned(), head);
    world.add_worktree("/sandbox/foreign", "foreign/keep");

    let catalog_backup = world.catalog.take();
    let missing_catalog_error = refused(world.remove(&remove));
    assert!(matches!(
        &missing_catalog_error,
        WorktreeError::NotRegistered(id) if id == "remove"
    ));
    assert!(world.stands(&remove.worktree_path));
    assert!(world.branches.contains_key(&remove.branch));
    world.catalog = catalog_backup;

    done(world.remove(&remove));
    assert!(!world.stands(&remove.worktree_path));
    assert!(!world.branches.contains_key(&remove.branch));
    assert!(world.stands(&keep.worktree_path));
    assert!(world.branches.contains_key(&keep.branch));
    assert!(world.stands("/sandbox/foreign"));
    assert!(world.branches.contains_key("foreign/keep"));
    assert!(world.list() == vec![keep]);
}

#[test]
fn discovery_dirty_base_invalid_ids_and_managed_root_fail_closed() {
    let mut world = World::new("source", "managed");
    let plain = WorkflowWorktreeManager::new("/sandbox/plain");
    let outcome = world.run(30_000, |f| plain.discover(f));
    assert!(matches!(outcome, Err(WorktreeError::NotGit)));

    for invalid in ["", "../escape", "slash/id", ".hidden", "bad.lock", "nul\0id"] {
        let options = world.options();
        assert!(matches!(
            world.create_with(invalid, options),
            Err(WorktreeError::InvalidWorkflowId(_))
        ));
    }
    let inside = CreateWorktreeOptions {
        managed_root: format!("{}/inside", world.repo),
        base_commit: None,
        timeout_ms: Some(30_000),
    };
    assert!(world.create_with("inside", inside).is_err());

    let identity = world.create("dirty");
    world.commit_file(&identity.worktree_path, "dirty.txt", "workflow\n");
    let repo = world.repo.clone();
    world.write(&repo, "untracked.txt", "dirty source\n");
    assert!(matches!(world.integrate("dirty"), Err(WorktreeError::DirtyBase)));
}

#[test]
fn public_debug_and_serialized_conflict_do_not_expose_internal_paths() {
    let mut world = World::new("source secret path", "managed secret path");
    let identity = world.create("redaction");
    let debug = identity.debug_text();
    assert!(!debug.contains(&world.repo));
    assert!(!debug.contains(&world.managed));

    let outcome = IntegrateOutcome::Conflicted {
        strategy: IntegrateStrategy::Merge,
        conflicts: vec!["README.md".to_owned()],
        workflow_id: identity.workflow_id.clone(),
        branch: identity.branch.clone(),
        head_commit: identity.head_commit.clone(),
    };
    let rendered = format!("{outcome:?}");
    assert!(!rendered.contains(&world.repo));
    assert!(!rendered.contains(&world.managed));
}

#[test]
fn branch_collision_allocates_distinct_owned_branch() {
    let mut world = World::new("source", "managed");
    let repo = world.repo.clone();
    let head = world.head(&repo).expect("head");
    world.branches.insert("rpi/workflow/collision".to_owned(), head);
    let identity = world.create("collision");
    assert_ne!(identity.branch, "rpi/workflow/collision");
    assert!(identity.branch.starts_with("rpi/workflow/collision-"));
}

#[test]
fn stale_owned_metadata_is_pruned_only_after_resources_are_gone() {
    let mut world = World::new("source", "managed");
    let identity = world.create("stale");
    let manager = world.manager();
    let pruned = done(world.run(30_000, |f| manager.prune_stale(f)));
    assert!(pruned.is_empty());
    assert_eq!(world.list().len(), 1);

    world.worktrees.remove(&identity.worktree_path);
    world.trees.remove(&identity.worktree_path);
    world.branches.remove(&identity.branch);
    let pruned = done(world.run(30_000, |f| manager.prune_stale(f)));
    assert_eq!(pruned, vec!["stale"]);
    assert!(world.list().is_empty());
}

#[test]
fn zero_timeout_is_typed_and_does_not_leak_absolute_paths() {
    let mut world = World::new("source secret timeout", "managed secret timeout");
    let manager = WorkflowWorktreeManager::new(&world.repo).with_timeout(0);
    let timeout = manager.timeout(None);
    let error = refused(world.run(timeout, |f| manager.discover(f)));
    assert!(matches!(error, WorktreeError::Timeout { .. }));
    let rendered = error.message();
    assert_eq!(
        rendered,
        "git command timed out after 0ns: git [\"rev-parse\", \"--show-toplevel\"]"
    );
    assert!(!rendered.contains(&world.repo));
    assert!(!rendered.contains(&world.managed));
}

#[test]
fn trusted_capability_requires_exact_live_owned_identity() {
    let mut world = World::new("source", "managed");
    let identity = world.create("trusted");
    let capability = done(world.verify(&identity));
    assert_eq!(capability.path(), identity.worktree_path);
    assert_eq!(capability.workflow_id(), "trusted");
    assert!(!capability.debug_text().contains(&identity.worktree_path));

    world.commit_file(&identity.worktree_path, "advance.txt", "advanced\n");
    assert!(matches!(
        world.verify(&identity),
        Err(WorktreeError::OwnershipMismatch { .. })
    ));
}

#[test]
fn committed_workflow_restart_adopts_descendant_head_and_preserves_exact_identity() {
    let mut world = World::new("source", "managed");
    let original = world.create("restart");
    let advanced_head = world.commit_file(
        &original.worktree_path,
        "restart.txt",
        "committed before restart\n",
    );
    let (refreshed, capability) = done(world.verify_current("restart"));
    assert_eq!(refreshed.head_commit, advanced_head);
    assert_eq!(capability.path(), original.worktree_path);
    assert!(world.list() == vec![refreshed.clone()]);
    assert!(world.verify(&refreshed).is_ok());
    assert!(matches!(
        world.verify(&original),
        Err(WorktreeError::OwnershipMismatch { .. })
    ));
}

#[test]
fn current_ownership_rejects_rewind_and_preserves_recorded_head() {
    let mut world = World::new("source", "managed");
    let original = world.create("rewind");
    let advanced_head =
        world.commit_file(&original.worktree_path, "advance.txt", "advanced\n");
    let (advanced, _) = done(world.verify_current("rewind"));
    assert_eq!(advanced.head_commit, advanced_head);

    world.reset(&original.worktree_path, &original.head_commit);
    assert!(matches!(
        world.verify_current("rewind"),
        Err(WorktreeError::OwnershipMismatch { .. })
    ));
    assert!(world.list() == vec![advanced]);
}

#[test]
fn symlinked_managed_root_is_rejected() {
    let mut world = World::new("source", "real-managed");
    world.links.insert("/sandbox/linked-managed".to_owned());
    let options = CreateWorktreeOptions {
        managed_root: "/sandbox/linked-managed".to_owned(),
        base_commit: None,
        timeout_ms: Some(30_000),
    };
    assert!(matches!(
        world.create_with("managed-link", options),
        Err(WorktreeError::Symlink)
    ));
}

#[test]
fn symlinked_source_component_is_rejected() {
    let mut world = World::new("source", "managed");
    world.links.insert("/sandbox/linked-source".to_owned());
    let manager = WorkflowWorktreeManager::new("/sandbox/linked-source");
    assert!(matches!(
        world.run(30_000, |f| manager.discover(f)),
        Err(WorktreeError::Symlink)
    ));
}

#[test]
fn unborn_repository_create_fails_closed_without_partial_worktree() {
    let mut world = World::new("unborn", "managed");
    world.branches.clear();
    let options = world.options();
    assert!(matches!(
        world.create_with("unborn", options),
        Err(WorktreeError::CommandFailed { .. })
    ));
    assert!(!world.stands(&format!("{}/{WORKTREE_ROOT_DIR_NAME}", world.managed)));
    assert!(world.catalog.is_none());
}

#[test]
fn a_failed_checkout_takes_its_branch_back() {
    let mut world = World::new("source", "managed");
    world.refused.insert("add");
    let options = world.options();
    let error = refused(world.create_with("half", options));
    assert_eq!(error.message(), "git command failed (exit 128): git [\"worktree add\"]: fatal");
    assert!(!world.branches.contains_key("rpi/workflow/half"));
    assert!(world.catalog.is_none());
}

#[test]
fn an_occupied_location_is_left_alone() {
    let mut world = World::new("source", "managed");
    let taken = format!("{}/{WORKTREE_ROOT_DIR_NAME}/taken", world.managed);
    world.directories.insert(taken);
    let options = world.options();
    assert_eq!(
        refused(world.create_with("taken", options)).message(),
        "worktree operation failed: managed worktree location already exists for workflow taken"
    );
}

#[test]
fn a_worktree_starts_at_the_requested_base() {
    let mut world = World::new("source", "managed");
    let repo = world.repo.clone();
    let old = world.head(&repo).expect("head");
    world.commit_file(&repo, "later.txt", "later\n");
    let mut options = world.options();
    options.base_commit = Some(old.clone());
    let identity = done(world.create_with("based", options));
    assert_eq!(identity.base_commit, old);
    assert_eq!(identity.head_commit, old);
    assert!(!world.trees[&identity.worktree_path].contains_key("later.txt"));
}

#[test]
fn every_error_has_its_message() {
    let id = "w".to_owned();
    let messages = [
        (WorktreeError::NotGit, "source is not inside a git repository"),
        (WorktreeError::DirtyBase, "integration base is dirty; refusing to proceed"),
        (
            WorktreeError::DirtyWorktree(id.clone()),
            "workflow worktree w is dirty; commit or discard its changes before integration",
        ),
        (WorktreeError::Symlink, "refusing to operate through a symbolic link"),
        (
            WorktreeError::ownership("w", "gone"),
            "worktree ownership mismatch for workflow w: gone",
        ),
        (
            WorktreeError::Timeout { timeout_ms: 1500, args: vec!["status".to_owned()] },
            "git command timed out after 1.5s: git [\"status\"]",
        ),
        (
            WorktreeError::CommandFailed {
                status: -1,
                args: Vec::new(),
                stderr: "killed".to_owned(),
            },
            "git command failed (exit -1): git []: killed",
        ),
        (WorktreeError::NotRegistered(id), "worktree not registered for workflow w"),
        (
            WorktreeError::InvalidWorkflowId("a\"b".to_owned()),
            "invalid workflow id \"a\\\"b\"",
        ),
        (WorktreeError::Other("x".to_owned()), "worktree operation failed: x"),
    ];
    for (error, message) in messages {
        assert_eq!(error.message(), message);
    }
}

#[test]
fn an_unknown_workflow_is_not_registered() {
    let mut world = World::new("source", "managed");
    assert!(matches!(
        world.verify_current("ghost"),
        Err(WorktreeError::NotRegistered(ref id)) if id == "ghost"
    ));
    assert!(matches!(
        world.integrate("ghost"),
        Err(WorktreeError::NotRegistered(ref id)) if id == "ghost"
    ));
}

#[test]
fn an_identity_is_owned_however_its_paths_are_spelled() {
    let mut world = World::new("source", "managed");
    let identity = world.create("spelled");
    let mut respelled = identity.clone();
    respelled.source_root = format!("{}/", identity.source_root);
    respelled.common_git_dir = format!("{}/./", identity.common_git_dir);
    assert_eq!(done(world.verify(&respelled)).path(), identity.worktree_path);
    assert!(world.remove(&respelled).is_ok());
    assert!(world.list().is_empty());
}
