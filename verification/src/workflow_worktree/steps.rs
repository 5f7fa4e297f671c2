//! The pieces of work that worktree operations ask of their driver, and what is
//! known of the work done so far.

use crate::text;
use crate::text::push_text;
use crate::workflow_worktree::catalog;
use crate::workflow_worktree::catalog::WorktreeCatalog;
use crate::workflow_worktree::overlay::{
    EntryModel, LayersModel, OverlayBackend, OverlayCatalog, OverlayLayers,
};
use crate::workflow_worktree::overlay;
use crate::workflow_worktree::{
    ErrorModel, IdentityModel, IntegrateOutcome, IntegrateStrategy, RepoDiscovery,
    WorkflowWorktreeIdentity, WorktreeError,
};
use vstd::prelude::*;

verus! {

/// The next piece of work. Each variant says which slot of the facts its result
/// goes to.
pub enum WorktreeWork {
    /// Canonicalize the source directory, refusing symbolic links
    /// (`canonical_source`).
    CanonicalSource(String),
    /// Discover the repository around a canonical directory (`discovery`).
    Discover(String),
    /// Canonicalize or create the managed root (`managed_root`).
    PrepareManagedRoot(String),
    /// Check that the managed root is not inside the source (`outside`).
    CheckOutside { managed: String, source: String },
    /// Take the repository lock and hold it to the end (`lock`).
    Lock(String),
    /// Read the ownership catalog (`catalog`).
    LoadCatalog,
    /// Resolve a revision to a commit (`base_commit`).
    ResolveCommit(String),
    /// Allocate a free branch name (`branch`).
    AllocateBranch(String),
    /// See whether the managed location exists already (`occupied`).
    ProbeLocation(String),
    /// Create the directory that will hold the worktree (`parent`).
    MakeParent(String),
    /// Create a branch at a commit (`branch_made`).
    MakeBranch { branch: String, commit: String },
    /// Check a branch out into a new worktree (`worktree_made`).
    AddWorktree { path: String, branch: String },
    /// See whether a branch exists (`branch_left`).
    ProbeBranch(String),
    /// Delete a branch (`branch_dropped`).
    DropBranch(String),
    /// Canonicalize the new checkout, refusing symbolic links (`checkout`).
    CanonicalCheckout(String),
    /// Check git's registration of a worktree (`registration`).
    VerifyRegistration { path: String, branch: String, commit: String },
    /// Read the HEAD commit of a checkout (`head`).
    ReadHead(String),
    /// Read the clock (`now_ms`).
    Now,
    /// Read the ownership catalog once more (`fresh_catalog`).
    ReloadCatalog,
    /// Write the ownership catalog (`saved`).
    SaveCatalog(WorktreeCatalog),
    /// Canonicalize the recorded common git directory (`canonical_common`).
    CanonicalCommon(String),
    /// Canonicalize the recorded source (`recorded_source`).
    CanonicalRecordedSource(String),
    /// Check an identity against the repository (`ownership`).
    VerifyOwnership(WorkflowWorktreeIdentity),
    /// See whether a checkout has uncommitted changes (`dirty`).
    ProbeDirty(String),
    /// See whether the source has uncommitted changes (`source_dirty`).
    ProbeSourceDirty(String),
    /// Read the HEAD commit of the source (`source_head`).
    ReadSourceHead(String),
    /// Count the commits from `base` to `head` (`ahead`).
    CountAhead { path: String, base: String, head: String },
    /// List the files changed since `base` (`changed`).
    ListChanged { path: String, base: String },
    /// Integrate the worktree's commits into the source (`outcome`).
    Integrate { strategy: IntegrateStrategy, identity: WorkflowWorktreeIdentity, head: String },
    /// See whether one commit is an ancestor of another (`ancestry`).
    CheckAncestry { path: String, ancestor: String, descendant: String },
    /// See whether git has a worktree registered at a path (`registered`).
    ProbeRegistered(String),
    /// See whether the checkout exists (`present`).
    ProbeCheckout(String),
    /// Remove a registered worktree (`worktree_removed`).
    RemoveWorktree(String),
    /// Let git forget worktrees that are gone (`pruned`).
    PruneWorktrees,
    /// See what is left of a catalog entry (pushed to `entries`).
    ProbeEntry(WorkflowWorktreeIdentity),
    /// Canonicalize or create the manager's own root (`expected_root`).
    PrepareExpectedRoot(String),
    /// Canonicalize or create the directory of all overlays (`overlay_dir`).
    PrepareOverlayDir(String),
    /// Canonicalize or create the directory of the catalog (`catalog_dir`).
    PrepareCatalogDir(String),
    /// Start an overlay with the first backend that works (`overlay_started`).
    StartOverlay { layers: OverlayLayers, backends: Vec<OverlayBackend> },
    /// Read the overlay catalog (`overlay_catalog`).
    LoadOverlayCatalog,
    /// Read the overlay catalog once more (`fresh_overlay_catalog`).
    ReloadOverlayCatalog,
    /// Write the overlay catalog (`saved`).
    SaveOverlayCatalog(OverlayCatalog),
    /// See whether an overlay is mounted (`mounted`).
    ProbeMount { layers: OverlayLayers, backend: OverlayBackend },
    /// Mount an overlay again, with this backend alone (`remounted`).
    Remount { layers: OverlayLayers, backend: OverlayBackend },
    /// See whether a repository's metadata exists (`has_git`).
    ProbeGit(String),
    /// Make one tree a copy of another, leaving its own `.git` alone
    /// (`synced`).
    SyncBack { from: String, to: String },
    /// See whether the source has changed (`source_changed`).
    ProbeSourceChanged(String),
    /// Stage every change (`staged`).
    StageAll(String),
    /// Commit what is staged (`committed`).
    CommitAll { path: String, message: String },
    /// Canonicalize the manager's own root, refusing symbolic links
    /// (`canonical_managed`).
    CanonicalManaged(String),
    /// Detach an overlay and clean its private layers (`stopped`).
    StopOverlay { layers: OverlayLayers, backend: OverlayBackend },
    /// Remove the merged view (`merged_removed`).
    RemoveMerged(String),
    /// Remove the directory of an overlay (`dir_removed`).
    RemoveOverlayDir(String),
    /// See whether a merged view exists (pushed to `overlay_entries`).
    ProbeMerged(String),
}

/// The model of a piece of work.
#[verifier::ext_equal]
pub enum WorkModel {
    CanonicalSource(Seq<char>),
    Discover(Seq<char>),
    PrepareManagedRoot(Seq<char>),
    CheckOutside { managed: Seq<char>, source: Seq<char> },
    Lock(Seq<char>),
    LoadCatalog,
    ResolveCommit(Seq<char>),
    AllocateBranch(Seq<char>),
    ProbeLocation(Seq<char>),
    MakeParent(Seq<char>),
    MakeBranch { branch: Seq<char>, commit: Seq<char> },
    AddWorktree { path: Seq<char>, branch: Seq<char> },
    ProbeBranch(Seq<char>),
    DropBranch(Seq<char>),
    CanonicalCheckout(Seq<char>),
    VerifyRegistration { path: Seq<char>, branch: Seq<char>, commit: Seq<char> },
    ReadHead(Seq<char>),
    Now,
    ReloadCatalog,
    SaveCatalog(Map<Seq<char>, IdentityModel>),
    CanonicalCommon(Seq<char>),
    CanonicalRecordedSource(Seq<char>),
    VerifyOwnership(IdentityModel),
    ProbeDirty(Seq<char>),
    ProbeSourceDirty(Seq<char>),
    ReadSourceHead(Seq<char>),
    CountAhead { path: Seq<char>, base: Seq<char>, head: Seq<char> },
    ListChanged { path: Seq<char>, base: Seq<char> },
    Integrate { strategy: IntegrateStrategy, identity: IdentityModel, head: Seq<char> },
    CheckAncestry { path: Seq<char>, ancestor: Seq<char>, descendant: Seq<char> },
    ProbeRegistered(Seq<char>),
    ProbeCheckout(Seq<char>),
    RemoveWorktree(Seq<char>),
    PruneWorktrees,
    ProbeEntry(IdentityModel),
    PrepareExpectedRoot(Seq<char>),
    PrepareOverlayDir(Seq<char>),
    PrepareCatalogDir(Seq<char>),
    StartOverlay { layers: LayersModel, backends: Seq<OverlayBackend> },
    LoadOverlayCatalog,
    ReloadOverlayCatalog,
    SaveOverlayCatalog(Map<Seq<char>, EntryModel>),
    ProbeMount { layers: LayersModel, backend: OverlayBackend },
    Remount { layers: LayersModel, backend: OverlayBackend },
    ProbeGit(Seq<char>),
    SyncBack { from: Seq<char>, to: Seq<char> },
    ProbeSourceChanged(Seq<char>),
    StageAll(Seq<char>),
    CommitAll { path: Seq<char>, message: Seq<char> },
    CanonicalManaged(Seq<char>),
    StopOverlay { layers: LayersModel, backend: OverlayBackend },
    RemoveMerged(Seq<char>),
    RemoveOverlayDir(Seq<char>),
    ProbeMerged(Seq<char>),
}

impl View for WorktreeWork {
    type V = WorkModel;

    open spec fn view(&self) -> WorkModel {
        match *self {
            WorktreeWork::CanonicalSource(p) => WorkModel::CanonicalSource(p@),
            WorktreeWork::Discover(p) => WorkModel::Discover(p@),
            WorktreeWork::PrepareManagedRoot(p) => WorkModel::PrepareManagedRoot(p@),
            WorktreeWork::CheckOutside { managed, source } => WorkModel::CheckOutside {
                managed: managed@,
                source: source@,
            },
            WorktreeWork::Lock(p) => WorkModel::Lock(p@),
            WorktreeWork::LoadCatalog => WorkModel::LoadCatalog,
            WorktreeWork::ResolveCommit(c) => WorkModel::ResolveCommit(c@),
            WorktreeWork::AllocateBranch(id) => WorkModel::AllocateBranch(id@),
            WorktreeWork::ProbeLocation(p) => WorkModel::ProbeLocation(p@),
            WorktreeWork::MakeParent(p) => WorkModel::MakeParent(p@),
            WorktreeWork::MakeBranch { branch, commit } => WorkModel::MakeBranch {
                branch: branch@,
                commit: commit@,
            },
            WorktreeWork::AddWorktree { path, branch } => WorkModel::AddWorktree {
                path: path@,
                branch: branch@,
            },
            WorktreeWork::ProbeBranch(b) => WorkModel::ProbeBranch(b@),
            WorktreeWork::DropBranch(b) => WorkModel::DropBranch(b@),
            WorktreeWork::CanonicalCheckout(p) => WorkModel::CanonicalCheckout(p@),
            WorktreeWork::VerifyRegistration { path, branch, commit } =>
            WorkModel::VerifyRegistration { path: path@, branch: branch@, commit: commit@ },
            WorktreeWork::ReadHead(p) => WorkModel::ReadHead(p@),
            WorktreeWork::Now => WorkModel::Now,
            WorktreeWork::ReloadCatalog => WorkModel::ReloadCatalog,
            WorktreeWork::SaveCatalog(c) => WorkModel::SaveCatalog(catalog::catalog_model(c)),
            WorktreeWork::CanonicalCommon(p) => WorkModel::CanonicalCommon(p@),
            WorktreeWork::CanonicalRecordedSource(p) => WorkModel::CanonicalRecordedSource(p@),
            WorktreeWork::VerifyOwnership(i) => WorkModel::VerifyOwnership(i@),
            WorktreeWork::ProbeDirty(p) => WorkModel::ProbeDirty(p@),
            WorktreeWork::ProbeSourceDirty(p) => WorkModel::ProbeSourceDirty(p@),
            WorktreeWork::ReadSourceHead(p) => WorkModel::ReadSourceHead(p@),
            WorktreeWork::CountAhead { path, base, head } => WorkModel::CountAhead {
                path: path@,
                base: base@,
                head: head@,
            },
            WorktreeWork::ListChanged { path, base } => WorkModel::ListChanged {
                path: path@,
                base: base@,
            },
            WorktreeWork::Integrate { strategy, identity, head } => WorkModel::Integrate {
                strategy,
                identity: identity@,
                head: head@,
            },
            WorktreeWork::CheckAncestry { path, ancestor, descendant } => WorkModel::CheckAncestry {
                path: path@,
                ancestor: ancestor@,
                descendant: descendant@,
            },
            WorktreeWork::ProbeRegistered(p) => WorkModel::ProbeRegistered(p@),
            WorktreeWork::ProbeCheckout(p) => WorkModel::ProbeCheckout(p@),
            WorktreeWork::RemoveWorktree(p) => WorkModel::RemoveWorktree(p@),
            WorktreeWork::PruneWorktrees => WorkModel::PruneWorktrees,
            WorktreeWork::ProbeEntry(i) => WorkModel::ProbeEntry(i@),
            WorktreeWork::PrepareExpectedRoot(p) => WorkModel::PrepareExpectedRoot(p@),
            WorktreeWork::PrepareOverlayDir(p) => WorkModel::PrepareOverlayDir(p@),
            WorktreeWork::PrepareCatalogDir(p) => WorkModel::PrepareCatalogDir(p@),
            WorktreeWork::StartOverlay { layers, backends } => WorkModel::StartOverlay {
                layers: layers@,
                backends: backends@,
            },
            WorktreeWork::LoadOverlayCatalog => WorkModel::LoadOverlayCatalog,
            WorktreeWork::ReloadOverlayCatalog => WorkModel::ReloadOverlayCatalog,
            WorktreeWork::SaveOverlayCatalog(c) => WorkModel::SaveOverlayCatalog(
                overlay::overlay_catalog_model(c),
            ),
            WorktreeWork::ProbeMount { layers, backend } => WorkModel::ProbeMount {
                layers: layers@,
                backend,
            },
            WorktreeWork::Remount { layers, backend } => WorkModel::Remount {
                layers: layers@,
                backend,
            },
            WorktreeWork::ProbeGit(p) => WorkModel::ProbeGit(p@),
            WorktreeWork::SyncBack { from, to } => WorkModel::SyncBack { from: from@, to: to@ },
            WorktreeWork::ProbeSourceChanged(p) => WorkModel::ProbeSourceChanged(p@),
            WorktreeWork::StageAll(p) => WorkModel::StageAll(p@),
            WorktreeWork::CommitAll { path, message } => WorkModel::CommitAll {
                path: path@,
                message: message@,
            },
            WorktreeWork::CanonicalManaged(p) => WorkModel::CanonicalManaged(p@),
            WorktreeWork::StopOverlay { layers, backend } => WorkModel::StopOverlay {
                layers: layers@,
                backend,
            },
            WorktreeWork::RemoveMerged(p) => WorkModel::RemoveMerged(p@),
            WorktreeWork::RemoveOverlayDir(p) => WorkModel::RemoveOverlayDir(p@),
            WorktreeWork::ProbeMerged(p) => WorkModel::ProbeMerged(p@),
        }
    }
}

/// How two commits relate, as `git merge-base --is-ancestor` showed.
#[derive(PartialEq, Eq)]
pub enum Ancestry {
    Ancestor,
    NotAncestor,
    /// The command failed otherwise.
    Failed(WorktreeError),
}

/// What is left of a catalog entry.
#[derive(Clone, Copy, Debug, PartialEq, Eq, Structural)]
pub struct EntryProbe {
    pub present: bool,
    pub registered: bool,
    pub branch_alive: bool,
}

/// What is known so far. A slot is empty until its work is done.
pub struct WorktreeFacts {
    pub canonical_source: Option<Result<String, WorktreeError>>,
    pub discovery: Option<Result<RepoDiscovery, WorktreeError>>,
    pub managed_root: Option<Result<String, WorktreeError>>,
    /// The error says how the managed root lies inside the source.
    pub outside: Option<Result<(), String>>,
    pub lock: Option<Result<(), WorktreeError>>,
    pub catalog: Option<Result<WorktreeCatalog, WorktreeError>>,
    pub base_commit: Option<Result<String, WorktreeError>>,
    pub branch: Option<Result<String, WorktreeError>>,
    pub occupied: Option<bool>,
    pub parent: Option<Result<(), String>>,
    pub branch_made: Option<Result<(), WorktreeError>>,
    pub worktree_made: Option<Result<(), WorktreeError>>,
    pub branch_left: Option<Result<bool, WorktreeError>>,
    pub branch_dropped: Option<Result<(), WorktreeError>>,
    pub checkout: Option<Result<String, WorktreeError>>,
    pub registration: Option<Result<(), WorktreeError>>,
    pub head: Option<Result<String, WorktreeError>>,
    pub now_ms: Option<u64>,
    pub fresh_catalog: Option<Result<WorktreeCatalog, WorktreeError>>,
    pub saved: Option<Result<(), WorktreeError>>,
    pub canonical_common: Option<Result<String, WorktreeError>>,
    pub recorded_source: Option<Result<String, WorktreeError>>,
    pub ownership: Option<Result<(), WorktreeError>>,
    pub dirty: Option<Result<bool, WorktreeError>>,
    pub source_dirty: Option<Result<bool, WorktreeError>>,
    pub source_head: Option<Result<String, WorktreeError>>,
    pub ahead: Option<Result<u64, WorktreeError>>,
    pub changed: Option<Result<Vec<String>, WorktreeError>>,
    pub outcome: Option<Result<IntegrateOutcome, WorktreeError>>,
    pub ancestry: Option<Result<Ancestry, WorktreeError>>,
    pub registered: Option<Result<bool, WorktreeError>>,
    pub present: Option<bool>,
    pub worktree_removed: Option<Result<(), WorktreeError>>,
    pub pruned: Option<Result<(), WorktreeError>>,
    pub entries: Vec<Result<EntryProbe, WorktreeError>>,
    pub expected_root: Option<Result<String, WorktreeError>>,
    pub overlay_dir: Option<Result<(), WorktreeError>>,
    pub catalog_dir: Option<Result<(), WorktreeError>>,
    pub overlay_started: Option<Result<OverlayBackend, String>>,
    pub overlay_catalog: Option<Result<OverlayCatalog, WorktreeError>>,
    pub fresh_overlay_catalog: Option<Result<OverlayCatalog, WorktreeError>>,
    pub mounted: Option<bool>,
    pub remounted: Option<Result<(), String>>,
    pub has_git: Option<bool>,
    pub synced: Option<Result<(), WorktreeError>>,
    pub source_changed: Option<Result<bool, WorktreeError>>,
    pub staged: Option<Result<(), WorktreeError>>,
    pub committed: Option<Result<(), WorktreeError>>,
    pub canonical_managed: Option<Result<String, WorktreeError>>,
    pub stopped: Option<Result<(), String>>,
    pub merged_removed: Option<Result<(), String>>,
    pub dir_removed: Option<Result<(), String>>,
    pub overlay_entries: Vec<bool>,
}

impl WorktreeFacts {
    /// Nothing is known yet.
    pub open spec fn blank(self) -> bool {
        &&& self.canonical_source is None && self.discovery is None && self.managed_root is None
        &&& self.outside is None && self.lock is None && self.catalog is None
        &&& self.base_commit is None && self.branch is None && self.occupied is None
        &&& self.parent is None && self.branch_made is None && self.worktree_made is None
        &&& self.branch_left is None && self.branch_dropped is None && self.checkout is None
        &&& self.registration is None && self.head is None && self.now_ms is None
        &&& self.fresh_catalog is None && self.saved is None && self.canonical_common is None
        &&& self.recorded_source is None && self.ownership is None && self.dirty is None
        &&& self.source_dirty is None && self.source_head is None && self.ahead is None
        &&& self.changed is None && self.outcome is None && self.ancestry is None
        &&& self.registered is None && self.present is None && self.worktree_removed is None
        &&& self.pruned is None && self.entries@.len() == 0 && self.expected_root is None
        &&& self.overlay_dir is None && self.catalog_dir is None && self.overlay_started is None
        &&& self.overlay_catalog is None && self.fresh_overlay_catalog is None
        &&& self.mounted is None && self.remounted is None && self.has_git is None
        &&& self.synced is None && self.source_changed is None && self.staged is None
        &&& self.committed is None && self.canonical_managed is None && self.stopped is None
        &&& self.merged_removed is None && self.dir_removed is None
        &&& self.overlay_entries@.len() == 0
    }

    /// Nothing is known yet.
    pub fn new() -> (r: Self)
        ensures
            r.blank(),
    {
        WorktreeFacts {
            canonical_source: None,
            discovery: None,
            managed_root: None,
            outside: None,
            lock: None,
            catalog: None,
            base_commit: None,
            branch: None,
            occupied: None,
            parent: None,
            branch_made: None,
            worktree_made: None,
            branch_left: None,
            branch_dropped: None,
            checkout: None,
            registration: None,
            head: None,
            now_ms: None,
            fresh_catalog: None,
            saved: None,
            canonical_common: None,
            recorded_source: None,
            ownership: None,
            dirty: None,
            source_dirty: None,
            source_head: None,
            ahead: None,
            changed: None,
            outcome: None,
            ancestry: None,
            registered: None,
            present: None,
            worktree_removed: None,
            pruned: None,
            entries: Vec::new(),
            expected_root: None,
            overlay_dir: None,
            catalog_dir: None,
            overlay_started: None,
            overlay_catalog: None,
            fresh_overlay_catalog: None,
            mounted: None,
            remounted: None,
            has_git: None,
            synced: None,
            source_changed: None,
            staged: None,
            committed: None,
            canonical_managed: None,
            stopped: None,
            merged_removed: None,
            dir_removed: None,
            overlay_entries: Vec::new(),
        }
    }
}

/// Where an operation stands: more work is needed, or it is over.
pub enum WorktreeStep<T> {
    Need(WorktreeWork),
    Fail(WorktreeError),
    Done(T),
}

/// The model of where an operation stands.
#[verifier::ext_equal]
pub enum StepModel<T> {
    Need(WorkModel),
    Fail(ErrorModel),
    Done(T),
}

impl<T: View> View for WorktreeStep<T> {
    type V = StepModel<T::V>;

    open spec fn view(&self) -> StepModel<T::V> {
        match *self {
            WorktreeStep::Need(w) => StepModel::Need(w@),
            WorktreeStep::Fail(e) => StepModel::Fail(e@),
            WorktreeStep::Done(t) => StepModel::Done(t@),
        }
    }
}

/// Goes on with the value of a fact; asks for the work where it is missing and
/// fails where it failed.
pub open spec fn need<T, R>(
    fact: Option<Result<T, WorktreeError>>,
    work: WorkModel,
    next: spec_fn(T) -> StepModel<R>,
) -> StepModel<R> {
    match fact {
        None => StepModel::Need(work),
        Some(Err(e)) => StepModel::Fail(e@),
        Some(Ok(v)) => next(v),
    }
}

/// As [`need`], with every failure replaced by `refusal`.
pub open spec fn need_or<T, R>(
    fact: Option<Result<T, WorktreeError>>,
    work: WorkModel,
    refusal: ErrorModel,
    next: spec_fn(T) -> StepModel<R>,
) -> StepModel<R> {
    match fact {
        None => StepModel::Need(work),
        Some(Err(e)) => StepModel::Fail(refusal),
        Some(Ok(v)) => next(v),
    }
}

// ---------------------------------------------------------------------------
// Git argument vectors
// ---------------------------------------------------------------------------

/// The argument vector of the git command that a piece of work stands for,
/// where it is a single one.
pub open spec fn argv(work: WorkModel) -> Option<Seq<Seq<char>>> {
    match work {
        WorkModel::MakeBranch { branch, commit } => Some(
            seq!["branch"@, "--"@, branch, commit],
        ),
        WorkModel::AddWorktree { path, branch } => Some(
            seq!["worktree"@, "add"@, "--"@, path, branch],
        ),
        WorkModel::DropBranch(branch) => Some(seq!["branch"@, "-D"@, "--"@, branch]),
        WorkModel::RemoveWorktree(path) => Some(
            seq!["worktree"@, "remove"@, "--force"@, "--"@, path],
        ),
        WorkModel::PruneWorktrees => Some(seq!["worktree"@, "prune"@]),
        WorkModel::StageAll(_) => Some(seq!["add"@, "-A"@, "--"@, "."@]),
        WorkModel::CommitAll { path, message } => Some(seq!["commit"@, "-m"@, message]),
        WorkModel::CheckAncestry { path, ancestor, descendant } => Some(
            seq!["merge-base"@, "--is-ancestor"@, ancestor, descendant],
        ),
        _ => None,
    }
}

fn args2(a: &str, b: &str) -> (r: Vec<String>)
    ensures
        text::texts(r@) == seq![a@, b@],
{
    let mut r: Vec<String> = Vec::new();
    push_text(&mut r, a);
    push_text(&mut r, b);
    assert(text::texts(r@) =~= seq![a@, b@]);
    r
}

fn args4(a: &str, b: &str, c: &str, d: &str) -> (r: Vec<String>)
    ensures
        text::texts(r@) == seq![a@, b@, c@, d@],
{
    let mut r = args2(a, b);
    push_text(&mut r, c);
    push_text(&mut r, d);
    assert(text::texts(r@) =~= seq![a@, b@, c@, d@]);
    r
}

fn args5(a: &str, b: &str, c: &str, d: &str, e: &str) -> (r: Vec<String>)
    ensures
        text::texts(r@) == seq![a@, b@, c@, d@, e@],
{
    let mut r = args4(a, b, c, d);
    push_text(&mut r, e);
    assert(text::texts(r@) =~= seq![a@, b@, c@, d@, e@]);
    r
}

/// The argument vector of the git command that a piece of work stands for,
/// where it is a single one. Names stand behind `--`, so that none is taken for
/// an option.
pub fn git_args(work: &WorktreeWork) -> (r: Option<Vec<String>>)
    ensures
        match r {
            Some(args) => argv(work@) == Some(text::texts(args@)),
            None => argv(work@) is None,
        },
{
    match work {
        WorktreeWork::MakeBranch { branch, commit } => Some(
            args4("branch", "--", branch.as_str(), commit.as_str()),
        ),
        WorktreeWork::AddWorktree { path, branch } => Some(
            args5("worktree", "add", "--", path.as_str(), branch.as_str()),
        ),
        WorktreeWork::DropBranch(branch) => Some(args4("branch", "-D", "--", branch.as_str())),
        WorktreeWork::RemoveWorktree(path) => Some(
            args5("worktree", "remove", "--force", "--", path.as_str()),
        ),
        WorktreeWork::PruneWorktrees => Some(args2("worktree", "prune")),
        WorktreeWork::StageAll(_) => Some(args4("add", "-A", "--", ".")),
        WorktreeWork::CommitAll { path, message } => {
            let mut args = args2("commit", "-m");
            push_text(&mut args, message.as_str());
            assert(text::texts(args@) =~= seq!["commit"@, "-m"@, message@]);
            Some(args)
        },
        WorktreeWork::CheckAncestry { path, ancestor, descendant } => Some(
            args4("merge-base", "--is-ancestor", ancestor.as_str(), descendant.as_str()),
        ),
        _ => None,
    }
}

} // verus!
