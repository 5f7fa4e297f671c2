//! Git worktree operations for a single source project.

use crate::lexical_path;
use crate::lexical_path::paths_agree;
use crate::sort;
use crate::sort::{stable_sort, text_is_before, Rank, Ranked};
use crate::text;
use crate::text::{clone_texts, same_text, starts_with};
use crate::workflow::store;
use crate::workflow::store::{is_valid_id, join_path};
use crate::workflow_worktree;
use crate::workflow_worktree::catalog;
use crate::workflow_worktree::catalog::{catalog_path, WorktreeCatalog};
use crate::workflow_worktree::steps;
use crate::workflow_worktree::steps::{
    Ancestry, EntryProbe, StepModel, WorkModel, WorktreeFacts, WorktreeStep, WorktreeWork,
};
use crate::workflow_worktree::{
    CreateWorktreeOptions, CwdModel, ErrorModel, IdentityModel, IntegrateOptions, IntegrateOutcome,
    OutcomeModel, RepoDiscovery, StatusModel, TrustedWorkflowCwd, WorkflowWorktreeIdentity,
    WorkflowWorktreeStatus, WorktreeError, DEFAULT_GIT_TIMEOUT_MS, WORKFLOW_BRANCH_PREFIX,
    WORKTREE_ROOT_DIR_NAME,
};
use vstd::prelude::*;
use vstd::string::*;

verus! {

/// Manages per-workflow git worktrees for a single source project.
#[derive(Debug, PartialEq, Eq)]
pub struct WorkflowWorktreeManager {
    /// Trusted source project directory.
    pub source_cwd: String,
    pub timeout_ms: u64,
    /// Overrides where the catalog lies.
    pub catalog_path_override: Option<String>,
}

/// Where the worktree of a workflow goes.
pub open spec fn worktree_location(managed_root: Seq<char>, workflow_id: Seq<char>) -> Seq<char> {
    store::joined(store::joined(managed_root, WORKTREE_ROOT_DIR_NAME@), workflow_id)
}

/// The model of the repository discovery that starts every operation.
pub open spec fn discovered<R>(
    m: WorkflowWorktreeManager,
    f: WorktreeFacts,
    next: spec_fn(RepoDiscovery) -> StepModel<R>,
) -> StepModel<R> {
    steps::need(
        f.canonical_source,
        WorkModel::CanonicalSource(m.source_cwd@),
        |source: String|
            steps::need(f.discovery, WorkModel::Discover(source@), next),
    )
}

/// The model of discovery under the repository lock, for a valid id.
pub open spec fn locked<R>(
    m: WorkflowWorktreeManager,
    workflow_id: Seq<char>,
    f: WorktreeFacts,
    next: spec_fn(RepoDiscovery) -> StepModel<R>,
) -> StepModel<R> {
    if !store::valid_id(workflow_id) {
        StepModel::Fail(ErrorModel::InvalidWorkflowId(workflow_id))
    } else {
        discovered(
            m,
            f,
            |d: RepoDiscovery|
                steps::need(f.lock, WorkModel::Lock(d.common_git_dir@), |u: ()| next(d)),
        )
    }
}

/// The model of finding the recorded identity of a workflow.
pub open spec fn recorded<R>(
    f: WorktreeFacts,
    workflow_id: Seq<char>,
    next: spec_fn(IdentityModel) -> StepModel<R>,
) -> StepModel<R> {
    steps::need(
        f.catalog,
        WorkModel::LoadCatalog,
        |c: WorktreeCatalog|
            if c@.contains_key(workflow_id) {
                next(c@[workflow_id]@)
            } else {
                StepModel::Fail(ErrorModel::NotRegistered(workflow_id))
            },
    )
}

/// The model of checking that a recorded repository is the manager's own.
pub open spec fn same_repository<R>(
    f: WorktreeFacts,
    workflow_id: Seq<char>,
    common_git_dir: Seq<char>,
    d: RepoDiscovery,
    next: StepModel<R>,
) -> StepModel<R> {
    steps::need_or(
        f.canonical_common,
        WorkModel::CanonicalCommon(common_git_dir),
        workflow_worktree::ownership_error(workflow_id, "repository identity is unavailable"@),
        |common: String|
            if !lexical_path::same_path(common@, d.common_git_dir@) {
                StepModel::Fail(
                    workflow_worktree::ownership_error(
                        workflow_id,
                        "recorded repository identity does not match manager repository"@,
                    ),
                )
            } else {
                next
            },
    )
}

/// The model of writing the catalog with one more or changed entry.
pub open spec fn saved<R>(
    f: WorktreeFacts,
    c: Map<Seq<char>, IdentityModel>,
    result: R,
) -> StepModel<R> {
    steps::need(f.saved, WorkModel::SaveCatalog(c), |u: ()| StepModel::Done(result))
}

// ---------------------------------------------------------------------------
// Creation
// ---------------------------------------------------------------------------

/// The model of creating an isolated worktree and branch for a workflow.
pub open spec fn create_model(
    m: WorkflowWorktreeManager,
    workflow_id: Seq<char>,
    o: CreateWorktreeOptions,
    f: WorktreeFacts,
) -> StepModel<IdentityModel> {
    if !store::valid_id(workflow_id) {
        StepModel::Fail(ErrorModel::InvalidWorkflowId(workflow_id))
    } else {
        discovered(
            m,
            f,
            |d: RepoDiscovery|
                steps::need(
                    f.managed_root,
                    WorkModel::PrepareManagedRoot(o.managed_root@),
                    |root: String| created_outside(workflow_id, o, f, d, root@),
                ),
        )
    }
}

/// Creation from the managed root on: it must lie outside the source.
pub open spec fn created_outside(
    workflow_id: Seq<char>,
    o: CreateWorktreeOptions,
    f: WorktreeFacts,
    d: RepoDiscovery,
    root: Seq<char>,
) -> StepModel<IdentityModel> {
    match f.outside {
        None => StepModel::Need(WorkModel::CheckOutside { managed: root, source: d.repo_root@ }),
        Some(Err(detail)) => StepModel::Fail(
            ErrorModel::Other(
                "managed root must not be inside the source worktree: "@ + detail@,
            ),
        ),
        Some(Ok(_)) => steps::need(
            f.lock,
            WorkModel::Lock(d.common_git_dir@),
            |u: ()|
                match o.base_commit {
                    Some(revision) => steps::need(
                        f.base_commit,
                        WorkModel::ResolveCommit(revision@),
                        |base: String| created_from(workflow_id, f, d, root, base@),
                    ),
                    None => created_from(workflow_id, f, d, root, d.head_commit@),
                },
        ),
    }
}

/// Creation from the base commit on: a free branch at a free location.
pub open spec fn created_from(
    workflow_id: Seq<char>,
    f: WorktreeFacts,
    d: RepoDiscovery,
    root: Seq<char>,
    base: Seq<char>,
) -> StepModel<IdentityModel> {
    let location = worktree_location(root, workflow_id);
    steps::need(
        f.branch,
        WorkModel::AllocateBranch(workflow_id),
        |branch: String|
            match f.occupied {
                None => StepModel::Need(WorkModel::ProbeLocation(location)),
                Some(true) => StepModel::Fail(
                    ErrorModel::Other(
                        "managed worktree location already exists for workflow "@ + workflow_id,
                    ),
                ),
                Some(false) => match f.parent {
                    None => StepModel::Need(WorkModel::MakeParent(location)),
                    Some(Err(error)) => StepModel::Fail(
                        ErrorModel::Other(
                            "creating managed worktree parent for workflow "@ + workflow_id + ": "@
                                + error@,
                        ),
                    ),
                    Some(Ok(_)) => steps::need(
                        f.branch_made,
                        WorkModel::MakeBranch { branch: branch@, commit: base },
                        |u: ()| created_branch(workflow_id, f, d, location, branch@, base),
                    ),
                },
            },
    )
}

/// Creation from the branch on: a failed checkout takes its branch away again.
pub open spec fn created_branch(
    workflow_id: Seq<char>,
    f: WorktreeFacts,
    d: RepoDiscovery,
    location: Seq<char>,
    branch: Seq<char>,
    base: Seq<char>,
) -> StepModel<IdentityModel> {
    match f.worktree_made {
        None => StepModel::Need(WorkModel::AddWorktree { path: location, branch }),
        Some(Err(error)) => steps::need(
            f.branch_left,
            WorkModel::ProbeBranch(branch),
            |left: bool|
                if left {
                    steps::need(
                        f.branch_dropped,
                        WorkModel::DropBranch(branch),
                        |u: ()| StepModel::Fail(error@),
                    )
                } else {
                    StepModel::Fail(error@)
                },
        ),
        Some(Ok(_)) => steps::need(
            f.checkout,
            WorkModel::CanonicalCheckout(location),
            |path: String|
                steps::need(
                    f.registration,
                    WorkModel::VerifyRegistration { path: path@, branch, commit: base },
                    |u: ()|
                        steps::need(
                            f.head,
                            WorkModel::ReadHead(path@),
                            |head: String|
                                match f.now_ms {
                                    None => StepModel::Need(WorkModel::Now),
                                    Some(now_ms) => created_record(
                                        f,
                                        IdentityModel {
                                            workflow_id,
                                            source_root: d.repo_root@,
                                            common_git_dir: d.common_git_dir@,
                                            worktree_path: path@,
                                            branch,
                                            base_commit: base,
                                            head_commit: head@,
                                            created_at_ms: now_ms,
                                        },
                                    ),
                                },
                        ),
                ),
        ),
    }
}

/// Creation from the identity on: it is recorded before it is handed out.
pub open spec fn created_record(f: WorktreeFacts, identity: IdentityModel) -> StepModel<
    IdentityModel,
> {
    steps::need(
        f.fresh_catalog,
        WorkModel::ReloadCatalog,
        |c: WorktreeCatalog|
            saved(f, catalog::catalog_model(c).insert(identity.workflow_id, identity), identity),
    )
}

// ---------------------------------------------------------------------------
// Ownership
// ---------------------------------------------------------------------------

/// The model of checking exact ownership of an identity.
pub open spec fn verify_owned_model(
    m: WorkflowWorktreeManager,
    i: IdentityModel,
    f: WorktreeFacts,
) -> StepModel<CwdModel> {
    locked(
        m,
        i.workflow_id,
        f,
        |d: RepoDiscovery|
            recorded(
                f,
                i.workflow_id,
                |r: IdentityModel|
                    if !workflow_worktree::same_identity(r, i) {
                        StepModel::Fail(
                            workflow_worktree::ownership_error(
                                i.workflow_id,
                                "provided identity does not exactly match the ownership catalog"@,
                            ),
                        )
                    } else {
                        same_repository(
                            f,
                            i.workflow_id,
                            i.common_git_dir,
                            d,
                            steps::need(
                                f.ownership,
                                WorkModel::VerifyOwnership(i),
                                |u: ()|
                                    steps::need(
                                        f.head,
                                        WorkModel::ReadHead(i.worktree_path),
                                        |head: String|
                                            if head@ != i.head_commit {
                                                StepModel::Fail(
                                                    workflow_worktree::ownership_error(
                                                        i.workflow_id,
                                                        "live worktree HEAD does not match the recorded identity"@,
                                                    ),
                                                )
                                            } else {
                                                StepModel::Done(
                                                    CwdModel {
                                                        path: i.worktree_path,
                                                        workflow_id: i.workflow_id,
                                                    },
                                                )
                                            },
                                    ),
                            ),
                        )
                    },
            ),
    )
}

/// The model of adopting committed progress of an owned worktree.
pub open spec fn verify_owned_current_model(
    m: WorkflowWorktreeManager,
    workflow_id: Seq<char>,
    f: WorktreeFacts,
) -> StepModel<(IdentityModel, CwdModel)> {
    locked(
        m,
        workflow_id,
        f,
        |d: RepoDiscovery|
            recorded(
                f,
                workflow_id,
                |r: IdentityModel|
                    same_repository(
                        f,
                        workflow_id,
                        r.common_git_dir,
                        d,
                        steps::need(
                            f.ownership,
                            WorkModel::VerifyOwnership(r),
                            |u: ()|
                                steps::need(
                                    f.head,
                                    WorkModel::ReadHead(r.worktree_path),
                                    |head: String| advanced_head(f, workflow_id, r, head@),
                                ),
                        ),
                    ),
            ),
    )
}

/// Adoption from the live HEAD on: it must still be registered, and must equal
/// or descend from the recorded HEAD.
pub open spec fn advanced_head(
    f: WorktreeFacts,
    workflow_id: Seq<char>,
    r: IdentityModel,
    head: Seq<char>,
) -> StepModel<(IdentityModel, CwdModel)> {
    steps::need_or(
        f.registration,
        WorkModel::VerifyRegistration { path: r.worktree_path, branch: r.branch, commit: head },
        workflow_worktree::ownership_error(
            workflow_id,
            "live git registration changed during ownership verification"@,
        ),
        |u: ()|
            if head == r.head_commit {
                adopted(f, workflow_id, r, head)
            } else {
                steps::need(
                    f.ancestry,
                    WorkModel::CheckAncestry {
                        path: r.worktree_path,
                        ancestor: r.head_commit,
                        descendant: head,
                    },
                    |a: Ancestry|
                        match a {
                            Ancestry::Ancestor => adopted(f, workflow_id, r, head),
                            Ancestry::NotAncestor => StepModel::Fail(
                                workflow_worktree::ownership_error(
                                    workflow_id,
                                    "live worktree HEAD rewound or diverged from the recorded history"@,
                                ),
                            ),
                            Ancestry::Failed(e) => StepModel::Fail(e@),
                        },
                )
            },
    )
}

/// Adoption of a head: the catalog must not have changed meanwhile, and the
/// refreshed identity is recorded before the capability is handed out.
pub open spec fn adopted(
    f: WorktreeFacts,
    workflow_id: Seq<char>,
    r: IdentityModel,
    head: Seq<char>,
) -> StepModel<(IdentityModel, CwdModel)> {
    let refreshed = IdentityModel { head_commit: head, ..r };
    steps::need(
        f.fresh_catalog,
        WorkModel::ReloadCatalog,
        |c: WorktreeCatalog|
            if !c@.contains_key(workflow_id) {
                StepModel::Fail(ErrorModel::NotRegistered(workflow_id))
            } else if !workflow_worktree::same_identity(c@[workflow_id]@, r) {
                StepModel::Fail(
                    workflow_worktree::ownership_error(workflow_id, "ownership catalog changed during verification"@),
                )
            } else {
                saved(
                    f,
                    catalog::catalog_model(c).insert(workflow_id, refreshed),
                    (
                        refreshed,
                        CwdModel { path: r.worktree_path, workflow_id: r.workflow_id },
                    ),
                )
            },
    )
}

// ---------------------------------------------------------------------------
// Inspection and integration
// ---------------------------------------------------------------------------

/// The model of inspecting a registered worktree.
pub open spec fn inspect_model(
    m: WorkflowWorktreeManager,
    workflow_id: Seq<char>,
    f: WorktreeFacts,
) -> StepModel<StatusModel> {
    locked(
        m,
        workflow_id,
        f,
        |d: RepoDiscovery|
            recorded(
                f,
                workflow_id,
                |r: IdentityModel|
                    steps::need(
                        f.ownership,
                        WorkModel::VerifyOwnership(r),
                        |u: ()| inspected(f, r),
                    ),
            ),
    )
}

/// Inspection of an owned worktree.
pub open spec fn inspected(f: WorktreeFacts, r: IdentityModel) -> StepModel<StatusModel> {
    steps::need(
        f.dirty,
        WorkModel::ProbeDirty(r.worktree_path),
        |dirty: bool|
            steps::need(
                f.head,
                WorkModel::ReadHead(r.worktree_path),
                |head: String|
                    steps::need(
                        f.ahead,
                        WorkModel::CountAhead {
                            path: r.worktree_path,
                            base: r.base_commit,
                            head: head@,
                        },
                        |ahead: u64|
                            steps::need(
                                f.changed,
                                WorkModel::ListChanged {
                                    path: r.worktree_path,
                                    base: r.base_commit,
                                },
                                |changed: Vec<String>|
                                    StepModel::Done(
                                        StatusModel {
                                            identity: IdentityModel { head_commit: head@, ..r },
                                            dirty,
                                            ahead_commits: ahead,
                                            changed_files: text::texts(changed@),
                                        },
                                    ),
                            ),
                    ),
            ),
    )
}

/// The model of integrating a workflow's commits into the source.
pub open spec fn integrate_model(
    m: WorkflowWorktreeManager,
    workflow_id: Seq<char>,
    o: IntegrateOptions,
    f: WorktreeFacts,
) -> StepModel<OutcomeModel> {
    locked(
        m,
        workflow_id,
        f,
        |d: RepoDiscovery|
            recorded(
                f,
                workflow_id,
                |r: IdentityModel|
                    steps::need(
                        f.ownership,
                        WorkModel::VerifyOwnership(r),
                        |u: ()| integrated(workflow_id, o, f, d, r),
                    ),
            ),
    )
}

/// Integration of an owned worktree: neither side may hold uncommitted changes,
/// and an integrated head is not merged again.
pub open spec fn integrated(
    workflow_id: Seq<char>,
    o: IntegrateOptions,
    f: WorktreeFacts,
    d: RepoDiscovery,
    r: IdentityModel,
) -> StepModel<OutcomeModel> {
    steps::need(
        f.dirty,
        WorkModel::ProbeDirty(r.worktree_path),
        |dirty: bool|
            if dirty {
                StepModel::Fail(ErrorModel::DirtyWorktree(workflow_id))
            } else if !o.require_clean_base {
                integrated_heads(o, f, d, r)
            } else {
                steps::need(
                    f.source_dirty,
                    WorkModel::ProbeSourceDirty(d.repo_root@),
                    |source_dirty: bool|
                        if source_dirty {
                            StepModel::Fail(ErrorModel::DirtyBase)
                        } else {
                            integrated_heads(o, f, d, r)
                        },
                )
            },
    )
}

/// Integration of clean trees.
pub open spec fn integrated_heads(
    o: IntegrateOptions,
    f: WorktreeFacts,
    d: RepoDiscovery,
    r: IdentityModel,
) -> StepModel<OutcomeModel> {
    steps::need(
        f.head,
        WorkModel::ReadHead(r.worktree_path),
        |head: String|
            steps::need(
                f.source_head,
                WorkModel::ReadSourceHead(d.repo_root@),
                |source_head: String|
                    if head@ == source_head@ {
                        StepModel::Done(
                            OutcomeModel::Applied {
                                strategy: o.strategy,
                                result_commit: head@,
                                merge_commit: None,
                            },
                        )
                    } else {
                        steps::need(
                            f.outcome,
                            WorkModel::Integrate { strategy: o.strategy, identity: r, head: head@ },
                            |outcome: IntegrateOutcome| StepModel::Done(outcome@),
                        )
                    },
            ),
    )
}

// ---------------------------------------------------------------------------
// Removal
// ---------------------------------------------------------------------------

/// The path that a canonicalization gave, or the recorded one where it failed.
pub open spec fn resolved_or(fact: Result<String, WorktreeError>, path: Seq<char>) -> Seq<char> {
    match fact {
        Ok(p) => p@,
        Err(_) => path,
    }
}

/// The model of removing an owned worktree and its branch.
pub open spec fn remove_model(
    m: WorkflowWorktreeManager,
    i: IdentityModel,
    f: WorktreeFacts,
) -> StepModel<()> {
    locked(m, i.workflow_id, f, |d: RepoDiscovery| removed_checked(f, d, i))
}

/// Removal under the lock: source, repository and catalog must all agree.
pub open spec fn removed_checked(
    f: WorktreeFacts,
    d: RepoDiscovery,
    i: IdentityModel,
) -> StepModel<()> {
    match f.recorded_source {
        None => StepModel::Need(WorkModel::CanonicalRecordedSource(i.source_root)),
        Some(source) => if !lexical_path::same_path(
            resolved_or(source, i.source_root),
            d.repo_root@,
        ) {
            StepModel::Fail(
                workflow_worktree::ownership_error(
                    i.workflow_id,
                    "recorded source does not match manager source"@,
                ),
            )
        } else {
            match f.canonical_common {
                None => StepModel::Need(WorkModel::CanonicalCommon(i.common_git_dir)),
                Some(common) => if !lexical_path::same_path(
                    resolved_or(common, i.common_git_dir),
                    d.common_git_dir@,
                ) {
                    StepModel::Fail(
                        workflow_worktree::ownership_error(
                            i.workflow_id,
                            "recorded repository identity does not match manager repository"@,
                        ),
                    )
                } else {
                    recorded(
                        f,
                        i.workflow_id,
                        |r: IdentityModel|
                            if !workflow_worktree::same_identity(r, i) {
                                StepModel::Fail(
                                    workflow_worktree::ownership_error(
                                        i.workflow_id,
                                        "provided identity does not exactly match the ownership catalog"@,
                                    ),
                                )
                            } else {
                                steps::need(
                                    f.ownership,
                                    WorkModel::VerifyOwnership(i),
                                    |u: ()| removed_tree(f, i),
                                )
                            },
                    )
                },
            }
        },
    }
}

/// Removal of the checkout of a verified identity.
pub open spec fn removed_tree(f: WorktreeFacts, i: IdentityModel) -> StepModel<()> {
    steps::need(
        f.registered,
        WorkModel::ProbeRegistered(i.worktree_path),
        |registered: bool|
            match f.present {
                None => StepModel::Need(WorkModel::ProbeCheckout(i.worktree_path)),
                Some(present) => if present && !registered {
                    StepModel::Fail(
                        workflow_worktree::ownership_error(
                            i.workflow_id,
                            "owned path exists but is not the recorded git worktree"@,
                        ),
                    )
                } else if registered {
                    steps::need(
                        f.worktree_removed,
                        WorkModel::RemoveWorktree(i.worktree_path),
                        |u: ()| removed_branch(f, i),
                    )
                } else {
                    removed_branch(f, i)
                },
            },
    )
}

/// Removal of the branch and the catalog entry.
pub open spec fn removed_branch(f: WorktreeFacts, i: IdentityModel) -> StepModel<()> {
    steps::need(
        f.branch_left,
        WorkModel::ProbeBranch(i.branch),
        |left: bool|
            if left {
                steps::need(
                    f.branch_dropped,
                    WorkModel::DropBranch(i.branch),
                    |u: ()| removed_entry(f, i),
                )
            } else {
                removed_entry(f, i)
            },
    )
}

/// Removal of the catalog entry.
pub open spec fn removed_entry(f: WorktreeFacts, i: IdentityModel) -> StepModel<()> {
    steps::need(
        f.fresh_catalog,
        WorkModel::ReloadCatalog,
        |c: WorktreeCatalog|
            steps::need(
                f.saved,
                WorkModel::SaveCatalog(catalog::catalog_model(c).remove(i.workflow_id)),
                |u: ()|
                    steps::need(f.pruned, WorkModel::PruneWorktrees, |v: ()| StepModel::Done(())),
            ),
    )
}

// ---------------------------------------------------------------------------
// Pruning and listing
// ---------------------------------------------------------------------------

/// Whether a catalog entry is stale: foreign to the branch namespace, or gone
/// in every respect.
pub open spec fn entry_stale(i: IdentityModel, probe: Option<EntryProbe>) -> bool {
    !WORKFLOW_BRANCH_PREFIX@.is_prefix_of(i.branch) || (probe is Some && !probe->0.present
        && !probe->0.registered && !probe->0.branch_alive)
}

/// What pruning has found after walking the first `n` keys.
#[verifier::ext_equal]
pub struct PruneModel {
    /// The keys that are dropped.
    pub stale: Seq<Seq<char>>,
    /// How many entries were probed.
    pub probed: nat,
    /// Why the walk cannot go on.
    pub stop: Option<StepModel<Seq<Seq<char>>>>,
}

/// The walk over the first `n` keys of a catalog. An entry in the branch
/// namespace is probed; one outside of it needs no probe.
pub open spec fn prune_walk(
    c: WorktreeCatalog,
    entries: Seq<Result<EntryProbe, WorktreeError>>,
    n: nat,
) -> PruneModel
    decreases n,
{
    if n == 0 {
        PruneModel { stale: Seq::empty(), probed: 0, stop: None }
    } else {
        let before = prune_walk(c, entries, (n - 1) as nat);
        let key = c.keys()[n - 1];
        let identity = c@[key]@;
        if before.stop is Some {
            before
        } else if !WORKFLOW_BRANCH_PREFIX@.is_prefix_of(identity.branch) {
            PruneModel { stale: before.stale.push(key), ..before }
        } else if before.probed >= entries.len() {
            PruneModel { stop: Some(StepModel::Need(WorkModel::ProbeEntry(identity))), ..before }
        } else {
            match entries[before.probed as int] {
                Err(e) => PruneModel { stop: Some(StepModel::Fail(e@)), ..before },
                Ok(probe) => PruneModel {
                    stale: if entry_stale(identity, Some(probe)) {
                        before.stale.push(key)
                    } else {
                        before.stale
                    },
                    probed: before.probed + 1,
                    ..before
                },
            }
        }
    }
}

/// A map without the given keys.
pub open spec fn without<V>(m: Map<Seq<char>, V>, keys: Seq<Seq<char>>) -> Map<Seq<char>, V>
    decreases keys.len(),
{
    if keys.len() == 0 {
        m
    } else {
        without(m, keys.drop_last()).remove(keys.last())
    }
}

/// The model of dropping stale catalog entries.
pub open spec fn prune_model(m: WorkflowWorktreeManager, f: WorktreeFacts) -> StepModel<
    Seq<Seq<char>>,
> {
    discovered(
        m,
        f,
        |d: RepoDiscovery|
            steps::need(
                f.lock,
                WorkModel::Lock(d.common_git_dir@),
                |u: ()|
                    steps::need(
                        f.catalog,
                        WorkModel::LoadCatalog,
                        |c: WorktreeCatalog| pruned(c, f),
                    ),
            ),
    )
}

/// Pruning of a loaded catalog.
pub open spec fn pruned(c: WorktreeCatalog, f: WorktreeFacts) -> StepModel<Seq<Seq<char>>> {
    let walk = prune_walk(c, f.entries@, c.keys().len());
    match walk.stop {
        Some(stop) => stop,
        None => saved(f, without(catalog::catalog_model(c), walk.stale), walk.stale),
    }
}

impl Rank for WorkflowWorktreeIdentity {
    open spec fn before(self, other: Self) -> bool {
        sort::text_before(self.workflow_id@, other.workflow_id@)
    }

    proof fn weak_order(a: Self, b: Self, c: Self) {
        sort::lemma_text_order(a.workflow_id@, b.workflow_id@, c.workflow_id@);
    }
}

impl Ranked for WorkflowWorktreeIdentity {
    fn is_before(&self, other: &Self) -> (r: bool) {
        text_is_before(self.workflow_id.as_str(), other.workflow_id.as_str())
    }
}

/// The identities of a catalog in the order of its keys.
pub open spec fn listed(c: WorktreeCatalog) -> Seq<WorkflowWorktreeIdentity> {
    Seq::new(c.keys().len(), |i: int| c@[c.keys()[i]])
}

/// The model of where pruning stands.
pub open spec fn prune_step(s: WorktreeStep<Vec<String>>) -> StepModel<Seq<Seq<char>>> {
    match s {
        WorktreeStep::Need(w) => StepModel::Need(w@),
        WorktreeStep::Fail(e) => StepModel::Fail(e@),
        WorktreeStep::Done(v) => StepModel::Done(text::texts(v@)),
    }
}

/// The model of listing the catalog by workflow id.
pub open spec fn list_model(m: WorkflowWorktreeManager, f: WorktreeFacts) -> StepModel<
    Seq<WorkflowWorktreeIdentity>,
> {
    discovered(
        m,
        f,
        |d: RepoDiscovery|
            steps::need(
                f.lock,
                WorkModel::Lock(d.common_git_dir@),
                |u: ()|
                    steps::need(
                        f.catalog,
                        WorkModel::LoadCatalog,
                        |c: WorktreeCatalog| StepModel::Done(sort::stable_sorted(listed(c))),
                    ),
            ),
    )
}

// ---------------------------------------------------------------------------
// The manager
// ---------------------------------------------------------------------------

impl WorkflowWorktreeManager {
    /// A manager bound to a trusted source project directory.
    pub fn new(source_cwd: &str) -> (r: Self)
        ensures
            r.source_cwd@ == source_cwd@,
            r.timeout_ms == DEFAULT_GIT_TIMEOUT_MS,
            r.catalog_path_override is None,
    {
        WorkflowWorktreeManager {
            source_cwd: source_cwd.to_owned(),
            timeout_ms: DEFAULT_GIT_TIMEOUT_MS,
            catalog_path_override: None,
        }
    }

    pub fn with_timeout(self, timeout_ms: u64) -> (r: Self)
        ensures
            r == (WorkflowWorktreeManager { timeout_ms, ..self }),
    {
        let mut r = self;
        r.timeout_ms = timeout_ms;
        r
    }

    pub fn with_catalog_path(self, path: &str) -> (r: Self)
        ensures
            r.source_cwd == self.source_cwd,
            r.timeout_ms == self.timeout_ms,
            r.catalog_path_override is Some,
            r.catalog_path_override->0@ == path@,
    {
        let mut r = self;
        r.catalog_path_override = Some(path.to_owned());
        r
    }

    /// The timeout that applies to an operation with an optional override.
    pub fn timeout(&self, override_ms: Option<u64>) -> (r: u64)
        ensures
            r == (match override_ms {
                Some(ms) => ms,
                None => self.timeout_ms,
            }),
    {
        match override_ms {
            Some(ms) => ms,
            None => self.timeout_ms,
        }
    }

    /// Where the catalog of the discovered repository lies.
    pub fn catalog_path(&self, discovery: &RepoDiscovery) -> (r: String)
        ensures
            r@ == (match self.catalog_path_override {
                Some(path) => path@,
                None => store::joined(
                    store::joined(discovery.common_git_dir@, catalog::CATALOG_DIR_NAME@),
                    catalog::CATALOG_FILE_NAME@,
                ),
            }),
    {
        catalog_path(&self.catalog_path_override, discovery)
    }

    /// The discovery, or where it stands.
    fn discovery_gate<'a, T: View>(&self, f: &'a WorktreeFacts) -> (r: Result<
        &'a RepoDiscovery,
        WorktreeStep<T>,
    >)
        ensures
            match r {
                Ok(d) => forall|next: spec_fn(RepoDiscovery) -> StepModel<T::V>|
                    #[trigger] discovered(*self, *f, next) == next(*d),
                Err(step) => forall|next: spec_fn(RepoDiscovery) -> StepModel<T::V>|
                    #[trigger] discovered(*self, *f, next) == step@,
            },
    {
        let source = match &f.canonical_source {
            None => {
                return Err(
                    WorktreeStep::Need(WorktreeWork::CanonicalSource(self.source_cwd.clone())),
                );
            },
            Some(Err(e)) => {
                return Err(WorktreeStep::Fail(e.clone()));
            },
            Some(Ok(source)) => source,
        };
        match &f.discovery {
            None => Err(WorktreeStep::Need(WorktreeWork::Discover(source.clone()))),
            Some(Err(e)) => Err(WorktreeStep::Fail(e.clone())),
            Some(Ok(d)) => Ok(d),
        }
    }

    /// The discovery under the lock, or where it stands.
    fn lock_gate<'a, T: View>(&self, workflow_id: &str, f: &'a WorktreeFacts) -> (r: Result<
        &'a RepoDiscovery,
        WorktreeStep<T>,
    >)
        ensures
            match r {
                Ok(d) => forall|next: spec_fn(RepoDiscovery) -> StepModel<T::V>|
                    #[trigger] locked(*self, workflow_id@, *f, next) == next(*d),
                Err(step) => forall|next: spec_fn(RepoDiscovery) -> StepModel<T::V>|
                    #[trigger] locked(*self, workflow_id@, *f, next) == step@,
            },
    {
        if !is_valid_id(workflow_id) {
            return Err(
                WorktreeStep::Fail(WorktreeError::InvalidWorkflowId(workflow_id.to_owned())),
            );
        }
        let d = match self.discovery_gate::<T>(f) {
            Err(step) => {
                return Err(step);
            },
            Ok(d) => d,
        };
        match &f.lock {
            None => Err(WorktreeStep::Need(WorktreeWork::Lock(d.common_git_dir.clone()))),
            Some(Err(e)) => Err(WorktreeStep::Fail(e.clone())),
            Some(Ok(_)) => Ok(d),
        }
    }

    /// The recorded identity of a workflow, or where finding it stands.
    fn record_gate<'a, T: View>(workflow_id: &str, f: &'a WorktreeFacts) -> (r: Result<
        &'a WorkflowWorktreeIdentity,
        WorktreeStep<T>,
    >)
        ensures
            match r {
                Ok(i) => forall|next: spec_fn(IdentityModel) -> StepModel<T::V>|
                    #[trigger] recorded(*f, workflow_id@, next) == next(i@),
                Err(step) => forall|next: spec_fn(IdentityModel) -> StepModel<T::V>|
                    #[trigger] recorded(*f, workflow_id@, next) == step@,
            },
    {
        match &f.catalog {
            None => Err(WorktreeStep::Need(WorktreeWork::LoadCatalog)),
            Some(Err(e)) => Err(WorktreeStep::Fail(e.clone())),
            Some(Ok(c)) => match c.get(workflow_id) {
                Some(i) => Ok(i),
                None => Err(
                    WorktreeStep::Fail(WorktreeError::NotRegistered(workflow_id.to_owned())),
                ),
            },
        }
    }

    /// Nothing where a recorded repository is the manager's own, or where
    /// checking it stands.
    fn repository_gate<T: View>(
        workflow_id: &str,
        common_git_dir: &str,
        d: &RepoDiscovery,
        f: &WorktreeFacts,
    ) -> (r: Result<(), WorktreeStep<T>>)
        ensures
            match r {
                Ok(_) => forall|next: StepModel<T::V>|
                    #[trigger] same_repository(*f, workflow_id@, common_git_dir@, *d, next) == next,
                Err(step) => forall|next: StepModel<T::V>|
                    #[trigger] same_repository(*f, workflow_id@, common_git_dir@, *d, next)
                        == step@,
            },
    {
        match &f.canonical_common {
            None => Err(
                WorktreeStep::Need(WorktreeWork::CanonicalCommon(common_git_dir.to_owned())),
            ),
            Some(Err(_)) => Err(
                WorktreeStep::Fail(
                    WorktreeError::ownership(workflow_id, "repository identity is unavailable"),
                ),
            ),
            Some(Ok(common)) => {
                if !paths_agree(common.as_str(), d.common_git_dir.as_str()) {
                    Err(
                        WorktreeStep::Fail(
                            WorktreeError::ownership(
                                workflow_id,
                                "recorded repository identity does not match manager repository",
                            ),
                        ),
                    )
                } else {
                    Ok(())
                }
            },
        }
    }

    /// Discovers the canonical repository root, common git directory and HEAD.
    pub fn discover(&self, f: &WorktreeFacts) -> (r: WorktreeStep<RepoDiscovery>)
        ensures
            r@ == discovered(*self, *f, |d: RepoDiscovery| StepModel::Done(d)),
    {
        match self.discovery_gate::<RepoDiscovery>(f) {
            Err(step) => step,
            Ok(d) => WorktreeStep::Done(d.clone()),
        }
    }

    /// Creates an isolated worktree and branch for `workflow_id`.
    pub fn create(
        &self,
        workflow_id: &str,
        options: &CreateWorktreeOptions,
        f: &WorktreeFacts,
    ) -> (r: WorktreeStep<WorkflowWorktreeIdentity>)
        ensures
            r@ == create_model(*self, workflow_id@, *options, *f),
    {
        if !is_valid_id(workflow_id) {
            return WorktreeStep::Fail(WorktreeError::InvalidWorkflowId(workflow_id.to_owned()));
        }
        let d = match self.discovery_gate::<WorkflowWorktreeIdentity>(f) {
            Err(step) => {
                return step;
            },
            Ok(d) => d,
        };
        let root = match &f.managed_root {
            None => {
                return WorktreeStep::Need(
                    WorktreeWork::PrepareManagedRoot(options.managed_root.clone()),
                );
            },
            Some(Err(e)) => {
                return WorktreeStep::Fail(e.clone());
            },
            Some(Ok(root)) => root,
        };
        match &f.outside {
            None => {
                return WorktreeStep::Need(
                    WorktreeWork::CheckOutside {
                        managed: root.clone(),
                        source: d.repo_root.clone(),
                    },
                );
            },
            Some(Err(detail)) => {
                return WorktreeStep::Fail(
                    WorktreeError::Other(
                        "managed root must not be inside the source worktree: ".to_owned().concat(
                            detail.as_str(),
                        ),
                    ),
                );
            },
            Some(Ok(_)) => {},
        }
        match &f.lock {
            None => {
                return WorktreeStep::Need(WorktreeWork::Lock(d.common_git_dir.clone()));
            },
            Some(Err(e)) => {
                return WorktreeStep::Fail(e.clone());
            },
            Some(Ok(_)) => {},
        }
        let base = match &options.base_commit {
            None => &d.head_commit,
            Some(revision) => match &f.base_commit {
                None => {
                    return WorktreeStep::Need(WorktreeWork::ResolveCommit(revision.clone()));
                },
                Some(Err(e)) => {
                    return WorktreeStep::Fail(e.clone());
                },
                Some(Ok(base)) => base,
            },
        };
        self.create_from(workflow_id, root.as_str(), base.as_str(), d, f)
    }

    fn create_from(
        &self,
        workflow_id: &str,
        root: &str,
        base: &str,
        d: &RepoDiscovery,
        f: &WorktreeFacts,
    ) -> (r: WorktreeStep<WorkflowWorktreeIdentity>)
        ensures
            r@ == created_from(workflow_id@, *f, *d, root@, base@),
    {
        let location = join_path(join_path(root, WORKTREE_ROOT_DIR_NAME).as_str(), workflow_id);
        let branch = match &f.branch {
            None => {
                return WorktreeStep::Need(WorktreeWork::AllocateBranch(workflow_id.to_owned()));
            },
            Some(Err(e)) => {
                return WorktreeStep::Fail(e.clone());
            },
            Some(Ok(branch)) => branch,
        };
        match f.occupied {
            None => {
                return WorktreeStep::Need(WorktreeWork::ProbeLocation(location));
            },
            Some(occupied) => {
                if occupied {
                    return WorktreeStep::Fail(
                        WorktreeError::Other(
                            "managed worktree location already exists for workflow ".to_owned().concat(
                            workflow_id),
                        ),
                    );
                }
            },
        }
        match &f.parent {
            None => {
                return WorktreeStep::Need(WorktreeWork::MakeParent(location));
            },
            Some(Err(error)) => {
                return WorktreeStep::Fail(
                    WorktreeError::Other(
                        "creating managed worktree parent for workflow ".to_owned().concat(
                            workflow_id,
                        ).concat(": ").concat(error.as_str()),
                    ),
                );
            },
            Some(Ok(_)) => {},
        }
        match &f.branch_made {
            None => WorktreeStep::Need(
                WorktreeWork::MakeBranch { branch: branch.clone(), commit: base.to_owned() },
            ),
            Some(Err(e)) => WorktreeStep::Fail(e.clone()),
            Some(Ok(_)) => self.create_branch(workflow_id, location, branch.as_str(), base, d, f),
        }
    }

    fn create_branch(
        &self,
        workflow_id: &str,
        location: String,
        branch: &str,
        base: &str,
        d: &RepoDiscovery,
        f: &WorktreeFacts,
    ) -> (r: WorktreeStep<WorkflowWorktreeIdentity>)
        ensures
            r@ == created_branch(workflow_id@, *f, *d, location@, branch@, base@),
    {
        match &f.worktree_made {
            None => {
                return WorktreeStep::Need(
                    WorktreeWork::AddWorktree { path: location, branch: branch.to_owned() },
                );
            },
            Some(Err(error)) => {
                let left = match &f.branch_left {
                    None => {
                        return WorktreeStep::Need(WorktreeWork::ProbeBranch(branch.to_owned()));
                    },
                    Some(Err(e)) => {
                        return WorktreeStep::Fail(e.clone());
                    },
                    Some(Ok(left)) => *left,
                };
                if left {
                    match &f.branch_dropped {
                        None => {
                            return WorktreeStep::Need(WorktreeWork::DropBranch(branch.to_owned()));
                        },
                        Some(Err(e)) => {
                            return WorktreeStep::Fail(e.clone());
                        },
                        Some(Ok(_)) => {},
                    }
                }
                return WorktreeStep::Fail(error.clone());
            },
            Some(Ok(_)) => {},
        }
        let path = match &f.checkout {
            None => {
                return WorktreeStep::Need(WorktreeWork::CanonicalCheckout(location));
            },
            Some(Err(e)) => {
                return WorktreeStep::Fail(e.clone());
            },
            Some(Ok(path)) => path,
        };
        match &f.registration {
            None => {
                return WorktreeStep::Need(
                    WorktreeWork::VerifyRegistration {
                        path: path.clone(),
                        branch: branch.to_owned(),
                        commit: base.to_owned(),
                    },
                );
            },
            Some(Err(e)) => {
                return WorktreeStep::Fail(e.clone());
            },
            Some(Ok(_)) => {},
        }
        let head = match &f.head {
            None => {
                return WorktreeStep::Need(WorktreeWork::ReadHead(path.clone()));
            },
            Some(Err(e)) => {
                return WorktreeStep::Fail(e.clone());
            },
            Some(Ok(head)) => head,
        };
        let now_ms: u64 = match f.now_ms {
            None => {
                return WorktreeStep::Need(WorktreeWork::Now);
            },
            Some(now_ms) => now_ms,
        };
        let identity = WorkflowWorktreeIdentity {
            workflow_id: workflow_id.to_owned(),
            source_root: d.repo_root.clone(),
            common_git_dir: d.common_git_dir.clone(),
            worktree_path: path.clone(),
            branch: branch.to_owned(),
            base_commit: base.to_owned(),
            head_commit: head.clone(),
            created_at_ms: now_ms,
        };
        let fresh = match &f.fresh_catalog {
            None => {
                return WorktreeStep::Need(WorktreeWork::ReloadCatalog);
            },
            Some(Err(e)) => {
                return WorktreeStep::Fail(e.clone());
            },
            Some(Ok(c)) => c,
        };
        match &f.saved {
            None => {
                let mut c = fresh.copied();
                let ghost before = c;
                c.insert(workflow_id.to_owned(), identity.clone());
                assert(catalog::catalog_model(c) =~= catalog::catalog_model(*fresh).insert(
                    workflow_id@,
                    identity@,
                ));
                WorktreeStep::Need(WorktreeWork::SaveCatalog(c))
            },
            Some(Err(e)) => WorktreeStep::Fail(e.clone()),
            Some(Ok(_)) => WorktreeStep::Done(identity),
        }
    }

    /// Verifies exact catalog ownership and live git registration, then mints a
    /// capability for the workflow checkout.
    pub fn verify_owned(&self, identity: &WorkflowWorktreeIdentity, f: &WorktreeFacts) -> (r:
        WorktreeStep<TrustedWorkflowCwd>)
        ensures
            r@ == verify_owned_model(*self, identity@, *f),
    {
        let id = identity.workflow_id.as_str();
        let d = match self.lock_gate::<TrustedWorkflowCwd>(id, f) {
            Err(step) => {
                return step;
            },
            Ok(d) => d,
        };
        let recorded_identity = match Self::record_gate::<TrustedWorkflowCwd>(id, f) {
            Err(step) => {
                return step;
            },
            Ok(i) => i,
        };
        if !recorded_identity.same_as(identity) {
            return WorktreeStep::Fail(
                WorktreeError::ownership(
                    id,
                    "provided identity does not exactly match the ownership catalog",
                ),
            );
        }
        match Self::repository_gate::<TrustedWorkflowCwd>(
            id,
            identity.common_git_dir.as_str(),
            d,
            f,
        ) {
            Err(step) => {
                return step;
            },
            Ok(_) => {},
        }
        match &f.ownership {
            None => {
                return WorktreeStep::Need(WorktreeWork::VerifyOwnership(identity.clone()));
            },
            Some(Err(e)) => {
                return WorktreeStep::Fail(e.clone());
            },
            Some(Ok(_)) => {},
        }
        match &f.head {
            None => WorktreeStep::Need(WorktreeWork::ReadHead(identity.worktree_path.clone())),
            Some(Err(e)) => WorktreeStep::Fail(e.clone()),
            Some(Ok(head)) => {
                if !same_text(head.as_str(), identity.head_commit.as_str()) {
                    WorktreeStep::Fail(
                        WorktreeError::ownership(
                            id,
                            "live worktree HEAD does not match the recorded identity",
                        ),
                    )
                } else {
                    WorktreeStep::Done(
                        TrustedWorkflowCwd::mint(identity.worktree_path.as_str(), id),
                    )
                }
            },
        }
    }

    /// Refreshes an owned worktree after committed progress and mints a
    /// capability. The live HEAD may only equal or descend from the recorded
    /// one.
    pub fn verify_owned_current(&self, workflow_id: &str, f: &WorktreeFacts) -> (r: WorktreeStep<
        (WorkflowWorktreeIdentity, TrustedWorkflowCwd),
    >)
        ensures
            r@ == verify_owned_current_model(*self, workflow_id@, *f),
    {
        let d = match self.lock_gate::<(WorkflowWorktreeIdentity, TrustedWorkflowCwd)>(
            workflow_id,
            f,
        ) {
            Err(step) => {
                return step;
            },
            Ok(d) => d,
        };
        let i = match Self::record_gate::<(WorkflowWorktreeIdentity, TrustedWorkflowCwd)>(
            workflow_id,
            f,
        ) {
            Err(step) => {
                return step;
            },
            Ok(i) => i,
        };
        match Self::repository_gate::<(WorkflowWorktreeIdentity, TrustedWorkflowCwd)>(
            workflow_id,
            i.common_git_dir.as_str(),
            d,
            f,
        ) {
            Err(step) => {
                return step;
            },
            Ok(_) => {},
        }
        match &f.ownership {
            None => {
                return WorktreeStep::Need(WorktreeWork::VerifyOwnership(i.clone()));
            },
            Some(Err(e)) => {
                return WorktreeStep::Fail(e.clone());
            },
            Some(Ok(_)) => {},
        }
        match &f.head {
            None => WorktreeStep::Need(WorktreeWork::ReadHead(i.worktree_path.clone())),
            Some(Err(e)) => WorktreeStep::Fail(e.clone()),
            Some(Ok(head)) => self.advance_head(workflow_id, i, head.as_str(), f),
        }
    }

    fn advance_head(
        &self,
        workflow_id: &str,
        i: &WorkflowWorktreeIdentity,
        head: &str,
        f: &WorktreeFacts,
    ) -> (r: WorktreeStep<(WorkflowWorktreeIdentity, TrustedWorkflowCwd)>)
        ensures
            r@ == advanced_head(*f, workflow_id@, i@, head@),
    {
        match &f.registration {
            None => {
                return WorktreeStep::Need(
                    WorktreeWork::VerifyRegistration {
                        path: i.worktree_path.clone(),
                        branch: i.branch.clone(),
                        commit: head.to_owned(),
                    },
                );
            },
            Some(Err(_)) => {
                return WorktreeStep::Fail(
                    WorktreeError::ownership(
                        workflow_id,
                        "live git registration changed during ownership verification",
                    ),
                );
            },
            Some(Ok(_)) => {},
        }
        if !same_text(head, i.head_commit.as_str()) {
            match &f.ancestry {
                None => {
                    return WorktreeStep::Need(
                        WorktreeWork::CheckAncestry {
                            path: i.worktree_path.clone(),
                            ancestor: i.head_commit.clone(),
                            descendant: head.to_owned(),
                        },
                    );
                },
                Some(Err(e)) => {
                    return WorktreeStep::Fail(e.clone());
                },
                Some(Ok(Ancestry::NotAncestor)) => {
                    return WorktreeStep::Fail(
                        WorktreeError::ownership(
                            workflow_id,
                            "live worktree HEAD rewound or diverged from the recorded history",
                        ),
                    );
                },
                Some(Ok(Ancestry::Failed(e))) => {
                    return WorktreeStep::Fail(e.clone());
                },
                Some(Ok(Ancestry::Ancestor)) => {},
            }
        }
        let fresh = match &f.fresh_catalog {
            None => {
                return WorktreeStep::Need(WorktreeWork::ReloadCatalog);
            },
            Some(Err(e)) => {
                return WorktreeStep::Fail(e.clone());
            },
            Some(Ok(c)) => c,
        };
        match fresh.get(workflow_id) {
            None => {
                return WorktreeStep::Fail(WorktreeError::NotRegistered(workflow_id.to_owned()));
            },
            Some(current) => {
                if !current.same_as(i) {
                    return WorktreeStep::Fail(
                        WorktreeError::ownership(
                            workflow_id,
                            "ownership catalog changed during verification",
                        ),
                    );
                }
            },
        }
        let mut refreshed = i.clone();
        refreshed.head_commit = head.to_owned();
        match &f.saved {
            None => {
                let mut c = fresh.copied();
                c.insert(workflow_id.to_owned(), refreshed.clone());
                assert(catalog::catalog_model(c) =~= catalog::catalog_model(*fresh).insert(
                    workflow_id@,
                    refreshed@,
                ));
                WorktreeStep::Need(WorktreeWork::SaveCatalog(c))
            },
            Some(Err(e)) => WorktreeStep::Fail(e.clone()),
            Some(Ok(_)) => {
                let cwd = TrustedWorkflowCwd::mint(
                    i.worktree_path.as_str(),
                    i.workflow_id.as_str(),
                );
                WorktreeStep::Done((refreshed, cwd))
            },
        }
    }

    /// Inspects a registered worktree: dirty state, ahead commits, changed
    /// files.
    pub fn inspect(&self, workflow_id: &str, f: &WorktreeFacts) -> (r: WorktreeStep<
        WorkflowWorktreeStatus,
    >)
        ensures
            r@ == inspect_model(*self, workflow_id@, *f),
    {
        match self.lock_gate::<WorkflowWorktreeStatus>(workflow_id, f) {
            Err(step) => {
                return step;
            },
            Ok(_) => {},
        }
        let i = match Self::record_gate::<WorkflowWorktreeStatus>(workflow_id, f) {
            Err(step) => {
                return step;
            },
            Ok(i) => i,
        };
        match &f.ownership {
            None => {
                return WorktreeStep::Need(WorktreeWork::VerifyOwnership(i.clone()));
            },
            Some(Err(e)) => {
                return WorktreeStep::Fail(e.clone());
            },
            Some(Ok(_)) => {},
        }
        let dirty = match &f.dirty {
            None => {
                return WorktreeStep::Need(WorktreeWork::ProbeDirty(i.worktree_path.clone()));
            },
            Some(Err(e)) => {
                return WorktreeStep::Fail(e.clone());
            },
            Some(Ok(dirty)) => *dirty,
        };
        let head = match &f.head {
            None => {
                return WorktreeStep::Need(WorktreeWork::ReadHead(i.worktree_path.clone()));
            },
            Some(Err(e)) => {
                return WorktreeStep::Fail(e.clone());
            },
            Some(Ok(head)) => head,
        };
        let ahead_commits: u64 = match &f.ahead {
            None => {
                return WorktreeStep::Need(
                    WorktreeWork::CountAhead {
                        path: i.worktree_path.clone(),
                        base: i.base_commit.clone(),
                        head: head.clone(),
                    },
                );
            },
            Some(Err(e)) => {
                return WorktreeStep::Fail(e.clone());
            },
            Some(Ok(ahead)) => *ahead,
        };
        match &f.changed {
            None => WorktreeStep::Need(
                WorktreeWork::ListChanged {
                    path: i.worktree_path.clone(),
                    base: i.base_commit.clone(),
                },
            ),
            Some(Err(e)) => WorktreeStep::Fail(e.clone()),
            Some(Ok(changed)) => {
                let mut identity = i.clone();
                identity.head_commit = head.clone();
                WorktreeStep::Done(
                    WorkflowWorktreeStatus {
                        identity,
                        dirty,
                        ahead_commits,
                        changed_files: clone_texts(changed),
                    },
                )
            },
        }
    }

    /// Integrates workflow changes into the source worktree. A conflict leaves
    /// the worktree and its branch intact.
    pub fn integrate(&self, workflow_id: &str, options: &IntegrateOptions, f: &WorktreeFacts) -> (r:
        WorktreeStep<IntegrateOutcome>)
        ensures
            r@ == integrate_model(*self, workflow_id@, *options, *f),
    {
        let d = match self.lock_gate::<IntegrateOutcome>(workflow_id, f) {
            Err(step) => {
                return step;
            },
            Ok(d) => d,
        };
        let i = match Self::record_gate::<IntegrateOutcome>(workflow_id, f) {
            Err(step) => {
                return step;
            },
            Ok(i) => i,
        };
        match &f.ownership {
            None => {
                return WorktreeStep::Need(WorktreeWork::VerifyOwnership(i.clone()));
            },
            Some(Err(e)) => {
                return WorktreeStep::Fail(e.clone());
            },
            Some(Ok(_)) => {},
        }
        match &f.dirty {
            None => {
                return WorktreeStep::Need(WorktreeWork::ProbeDirty(i.worktree_path.clone()));
            },
            Some(Err(e)) => {
                return WorktreeStep::Fail(e.clone());
            },
            Some(Ok(dirty)) => {
                if *dirty {
                    return WorktreeStep::Fail(
                        WorktreeError::DirtyWorktree(workflow_id.to_owned()),
                    );
                }
            },
        }
        if options.require_clean_base {
            match &f.source_dirty {
                None => {
                    return WorktreeStep::Need(
                        WorktreeWork::ProbeSourceDirty(d.repo_root.clone()),
                    );
                },
                Some(Err(e)) => {
                    return WorktreeStep::Fail(e.clone());
                },
                Some(Ok(dirty)) => {
                    if *dirty {
                        return WorktreeStep::Fail(WorktreeError::DirtyBase);
                    }
                },
            }
        }
        let head = match &f.head {
            None => {
                return WorktreeStep::Need(WorktreeWork::ReadHead(i.worktree_path.clone()));
            },
            Some(Err(e)) => {
                return WorktreeStep::Fail(e.clone());
            },
            Some(Ok(head)) => head,
        };
        match &f.source_head {
            None => {
                return WorktreeStep::Need(WorktreeWork::ReadSourceHead(d.repo_root.clone()));
            },
            Some(Err(e)) => {
                return WorktreeStep::Fail(e.clone());
            },
            Some(Ok(source_head)) => {
                if same_text(head.as_str(), source_head.as_str()) {
                    return WorktreeStep::Done(
                        IntegrateOutcome::Applied {
                            strategy: options.strategy,
                            result_commit: head.clone(),
                            merge_commit: None,
                        },
                    );
                }
            },
        }
        match &f.outcome {
            None => WorktreeStep::Need(
                WorktreeWork::Integrate {
                    strategy: options.strategy,
                    identity: i.clone(),
                    head: head.clone(),
                },
            ),
            Some(Err(e)) => WorktreeStep::Fail(e.clone()),
            Some(Ok(outcome)) => WorktreeStep::Done(outcome.clone()),
        }
    }

    /// Removes a manager-owned worktree and its branch. Foreign identities fail
    /// closed.
    pub fn remove(&self, identity: &WorkflowWorktreeIdentity, f: &WorktreeFacts) -> (r:
        WorktreeStep<()>)
        ensures
            r@ == remove_model(*self, identity@, *f),
    {
        let id = identity.workflow_id.as_str();
        let d = match self.lock_gate::<()>(id, f) {
            Err(step) => {
                return step;
            },
            Ok(d) => d,
        };
        let source = match &f.recorded_source {
            None => {
                return WorktreeStep::Need(
                    WorktreeWork::CanonicalRecordedSource(identity.source_root.clone()),
                );
            },
            Some(Ok(source)) => source,
            Some(Err(_)) => &identity.source_root,
        };
        if !paths_agree(source.as_str(), d.repo_root.as_str()) {
            return WorktreeStep::Fail(
                WorktreeError::ownership(id, "recorded source does not match manager source"),
            );
        }
        let common = match &f.canonical_common {
            None => {
                return WorktreeStep::Need(
                    WorktreeWork::CanonicalCommon(identity.common_git_dir.clone()),
                );
            },
            Some(Ok(common)) => common,
            Some(Err(_)) => &identity.common_git_dir,
        };
        if !paths_agree(common.as_str(), d.common_git_dir.as_str()) {
            return WorktreeStep::Fail(
                WorktreeError::ownership(
                    id,
                    "recorded repository identity does not match manager repository",
                ),
            );
        }
        let recorded_identity = match Self::record_gate::<()>(id, f) {
            Err(step) => {
                return step;
            },
            Ok(i) => i,
        };
        if !recorded_identity.same_as(identity) {
            return WorktreeStep::Fail(
                WorktreeError::ownership(
                    id,
                    "provided identity does not exactly match the ownership catalog",
                ),
            );
        }
        match &f.ownership {
            None => WorktreeStep::Need(WorktreeWork::VerifyOwnership(identity.clone())),
            Some(Err(e)) => WorktreeStep::Fail(e.clone()),
            Some(Ok(_)) => self.remove_tree(identity, f),
        }
    }

    fn remove_tree(&self, identity: &WorkflowWorktreeIdentity, f: &WorktreeFacts) -> (r:
        WorktreeStep<()>)
        ensures
            r@ == removed_tree(*f, identity@),
    {
        let registered = match &f.registered {
            None => {
                return WorktreeStep::Need(
                    WorktreeWork::ProbeRegistered(identity.worktree_path.clone()),
                );
            },
            Some(Err(e)) => {
                return WorktreeStep::Fail(e.clone());
            },
            Some(Ok(registered)) => *registered,
        };
        let present = match f.present {
            None => {
                return WorktreeStep::Need(
                    WorktreeWork::ProbeCheckout(identity.worktree_path.clone()),
                );
            },
            Some(present) => present,
        };
        if present && !registered {
            return WorktreeStep::Fail(
                WorktreeError::ownership(
                    identity.workflow_id.as_str(),
                    "owned path exists but is not the recorded git worktree",
                ),
            );
        }
        if registered {
            match &f.worktree_removed {
                None => {
                    return WorktreeStep::Need(
                        WorktreeWork::RemoveWorktree(identity.worktree_path.clone()),
                    );
                },
                Some(Err(e)) => {
                    return WorktreeStep::Fail(e.clone());
                },
                Some(Ok(_)) => {},
            }
        }
        let left = match &f.branch_left {
            None => {
                return WorktreeStep::Need(WorktreeWork::ProbeBranch(identity.branch.clone()));
            },
            Some(Err(e)) => {
                return WorktreeStep::Fail(e.clone());
            },
            Some(Ok(left)) => *left,
        };
        if left {
            match &f.branch_dropped {
                None => {
                    return WorktreeStep::Need(WorktreeWork::DropBranch(identity.branch.clone()));
                },
                Some(Err(e)) => {
                    return WorktreeStep::Fail(e.clone());
                },
                Some(Ok(_)) => {},
            }
        }
        let fresh = match &f.fresh_catalog {
            None => {
                return WorktreeStep::Need(WorktreeWork::ReloadCatalog);
            },
            Some(Err(e)) => {
                return WorktreeStep::Fail(e.clone());
            },
            Some(Ok(c)) => c,
        };
        match &f.saved {
            None => {
                let mut c = fresh.copied();
                c.remove(identity.workflow_id.as_str());
                assert(catalog::catalog_model(c) =~= catalog::catalog_model(*fresh).remove(
                    identity@.workflow_id,
                ));
                return WorktreeStep::Need(WorktreeWork::SaveCatalog(c));
            },
            Some(Err(e)) => {
                return WorktreeStep::Fail(e.clone());
            },
            Some(Ok(_)) => {},
        }
        match &f.pruned {
            None => WorktreeStep::Need(WorktreeWork::PruneWorktrees),
            Some(Err(e)) => WorktreeStep::Fail(e.clone()),
            Some(Ok(_)) => WorktreeStep::Done(()),
        }
    }

    /// Drops catalog entries whose worktree and branch no longer exist, and
    /// gives back their workflow ids. Live foreign worktrees are not touched.
    pub fn prune_stale(&self, f: &WorktreeFacts) -> (r: WorktreeStep<Vec<String>>)
        ensures
            prune_step(r) == prune_model(*self, *f),
    {
        let source = match &f.canonical_source {
            None => {
                return WorktreeStep::Need(WorktreeWork::CanonicalSource(self.source_cwd.clone()));
            },
            Some(Err(e)) => {
                return WorktreeStep::Fail(e.clone());
            },
            Some(Ok(source)) => source,
        };
        let d = match &f.discovery {
            None => {
                return WorktreeStep::Need(WorktreeWork::Discover(source.clone()));
            },
            Some(Err(e)) => {
                return WorktreeStep::Fail(e.clone());
            },
            Some(Ok(d)) => d,
        };
        match &f.lock {
            None => {
                return WorktreeStep::Need(WorktreeWork::Lock(d.common_git_dir.clone()));
            },
            Some(Err(e)) => {
                return WorktreeStep::Fail(e.clone());
            },
            Some(Ok(_)) => {},
        }
        match &f.catalog {
            None => WorktreeStep::Need(WorktreeWork::LoadCatalog),
            Some(Err(e)) => WorktreeStep::Fail(e.clone()),
            Some(Ok(c)) => self.prune_catalog(c, f),
        }
    }

    fn prune_catalog(&self, c: &WorktreeCatalog, f: &WorktreeFacts) -> (r: WorktreeStep<Vec<String>>)
        ensures
            prune_step(r) == pruned(*c, *f),
    {
        let n: usize = c.len();
        let mut stale: Vec<String> = Vec::new();
        let mut probed: usize = 0;
        let mut i: usize = 0;
        assert(text::texts(stale@) =~= Seq::<Seq<char>>::empty());
        while i < n
            invariant
                i <= n == c.keys().len(),
                prune_walk(*c, f.entries@, i as nat) == (PruneModel {
                    stale: text::texts(stale@),
                    probed: probed as nat,
                    stop: None,
                }),
                probed <= i,
            decreases n - i,
        {
            let identity = c.value(i);
            proof {
                lemma_walk_stops(*c, f.entries@, i + 1, n as nat);
            }
            if !starts_with(identity.branch.as_str(), WORKFLOW_BRANCH_PREFIX) {
                text::push_text(&mut stale, c.key(i));
            } else {
                if probed >= f.entries.len() {
                    return WorktreeStep::Need(WorktreeWork::ProbeEntry(identity.clone()));
                }
                match &f.entries[probed] {
                    Err(e) => {
                        return WorktreeStep::Fail(e.clone());
                    },
                    Ok(probe) => {
                        if !probe.present && !probe.registered && !probe.branch_alive {
                            text::push_text(&mut stale, c.key(i));
                        }
                        probed += 1;
                    },
                }
            }
            i += 1;
        }
        match &f.saved {
            None => {
                let mut kept = c.copied();
                let mut j: usize = 0;
                assert(text::texts(stale@).take(0) =~= Seq::<Seq<char>>::empty());
                while j < stale.len()
                    invariant
                        j <= stale@.len(),
                        catalog::catalog_model(kept) == without(
                            catalog::catalog_model(*c),
                            text::texts(stale@).take(j as int),
                        ),
                    decreases stale@.len() - j,
                {
                    let ghost before = kept;
                    kept.remove(stale[j].as_str());
                    proof {
                        let keys = text::texts(stale@);
                        assert(keys.take(j + 1).drop_last() =~= keys.take(j as int));
                        assert(keys.take(j + 1).last() == stale@[j as int]@);
                        assert(catalog::catalog_model(kept) =~= catalog::catalog_model(
                            before,
                        ).remove(stale@[j as int]@));
                    }
                    j += 1;
                }
                assert(text::texts(stale@).take(stale@.len() as int) =~= text::texts(stale@));
                WorktreeStep::Need(WorktreeWork::SaveCatalog(kept))
            },
            Some(Err(e)) => WorktreeStep::Fail(e.clone()),
            Some(Ok(_)) => WorktreeStep::Done(stale),
        }
    }

    /// Lists the identities that the catalog records, by workflow id.
    pub fn list(&self, f: &WorktreeFacts) -> (r: WorktreeStep<Vec<WorkflowWorktreeIdentity>>)
        ensures
            r@ == list_model(*self, *f),
    {
        let d = match self.discovery_gate::<Vec<WorkflowWorktreeIdentity>>(f) {
            Err(step) => {
                return step;
            },
            Ok(d) => d,
        };
        match &f.lock {
            None => {
                return WorktreeStep::Need(WorktreeWork::Lock(d.common_git_dir.clone()));
            },
            Some(Err(e)) => {
                return WorktreeStep::Fail(e.clone());
            },
            Some(Ok(_)) => {},
        }
        let c = match &f.catalog {
            None => {
                return WorktreeStep::Need(WorktreeWork::LoadCatalog);
            },
            Some(Err(e)) => {
                return WorktreeStep::Fail(e.clone());
            },
            Some(Ok(c)) => c,
        };
        let n: usize = c.len();
        let mut entries: Vec<WorkflowWorktreeIdentity> = Vec::new();
        let mut i: usize = 0;
        while i < n
            invariant
                i <= n == c.keys().len(),
                entries@ == listed(*c).take(i as int),
            decreases n - i,
        {
            entries.push(c.value(i).clone());
            assert(listed(*c).take(i as int).push(listed(*c)[i as int]) =~= listed(*c).take(i + 1));
            i += 1;
        }
        assert(listed(*c).take(n as int) =~= listed(*c));
        stable_sort(&mut entries);
        WorktreeStep::Done(entries)
    }
}

proof fn lemma_walk_stops(
    c: WorktreeCatalog,
    entries: Seq<Result<EntryProbe, WorktreeError>>,
    at: int,
    n: nat,
)
    requires
        0 <= at <= n,
    ensures
        prune_walk(c, entries, at as nat).stop is Some ==> prune_walk(c, entries, n) == prune_walk(
            c,
            entries,
            at as nat,
        ),
    decreases n,
{
    if at < n {
        lemma_walk_stops(c, entries, at, (n - 1) as nat);
    }
}

// ---------------------------------------------------------------------------
// Laws
// ---------------------------------------------------------------------------

/// A capability is only minted for the identity that the catalog records
/// exactly, in the manager's own repository, with a live HEAD equal to the
/// recorded one.
pub proof fn law_capability_needs_exact_ownership(
    m: WorkflowWorktreeManager,
    i: IdentityModel,
    f: WorktreeFacts,
    cwd: CwdModel,
)
    requires
        verify_owned_model(m, i, f) == StepModel::Done(cwd),
    ensures
        store::valid_id(i.workflow_id),
        cwd == (CwdModel { path: i.worktree_path, workflow_id: i.workflow_id }),
        f.lock matches Some(Ok(_)),
        f.catalog matches Some(Ok(c)) && c@.contains_key(i.workflow_id)
            && workflow_worktree::same_identity(c@[i.workflow_id]@, i),
        f.discovery matches Some(Ok(d)) && f.canonical_common matches Some(Ok(common))
            && lexical_path::same_path(common@, d.common_git_dir@),
        f.ownership matches Some(Ok(_)),
        f.head matches Some(Ok(head)) && head@ == i.head_commit,
{
}

/// Adopting progress never goes back: the adopted head equals the recorded one
/// or was shown to descend from it, and the refreshed identity is in the
/// catalog before the capability is handed out.
pub proof fn law_adopted_head_descends(
    m: WorkflowWorktreeManager,
    workflow_id: Seq<char>,
    f: WorktreeFacts,
    refreshed: IdentityModel,
    cwd: CwdModel,
)
    requires
        verify_owned_current_model(m, workflow_id, f) == StepModel::Done((refreshed, cwd)),
    ensures
        f.catalog matches Some(Ok(c)) && c@.contains_key(workflow_id) && {
            let recorded = c@[workflow_id]@;
            &&& refreshed == (IdentityModel { head_commit: refreshed.head_commit, ..recorded })
            &&& refreshed.head_commit == recorded.head_commit || f.ancestry == Some(
                Ok::<Ancestry, WorktreeError>(Ancestry::Ancestor),
            )
            &&& cwd.path == recorded.worktree_path
        },
        f.registration matches Some(Ok(_)),
        f.saved matches Some(Ok(_)),
{
}

/// Nothing is destroyed for a foreign identity: removal asks for a destructive
/// command only once the catalog records exactly the identity that is given and
/// the repository confirmed it.
pub proof fn law_removal_touches_only_owned(
    m: WorkflowWorktreeManager,
    i: IdentityModel,
    f: WorktreeFacts,
    w: WorkModel,
)
    requires
        remove_model(m, i, f) == StepModel::<()>::Need(w),
        w is RemoveWorktree || w is DropBranch || w is SaveCatalog || w is PruneWorktrees,
    ensures
        f.catalog matches Some(Ok(c)) && c@.contains_key(i.workflow_id)
            && workflow_worktree::same_identity(c@[i.workflow_id]@, i),
        f.ownership matches Some(Ok(_)),
        w is RemoveWorktree ==> w == WorkModel::RemoveWorktree(i.worktree_path),
        w is DropBranch ==> w == WorkModel::DropBranch(i.branch),
{
}

/// A workflow with uncommitted changes, or a dirty source that has to be clean,
/// is never integrated.
pub proof fn law_integration_needs_clean_trees(
    m: WorkflowWorktreeManager,
    workflow_id: Seq<char>,
    o: IntegrateOptions,
    f: WorktreeFacts,
    outcome: OutcomeModel,
)
    requires
        integrate_model(m, workflow_id, o, f) == StepModel::Done(outcome),
    ensures
        f.dirty == Some(Ok::<bool, WorktreeError>(false)),
        o.require_clean_base ==> f.source_dirty == Some(Ok::<bool, WorktreeError>(false)),
        f.ownership matches Some(Ok(_)),
{
}

/// A failed checkout leaves no branch behind: creation reports the failure only
/// after the branch is gone.
pub proof fn law_failed_checkout_drops_its_branch(
    workflow_id: Seq<char>,
    f: WorktreeFacts,
    d: RepoDiscovery,
    location: Seq<char>,
    branch: Seq<char>,
    base: Seq<char>,
    error: WorktreeError,
)
    requires
        f.worktree_made == Some(Err::<(), WorktreeError>(error)),
        f.branch_left matches Some(Ok(_)),
        f.branch_dropped is None,
        created_branch(workflow_id, f, d, location, branch, base) == StepModel::<
            IdentityModel,
        >::Fail(error@),
    ensures
        f.branch_left == Some(Ok::<bool, WorktreeError>(false)),
{
}

/// An entry of the branch namespace is only dropped when its checkout, its
/// registration and its branch are all gone.
pub proof fn law_live_entries_survive_pruning(i: IdentityModel, probe: EntryProbe)
    requires
        WORKFLOW_BRANCH_PREFIX@.is_prefix_of(i.branch),
        probe.present || probe.registered || probe.branch_alive,
    ensures
        !entry_stale(i, Some(probe)),
{
}

/// An invalid workflow id is refused before anything is looked at or done.
pub proof fn law_invalid_id_does_nothing(
    m: WorkflowWorktreeManager,
    workflow_id: Seq<char>,
    i: IdentityModel,
    c: CreateWorktreeOptions,
    o: IntegrateOptions,
    f: WorktreeFacts,
)
    requires
        !store::valid_id(workflow_id),
        i.workflow_id == workflow_id,
    ensures
        create_model(m, workflow_id, c, f) == StepModel::<IdentityModel>::Fail(
            ErrorModel::InvalidWorkflowId(workflow_id),
        ),
        inspect_model(m, workflow_id, f) == StepModel::<StatusModel>::Fail(
            ErrorModel::InvalidWorkflowId(workflow_id),
        ),
        integrate_model(m, workflow_id, o, f) == StepModel::<OutcomeModel>::Fail(
            ErrorModel::InvalidWorkflowId(workflow_id),
        ),
        verify_owned_model(m, i, f) == StepModel::<CwdModel>::Fail(
            ErrorModel::InvalidWorkflowId(workflow_id),
        ),
        verify_owned_current_model(m, workflow_id, f) == StepModel::<(IdentityModel, CwdModel)>::Fail(
            ErrorModel::InvalidWorkflowId(workflow_id),
        ),
        remove_model(m, i, f) == StepModel::<()>::Fail(ErrorModel::InvalidWorkflowId(workflow_id)),
{
}

} // verus!
