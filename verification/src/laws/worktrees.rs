//! What the worktrees of workflows promise.

use crate::lexical_path;
use crate::sort;
use crate::text;
use crate::workflow::store;
use crate::workflow_worktree;
use crate::workflow_worktree::catalog;
use crate::workflow_worktree::catalog::{LockAttempt, LockProbe, LockStepModel, WorktreeCatalog};
use crate::workflow_worktree::manager;
use crate::workflow_worktree::manager::WorkflowWorktreeManager;
use crate::workflow_worktree::namespace;
use crate::workflow_worktree::noop;
use crate::workflow_worktree::noop::NoopWorkflowIsolation;
use crate::workflow_worktree::steps;
use crate::workflow_worktree::steps::{Ancestry, EntryProbe, StepModel, WorkModel, WorktreeFacts};
use crate::workflow_worktree::{
    CreateWorktreeOptions, CwdModel, ErrorModel, IdentityModel, IntegrateOptions, OutcomeModel,
    RepoDiscovery, StatusModel, WorkflowWorktreeIdentity, WorktreeError,
};
use vstd::prelude::*;
use vstd::string::*;

verus! {

/// What is known of something that was found out.
pub open spec fn known<T>(fact: Option<Result<T, WorktreeError>>) -> bool {
    fact matches Some(Ok(_))
}

/// What was found out.
pub open spec fn value<T>(fact: Option<Result<T, WorktreeError>>) -> T {
    fact->0->Ok_0
}

// ---------------------------------------------------------------------------
// Creation
// ---------------------------------------------------------------------------

/// The commit that a new worktree starts from: the one that is asked for, or
/// where the source stands.
pub open spec fn start_commit(o: CreateWorktreeOptions, f: WorktreeFacts) -> Seq<char> {
    if o.base_commit is Some {
        value(f.base_commit)@
    } else {
        value(f.discovery).head_commit@
    }
}

/// Where a new worktree lies: under the managed root, in the directory of all
/// worktrees, by the id of its workflow.
pub open spec fn new_location(f: WorktreeFacts, workflow_id: Seq<char>) -> Seq<char> {
    store::joined(store::joined(value(f.managed_root)@, "workflow-worktrees"@), workflow_id)
}

/// The identity of a new worktree is what was found out about it: the repository
/// of the source, the canonical checkout, the branch that was allocated, the
/// commit it started from, where it stands and when. It is in the catalog before
/// it is handed out.
pub proof fn law_new_worktrees_are_what_was_made(
    m: WorkflowWorktreeManager,
    workflow_id: Seq<char>,
    o: CreateWorktreeOptions,
    f: WorktreeFacts,
)
    ensures
        manager::create_model(m, workflow_id, o, f) matches StepModel::Done(i) ==> {
            &&& i.workflow_id == workflow_id
            &&& i.source_root == value(f.discovery).repo_root@
            &&& i.common_git_dir == value(f.discovery).common_git_dir@
            &&& i.worktree_path == value(f.checkout)@
            &&& i.branch == value(f.branch)@
            &&& i.base_commit == start_commit(o, f)
            &&& i.head_commit == value(f.head)@
            &&& Some(i.created_at_ms) == f.now_ms
            &&& f.outside is Some && f.outside->0 is Ok
            &&& f.occupied == Some(false)
            &&& known(f.lock) && known(f.branch_made) && known(f.worktree_made)
            &&& known(f.registration) && known(f.saved)
        },
{
}

/// Creation succeeds once all of it worked.
pub proof fn law_creation_succeeds(
    m: WorkflowWorktreeManager,
    workflow_id: Seq<char>,
    o: CreateWorktreeOptions,
    f: WorktreeFacts,
)
    requires
        store::valid_id(workflow_id),
        known(f.canonical_source),
        known(f.discovery),
        known(f.managed_root),
        f.outside matches Some(Ok(_)),
        known(f.lock),
        known(f.base_commit),
        known(f.branch),
        f.occupied == Some(false),
        f.parent matches Some(Ok(_)),
        known(f.branch_made),
        known(f.worktree_made),
        known(f.checkout),
        known(f.registration),
        known(f.head),
        f.now_ms is Some,
        known(f.fresh_catalog),
        known(f.saved),
    ensures
        manager::create_model(m, workflow_id, o, f) is Done,
{
}

/// What creation asks to be done is about this workflow alone: its own location,
/// the branch that was allocated for it, the commit it starts from; and the
/// catalog that it writes is the latest one with this workflow's identity put
/// in.
pub proof fn law_creation_works_on_its_own_worktree(
    m: WorkflowWorktreeManager,
    workflow_id: Seq<char>,
    o: CreateWorktreeOptions,
    f: WorktreeFacts,
)
    ensures
        manager::create_model(m, workflow_id, o, f) matches StepModel::Need(w) ==> {
            &&& w matches WorkModel::CanonicalSource(p) ==> p == m.source_cwd@
            &&& w matches WorkModel::Discover(p) ==> p == value(f.canonical_source)@
            &&& w matches WorkModel::PrepareManagedRoot(p) ==> p == o.managed_root@
            &&& w matches WorkModel::CheckOutside { managed, source } ==> managed == value(
                f.managed_root,
            )@ && source == value(f.discovery).repo_root@
            &&& w matches WorkModel::Lock(p) ==> p == value(f.discovery).common_git_dir@
            &&& w matches WorkModel::ResolveCommit(c) ==> o.base_commit is Some && c
                == o.base_commit->0@
            &&& w matches WorkModel::AllocateBranch(id) ==> id == workflow_id
            &&& w matches WorkModel::ProbeLocation(p) ==> p == new_location(f, workflow_id)
            &&& w matches WorkModel::MakeParent(p) ==> p == new_location(f, workflow_id) && f.occupied
                == Some(false)
            &&& w matches WorkModel::MakeBranch { branch, commit } ==> branch == value(f.branch)@
                && commit == start_commit(o, f) && f.occupied == Some(false)
            &&& w matches WorkModel::AddWorktree { path, branch } ==> path == new_location(
                f,
                workflow_id,
            ) && branch == value(f.branch)@ && known(f.branch_made)
            &&& w matches WorkModel::CanonicalCheckout(p) ==> p == new_location(f, workflow_id)
            &&& w matches WorkModel::VerifyRegistration { path, branch, commit } ==> path == value(
                f.checkout,
            )@ && branch == value(f.branch)@ && commit == start_commit(o, f)
            &&& w matches WorkModel::ReadHead(p) ==> p == value(f.checkout)@
            &&& w matches WorkModel::ProbeBranch(b) ==> b == value(f.branch)@
            &&& w matches WorkModel::DropBranch(b) ==> b == value(f.branch)@ && f.worktree_made
                is Some && f.worktree_made->0 is Err
            &&& w matches WorkModel::SaveCatalog(c) ==> {
                let before = catalog::catalog_model(value(f.fresh_catalog));
                &&& c.dom() == before.dom().insert(workflow_id)
                &&& forall|id: Seq<char>|
                    id != workflow_id && before.contains_key(id) ==> #[trigger] c[id] == before[id]
                &&& c[workflow_id].workflow_id == workflow_id
                &&& c[workflow_id].worktree_path == value(f.checkout)@
                &&& c[workflow_id].branch == value(f.branch)@
                &&& c[workflow_id].base_commit == start_commit(o, f)
                &&& c[workflow_id].head_commit == value(f.head)@
            }
        },
{
    if let StepModel::Need(w) = manager::create_model(m, workflow_id, o, f) {
        if let WorkModel::SaveCatalog(c) = w {
            let before = catalog::catalog_model(value(f.fresh_catalog));
            assert(c =~= before.insert(workflow_id, c[workflow_id]));
            assert(c.dom() =~= before.dom().insert(workflow_id));
        }
    }
}

/// Creation refuses a managed root inside the source and a location that exists,
/// and says so.
pub proof fn law_creation_refuses_taken_places(
    workflow_id: Seq<char>,
    o: CreateWorktreeOptions,
    f: WorktreeFacts,
    d: RepoDiscovery,
    root: Seq<char>,
    base: Seq<char>,
    detail: String,
)
    ensures
        f.outside == Some(Err::<(), String>(detail)) ==> manager::created_outside(
            workflow_id,
            o,
            f,
            d,
            root,
        ) == StepModel::<IdentityModel>::Fail(
            ErrorModel::Other("managed root must not be inside the source worktree: "@ + detail@),
        ),
        known(f.branch) && f.occupied == Some(true) ==> manager::created_from(
            workflow_id,
            f,
            d,
            root,
            base,
        ) == StepModel::<IdentityModel>::Fail(
            ErrorModel::Other(
                "managed worktree location already exists for workflow "@ + workflow_id,
            ),
        ),
{
}

// ---------------------------------------------------------------------------
// Ownership
// ---------------------------------------------------------------------------

/// Two identities are the same if and only if every field agrees, paths by what
/// they name.
pub proof fn law_identities_agree_in_every_field(a: IdentityModel, b: IdentityModel)
    requires
        workflow_worktree::same_identity(a, b),
    ensures
        a.workflow_id == b.workflow_id,
        lexical_path::same_path(a.source_root, b.source_root),
        lexical_path::same_path(a.common_git_dir, b.common_git_dir),
        lexical_path::same_path(a.worktree_path, b.worktree_path),
        a.branch == b.branch,
        a.base_commit == b.base_commit,
        a.head_commit == b.head_commit,
        a.created_at_ms == b.created_at_ms,
{
}

/// Ownership is confirmed once the catalog has the very identity, its repository
/// is the manager's, git has it registered, and its head is the recorded one;
/// and each thing that does not hold is told.
pub proof fn law_ownership_is_confirmed(
    m: WorkflowWorktreeManager,
    i: IdentityModel,
    f: WorktreeFacts,
)
    requires
        store::valid_id(i.workflow_id),
        known(f.canonical_source),
        known(f.discovery),
        known(f.lock),
        known(f.catalog),
    ensures
        ({
            let step = manager::verify_owned_model(m, i, f);
            let c = value(f.catalog)@;
            let listed = c.contains_key(i.workflow_id);
            let exact = listed && workflow_worktree::same_identity(c[i.workflow_id]@, i);
            let common = exact && known(f.canonical_common) && lexical_path::same_path(
                value(f.canonical_common)@,
                value(f.discovery).common_git_dir@,
            );
            &&& !listed ==> step == StepModel::<CwdModel>::Fail(
                ErrorModel::NotRegistered(i.workflow_id),
            )
            &&& listed && !exact ==> step == StepModel::<CwdModel>::Fail(
                ErrorModel::OwnershipMismatch {
                    workflow_id: i.workflow_id,
                    detail: "provided identity does not exactly match the ownership catalog"@,
                },
            )
            &&& exact && known(f.canonical_common) && !common ==> step == StepModel::<
                CwdModel,
            >::Fail(
                ErrorModel::OwnershipMismatch {
                    workflow_id: i.workflow_id,
                    detail: "recorded repository identity does not match manager repository"@,
                },
            )
            &&& common && known(f.ownership) && known(f.head) && value(f.head)@ != i.head_commit
                ==> step == StepModel::<CwdModel>::Fail(
                ErrorModel::OwnershipMismatch {
                    workflow_id: i.workflow_id,
                    detail: "live worktree HEAD does not match the recorded identity"@,
                },
            )
            &&& common && known(f.ownership) && known(f.head) && value(f.head)@ == i.head_commit
                <==> step is Done
            &&& step matches StepModel::Done(cwd) ==> cwd.path == i.worktree_path && cwd.workflow_id
                == i.workflow_id
        }),
{
}

/// A workflow that moved on is adopted where it stands now: the identity handed
/// out, and written, is the recorded one with its head moved, and only where
/// nobody changed the catalog meanwhile.
pub proof fn law_progress_is_adopted(
    f: WorktreeFacts,
    workflow_id: Seq<char>,
    r: IdentityModel,
    head: Seq<char>,
)
    requires
        known(f.fresh_catalog),
    ensures
        ({
            let step = manager::adopted(f, workflow_id, r, head);
            let c = value(f.fresh_catalog)@;
            let listed = c.contains_key(workflow_id);
            let same = listed && workflow_worktree::same_identity(c[workflow_id]@, r);
            &&& !listed ==> step == StepModel::<(IdentityModel, CwdModel)>::Fail(
                ErrorModel::NotRegistered(workflow_id),
            )
            &&& listed && !same ==> step == StepModel::<(IdentityModel, CwdModel)>::Fail(
                ErrorModel::OwnershipMismatch {
                    workflow_id,
                    detail: "ownership catalog changed during verification"@,
                },
            )
            &&& same && known(f.saved) <==> step is Done
            &&& step matches StepModel::Done((i, cwd)) ==> {
                &&& i.head_commit == head
                &&& i.workflow_id == r.workflow_id
                &&& i.source_root == r.source_root
                &&& i.common_git_dir == r.common_git_dir
                &&& i.worktree_path == r.worktree_path
                &&& i.branch == r.branch
                &&& i.base_commit == r.base_commit
                &&& i.created_at_ms == r.created_at_ms
                &&& cwd.path == r.worktree_path
                &&& cwd.workflow_id == r.workflow_id
            }
            &&& same && f.saved is None ==> (step matches StepModel::Need(
                WorkModel::SaveCatalog(written),
            ) && written.contains_key(workflow_id) && written[workflow_id].head_commit == head
                && written[workflow_id].branch == r.branch && written.dom()
                == catalog::catalog_model(value(f.fresh_catalog)).dom())
        }),
{
    let c = value(f.fresh_catalog);
    let before = catalog::catalog_model(c);
    assert(before.dom() =~= c@.dom());
    if c@.contains_key(workflow_id) {
        let refreshed = IdentityModel { head_commit: head, ..r };
        assert(before.insert(workflow_id, refreshed).dom() =~= before.dom());
    }
}

/// A head that moved is adopted if and only if it descends from the recorded
/// one; a rewound or diverged one is refused.
pub proof fn law_only_descendants_are_adopted(
    f: WorktreeFacts,
    workflow_id: Seq<char>,
    r: IdentityModel,
    head: Seq<char>,
)
    requires
        known(f.registration),
    ensures
        ({
            let step = manager::advanced_head(f, workflow_id, r, head);
            &&& head == r.head_commit ==> step == manager::adopted(f, workflow_id, r, head)
            &&& head != r.head_commit && f.ancestry is None ==> step == StepModel::<
                (IdentityModel, CwdModel),
            >::Need(
                WorkModel::CheckAncestry {
                    path: r.worktree_path,
                    ancestor: r.head_commit,
                    descendant: head,
                },
            )
            &&& head != r.head_commit && f.ancestry == Some(
                Ok::<Ancestry, WorktreeError>(Ancestry::Ancestor),
            ) ==> step == manager::adopted(f, workflow_id, r, head)
            &&& head != r.head_commit && f.ancestry == Some(
                Ok::<Ancestry, WorktreeError>(Ancestry::NotAncestor),
            ) ==> step == StepModel::<(IdentityModel, CwdModel)>::Fail(
                ErrorModel::OwnershipMismatch {
                    workflow_id,
                    detail: "live worktree HEAD rewound or diverged from the recorded history"@,
                },
            )
        }),
{
}

// ---------------------------------------------------------------------------
// Looking at a worktree
// ---------------------------------------------------------------------------

/// What is told of a worktree is what was found out of the recorded one: whether
/// it is dirty, where it stands, how far ahead it is and which files changed.
pub proof fn law_inspection_tells_what_was_found(
    m: WorkflowWorktreeManager,
    workflow_id: Seq<char>,
    f: WorktreeFacts,
)
    ensures
        manager::inspect_model(m, workflow_id, f) matches StepModel::Done(s) ==> {
            let r = value(f.catalog)@[workflow_id]@;
            &&& value(f.catalog)@.contains_key(workflow_id)
            &&& known(f.ownership)
            &&& s.dirty == value(f.dirty)
            &&& s.ahead_commits == value(f.ahead)
            &&& s.changed_files == text::texts(value(f.changed)@)
            &&& s.identity.head_commit == value(f.head)@
            &&& s.identity.workflow_id == r.workflow_id
            &&& s.identity.branch == r.branch
            &&& s.identity.base_commit == r.base_commit
            &&& s.identity.worktree_path == r.worktree_path
        },
        manager::inspect_model(m, workflow_id, f) matches StepModel::Need(w) ==> {
            let r = value(f.catalog)@[workflow_id]@;
            &&& w matches WorkModel::VerifyOwnership(i) ==> i == r
            &&& w matches WorkModel::ProbeDirty(p) ==> p == r.worktree_path
            &&& w matches WorkModel::ReadHead(p) ==> p == r.worktree_path
            &&& w matches WorkModel::CountAhead { path, base, head } ==> path == r.worktree_path
                && base == r.base_commit && head == value(f.head)@
            &&& w matches WorkModel::ListChanged { path, base } ==> path == r.worktree_path && base
                == r.base_commit
        },
{
}

// ---------------------------------------------------------------------------
// Integration
// ---------------------------------------------------------------------------

/// Integration is refused for a dirty worktree, and for a dirty source where it
/// has to be clean; where the source already stands at the worktree's head
/// nothing is done and that head is the result; otherwise the recorded worktree
/// is integrated, as asked for, and the outcome is what that gave.
pub proof fn law_integration_applies_the_worktree(
    workflow_id: Seq<char>,
    o: IntegrateOptions,
    f: WorktreeFacts,
    d: RepoDiscovery,
    r: IdentityModel,
)
    requires
        known(f.dirty),
        known(f.source_dirty),
        known(f.head),
        known(f.source_head),
    ensures
        ({
            let step = manager::integrated(workflow_id, o, f, d, r);
            let refused = value(f.dirty) || (o.require_clean_base && value(f.source_dirty));
            let done = value(f.head)@ == value(f.source_head)@;
            &&& value(f.dirty) ==> step == StepModel::<OutcomeModel>::Fail(
                ErrorModel::DirtyWorktree(workflow_id),
            )
            &&& !value(f.dirty) && o.require_clean_base && value(f.source_dirty) ==> step
                == StepModel::<OutcomeModel>::Fail(ErrorModel::DirtyBase)
            &&& !refused && done ==> (step matches StepModel::Done(
                OutcomeModel::Applied { strategy, result_commit, merge_commit },
            ) && strategy == o.strategy && result_commit == value(f.head)@ && merge_commit is None)
            &&& !refused && !done && f.outcome is None ==> (step matches StepModel::Need(
                WorkModel::Integrate { strategy, identity, head },
            ) && strategy == o.strategy && identity == r && head == value(f.head)@)
            &&& !refused && !done && known(f.outcome) ==> step == StepModel::Done(
                value(f.outcome)@,
            )
        }),
{
}

/// Integration looks at the recorded worktree and at the source, each in its own
/// place.
pub proof fn law_integration_looks_at_both_trees(
    m: WorkflowWorktreeManager,
    workflow_id: Seq<char>,
    o: IntegrateOptions,
    f: WorktreeFacts,
)
    ensures
        manager::integrate_model(m, workflow_id, o, f) matches StepModel::Need(w) ==> {
            let r = value(f.catalog)@[workflow_id]@;
            &&& w matches WorkModel::VerifyOwnership(i) ==> i == r
            &&& w matches WorkModel::ProbeDirty(p) ==> p == r.worktree_path
            &&& w matches WorkModel::ProbeSourceDirty(p) ==> o.require_clean_base && p == value(
                f.discovery,
            ).repo_root@
            &&& w matches WorkModel::ReadHead(p) ==> p == r.worktree_path
            &&& w matches WorkModel::ReadSourceHead(p) ==> p == value(f.discovery).repo_root@
        },
{
}

// ---------------------------------------------------------------------------
// Removal
// ---------------------------------------------------------------------------

/// Removal takes the registered worktree, the branch where it is left and the
/// entry of the catalog away, and nothing of any other workflow; a path that is
/// there but not registered is left alone.
pub proof fn law_removal_takes_everything_of_the_workflow(f: WorktreeFacts, i: IdentityModel)
    requires
        known(f.registered),
        f.present is Some,
    ensures
        ({
            let step = manager::removed_tree(f, i);
            let registered = value(f.registered);
            let gone = !registered || known(f.worktree_removed);
            &&& f.present == Some(true) && !registered ==> step == StepModel::<()>::Fail(
                ErrorModel::OwnershipMismatch {
                    workflow_id: i.workflow_id,
                    detail: "owned path exists but is not the recorded git worktree"@,
                },
            )
            &&& registered && f.worktree_removed is None ==> step == StepModel::<()>::Need(
                WorkModel::RemoveWorktree(i.worktree_path),
            )
            &&& (f.present == Some(false) || registered) && gone && f.branch_left is None ==> step
                == StepModel::<()>::Need(WorkModel::ProbeBranch(i.branch))
            &&& (f.present == Some(false) || registered) && gone && f.branch_left == Some(
                Ok::<bool, WorktreeError>(true),
            ) && f.branch_dropped is None ==> step == StepModel::<()>::Need(
                WorkModel::DropBranch(i.branch),
            )
            &&& (f.present == Some(false) || registered) && gone && known(f.branch_left) && (
            value(f.branch_left) ==> known(f.branch_dropped)) ==> {
                &&& f.fresh_catalog is None ==> step == StepModel::<()>::Need(
                    WorkModel::ReloadCatalog,
                )
                &&& known(f.fresh_catalog) && f.saved is None ==> step == StepModel::<()>::Need(
                    WorkModel::SaveCatalog(
                        catalog::catalog_model(value(f.fresh_catalog)).remove(i.workflow_id),
                    ),
                )
                &&& known(f.fresh_catalog) && known(f.saved) && f.pruned is None ==> step
                    == StepModel::<()>::Need(WorkModel::PruneWorktrees)
                &&& known(f.fresh_catalog) && known(f.saved) && known(f.pruned) ==> step
                    == StepModel::Done(())
            }
        }),
{
}

/// Removal is refused where the recorded source or repository is not the
/// manager's, or the identity is not exactly the recorded one.
pub proof fn law_removal_needs_the_recorded_identity(
    f: WorktreeFacts,
    d: RepoDiscovery,
    i: IdentityModel,
    source: String,
    common: String,
)
    requires
        f.recorded_source == Some(Ok::<String, WorktreeError>(source)),
        f.canonical_common == Some(Ok::<String, WorktreeError>(common)),
        known(f.catalog),
    ensures
        ({
            let step = manager::removed_checked(f, d, i);
            let a = lexical_path::same_path(source@, d.repo_root@);
            let b = lexical_path::same_path(common@, d.common_git_dir@);
            let c = value(f.catalog)@;
            let listed = c.contains_key(i.workflow_id);
            let exact = listed && workflow_worktree::same_identity(c[i.workflow_id]@, i);
            &&& !a ==> step == StepModel::<()>::Fail(
                ErrorModel::OwnershipMismatch {
                    workflow_id: i.workflow_id,
                    detail: "recorded source does not match manager source"@,
                },
            )
            &&& a && !b ==> step == StepModel::<()>::Fail(
                ErrorModel::OwnershipMismatch {
                    workflow_id: i.workflow_id,
                    detail: "recorded repository identity does not match manager repository"@,
                },
            )
            &&& a && b && !listed ==> step == StepModel::<()>::Fail(
                ErrorModel::NotRegistered(i.workflow_id),
            )
            &&& a && b && listed && !exact ==> step == StepModel::<()>::Fail(
                ErrorModel::OwnershipMismatch {
                    workflow_id: i.workflow_id,
                    detail: "provided identity does not exactly match the ownership catalog"@,
                },
            )
            &&& a && b && exact && f.ownership is None ==> step == StepModel::<()>::Need(
                WorkModel::VerifyOwnership(i),
            )
            &&& a && b && exact && known(f.ownership) ==> step == manager::removed_tree(f, i)
        }),
{
}

/// A checkout that could not be made is what creation fails with. The branch is
/// looked for first, and taken away where it is left.
pub proof fn law_failed_checkouts_leave_no_branch(
    workflow_id: Seq<char>,
    f: WorktreeFacts,
    d: RepoDiscovery,
    location: Seq<char>,
    branch: Seq<char>,
    base: Seq<char>,
)
    ensures
        ({
            let step = manager::created_branch(workflow_id, f, d, location, branch, base);
            let left = known(f.branch_left) && value(f.branch_left);
            let gone = known(f.branch_left) && !value(f.branch_left);
            &&& f.worktree_made is None ==> step == StepModel::<IdentityModel>::Need(
                WorkModel::AddWorktree { path: location, branch },
            )
            &&& (f.worktree_made matches Some(Err(e)) ==> {
                &&& f.branch_left is None ==> step == StepModel::<IdentityModel>::Need(
                    WorkModel::ProbeBranch(branch),
                )
                &&& left && f.branch_dropped is None ==> step == StepModel::<IdentityModel>::Need(
                    WorkModel::DropBranch(branch),
                )
                &&& left && known(f.branch_dropped) ==> step == StepModel::<IdentityModel>::Fail(e@)
                &&& gone ==> step == StepModel::<IdentityModel>::Fail(e@)
            })
        }),
{
}

// ---------------------------------------------------------------------------
// Pruning and listing
// ---------------------------------------------------------------------------

/// An entry is stale if and only if its branch is none of the workflows', or
/// nothing of it is left: no checkout, no registration and no branch.
pub proof fn law_stale_entries_have_nothing_left(i: IdentityModel, probe: EntryProbe)
    ensures
        manager::entry_stale(i, Some(probe)) <==> !"rpi/workflow/"@.is_prefix_of(i.branch) || (
        !probe.present && !probe.registered && !probe.branch_alive),
{
}

/// Dropping keys from a catalog drops those and no others.
pub proof fn law_dropping_keys_drops_no_others<V>(
    m: Map<Seq<char>, V>,
    keys: Seq<Seq<char>>,
    key: Seq<char>,
)
    ensures
        manager::without(m, keys).contains_key(key) <==> m.contains_key(key) && !keys.contains(key),
        m.contains_key(key) && !keys.contains(key) ==> manager::without(m, keys)[key] == m[key],
    decreases keys.len(),
{
    if keys.len() > 0 {
        let front = keys.drop_last();
        law_dropping_keys_drops_no_others(m, front, key);
        if keys.contains(key) {
            let i = choose|i: int| 0 <= i < keys.len() && keys[i] == key;
            if i < front.len() {
                assert(front[i] == key);
            }
        }
        if front.contains(key) {
            let i = choose|i: int| 0 <= i < front.len() && front[i] == key;
            assert(keys[i] == key);
        }
        assert(keys[keys.len() - 1] == keys.last());
    }
}

/// What pruning drops is what it tells, and the catalog that it writes is the
/// rest.
pub proof fn law_pruning_tells_what_it_drops(c: WorktreeCatalog, f: WorktreeFacts, key: Seq<char>)
    ensures
        manager::pruned(c, f) matches StepModel::Need(WorkModel::SaveCatalog(rest)) ==> {
            let stale = manager::prune_walk(c, f.entries@, c.keys().len()).stale;
            rest.contains_key(key) <==> catalog::catalog_model(c).contains_key(key)
                && !stale.contains(key)
        },
        manager::pruned(c, f) matches StepModel::Done(told) ==> known(f.saved) && told
            == manager::prune_walk(c, f.entries@, c.keys().len()).stale,
{
    let stale = manager::prune_walk(c, f.entries@, c.keys().len()).stale;
    law_dropping_keys_drops_no_others(catalog::catalog_model(c), stale, key);
    lemma_walk_never_saves(c, f.entries@, c.keys().len());
}

proof fn lemma_walk_never_saves(
    c: WorktreeCatalog,
    entries: Seq<Result<EntryProbe, WorktreeError>>,
    n: nat,
)
    ensures
        manager::prune_walk(c, entries, n).stop matches Some(stop) ==> !(stop is Done) && !(
        stop matches StepModel::Need(WorkModel::SaveCatalog(_))),
    decreases n,
{
    if n > 0 {
        lemma_walk_never_saves(c, entries, (n - 1) as nat);
    }
}

/// Every entry that pruning drops is stale by what was found of it, and every
/// stale one is dropped.
pub proof fn law_pruning_goes_entry_by_entry(
    c: WorktreeCatalog,
    entries: Seq<Result<EntryProbe, WorktreeError>>,
    n: nat,
)
    requires
        manager::prune_walk(c, entries, n).stop is None,
    ensures
        ({
            let before = manager::prune_walk(c, entries, n);
            let after = manager::prune_walk(c, entries, n + 1);
            let key = c.keys()[n as int];
            let identity = c@[key]@;
            let own = "rpi/workflow/"@.is_prefix_of(identity.branch);
            &&& !own ==> after.stale == before.stale.push(key) && after.stop is None
            &&& own && before.probed >= entries.len() ==> after.stale == before.stale && after.stop
                == Some(StepModel::<Seq<Seq<char>>>::Need(WorkModel::ProbeEntry(identity)))
            &&& own && before.probed < entries.len() ==> match entries[before.probed as int] {
                Err(e) => after.stop == Some(StepModel::<Seq<Seq<char>>>::Fail(e@)),
                Ok(p) => {
                    &&& after.stop is None
                    &&& after.probed == before.probed + 1
                    &&& p.present || p.registered || p.branch_alive ==> after.stale == before.stale
                    &&& !p.present && !p.registered && !p.branch_alive ==> after.stale
                        == before.stale.push(key)
                },
            }
        }),
        manager::prune_walk(c, entries, 0).stale.len() == 0,
{
}

/// Pruning and listing find the repository, take its lock, and read the catalog,
/// in that order. What fails on the way is what the operation fails with. With
/// the catalog at hand a list is given, and pruning goes on with its entries.
pub proof fn law_catalogs_are_read_under_the_lock(m: WorkflowWorktreeManager, f: WorktreeFacts)
    ensures
        ({
            let list = manager::list_model(m, f);
            let prune = manager::prune_model(m, f);
            let source = value(f.canonical_source);
            let found = known(f.canonical_source) && known(f.discovery);
            &&& f.canonical_source is None ==> list is Need && prune is Need && list->Need_0
                == WorkModel::CanonicalSource(m.source_cwd@) && prune->Need_0
                == WorkModel::CanonicalSource(m.source_cwd@)
            &&& (f.canonical_source matches Some(Err(e)) ==> list is Fail && list->Fail_0 == e@
                && prune is Fail && prune->Fail_0 == e@)
            &&& known(f.canonical_source) && f.discovery is None ==> list is Need && prune is Need
                && list->Need_0 == WorkModel::Discover(source@) && prune->Need_0
                == WorkModel::Discover(source@)
            &&& found && f.lock is None ==> list is Need && prune is Need && list->Need_0
                == WorkModel::Lock(value(f.discovery).common_git_dir@) && prune->Need_0
                == WorkModel::Lock(value(f.discovery).common_git_dir@)
            &&& found && known(f.lock) && f.catalog is None ==> list is Need && prune is Need
                && list->Need_0 == WorkModel::LoadCatalog && prune->Need_0
                == WorkModel::LoadCatalog
            &&& found && known(f.lock) && known(f.catalog) ==> list is Done && prune
                == manager::pruned(value(f.catalog), f)
        }),
{
}

/// Pruning that has looked at every entry writes what stays, as it was, and then
/// tells what it dropped.
pub proof fn law_pruning_ends_once_the_rest_is_written(
    c: WorktreeCatalog,
    f: WorktreeFacts,
    key: Seq<char>,
)
    requires
        manager::prune_walk(c, f.entries@, c.keys().len()).stop is None,
    ensures
        known(f.saved) ==> manager::pruned(c, f) is Done,
        f.saved is None ==> (manager::pruned(c, f) matches StepModel::Need(
            WorkModel::SaveCatalog(rest),
        ) && (rest.contains_key(key) ==> rest[key] == catalog::catalog_model(c)[key])),
        f.saved matches Some(Err(e)) ==> manager::pruned(c, f) == StepModel::<Seq<Seq<char>>>::Fail(
            e@,
        ),
{
    let stale = manager::prune_walk(c, f.entries@, c.keys().len()).stale;
    law_dropping_keys_drops_no_others(catalog::catalog_model(c), stale, key);
}

/// A list has every recorded identity once, by id.
pub proof fn law_lists_are_in_order_of_id(m: WorkflowWorktreeManager, f: WorktreeFacts)
    ensures
        manager::list_model(m, f) matches StepModel::Done(list) ==> {
            let c = value(f.catalog);
            &&& list.to_multiset() == manager::listed(c).to_multiset()
            &&& forall|i: int, j: int|
                0 <= i < j < list.len() ==> !sort::text_before(
                    (#[trigger] list[j]).workflow_id@,
                    (#[trigger] list[i]).workflow_id@,
                )
        },
{
    if let StepModel::Done(list) = manager::list_model(m, f) {
        let c = value(f.catalog);
        sort::lemma_stable_sorted(manager::listed(c));
        assert forall|i: int, j: int| 0 <= i < j < list.len() implies !sort::text_before(
            (#[trigger] list[j]).workflow_id@,
            (#[trigger] list[i]).workflow_id@,
        ) by {
            assert(!sort::Rank::before(list[j], list[i]));
        }
    }
}

// ---------------------------------------------------------------------------
// Commands
// ---------------------------------------------------------------------------

/// Every git command that takes names ends its options before them, so that no
/// name is read as an option; the names come in the order that git expects.
pub proof fn law_commands_name_what_they_work_on(
    a: Seq<char>,
    b: Seq<char>,
    c: Seq<char>,
)
    ensures
        steps::argv(WorkModel::MakeBranch { branch: a, commit: b }) == Some(
            seq!["branch"@, "--"@, a, b],
        ),
        steps::argv(WorkModel::AddWorktree { path: a, branch: b }) == Some(
            seq!["worktree"@, "add"@, "--"@, a, b],
        ),
        steps::argv(WorkModel::DropBranch(a)) == Some(seq!["branch"@, "-D"@, "--"@, a]),
        steps::argv(WorkModel::RemoveWorktree(a)) == Some(
            seq!["worktree"@, "remove"@, "--force"@, "--"@, a],
        ),
        steps::argv(WorkModel::PruneWorktrees) == Some(seq!["worktree"@, "prune"@]),
        steps::argv(WorkModel::StageAll(a)) == Some(seq!["add"@, "-A"@, "--"@, "."@]),
        steps::argv(WorkModel::CommitAll { path: a, message: b }) == Some(
            seq!["commit"@, "-m"@, b],
        ),
        steps::argv(WorkModel::CheckAncestry { path: a, ancestor: b, descendant: c }) == Some(
            seq!["merge-base"@, "--is-ancestor"@, b, c],
        ),
{
}

// ---------------------------------------------------------------------------
// Locks
// ---------------------------------------------------------------------------

/// A lock may be broken if and only if it is a regular file, at least ten
/// minutes old, and not that of a process that lives.
pub proof fn law_locks_are_broken_when_old_and_dead(probe: LockProbe)
    ensures
        catalog::stale(probe) <==> {
            &&& probe.is_file == Some(true)
            &&& probe.age_ms matches Some(age) && age >= 600_000
            &&& probe.record is None || !probe.alive
        },
{
}

/// An attempt at the lock ends it or goes on: it is held once its record is
/// written; a broken lock is tried again at once; a held one is waited for, up
/// to half a minute; and whatever fails is told.
pub proof fn law_lock_attempts_end(attempt: LockAttempt, waited_ms: u64)
    ensures
        ({
            let step = catalog::lock_next(attempt, waited_ms);
            &&& step is Acquired <==> attempt is Written
            &&& step is Retry <==> (attempt matches LockAttempt::Held { stale, removed } && stale
                && removed)
            &&& step is Sleep <==> (attempt matches LockAttempt::Held { stale, removed } && !(stale
                && removed) && waited_ms < 30_000)
            &&& attempt matches LockAttempt::WriteFailed(e) ==> step == LockStepModel::Discard(
                ErrorModel::Other("writing repository worktree lock: "@ + e@),
            )
            &&& attempt matches LockAttempt::Failed(e) ==> step == LockStepModel::GiveUp(
                ErrorModel::Other("creating repository worktree lock: "@ + e@),
            )
            &&& (attempt matches LockAttempt::Held { stale, removed } && !(stale && removed)
                && waited_ms >= 30_000) ==> step == LockStepModel::GiveUp(
                ErrorModel::Other("timed out waiting for repository worktree lock"@),
            )
        }),
{
}

// ---------------------------------------------------------------------------
// Namespaces
// ---------------------------------------------------------------------------

/// Bytes are written as two digits each, the high half first.
pub proof fn law_bytes_are_two_digits(bytes: Seq<u8>, b: u8)
    ensures
        namespace::hex_of(bytes.push(b)) == namespace::hex_of(bytes) + seq![
            namespace::hex_char((b / 16) as nat),
            namespace::hex_char((b % 16) as nat),
        ],
        namespace::hex_of(Seq::empty()).len() == 0,
        namespace::hex_char(0) == '0',
        namespace::hex_char(9) == '9',
        namespace::hex_char(10) == 'a',
        namespace::hex_char(15) == 'f',
{
    assert(bytes.push(b).drop_last() =~= bytes);
    assert(namespace::hex_of(bytes.push(b)) =~= namespace::hex_of(bytes) + seq![
        namespace::hex_char((b / 16) as nat),
        namespace::hex_char((b % 16) as nat),
    ]);
}

/// A plain session id is its own directory name; an empty one is called session;
/// any other has its separators replaced and a digest behind it.
pub proof fn law_session_names_are_plain(s: Seq<char>)
    ensures
        s.len() == 0 ==> namespace::session_segment(s) == "session"@,
        s.len() > 0 && (forall|i: int|
            0 <= i < s.len() ==> #[trigger] s[i] != '/' && s[i] != '\\' && s[i] != ':') && s
            != "."@ && s != ".."@ && s != "session"@ && !namespace::ends_in_digest(s)
            ==> namespace::session_segment(s) == s,
        s.len() > 0 && !namespace::passes(s) ==> {
            let name = namespace::session_segment(s);
            &&& name.len() >= s.len()
            &&& forall|i: int|
                0 <= i < s.len() ==> #[trigger] name[i] == (if s[i] == '/' || s[i] == '\\' || s[i]
                    == ':' {
                    '-'
                } else {
                    s[i]
                })
        },
{
    if s.len() > 0 && (forall|i: int|
        0 <= i < s.len() ==> #[trigger] s[i] != '/' && s[i] != '\\' && s[i] != ':') {
        assert(!namespace::has_separator(s));
    }
}

// ---------------------------------------------------------------------------
// Without isolation
// ---------------------------------------------------------------------------

/// Without isolation a workflow works on the source itself, on no branch and
/// from no commit, and is known by its own id.
pub proof fn law_unisolated_workflows_work_on_the_source(
    workflow_id: Seq<char>,
    source: Seq<char>,
)
    ensures
        ({
            let i = noop::noop_identity(workflow_id, source);
            &&& i.workflow_id == workflow_id
            &&& i.source_root == source
            &&& i.common_git_dir == source
            &&& i.worktree_path == source
            &&& i.branch == "rpi/none/"@ + workflow_id
            &&& i.base_commit == "none"@
            &&& i.head_commit == "none"@
            &&& i.created_at_ms == 0
        }),
{
}

/// Without isolation an identity is confirmed if and only if it is the one that
/// the workflow has there, and what is confirmed is the source.
pub proof fn law_unisolated_ownership_is_exact(
    m: NoopWorkflowIsolation,
    i: IdentityModel,
    f: WorktreeFacts,
)
    requires
        store::valid_id(i.workflow_id),
        known(f.canonical_source),
    ensures
        ({
            let step = noop::noop_verify_model(m, i, f);
            let own = noop::noop_identity(i.workflow_id, value(f.canonical_source)@);
            &&& step is Done <==> workflow_worktree::same_identity(own, i)
            &&& step matches StepModel::Done(cwd) ==> cwd.path == value(f.canonical_source)@
                && cwd.workflow_id == i.workflow_id
            &&& !(step is Done) ==> step == StepModel::<CwdModel>::Fail(
                ErrorModel::OwnershipMismatch {
                    workflow_id: i.workflow_id,
                    detail: "provided identity does not match the no-isolation identity"@,
                },
            )
        }),
{
}

/// Without isolation there is nothing to integrate: the result is where the
/// source stands, or none outside a repository.
pub proof fn law_unisolated_integration_is_where_the_source_stands(
    m: NoopWorkflowIsolation,
    workflow_id: Seq<char>,
    f: WorktreeFacts,
)
    ensures
        noop::noop_integrate_model(m, workflow_id, f) matches StepModel::Done(outcome) ==> (
        outcome matches OutcomeModel::Applied { strategy, result_commit, merge_commit } && {
            &&& known(f.discovery) ==> result_commit == value(f.discovery).head_commit@
            &&& !known(f.discovery) ==> result_commit == "none"@
        }),
{
}

/// Without isolation a status is that of the source: clean where it is no
/// repository or has no changes, and otherwise dirty with the files that
/// changed.
pub proof fn law_unisolated_status_is_that_of_the_source(
    m: NoopWorkflowIsolation,
    workflow_id: Seq<char>,
    f: WorktreeFacts,
)
    ensures
        noop::noop_inspect_model(m, workflow_id, f) matches StepModel::Done(s) ==> {
            &&& s.identity == noop::noop_identity(workflow_id, value(f.canonical_source)@)
            &&& s.ahead_commits == 0
            &&& s.dirty <==> known(f.discovery) && value(f.dirty)
            &&& s.dirty ==> s.changed_files == text::texts(value(f.changed)@)
            &&& !s.dirty ==> s.changed_files.len() == 0
        },
{
}

/// Without isolation an id still has to be valid, and the source is looked up
/// before anything else is said.
pub proof fn law_noop_needs_a_valid_id(
    m: NoopWorkflowIsolation,
    i: IdentityModel,
    f: WorktreeFacts,
)
    ensures
        !store::valid_id(i.workflow_id) ==> noop::noop_verify_model(m, i, f) is Fail
            && noop::noop_verify_model(m, i, f)->Fail_0 == ErrorModel::InvalidWorkflowId(
            i.workflow_id,
        ),
        store::valid_id(i.workflow_id) && f.canonical_source is None ==> noop::noop_verify_model(
            m,
            i,
            f,
        ) is Need && noop::noop_verify_model(m, i, f)->Need_0 == WorkModel::CanonicalSource(
            m.source_cwd@,
        ),
{
}

} // verus!
