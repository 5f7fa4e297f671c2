//! What the overlays of workflows promise.

use crate::laws::worktrees;
use crate::lexical_path;
use crate::sort;
use crate::text;
use crate::workflow::store;
use crate::workflow_worktree;
use crate::workflow_worktree::manager;
use crate::workflow_worktree::overlay;
use crate::workflow_worktree::overlay::{
    EntryKind, EntryModel, LayersModel, OverlayBackend, OverlayCatalog, OverlayWorkflowManager,
    SyncModel,
};
use crate::workflow_worktree::steps::{Ancestry, StepModel, WorkModel, WorktreeFacts};
use crate::workflow_worktree::{
    CreateWorktreeOptions, CwdModel, ErrorModel, IdentityModel, IntegrateOptions,
    IntegrateStrategy, OutcomeModel, StatusModel, WorktreeError,
};
use vstd::prelude::*;
use vstd::string::*;

verus! {

// ---------------------------------------------------------------------------
// Layers
// ---------------------------------------------------------------------------

/// Where the overlay of a workflow lies: under the managed root, in the
/// directory of all overlays, by its id.
pub open spec fn home(root: Seq<char>, workflow_id: Seq<char>) -> Seq<char> {
    store::joined(store::joined(root, "overlay-workflows"@), workflow_id)
}

/// The layers of an overlay lie beside its merged view, under the source, each
/// in a directory of its own.
pub proof fn law_layers_lie_beside_the_merged_view(
    i: IdentityModel,
    source: Seq<char>,
    location: Seq<char>,
    dir: Seq<char>,
)
    ensures
        ({
            let l = overlay::new_layers(source, location);
            &&& l.source == source
            &&& l.upper == store::joined(location, "upper"@)
            &&& l.work == store::joined(location, "work"@)
            &&& l.merged == store::joined(location, "merged"@)
        }),
        lexical_path::parent_of(i.worktree_path) == Some(dir) ==> {
            let l = overlay::layers_of(i);
            &&& l.source == i.source_root
            &&& l.upper == store::joined(dir, "upper"@)
            &&& l.work == store::joined(dir, "work"@)
            &&& l.merged == i.worktree_path
        },
{
}

/// The catalog lies where it was said to, or under the managed root; it is
/// locked by its directory.
pub proof fn law_the_catalog_lies_under_the_managed_root(m: OverlayWorkflowManager)
    ensures
        m.catalog_path_override matches Some(path) ==> overlay::overlay_catalog_path(m) == path@,
        m.catalog_path_override is None ==> overlay::overlay_catalog_path(m) == store::joined(
            store::joined(m.managed_root@, "pi-workflow"@),
            "overlay-workflows.json"@,
        ),
        lexical_path::parent_of(overlay::overlay_catalog_path(m)) matches Some(dir)
            ==> overlay::catalog_lock_dir(m) == dir,
{
}

/// An entry is the same if and only if its identity and its backend are.
pub proof fn law_entries_agree_in_identity_and_backend(a: EntryModel, b: EntryModel)
    ensures
        overlay::same_entry(a, b) <==> a.backend == b.backend && a.identity.workflow_id
            == b.identity.workflow_id && lexical_path::same_path(
            a.identity.source_root,
            b.identity.source_root,
        ) && lexical_path::same_path(a.identity.common_git_dir, b.identity.common_git_dir)
            && lexical_path::same_path(a.identity.worktree_path, b.identity.worktree_path)
            && a.identity.branch == b.identity.branch && a.identity.base_commit
            == b.identity.base_commit && a.identity.head_commit == b.identity.head_commit
            && a.identity.created_at_ms == b.identity.created_at_ms,
{
}

/// A source that is no repository is worked on without one; any other failure to
/// look for the repository is told.
pub proof fn law_sources_may_lack_a_repository<R>(
    f: WorktreeFacts,
    source: Seq<char>,
    next: spec_fn(Option<workflow_worktree::RepoDiscovery>) -> StepModel<R>,
    e: WorktreeError,
)
    ensures
        f.discovery is None ==> overlay::maybe_discovered(f, source, next) == StepModel::<R>::Need(
            WorkModel::Discover(source),
        ),
        worktrees::known(f.discovery) ==> overlay::maybe_discovered(f, source, next) == next(
            Some(worktrees::value(f.discovery)),
        ),
        f.discovery == Some(Err::<workflow_worktree::RepoDiscovery, WorktreeError>(e)) ==> {
            &&& e is NotGit ==> overlay::maybe_discovered(f, source, next) == next(None)
            &&& !(e is NotGit) ==> overlay::maybe_discovered(f, source, next) == StepModel::<
                R,
            >::Fail(e@)
        },
{
}

// ---------------------------------------------------------------------------
// Mounting
// ---------------------------------------------------------------------------

/// A copy has to be there; a mount that is gone is made again from the recorded
/// layers with the recorded backend; and only then is anything done.
pub proof fn law_overlays_are_there_before_use<R>(
    f: WorktreeFacts,
    e: EntryModel,
    next: StepModel<R>,
    error: String,
)
    ensures
        ({
            let step = overlay::ensured_mounted(f, e, next);
            let copied = e.backend == OverlayBackend::Rcopy;
            let layers = overlay::layers_of(e.identity);
            &&& copied && f.present is None ==> step == StepModel::<R>::Need(
                WorkModel::ProbeCheckout(e.identity.worktree_path),
            )
            &&& copied && f.present == Some(true) ==> step == next
            &&& copied && f.present == Some(false) ==> step == StepModel::<R>::Fail(
                ErrorModel::OwnershipMismatch {
                    workflow_id: e.identity.workflow_id,
                    detail: "recorded merged working copy is missing"@,
                },
            )
            &&& !copied && f.mounted is None ==> step == StepModel::<R>::Need(
                WorkModel::ProbeMount { layers, backend: e.backend },
            )
            &&& !copied && f.mounted == Some(true) ==> step == next
            &&& !copied && f.mounted == Some(false) && f.remounted is None ==> step == StepModel::<
                R,
            >::Need(WorkModel::Remount { layers, backend: e.backend })
            &&& !copied && f.mounted == Some(false) && f.remounted is Some && f.remounted->0 is Ok
                ==> step == next
            &&& !copied && f.mounted == Some(false) && f.remounted == Some(
                Err::<(), String>(error),
            ) ==> step == StepModel::<R>::Fail(
                ErrorModel::Other("re-establishing workflow overlay mount: "@ + error@),
            )
        }),
{
}

// ---------------------------------------------------------------------------
// Creation
// ---------------------------------------------------------------------------

/// The identity of a new overlay is that of the source and the merged view under
/// the managed root, on a branch of its own name, and it is in the catalog
/// before it is handed out. Outside a repository it has no commits.
pub proof fn law_new_overlays_are_what_was_made(
    m: OverlayWorkflowManager,
    workflow_id: Seq<char>,
    o: CreateWorktreeOptions,
    f: WorktreeFacts,
)
    ensures
        overlay::overlay_create_model(m, workflow_id, o, f) matches StepModel::Done(i) ==> {
            let root = worktrees::value(f.managed_root)@;
            let location = home(root, workflow_id);
            &&& i.workflow_id == workflow_id
            &&& i.source_root == worktrees::value(f.canonical_source)@
            &&& i.common_git_dir == root
            &&& i.worktree_path == store::joined(location, "merged"@)
            &&& i.branch == "rpi/overlay/"@ + workflow_id
            &&& worktrees::known(f.discovery) ==> i.head_commit == worktrees::value(f.head)@
            &&& worktrees::known(f.discovery) && o.base_commit is Some ==> i.base_commit == worktrees::value(
                f.base_commit,
            )@
            &&& worktrees::known(f.discovery) && o.base_commit is None ==> i.base_commit == worktrees::value(
                f.discovery,
            ).head_commit@
            &&& !worktrees::known(f.discovery) ==> i.base_commit == "none"@ && i.head_commit == "none"@
            &&& Some(i.created_at_ms) == f.now_ms
            &&& lexical_path::same_path(root, worktrees::value(f.expected_root)@)
            &&& f.outside is Some && f.outside->0 is Ok
            &&& f.occupied == Some(false)
            &&& f.overlay_started is Some && f.overlay_started->0 is Ok
            &&& worktrees::known(f.lock) && worktrees::known(f.saved)
        },
{
}

/// What creation asks to be done is about this overlay alone, and the catalog
/// that it writes is the latest one with this workflow's entry put in, under the
/// backend that started.
pub proof fn law_creation_works_on_its_own_overlay(
    m: OverlayWorkflowManager,
    workflow_id: Seq<char>,
    o: CreateWorktreeOptions,
    f: WorktreeFacts,
)
    ensures
        overlay::overlay_create_model(m, workflow_id, o, f) matches StepModel::Need(w) ==> {
            let root = worktrees::value(f.managed_root)@;
            let location = home(root, workflow_id);
            &&& w matches WorkModel::CanonicalSource(p) ==> p == m.source_cwd@
            &&& w matches WorkModel::PrepareManagedRoot(p) ==> p == o.managed_root@
            &&& w matches WorkModel::PrepareExpectedRoot(p) ==> p == m.managed_root@
            &&& w matches WorkModel::CheckOutside { managed, source } ==> managed == root && source
                == worktrees::value(f.canonical_source)@
            &&& w matches WorkModel::Discover(p) ==> p == worktrees::value(f.canonical_source)@
            &&& w matches WorkModel::ResolveCommit(c) ==> o.base_commit is Some && c
                == o.base_commit->0@
            &&& w matches WorkModel::ProbeLocation(p) ==> p == location
            &&& w matches WorkModel::PrepareOverlayDir(p) ==> p == store::joined(
                root,
                "overlay-workflows"@,
            )
            &&& w matches WorkModel::PrepareCatalogDir(p) ==> p == store::joined(
                root,
                "pi-workflow"@,
            )
            &&& w matches WorkModel::StartOverlay { layers, backends } ==> {
                &&& backends == m.backend_candidates@
                &&& layers.source == worktrees::value(f.canonical_source)@
                &&& layers.upper == store::joined(location, "upper"@)
                &&& layers.work == store::joined(location, "work"@)
                &&& layers.merged == store::joined(location, "merged"@)
                &&& f.occupied == Some(false)
            }
            &&& w matches WorkModel::ReadHead(p) ==> p == store::joined(location, "merged"@)
            &&& w matches WorkModel::Lock(p) ==> p == store::joined(root, "pi-workflow"@)
            &&& w matches WorkModel::SaveOverlayCatalog(c) ==> {
                let before = overlay::overlay_catalog_model(worktrees::value(f.fresh_overlay_catalog));
                &&& c.dom() == before.dom().insert(workflow_id)
                &&& forall|id: Seq<char>|
                    id != workflow_id && before.contains_key(id) ==> #[trigger] c[id] == before[id]
                &&& c[workflow_id].backend == f.overlay_started->0->Ok_0
                &&& c[workflow_id].identity.workflow_id == workflow_id
                &&& c[workflow_id].identity.worktree_path == store::joined(location, "merged"@)
            }
        },
{
    if let StepModel::Need(w) = overlay::overlay_create_model(m, workflow_id, o, f) {
        if let WorkModel::SaveOverlayCatalog(c) = w {
            let before = overlay::overlay_catalog_model(worktrees::value(f.fresh_overlay_catalog));
            assert(c =~= before.insert(workflow_id, c[workflow_id]));
            assert(c.dom() =~= before.dom().insert(workflow_id));
        }
    }
}

// ---------------------------------------------------------------------------
// Ownership
// ---------------------------------------------------------------------------

/// Ownership of an overlay is confirmed once the catalog has the very identity
/// and the overlay is there.
pub proof fn law_overlay_ownership_is_confirmed(i: IdentityModel, f: WorktreeFacts)
    requires
        store::valid_id(i.workflow_id),
        worktrees::known(f.overlay_catalog),
        f.present == Some(true),
        f.mounted == Some(true),
    ensures
        ({
            let step = overlay::overlay_verify_model(i, f);
            let c = worktrees::value(f.overlay_catalog)@;
            let listed = c.contains_key(i.workflow_id);
            let exact = listed && workflow_worktree::same_identity(c[i.workflow_id]@.identity, i);
            &&& !listed ==> step == StepModel::<CwdModel>::Fail(
                ErrorModel::NotRegistered(i.workflow_id),
            )
            &&& listed && !exact ==> step == StepModel::<CwdModel>::Fail(
                ErrorModel::OwnershipMismatch {
                    workflow_id: i.workflow_id,
                    detail: "provided identity does not exactly match the ownership catalog"@,
                },
            )
            &&& exact <==> step is Done
            &&& step matches StepModel::Done(cwd) ==> cwd.path == i.worktree_path && cwd.workflow_id
                == i.workflow_id
        }),
{
}

/// An overlay that moved on is adopted where it stands now, if and only if that
/// descends from where it stood; its entry keeps its backend.
pub proof fn law_overlay_progress_is_adopted(
    m: OverlayWorkflowManager,
    workflow_id: Seq<char>,
    f: WorktreeFacts,
    e: EntryModel,
)
    requires
        f.has_git == Some(true),
        worktrees::known(f.head),
    ensures
        ({
            let step = overlay::overlay_advanced(m, workflow_id, f, e);
            let head = worktrees::value(f.head)@;
            &&& head == e.identity.head_commit ==> step == overlay::overlay_adopted(
                m,
                workflow_id,
                f,
                e,
                head,
            )
            &&& head != e.identity.head_commit && f.ancestry is None ==> step == StepModel::<
                (IdentityModel, CwdModel),
            >::Need(
                WorkModel::CheckAncestry {
                    path: e.identity.worktree_path,
                    ancestor: e.identity.head_commit,
                    descendant: head,
                },
            )
            &&& head != e.identity.head_commit && f.ancestry == Some(
                Ok::<Ancestry, WorktreeError>(Ancestry::Ancestor),
            ) ==> step == overlay::overlay_adopted(m, workflow_id, f, e, head)
            &&& head != e.identity.head_commit && f.ancestry == Some(
                Ok::<Ancestry, WorktreeError>(Ancestry::NotAncestor),
            ) ==> step == StepModel::<(IdentityModel, CwdModel)>::Fail(
                ErrorModel::OwnershipMismatch {
                    workflow_id,
                    detail: "live overlay HEAD rewound or diverged from the recorded history"@,
                },
            )
        }),
{
}

/// What is adopted is the recorded identity with its head moved, and it is
/// written with the recorded backend where nobody changed the entry meanwhile.
pub proof fn law_adopted_overlays_keep_their_identity(
    m: OverlayWorkflowManager,
    workflow_id: Seq<char>,
    f: WorktreeFacts,
    e: EntryModel,
    head: Seq<char>,
)
    requires
        worktrees::known(f.lock),
        worktrees::known(f.fresh_overlay_catalog),
    ensures
        ({
            let step = overlay::overlay_adopted(m, workflow_id, f, e, head);
            let c = worktrees::value(f.fresh_overlay_catalog)@;
            let listed = c.contains_key(workflow_id);
            let same = listed && overlay::same_entry(c[workflow_id]@, e);
            &&& !listed ==> step == StepModel::<(IdentityModel, CwdModel)>::Fail(
                ErrorModel::NotRegistered(workflow_id),
            )
            &&& listed && !same ==> step == StepModel::<(IdentityModel, CwdModel)>::Fail(
                ErrorModel::OwnershipMismatch {
                    workflow_id,
                    detail: "ownership catalog changed during verification"@,
                },
            )
            &&& same && worktrees::known(f.saved) <==> step is Done
            &&& step matches StepModel::Done((i, cwd)) ==> {
                &&& i.head_commit == head
                &&& i.workflow_id == e.identity.workflow_id
                &&& i.source_root == e.identity.source_root
                &&& i.common_git_dir == e.identity.common_git_dir
                &&& i.worktree_path == e.identity.worktree_path
                &&& i.branch == e.identity.branch
                &&& i.base_commit == e.identity.base_commit
                &&& i.created_at_ms == e.identity.created_at_ms
                &&& cwd.path == e.identity.worktree_path
                &&& cwd.workflow_id == workflow_id
            }
            &&& same && f.saved is None ==> (step matches StepModel::Need(
                WorkModel::SaveOverlayCatalog(written),
            ) && written.contains_key(workflow_id) && written[workflow_id].backend == e.backend
                && written[workflow_id].identity.head_commit == head
                && written[workflow_id].identity.branch == e.identity.branch)
        }),
{
}

// ---------------------------------------------------------------------------
// Integration
// ---------------------------------------------------------------------------

/// The merged view is copied back over the source; in a repository what changed
/// is staged and committed under the workflow's name, and the result is where
/// the source then stands; outside one the result is where the overlay began.
pub proof fn law_overlays_are_copied_back(
    workflow_id: Seq<char>,
    f: WorktreeFacts,
    i: IdentityModel,
    git: bool,
)
    ensures
        ({
            let step = overlay::overlay_copied_back(workflow_id, f, i, git);
            &&& f.synced is None ==> step == StepModel::<OutcomeModel>::Need(
                WorkModel::SyncBack { from: i.worktree_path, to: i.source_root },
            )
            &&& worktrees::known(f.synced) && !git ==> (step matches StepModel::Done(
                OutcomeModel::Applied { strategy, result_commit, merge_commit },
            ) && strategy == IntegrateStrategy::Merge && result_commit == i.base_commit
                && merge_commit is None)
            &&& worktrees::known(f.synced) && git && f.source_changed is None ==> step == StepModel::<
                OutcomeModel,
            >::Need(WorkModel::ProbeSourceChanged(i.source_root))
            &&& worktrees::known(f.synced) && git && worktrees::known(f.source_changed) && worktrees::value(f.source_changed) && (
            f.staged is None) ==> step == StepModel::<OutcomeModel>::Need(
                WorkModel::StageAll(i.source_root),
            )
            &&& worktrees::known(f.synced) && git && worktrees::known(f.source_changed) && worktrees::value(f.source_changed)
                && worktrees::known(f.staged) && f.committed is None ==> step == StepModel::<
                OutcomeModel,
            >::Need(
                WorkModel::CommitAll {
                    path: i.source_root,
                    message: "workflow "@ + workflow_id + ": integrate overlay changes"@,
                },
            )
            &&& worktrees::known(f.synced) && git && worktrees::known(f.source_changed) && (worktrees::value(f.source_changed)
                ==> worktrees::known(f.staged) && worktrees::known(f.committed)) && f.source_head is None ==> step
                == StepModel::<OutcomeModel>::Need(WorkModel::ReadSourceHead(i.source_root))
            &&& worktrees::known(f.synced) && git && worktrees::known(f.source_changed) && (worktrees::value(f.source_changed)
                ==> worktrees::known(f.staged) && worktrees::known(f.committed)) && worktrees::known(f.source_head) ==> (
            step matches StepModel::Done(
                OutcomeModel::Applied { strategy, result_commit, merge_commit },
            ) && strategy == IntegrateStrategy::Merge && result_commit == worktrees::value(f.source_head)@
                && merge_commit is None)
        }),
{
}

/// An overlay with uncommitted changes, or a dirty source that has to be clean,
/// is not copied back, and which of the two is told.
pub proof fn law_dirty_overlays_are_not_copied_back(
    workflow_id: Seq<char>,
    o: IntegrateOptions,
    f: WorktreeFacts,
)
    requires
        store::valid_id(workflow_id),
        worktrees::known(f.overlay_catalog),
        worktrees::value(f.overlay_catalog)@.contains_key(workflow_id),
        f.present == Some(true),
        f.mounted == Some(true),
        worktrees::known(f.discovery),
        worktrees::known(f.dirty),
        worktrees::known(f.source_dirty),
    ensures
        ({
            let step = overlay::overlay_integrate_model(workflow_id, o, f);
            let i = worktrees::value(f.overlay_catalog)@[workflow_id]@.identity;
            let dirty = worktrees::value(f.dirty);
            let dirty_base = o.require_clean_base && worktrees::value(f.source_dirty);
            &&& dirty ==> step == StepModel::<OutcomeModel>::Fail(
                ErrorModel::DirtyWorktree(workflow_id),
            )
            &&& !dirty && dirty_base ==> step == StepModel::<OutcomeModel>::Fail(
                ErrorModel::DirtyBase,
            )
            &&& !dirty && !dirty_base ==> step == overlay::overlay_copied_back(
                workflow_id,
                f,
                i,
                true,
            )
        }),
{
}

// ---------------------------------------------------------------------------
// Removal
// ---------------------------------------------------------------------------

/// An overlay is detached, its merged view and its directory removed, in this
/// order, and its entry taken from the latest catalog; each failure is told and
/// stops it.
pub proof fn law_overlays_are_torn_down_in_order(
    m: OverlayWorkflowManager,
    f: WorktreeFacts,
    i: IdentityModel,
    e: EntryModel,
    dir: Seq<char>,
)
    ensures
        ({
            let step = overlay::overlay_torn_down(m, f, i, e, dir);
            let stopped = f.stopped is Some && f.stopped->0 is Ok;
            let unmerged = stopped && f.merged_removed is Some && f.merged_removed->0 is Ok;
            let cleared = unmerged && f.dir_removed is Some && f.dir_removed->0 is Ok;
            &&& f.stopped is None ==> (step matches StepModel::Need(
                WorkModel::StopOverlay { layers, backend },
            ) && backend == e.backend && layers.merged == i.worktree_path && layers.source
                == i.source_root && layers.upper == overlay::layers_of(e.identity).upper
                && layers.work == overlay::layers_of(e.identity).work)
            &&& stopped && f.merged_removed is None ==> step == StepModel::<()>::Need(
                WorkModel::RemoveMerged(i.worktree_path),
            )
            &&& unmerged && f.dir_removed is None ==> step == StepModel::<()>::Need(
                WorkModel::RemoveOverlayDir(dir),
            )
            &&& cleared && f.lock is None ==> step == StepModel::<()>::Need(
                WorkModel::Lock(overlay::catalog_lock_dir(m)),
            )
            &&& cleared && worktrees::known(f.lock) && f.fresh_overlay_catalog is None ==> step
                == StepModel::<()>::Need(WorkModel::ReloadOverlayCatalog)
            &&& cleared && worktrees::known(f.lock) && worktrees::known(f.fresh_overlay_catalog) && f.saved is None
                ==> step == StepModel::<()>::Need(
                WorkModel::SaveOverlayCatalog(
                    overlay::overlay_catalog_model(worktrees::value(f.fresh_overlay_catalog)).remove(
                        i.workflow_id,
                    ),
                ),
            )
            &&& step is Done <==> cleared && worktrees::known(f.lock) && worktrees::known(f.fresh_overlay_catalog)
                && worktrees::known(f.saved)
        }),
{
}

/// Only the recorded overlay is torn down, and only inside the managed root.
pub proof fn law_only_managed_overlays_are_torn_down(
    m: OverlayWorkflowManager,
    i: IdentityModel,
    f: WorktreeFacts,
    dir: Seq<char>,
    managed: String,
)
    requires
        store::valid_id(i.workflow_id),
        worktrees::known(f.overlay_catalog),
        worktrees::value(f.overlay_catalog)@.contains_key(i.workflow_id),
        lexical_path::parent_of(i.worktree_path) == Some(dir),
        f.canonical_managed == Some(Ok::<String, WorktreeError>(managed)),
    ensures
        ({
            let step = overlay::overlay_remove_model(m, i, f);
            let e = worktrees::value(f.overlay_catalog)@[i.workflow_id]@;
            let exact = workflow_worktree::same_identity(e.identity, i);
            let inside = lexical_path::within(dir, managed@);
            &&& !exact ==> step == StepModel::<()>::Fail(
                ErrorModel::OwnershipMismatch {
                    workflow_id: i.workflow_id,
                    detail: "provided identity does not exactly match the ownership catalog"@,
                },
            )
            &&& exact && !inside ==> step == StepModel::<()>::Fail(
                ErrorModel::OwnershipMismatch {
                    workflow_id: i.workflow_id,
                    detail: "recorded overlay checkout is outside the managed root"@,
                },
            )
            &&& exact && inside ==> step == overlay::overlay_torn_down(m, f, i, e, dir)
        }),
{
}

// ---------------------------------------------------------------------------
// Inspection, lists and pruning
// ---------------------------------------------------------------------------

/// What is told of an overlay is what was found out of the recorded one; outside
/// a repository it is clean.
pub proof fn law_overlay_inspection_tells_what_was_found(workflow_id: Seq<char>, f: WorktreeFacts)
    ensures
        overlay::overlay_inspect_model(workflow_id, f) matches StepModel::Done(s) ==> {
            let i = worktrees::value(f.overlay_catalog)@[workflow_id]@.identity;
            &&& s.identity == i
            &&& f.has_git == Some(true) ==> {
                &&& s.dirty == worktrees::value(f.dirty)
                &&& s.ahead_commits == worktrees::value(f.ahead)
                &&& s.changed_files == text::texts(worktrees::value(f.changed)@)
            }
            &&& f.has_git == Some(false) ==> !s.dirty && s.ahead_commits == 0
                && s.changed_files.len() == 0
        },
        overlay::overlay_inspect_model(workflow_id, f) matches StepModel::Need(w) ==> {
            let i = worktrees::value(f.overlay_catalog)@[workflow_id]@.identity;
            &&& w matches WorkModel::ProbeGit(p) ==> p == store::joined(i.worktree_path, ".git"@)
            &&& w matches WorkModel::ProbeDirty(p) ==> p == i.worktree_path
            &&& w matches WorkModel::ReadHead(p) ==> p == i.worktree_path
            &&& w matches WorkModel::CountAhead { path, base, head } ==> path == i.worktree_path
                && base == i.base_commit && head == worktrees::value(f.head)@
            &&& w matches WorkModel::ListChanged { path, base } ==> path == i.worktree_path && base
                == i.base_commit
        },
{
}

/// A list has every recorded overlay once, by id.
pub proof fn law_overlays_are_listed_by_id(f: WorktreeFacts)
    ensures
        overlay::overlay_list_model(f) matches StepModel::Done(list) ==> {
            let c = worktrees::value(f.overlay_catalog);
            &&& list.to_multiset() == overlay::overlay_listed(c).to_multiset()
            &&& forall|i: int, j: int|
                0 <= i < j < list.len() ==> !sort::text_before(
                    (#[trigger] list[j]).workflow_id@,
                    (#[trigger] list[i]).workflow_id@,
                )
        },
{
    if let StepModel::Done(list) = overlay::overlay_list_model(f) {
        sort::lemma_stable_sorted(overlay::overlay_listed(worktrees::value(f.overlay_catalog)));
        assert forall|i: int, j: int| 0 <= i < j < list.len() implies !sort::text_before(
            (#[trigger] list[j]).workflow_id@,
            (#[trigger] list[i]).workflow_id@,
        ) by {
            assert(!sort::Rank::before(list[j], list[i]));
        }
    }
}

/// Pruning drops exactly the overlays whose merged view is gone, and tells them
/// in order.
pub proof fn law_gone_overlays_are_pruned(keys: Seq<Seq<char>>, there: Seq<bool>, n: nat)
    requires
        n <= keys.len(),
        n <= there.len(),
    ensures
        forall|i: int|
            0 <= i < n && !#[trigger] there[i] ==> overlay::gone_ids(keys, there, n).contains(
                keys[i],
            ),
        forall|j: int|
            0 <= j < overlay::gone_ids(keys, there, n).len() ==> #[trigger] gone_at(
                keys,
                there,
                n,
                overlay::gone_ids(keys, there, n)[j],
            ),
    decreases n,
{
    if n > 0 {
        let m = (n - 1) as nat;
        law_gone_overlays_are_pruned(keys, there, m);
        let before = overlay::gone_ids(keys, there, m);
        let all = overlay::gone_ids(keys, there, n);
        assert forall|i: int| 0 <= i < n && !#[trigger] there[i] implies all.contains(keys[i]) by {
            if i < m {
                assert(before.contains(keys[i]));
                let j = choose|j: int| 0 <= j < before.len() && before[j] == keys[i];
                assert(all[j] == keys[i]);
            } else {
                assert(all[all.len() - 1] == keys[i]);
            }
        }
        assert forall|j: int| 0 <= j < all.len() implies #[trigger] gone_at(
            keys,
            there,
            n,
            all[j],
        ) by {
            if j < before.len() {
                assert(gone_at(keys, there, m, before[j]));
                let i = choose|i: int| 0 <= i < m && #[trigger] keys[i] == before[j] && !there[i];
                assert(keys[i] == all[j] && !there[i]);
            } else {
                assert(keys[n - 1] == all[j]);
            }
        }
    }
}

/// Whether a key is that of one of the first `n` overlays that is gone.
pub open spec fn gone_at(
    keys: Seq<Seq<char>>,
    there: Seq<bool>,
    n: nat,
    key: Seq<char>,
) -> bool {
    exists|i: int| 0 <= i < n && #[trigger] keys[i] == key && !there[i]
}

/// Pruning looks at the merged view of each recorded overlay, in order, before it
/// drops any.
pub proof fn law_every_overlay_is_looked_at_before_pruning(f: WorktreeFacts)
    ensures
        f.overlay_catalog is None ==> overlay::overlay_prune_model(f) == StepModel::<
            Seq<Seq<char>>,
        >::Need(WorkModel::LoadOverlayCatalog),
        ({
            let c = worktrees::value(f.overlay_catalog);
            let n = f.overlay_entries@.len();
            worktrees::known(f.overlay_catalog) && n < c.keys().len()
                ==> overlay::overlay_prune_model(f) == StepModel::<Seq<Seq<char>>>::Need(
                WorkModel::ProbeMerged(c@[c.keys()[n as int]].worktree_path@),
            )
        }),
{
}

/// What pruning writes is the catalog without the overlays that it tells.
pub proof fn law_pruned_overlays_leave_the_catalog(f: WorktreeFacts)
    requires
        worktrees::known(f.overlay_catalog),
        f.overlay_entries@.len() >= worktrees::value(f.overlay_catalog).keys().len(),
    ensures
        ({
            let c = worktrees::value(f.overlay_catalog);
            let gone = overlay::gone_ids(c.keys(), f.overlay_entries@, c.keys().len());
            let step = overlay::overlay_prune_model(f);
            &&& f.saved is None ==> step == StepModel::<Seq<Seq<char>>>::Need(
                WorkModel::SaveOverlayCatalog(
                    manager::without(overlay::overlay_catalog_model(c), gone),
                ),
            )
            &&& worktrees::known(f.saved) ==> step == StepModel::Done(gone)
        }),
{
}

// ---------------------------------------------------------------------------
// Copying back
// ---------------------------------------------------------------------------

/// An entry of the destination is removed if and only if the source has no entry
/// of its name and kind and it is not left out.
pub proof fn law_only_foreign_entries_are_removed(
    dst: Seq<(Seq<char>, EntryKind)>,
    src: Seq<(Seq<char>, EntryKind)>,
    excluded: Seq<Seq<char>>,
    n: nat,
)
    requires
        n < dst.len(),
    ensures
        ({
            let before = overlay::removals(dst, src, excluded, n);
            let after = overlay::removals(dst, src, excluded, n + 1);
            let e = dst[n as int];
            let kept = src.contains(e) || excluded.contains(e.0);
            &&& kept ==> after == before
            &&& !kept ==> after == before.push(SyncModel::Remove(e.0))
            &&& overlay::removals(dst, src, excluded, 0).len() == 0
        }),
{
}

/// Every entry of the source that is not left out is brought over by its kind: a
/// directory is made where it is missing and then gone into, a link is linked
/// again, a file is copied.
pub proof fn law_every_entry_is_brought_over(
    src: Seq<(Seq<char>, EntryKind)>,
    dst: Seq<(Seq<char>, EntryKind)>,
    excluded: Seq<Seq<char>>,
    n: nat,
)
    requires
        n < src.len(),
    ensures
        ({
            let before = overlay::transfers(src, dst, excluded, n);
            let after = overlay::transfers(src, dst, excluded, n + 1);
            let e = src[n as int];
            let name = e.0;
            &&& excluded.contains(name) ==> after == before
            &&& !excluded.contains(name) && e.1 == EntryKind::File ==> after == before + seq![
                SyncModel::Copy(name),
            ]
            &&& !excluded.contains(name) && e.1 == EntryKind::Symlink ==> after == before + seq![
                SyncModel::Relink(name),
            ]
            &&& !excluded.contains(name) && e.1 == EntryKind::Directory && dst.contains(e) ==> after
                == before + seq![SyncModel::Descend(name)]
            &&& !excluded.contains(name) && e.1 == EntryKind::Directory && !dst.contains(e)
                ==> after == before + seq![
                SyncModel::MakeDirectory(name),
                SyncModel::Descend(name),
            ]
            &&& overlay::transfers(src, dst, excluded, 0).len() == 0
        }),
{
}

/// Entries are removed before any is brought over.
pub proof fn law_removals_come_first(
    src: Seq<(Seq<char>, EntryKind)>,
    dst: Seq<(Seq<char>, EntryKind)>,
    excluded: Seq<Seq<char>>,
)
    ensures
        overlay::removals(dst, src, excluded, dst.len()).is_prefix_of(
            overlay::sync_plan(src, dst, excluded),
        ),
        overlay::transfers(src, dst, excluded, src.len()).is_suffix_of(
            overlay::sync_plan(src, dst, excluded),
        ),
{
    let a = overlay::removals(dst, src, excluded, dst.len());
    let b = overlay::transfers(src, dst, excluded, src.len());
    assert((a + b).take(a.len() as int) =~= a);
    assert((a + b).skip(a.len() as int) =~= b);
}

} // verus!
