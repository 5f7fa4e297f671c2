//! Overlay isolation without git worktrees, and no isolation at all.
//!
//! An overlay's lower layer is the live source tree; the workflow's changes go
//! to a private upper layer. Integration copies the merged tree back over the
//! source, which keeps its own `.git`, and commits the outcome. The last writer
//! wins, so that this backend never reports a conflict.

use crate::lexical_path;
use crate::lexical_path::{is_within, parent_path, paths_agree};
use crate::sort;
use crate::sort::stable_sort;
use crate::text;
use crate::text::{clone_texts, contains_text, push_text, same_text};
use crate::text_map::{Duplicate, TextMap};
use crate::workflow::store;
use crate::workflow::store::{is_valid_id, join_path};
use crate::workflow_worktree;
use crate::workflow_worktree::catalog::{CATALOG_DIR_NAME, CATALOG_MAX_BYTES};
use crate::workflow_worktree::isolation::WorkflowIsolation;
use crate::workflow_worktree::manager;
use crate::workflow_worktree::steps;
use crate::workflow_worktree::steps::{
    Ancestry, StepModel, WorkModel, WorktreeFacts, WorktreeStep, WorktreeWork,
};
use crate::workflow_worktree::{
    CreateWorktreeOptions, CwdModel, ErrorModel, IdentityModel, IntegrateOptions,
    IntegrateOutcome, IntegrateStrategy, OutcomeModel, RepoDiscovery, StatusModel,
    TrustedWorkflowCwd, WorkflowIsolationSetting, WorkflowWorktreeIdentity, WorkflowWorktreeStatus, WorktreeError,
    DEFAULT_GIT_TIMEOUT_MS,
};
use vstd::prelude::*;
use vstd::std_specs::cmp::PartialEqSpecImpl;
use vstd::string::*;

verus! {

/// Directory name under the managed root holding per-workflow overlay trees.
pub const OVERLAY_ROOT_DIR_NAME: &'static str = "overlay-workflows";

/// Branch label of overlay-isolated workflows. No git branch is created.
pub const OVERLAY_BRANCH_PREFIX: &'static str = "rpi/overlay/";

/// File name of the overlay catalog.
pub const OVERLAY_CATALOG_FILE_NAME: &'static str = "overlay-workflows.json";

/// How a merged view is made.
#[derive(Clone, Copy, Debug, PartialEq, Eq, Structural)]
pub enum OverlayBackend {
    Kernel,
    FuseOverlayfs,
    /// A recursive copy of the source.
    Rcopy,
}

/// The backends to try, best first: kernel overlay, fuse-overlayfs, copy.
pub fn default_backend_candidates() -> (r: Vec<OverlayBackend>)
    ensures
        r@ == seq![OverlayBackend::Kernel, OverlayBackend::FuseOverlayfs, OverlayBackend::Rcopy],
{
    let mut r: Vec<OverlayBackend> = Vec::new();
    r.push(OverlayBackend::Kernel);
    r.push(OverlayBackend::FuseOverlayfs);
    r.push(OverlayBackend::Rcopy);
    assert(r@ =~= seq![
        OverlayBackend::Kernel,
        OverlayBackend::FuseOverlayfs,
        OverlayBackend::Rcopy,
    ]);
    r
}

/// The directories of an overlay.
#[derive(Debug, PartialEq, Eq)]
pub struct OverlayLayers {
    pub source: String,
    pub upper: String,
    pub work: String,
    pub merged: String,
}

/// The model of the directories of an overlay.
#[verifier::ext_equal]
pub struct LayersModel {
    pub source: Seq<char>,
    pub upper: Seq<char>,
    pub work: Seq<char>,
    pub merged: Seq<char>,
}

impl View for OverlayLayers {
    type V = LayersModel;

    open spec fn view(&self) -> LayersModel {
        LayersModel {
            source: self.source@,
            upper: self.upper@,
            work: self.work@,
            merged: self.merged@,
        }
    }
}

/// Persisted ownership record: the workflow's identity and the backend that
/// made its merged view.
#[derive(Debug, Eq)]
pub struct OverlayCatalogEntry {
    pub workflow_id: String,
    pub source_root: String,
    pub common_git_dir: String,
    pub worktree_path: String,
    pub branch: String,
    pub base_commit: String,
    pub head_commit: String,
    pub created_at_ms: u64,
    pub backend: OverlayBackend,
}

/// The model of a record.
#[verifier::ext_equal]
pub struct EntryModel {
    pub identity: IdentityModel,
    pub backend: OverlayBackend,
}

impl View for OverlayCatalogEntry {
    type V = EntryModel;

    open spec fn view(&self) -> EntryModel {
        EntryModel {
            identity: IdentityModel {
                workflow_id: self.workflow_id@,
                source_root: self.source_root@,
                common_git_dir: self.common_git_dir@,
                worktree_path: self.worktree_path@,
                branch: self.branch@,
                base_commit: self.base_commit@,
                head_commit: self.head_commit@,
                created_at_ms: self.created_at_ms,
            },
            backend: self.backend,
        }
    }
}

/// Whether two records agree in every part: paths by their components,
/// everything else to the letter.
pub open spec fn same_entry(a: EntryModel, b: EntryModel) -> bool {
    workflow_worktree::same_identity(a.identity, b.identity) && a.backend == b.backend
}

impl PartialEqSpecImpl for OverlayCatalogEntry {
    open spec fn obeys_eq_spec() -> bool {
        true
    }

    open spec fn eq_spec(&self, other: &Self) -> bool {
        same_entry(self@, other@)
    }
}

impl PartialEq for OverlayCatalogEntry {
    fn eq(&self, other: &Self) -> (r: bool) {
        self.same_as(other)
    }
}

impl Clone for OverlayCatalogEntry {
    fn clone(&self) -> (r: Self)
        ensures
            r == *self,
    {
        OverlayCatalogEntry {
            workflow_id: self.workflow_id.clone(),
            source_root: self.source_root.clone(),
            common_git_dir: self.common_git_dir.clone(),
            worktree_path: self.worktree_path.clone(),
            branch: self.branch.clone(),
            base_commit: self.base_commit.clone(),
            head_commit: self.head_commit.clone(),
            created_at_ms: self.created_at_ms,
            backend: self.backend,
        }
    }
}

impl Duplicate for OverlayCatalogEntry {
    fn duplicate(&self) -> (r: Self) {
        self.clone()
    }
}

/// A directory of the overlay beside its merged view.
pub open spec fn layer_path(i: IdentityModel, name: Seq<char>) -> Seq<char> {
    match lexical_path::parent_of(i.worktree_path) {
        Some(dir) => store::joined(dir, name),
        None => Seq::empty(),
    }
}

/// The directories of a recorded overlay.
pub open spec fn layers_of(i: IdentityModel) -> LayersModel {
    LayersModel {
        source: i.source_root,
        upper: layer_path(i, "upper"@),
        work: layer_path(i, "work"@),
        merged: i.worktree_path,
    }
}

/// The identity that a record holds.
pub open spec fn identity_of(e: OverlayCatalogEntry) -> WorkflowWorktreeIdentity {
    WorkflowWorktreeIdentity {
        workflow_id: e.workflow_id,
        source_root: e.source_root,
        common_git_dir: e.common_git_dir,
        worktree_path: e.worktree_path,
        branch: e.branch,
        base_commit: e.base_commit,
        head_commit: e.head_commit,
        created_at_ms: e.created_at_ms,
    }
}

impl OverlayCatalogEntry {
    /// The record of an identity and its backend.
    pub fn from_identity(identity: &WorkflowWorktreeIdentity, backend: OverlayBackend) -> (r: Self)
        ensures
            r@ == (EntryModel { identity: identity@, backend }),
    {
        OverlayCatalogEntry {
            workflow_id: identity.workflow_id.clone(),
            source_root: identity.source_root.clone(),
            common_git_dir: identity.common_git_dir.clone(),
            worktree_path: identity.worktree_path.clone(),
            branch: identity.branch.clone(),
            base_commit: identity.base_commit.clone(),
            head_commit: identity.head_commit.clone(),
            created_at_ms: identity.created_at_ms,
            backend,
        }
    }

    /// The identity that the record holds.
    pub fn identity(&self) -> (r: WorkflowWorktreeIdentity)
        ensures
            r@ == self@.identity,
            r == identity_of(*self),
    {
        WorkflowWorktreeIdentity {
            workflow_id: self.workflow_id.clone(),
            source_root: self.source_root.clone(),
            common_git_dir: self.common_git_dir.clone(),
            worktree_path: self.worktree_path.clone(),
            branch: self.branch.clone(),
            base_commit: self.base_commit.clone(),
            head_commit: self.head_commit.clone(),
            created_at_ms: self.created_at_ms,
        }
    }

    fn beside_merged(&self, name: &str) -> (r: String)
        ensures
            r@ == layer_path(self@.identity, name@),
    {
        match parent_path(self.worktree_path.as_str()) {
            Some(dir) => join_path(dir.as_str(), name),
            None => {
                let r = String::new();
                assert(r@ =~= Seq::<char>::empty());
                r
            },
        }
    }

    /// The writable layer.
    pub fn upper_path(&self) -> (r: String)
        ensures
            r@ == layer_path(self@.identity, "upper"@),
    {
        self.beside_merged("upper")
    }

    /// The overlay's scratch directory.
    pub fn work_path(&self) -> (r: String)
        ensures
            r@ == layer_path(self@.identity, "work"@),
    {
        self.beside_merged("work")
    }

    /// The directories of the overlay.
    pub fn layers(&self) -> (r: OverlayLayers)
        ensures
            r@ == layers_of(self@.identity),
    {
        OverlayLayers {
            source: self.source_root.clone(),
            upper: self.upper_path(),
            work: self.work_path(),
            merged: self.worktree_path.clone(),
        }
    }

    /// Whether the two records agree in every part: paths by their components,
    /// everything else to the letter.
    pub fn same_as(&self, other: &Self) -> (r: bool)
        ensures
            r == same_entry(self@, other@),
    {
        self.backend == other.backend && self.identity().same_as(&other.identity())
    }
}

/// The overlays that the manager owns, by workflow id.
pub type OverlayCatalog = TextMap<OverlayCatalogEntry>;

/// The model of an overlay catalog.
pub open spec fn overlay_catalog_model(c: OverlayCatalog) -> Map<Seq<char>, EntryModel> {
    c@.map_values(|e: OverlayCatalogEntry| e@)
}

/// Refuses an overlay catalog whose announced or actual size is too large.
pub fn check_overlay_catalog_read(announced: u64, actual: u64) -> (r: Result<(), WorktreeError>)
    ensures
        r is Ok <==> announced <= CATALOG_MAX_BYTES && actual <= CATALOG_MAX_BYTES,
        r is Err ==> r->Err_0@ == ErrorModel::Other(
            "overlay ownership catalog exceeds 4194304 bytes"@,
        ),
{
    if announced > CATALOG_MAX_BYTES || actual > CATALOG_MAX_BYTES {
        Err(
            WorktreeError::Other("overlay ownership catalog exceeds 4194304 bytes".to_owned()),
        )
    } else {
        Ok(())
    }
}

/// Refuses to write an overlay catalog that is too large.
pub fn check_overlay_catalog_write(bytes: u64) -> (r: Result<(), WorktreeError>)
    ensures
        r is Ok <==> bytes <= CATALOG_MAX_BYTES,
        r is Err ==> r->Err_0@ == ErrorModel::Other(
            "serialized overlay ownership catalog exceeds 4194304 bytes"@,
        ),
{
    if bytes > CATALOG_MAX_BYTES {
        Err(
            WorktreeError::Other(
                "serialized overlay ownership catalog exceeds 4194304 bytes".to_owned(),
            ),
        )
    } else {
        Ok(())
    }
}

// ---------------------------------------------------------------------------
// The models of the operations
// ---------------------------------------------------------------------------

/// Overlay isolation for a single source project. The managed root, and with it
/// the ownership catalog, is fixed at construction.
#[derive(Debug, PartialEq, Eq)]
pub struct OverlayWorkflowManager {
    pub source_cwd: String,
    pub managed_root: String,
    pub timeout_ms: u64,
    /// The backends to try, best first.
    pub backend_candidates: Vec<OverlayBackend>,
    /// Overrides where the catalog lies.
    pub catalog_path_override: Option<String>,
}

/// Where the overlay of a workflow goes.
pub open spec fn overlay_location(managed_root: Seq<char>, workflow_id: Seq<char>) -> Seq<char> {
    store::joined(store::joined(managed_root, OVERLAY_ROOT_DIR_NAME@), workflow_id)
}

/// Where the overlay catalog lies.
pub open spec fn overlay_catalog_path(m: OverlayWorkflowManager) -> Seq<char> {
    match m.catalog_path_override {
        Some(path) => path@,
        None => store::joined(
            store::joined(m.managed_root@, CATALOG_DIR_NAME@),
            OVERLAY_CATALOG_FILE_NAME@,
        ),
    }
}

/// The directory that is locked around catalog updates.
pub open spec fn catalog_lock_dir(m: OverlayWorkflowManager) -> Seq<char> {
    match lexical_path::parent_of(overlay_catalog_path(m)) {
        Some(dir) => dir,
        None => m.managed_root@,
    }
}

/// The model of looking for a repository: a directory outside of one is no
/// failure.
pub open spec fn maybe_discovered<R>(
    f: WorktreeFacts,
    source: Seq<char>,
    next: spec_fn(Option<RepoDiscovery>) -> StepModel<R>,
) -> StepModel<R> {
    match f.discovery {
        None => StepModel::Need(WorkModel::Discover(source)),
        Some(Ok(d)) => next(Some(d)),
        Some(Err(e)) => if e@ == ErrorModel::NotGit {
            next(None)
        } else {
            StepModel::Fail(e@)
        },
    }
}

/// The model of finding the recorded overlay of a workflow with a valid id.
pub open spec fn owned_entry<R>(
    f: WorktreeFacts,
    workflow_id: Seq<char>,
    next: spec_fn(EntryModel) -> StepModel<R>,
) -> StepModel<R> {
    if !store::valid_id(workflow_id) {
        StepModel::Fail(ErrorModel::InvalidWorkflowId(workflow_id))
    } else {
        steps::need(
            f.overlay_catalog,
            WorkModel::LoadOverlayCatalog,
            |c: OverlayCatalog|
                if c@.contains_key(workflow_id) {
                    next(c@[workflow_id]@)
                } else {
                    StepModel::Fail(ErrorModel::NotRegistered(workflow_id))
                },
        )
    }
}

/// The model of making sure that a recorded overlay is there. A copy is its own
/// working tree and is never made again; a mount is made again with the
/// recorded backend alone.
pub open spec fn ensured_mounted<R>(
    f: WorktreeFacts,
    e: EntryModel,
    next: StepModel<R>,
) -> StepModel<R> {
    if e.backend == OverlayBackend::Rcopy {
        match f.present {
            None => StepModel::Need(WorkModel::ProbeCheckout(e.identity.worktree_path)),
            Some(true) => next,
            Some(false) => StepModel::Fail(
                workflow_worktree::ownership_error(
                    e.identity.workflow_id,
                    "recorded merged working copy is missing"@,
                ),
            ),
        }
    } else {
        match f.mounted {
            None => StepModel::Need(
                WorkModel::ProbeMount { layers: layers_of(e.identity), backend: e.backend },
            ),
            Some(true) => next,
            Some(false) => match f.remounted {
                None => StepModel::Need(
                    WorkModel::Remount { layers: layers_of(e.identity), backend: e.backend },
                ),
                Some(Err(error)) => StepModel::Fail(
                    ErrorModel::Other("re-establishing workflow overlay mount: "@ + error@),
                ),
                Some(Ok(_)) => next,
            },
        }
    }
}

/// The model of writing the overlay catalog.
pub open spec fn overlay_saved<R>(
    f: WorktreeFacts,
    c: Map<Seq<char>, EntryModel>,
    result: R,
) -> StepModel<R> {
    steps::need(f.saved, WorkModel::SaveOverlayCatalog(c), |u: ()| StepModel::Done(result))
}

/// The model of creating the overlay of a workflow.
pub open spec fn overlay_create_model(
    m: OverlayWorkflowManager,
    workflow_id: Seq<char>,
    o: CreateWorktreeOptions,
    f: WorktreeFacts,
) -> StepModel<IdentityModel> {
    if !store::valid_id(workflow_id) {
        StepModel::Fail(ErrorModel::InvalidWorkflowId(workflow_id))
    } else {
        steps::need(
            f.canonical_source,
            WorkModel::CanonicalSource(m.source_cwd@),
            |source: String|
                steps::need(
                    f.managed_root,
                    WorkModel::PrepareManagedRoot(o.managed_root@),
                    |root: String|
                        steps::need(
                            f.expected_root,
                            WorkModel::PrepareExpectedRoot(m.managed_root@),
                            |expected: String|
                                overlay_outside(
                                    m,
                                    workflow_id,
                                    o,
                                    f,
                                    source@,
                                    root@,
                                    expected@,
                                ),
                        ),
                ),
        )
    }
}

/// Creation from the roots on: they must agree and lie outside the source.
pub open spec fn overlay_outside(
    m: OverlayWorkflowManager,
    workflow_id: Seq<char>,
    o: CreateWorktreeOptions,
    f: WorktreeFacts,
    source: Seq<char>,
    root: Seq<char>,
    expected: Seq<char>,
) -> StepModel<IdentityModel> {
    if !lexical_path::same_path(root, expected) {
        StepModel::Fail(
            ErrorModel::Other(
                "managed root does not match the overlay isolation manager's root"@,
            ),
        )
    } else {
        match f.outside {
            None => StepModel::Need(WorkModel::CheckOutside { managed: root, source }),
            Some(Err(detail)) => StepModel::Fail(
                ErrorModel::Other(
                    "managed root must not be inside the source worktree: "@ + detail@,
                ),
            ),
            Some(Ok(_)) => maybe_discovered(
                f,
                source,
                |d: Option<RepoDiscovery>|
                    match (o.base_commit, d) {
                        (Some(revision), Some(_)) => steps::need(
                            f.base_commit,
                            WorkModel::ResolveCommit(revision@),
                            |base: String|
                                overlay_placed(m, workflow_id, f, source, root, true, base@),
                        ),
                        (None, Some(d)) => overlay_placed(
                            m,
                            workflow_id,
                            f,
                            source,
                            root,
                            true,
                            d.head_commit@,
                        ),
                        (_, None) => overlay_placed(
                            m,
                            workflow_id,
                            f,
                            source,
                            root,
                            false,
                            "none"@,
                        ),
                    },
            ),
        }
    }
}

/// The directories of a new overlay.
pub open spec fn new_layers(source: Seq<char>, location: Seq<char>) -> LayersModel {
    LayersModel {
        source,
        upper: store::joined(location, "upper"@),
        work: store::joined(location, "work"@),
        merged: store::joined(location, "merged"@),
    }
}

/// Creation from the base commit on: a free location, then the overlay.
pub open spec fn overlay_placed(
    m: OverlayWorkflowManager,
    workflow_id: Seq<char>,
    f: WorktreeFacts,
    source: Seq<char>,
    root: Seq<char>,
    git: bool,
    base: Seq<char>,
) -> StepModel<IdentityModel> {
    let location = overlay_location(root, workflow_id);
    let layers = new_layers(source, location);
    match f.occupied {
        None => StepModel::Need(WorkModel::ProbeLocation(location)),
        Some(true) => StepModel::Fail(
            ErrorModel::Other(
                "managed overlay location already exists for workflow "@ + workflow_id,
            ),
        ),
        Some(false) => steps::need(
            f.overlay_dir,
            WorkModel::PrepareOverlayDir(store::joined(root, OVERLAY_ROOT_DIR_NAME@)),
            |u: ()|
                steps::need(
                    f.catalog_dir,
                    WorkModel::PrepareCatalogDir(store::joined(root, CATALOG_DIR_NAME@)),
                    |v: ()|
                        match f.overlay_started {
                            None => StepModel::Need(
                                WorkModel::StartOverlay { layers, backends: m.backend_candidates@ },
                            ),
                            Some(Err(error)) => StepModel::Fail(
                                ErrorModel::Other("workflow overlay isolation failed: "@ + error@),
                            ),
                            Some(Ok(backend)) => if git {
                                steps::need(
                                    f.head,
                                    WorkModel::ReadHead(layers.merged),
                                    |head: String|
                                        overlay_recorded(
                                            workflow_id,
                                            f,
                                            root,
                                            layers,
                                            backend,
                                            base,
                                            head@,
                                        ),
                                )
                            } else {
                                overlay_recorded(
                                    workflow_id,
                                    f,
                                    root,
                                    layers,
                                    backend,
                                    base,
                                    "none"@,
                                )
                            },
                        },
                ),
        ),
    }
}

/// Creation from the head on: the identity is recorded, with its backend,
/// before it is handed out.
pub open spec fn overlay_recorded(
    workflow_id: Seq<char>,
    f: WorktreeFacts,
    root: Seq<char>,
    layers: LayersModel,
    backend: OverlayBackend,
    base: Seq<char>,
    head: Seq<char>,
) -> StepModel<IdentityModel> {
    match f.now_ms {
        None => StepModel::Need(WorkModel::Now),
        Some(now_ms) => {
            let identity = IdentityModel {
                workflow_id,
                source_root: layers.source,
                common_git_dir: root,
                worktree_path: layers.merged,
                branch: OVERLAY_BRANCH_PREFIX@ + workflow_id,
                base_commit: base,
                head_commit: head,
                created_at_ms: now_ms,
            };
            steps::need(
                f.lock,
                WorkModel::Lock(store::joined(root, CATALOG_DIR_NAME@)),
                |u: ()|
                    steps::need(
                        f.fresh_overlay_catalog,
                        WorkModel::ReloadOverlayCatalog,
                        |c: OverlayCatalog|
                            overlay_saved(
                                f,
                                overlay_catalog_model(c).insert(
                                    workflow_id,
                                    EntryModel { identity, backend },
                                ),
                                identity,
                            ),
                    ),
            )
        },
    }
}

/// The model of checking exact ownership of an overlay.
pub open spec fn overlay_verify_model(i: IdentityModel, f: WorktreeFacts) -> StepModel<CwdModel> {
    owned_entry(
        f,
        i.workflow_id,
        |e: EntryModel|
            if !workflow_worktree::same_identity(e.identity, i) {
                StepModel::Fail(
                    workflow_worktree::ownership_error(
                        i.workflow_id,
                        "provided identity does not exactly match the ownership catalog"@,
                    ),
                )
            } else {
                ensured_mounted(
                    f,
                    e,
                    StepModel::Done(
                        CwdModel { path: i.worktree_path, workflow_id: i.workflow_id },
                    ),
                )
            },
    )
}

/// The model of adopting committed progress of an owned overlay.
pub open spec fn overlay_current_model(
    m: OverlayWorkflowManager,
    workflow_id: Seq<char>,
    f: WorktreeFacts,
) -> StepModel<(IdentityModel, CwdModel)> {
    owned_entry(
        f,
        workflow_id,
        |e: EntryModel| ensured_mounted(f, e, overlay_advanced(m, workflow_id, f, e)),
    )
}

/// Adoption from the mounted overlay on.
pub open spec fn overlay_advanced(
    m: OverlayWorkflowManager,
    workflow_id: Seq<char>,
    f: WorktreeFacts,
    e: EntryModel,
) -> StepModel<(IdentityModel, CwdModel)> {
    let i = e.identity;
    match f.has_git {
        None => StepModel::Need(WorkModel::ProbeGit(store::joined(i.worktree_path, ".git"@))),
        Some(false) => overlay_adopted(m, workflow_id, f, e, "none"@),
        Some(true) => steps::need(
            f.head,
            WorkModel::ReadHead(i.worktree_path),
            |head: String|
                if head@ == i.head_commit {
                    overlay_adopted(m, workflow_id, f, e, head@)
                } else {
                    steps::need(
                        f.ancestry,
                        WorkModel::CheckAncestry {
                            path: i.worktree_path,
                            ancestor: i.head_commit,
                            descendant: head@,
                        },
                        |a: Ancestry|
                            match a {
                                Ancestry::Ancestor => overlay_adopted(
                                    m,
                                    workflow_id,
                                    f,
                                    e,
                                    head@,
                                ),
                                Ancestry::NotAncestor => StepModel::Fail(
                                    workflow_worktree::ownership_error(
                                        workflow_id,
                                        "live overlay HEAD rewound or diverged from the recorded history"@,
                                    ),
                                ),
                                Ancestry::Failed(error) => StepModel::Fail(error@),
                            },
                    )
                },
        ),
    }
}

/// Adoption of a head: the catalog must not have changed meanwhile.
pub open spec fn overlay_adopted(
    m: OverlayWorkflowManager,
    workflow_id: Seq<char>,
    f: WorktreeFacts,
    e: EntryModel,
    head: Seq<char>,
) -> StepModel<(IdentityModel, CwdModel)> {
    let refreshed = IdentityModel { head_commit: head, ..e.identity };
    steps::need(
        f.lock,
        WorkModel::Lock(catalog_lock_dir(m)),
        |u: ()|
            steps::need(
                f.fresh_overlay_catalog,
                WorkModel::ReloadOverlayCatalog,
                |c: OverlayCatalog|
                    if !c@.contains_key(workflow_id) {
                        StepModel::Fail(ErrorModel::NotRegistered(workflow_id))
                    } else if !same_entry(c@[workflow_id]@, e) {
                        StepModel::Fail(
                            workflow_worktree::ownership_error(
                                workflow_id,
                                "ownership catalog changed during verification"@,
                            ),
                        )
                    } else {
                        overlay_saved(
                            f,
                            overlay_catalog_model(c).insert(
                                workflow_id,
                                EntryModel { identity: refreshed, ..e },
                            ),
                            (
                                refreshed,
                                CwdModel { path: e.identity.worktree_path, workflow_id },
                            ),
                        )
                    },
            ),
    )
}

/// An integration that went through.
pub open spec fn applied(result_commit: Seq<char>) -> OutcomeModel {
    OutcomeModel::Applied {
        strategy: IntegrateStrategy::Merge,
        result_commit,
        merge_commit: None,
    }
}

/// The model of copying an overlay back into its source.
pub open spec fn overlay_integrate_model(
    workflow_id: Seq<char>,
    o: IntegrateOptions,
    f: WorktreeFacts,
) -> StepModel<OutcomeModel> {
    owned_entry(
        f,
        workflow_id,
        |e: EntryModel|
            ensured_mounted(
                f,
                e,
                maybe_discovered(
                    f,
                    e.identity.source_root,
                    |d: Option<RepoDiscovery>|
                        match d {
                            None => overlay_copied_back(workflow_id, f, e.identity, false),
                            Some(_) => steps::need(
                                f.dirty,
                                WorkModel::ProbeDirty(e.identity.worktree_path),
                                |dirty: bool|
                                    if dirty {
                                        StepModel::Fail(ErrorModel::DirtyWorktree(workflow_id))
                                    } else if o.require_clean_base {
                                        steps::need(
                                            f.source_dirty,
                                            WorkModel::ProbeSourceDirty(e.identity.source_root),
                                            |source_dirty: bool|
                                                if source_dirty {
                                                    StepModel::Fail(ErrorModel::DirtyBase)
                                                } else {
                                                    overlay_copied_back(
                                                        workflow_id,
                                                        f,
                                                        e.identity,
                                                        true,
                                                    )
                                                },
                                        )
                                    } else {
                                        overlay_copied_back(workflow_id, f, e.identity, true)
                                    },
                            ),
                        },
                ),
            ),
    )
}

/// The message of the commit that holds what was copied back.
pub open spec fn copy_back_message(workflow_id: Seq<char>) -> Seq<char> {
    "workflow "@ + workflow_id + ": integrate overlay changes"@
}

/// Integration from the copy on: a changed repository gets one commit.
pub open spec fn overlay_copied_back(
    workflow_id: Seq<char>,
    f: WorktreeFacts,
    i: IdentityModel,
    git: bool,
) -> StepModel<OutcomeModel> {
    steps::need(
        f.synced,
        WorkModel::SyncBack { from: i.worktree_path, to: i.source_root },
        |u: ()|
            if !git {
                StepModel::Done(applied(i.base_commit))
            } else {
                steps::need(
                    f.source_changed,
                    WorkModel::ProbeSourceChanged(i.source_root),
                    |changed: bool|
                        if !changed {
                            overlay_result(f, i)
                        } else {
                            steps::need(
                                f.staged,
                                WorkModel::StageAll(i.source_root),
                                |v: ()|
                                    steps::need(
                                        f.committed,
                                        WorkModel::CommitAll {
                                            path: i.source_root,
                                            message: copy_back_message(workflow_id),
                                        },
                                        |w: ()| overlay_result(f, i),
                                    ),
                            )
                        },
                )
            },
    )
}

/// The source HEAD as the outcome.
pub open spec fn overlay_result(f: WorktreeFacts, i: IdentityModel) -> StepModel<OutcomeModel> {
    steps::need(
        f.source_head,
        WorkModel::ReadSourceHead(i.source_root),
        |head: String| StepModel::Done(applied(head@)),
    )
}

/// The model of removing an owned overlay.
pub open spec fn overlay_remove_model(
    m: OverlayWorkflowManager,
    i: IdentityModel,
    f: WorktreeFacts,
) -> StepModel<()> {
    owned_entry(
        f,
        i.workflow_id,
        |e: EntryModel|
            if !workflow_worktree::same_identity(e.identity, i) {
                StepModel::Fail(
                    workflow_worktree::ownership_error(
                        i.workflow_id,
                        "provided identity does not exactly match the ownership catalog"@,
                    ),
                )
            } else {
                match lexical_path::parent_of(i.worktree_path) {
                    None => StepModel::Fail(
                        ErrorModel::Other("recorded overlay merged view has no parent"@),
                    ),
                    Some(dir) => match f.canonical_managed {
                        None => StepModel::Need(WorkModel::CanonicalManaged(m.managed_root@)),
                        Some(managed) => if !lexical_path::within(
                            dir,
                            manager::resolved_or(managed, m.managed_root@),
                        ) {
                            StepModel::Fail(
                                workflow_worktree::ownership_error(
                                    i.workflow_id,
                                    "recorded overlay checkout is outside the managed root"@,
                                ),
                            )
                        } else {
                            overlay_torn_down(m, f, i, e, dir)
                        },
                    },
                }
            },
    )
}

/// Removal from the checks on: the overlay is detached first. The merged view
/// is spelled as in the given identity, the layers beside it as on record.
pub open spec fn overlay_torn_down(
    m: OverlayWorkflowManager,
    f: WorktreeFacts,
    i: IdentityModel,
    e: EntryModel,
    dir: Seq<char>,
) -> StepModel<()> {
    match f.stopped {
        None => StepModel::Need(
            WorkModel::StopOverlay {
                layers: LayersModel {
                    source: i.source_root,
                    merged: i.worktree_path,
                    ..layers_of(e.identity)
                },
                backend: e.backend,
            },
        ),
        Some(Err(error)) => StepModel::Fail(
            ErrorModel::Other("workflow overlay teardown failed: "@ + error@),
        ),
        Some(Ok(_)) => match f.merged_removed {
            None => StepModel::Need(WorkModel::RemoveMerged(i.worktree_path)),
            Some(Err(error)) => StepModel::Fail(
                ErrorModel::Other("removing workflow overlay merged view: "@ + error@),
            ),
            Some(Ok(_)) => match f.dir_removed {
                None => StepModel::Need(WorkModel::RemoveOverlayDir(dir)),
                Some(Err(error)) => StepModel::Fail(
                    ErrorModel::Other("removing workflow overlay identity dir: "@ + error@),
                ),
                Some(Ok(_)) => steps::need(
                    f.lock,
                    WorkModel::Lock(catalog_lock_dir(m)),
                    |u: ()|
                        steps::need(
                            f.fresh_overlay_catalog,
                            WorkModel::ReloadOverlayCatalog,
                            |c: OverlayCatalog|
                                overlay_saved(
                                    f,
                                    overlay_catalog_model(c).remove(i.workflow_id),
                                    (),
                                ),
                        ),
                ),
            },
        },
    }
}

/// The model of inspecting an overlay.
pub open spec fn overlay_inspect_model(workflow_id: Seq<char>, f: WorktreeFacts) -> StepModel<
    StatusModel,
> {
    owned_entry(
        f,
        workflow_id,
        |e: EntryModel|
            ensured_mounted(
                f,
                e,
                match f.has_git {
                    None => StepModel::Need(
                        WorkModel::ProbeGit(store::joined(e.identity.worktree_path, ".git"@)),
                    ),
                    Some(true) => overlay_inspected(f, e.identity),
                    Some(false) => StepModel::Done(
                        StatusModel {
                            identity: e.identity,
                            dirty: false,
                            ahead_commits: 0,
                            changed_files: Seq::empty(),
                        },
                    ),
                },
            ),
    )
}

/// Inspection of an overlay of a repository. The recorded head is shown.
pub open spec fn overlay_inspected(f: WorktreeFacts, i: IdentityModel) -> StepModel<StatusModel> {
    steps::need(
        f.dirty,
        WorkModel::ProbeDirty(i.worktree_path),
        |dirty: bool|
            steps::need(
                f.head,
                WorkModel::ReadHead(i.worktree_path),
                |head: String|
                    steps::need(
                        f.ahead,
                        WorkModel::CountAhead {
                            path: i.worktree_path,
                            base: i.base_commit,
                            head: head@,
                        },
                        |ahead: u64|
                            steps::need(
                                f.changed,
                                WorkModel::ListChanged {
                                    path: i.worktree_path,
                                    base: i.base_commit,
                                },
                                |changed: Vec<String>|
                                    StepModel::Done(
                                        StatusModel {
                                            identity: i,
                                            dirty,
                                            ahead_commits: ahead,
                                            changed_files: text::texts(changed@),
                                        },
                                    ),
                            ),
                    ),
            ),
    )
}

/// The identities of an overlay catalog in the order of its keys.
pub open spec fn overlay_listed(c: OverlayCatalog) -> Seq<WorkflowWorktreeIdentity> {
    Seq::new(c.keys().len(), |k: int| identity_of(c@[c.keys()[k]]))
}

/// The model of listing the recorded overlays by workflow id.
pub open spec fn overlay_list_model(f: WorktreeFacts) -> StepModel<Seq<WorkflowWorktreeIdentity>> {
    steps::need(
        f.overlay_catalog,
        WorkModel::LoadOverlayCatalog,
        |c: OverlayCatalog| StepModel::Done(sort::stable_sorted(overlay_listed(c))),
    )
}

/// The ids of the entries, among the first `n`, whose merged view is gone.
pub open spec fn gone_ids(keys: Seq<Seq<char>>, exists_: Seq<bool>, n: nat) -> Seq<Seq<char>>
    decreases n,
{
    if n == 0 {
        Seq::empty()
    } else {
        let before = gone_ids(keys, exists_, (n - 1) as nat);
        if exists_[n - 1] {
            before
        } else {
            before.push(keys[n - 1])
        }
    }
}

/// The model of dropping the entries whose merged view is gone.
pub open spec fn overlay_prune_model(f: WorktreeFacts) -> StepModel<Seq<Seq<char>>> {
    steps::need(
        f.overlay_catalog,
        WorkModel::LoadOverlayCatalog,
        |c: OverlayCatalog|
            if f.overlay_entries@.len() < c.keys().len() {
                StepModel::Need(
                    WorkModel::ProbeMerged(
                        c@[c.keys()[f.overlay_entries@.len() as int]]@.identity.worktree_path,
                    ),
                )
            } else {
                let gone = gone_ids(c.keys(), f.overlay_entries@, c.keys().len());
                overlay_saved(f, manager::without(overlay_catalog_model(c), gone), gone)
            },
    )
}

// ---------------------------------------------------------------------------
// The manager
// ---------------------------------------------------------------------------

fn clone_backends(v: &Vec<OverlayBackend>) -> (r: Vec<OverlayBackend>)
    ensures
        r@ == v@,
{
    let mut r: Vec<OverlayBackend> = Vec::new();
    let mut i: usize = 0;
    while i < v.len()
        invariant
            i <= v@.len(),
            r@ == v@.take(i as int),
        decreases v@.len() - i,
    {
        r.push(v[i]);
        assert(v@.take(i as int).push(v@[i as int]) =~= v@.take(i + 1));
        i += 1;
    }
    assert(v@.take(v@.len() as int) =~= v@);
    r
}

/// The repository around a source, nothing outside of one, or where looking for
/// it stands.
pub(crate) fn maybe_discovery_gate<'a, T: View>(source: &str, f: &'a WorktreeFacts) -> (r: Result<
    Option<&'a RepoDiscovery>,
    WorktreeStep<T>,
>)
    ensures
        match r {
            Ok(Some(d)) => forall|next: spec_fn(Option<RepoDiscovery>) -> StepModel<T::V>|
                #[trigger] maybe_discovered(*f, source@, next) == next(Some(*d)),
            Ok(None) => forall|next: spec_fn(Option<RepoDiscovery>) -> StepModel<T::V>|
                #[trigger] maybe_discovered(*f, source@, next) == next(None),
            Err(step) => forall|next: spec_fn(Option<RepoDiscovery>) -> StepModel<T::V>|
                #[trigger] maybe_discovered(*f, source@, next) == step@,
        },
{
    match &f.discovery {
        None => Err(WorktreeStep::Need(WorktreeWork::Discover(source.to_owned()))),
        Some(Ok(d)) => Ok(Some(d)),
        Some(Err(e)) => match e {
            WorktreeError::NotGit => Ok(None),
            _ => Err(WorktreeStep::Fail(e.clone())),
        },
    }
}

impl OverlayWorkflowManager {
    /// A manager bound to a trusted source project directory and the managed
    /// root that will hold the overlays.
    pub fn new(source_cwd: &str, managed_root: &str) -> (r: Self)
        ensures
            r.source_cwd@ == source_cwd@,
            r.managed_root@ == managed_root@,
            r.timeout_ms == DEFAULT_GIT_TIMEOUT_MS,
            r.backend_candidates@ == seq![
                OverlayBackend::Kernel,
                OverlayBackend::FuseOverlayfs,
                OverlayBackend::Rcopy,
            ],
            r.catalog_path_override is None,
    {
        OverlayWorkflowManager {
            source_cwd: source_cwd.to_owned(),
            managed_root: managed_root.to_owned(),
            timeout_ms: DEFAULT_GIT_TIMEOUT_MS,
            backend_candidates: default_backend_candidates(),
            catalog_path_override: None,
        }
    }

    pub fn with_timeout(self, timeout_ms: u64) -> (r: Self)
        ensures
            r == (OverlayWorkflowManager { timeout_ms, ..self }),
    {
        let mut r = self;
        r.timeout_ms = timeout_ms;
        r
    }

    pub fn with_catalog_path(self, path: &str) -> (r: Self)
        ensures
            r.catalog_path_override is Some,
            r.catalog_path_override->0@ == path@,
            r == (OverlayWorkflowManager {
                catalog_path_override: r.catalog_path_override,
                ..self
            }),
    {
        let mut r = self;
        r.catalog_path_override = Some(path.to_owned());
        r
    }

    /// Restricts the backends.
    pub fn with_backend_candidates(self, candidates: Vec<OverlayBackend>) -> (r: Self)
        ensures
            r == (OverlayWorkflowManager { backend_candidates: candidates, ..self }),
    {
        let mut r = self;
        r.backend_candidates = candidates;
        r
    }

    pub fn source_cwd(&self) -> (r: &str)
        ensures
            r@ == self.source_cwd@,
    {
        self.source_cwd.as_str()
    }

    pub fn managed_root(&self) -> (r: &str)
        ensures
            r@ == self.managed_root@,
    {
        self.managed_root.as_str()
    }

    /// The timeout that applies to an operation with an optional override.
    pub fn timeout(&self, override_ms: Option<u64>) -> (r: u64)
        ensures
            r == (match override_ms {
                Some(ms) => ms,
                None => self.timeout_ms,
            }),
    {
        match override_ms {
            Some(ms) => ms,
            None => self.timeout_ms,
        }
    }

    /// Where the overlay catalog lies.
    pub fn catalog_path(&self) -> (r: String)
        ensures
            r@ == overlay_catalog_path(*self),
    {
        match &self.catalog_path_override {
            Some(path) => path.clone(),
            None => join_path(
                join_path(self.managed_root.as_str(), CATALOG_DIR_NAME).as_str(),
                OVERLAY_CATALOG_FILE_NAME,
            ),
        }
    }

    /// The directory that is locked around catalog updates.
    pub fn lock_dir(&self) -> (r: String)
        ensures
            r@ == catalog_lock_dir(*self),
    {
        match parent_path(self.catalog_path().as_str()) {
            Some(dir) => dir,
            None => self.managed_root.clone(),
        }
    }

    /// The recorded overlay of a workflow, or where finding it stands.
    fn entry_gate<'a, T: View>(workflow_id: &str, f: &'a WorktreeFacts) -> (r: Result<
        &'a OverlayCatalogEntry,
        WorktreeStep<T>,
    >)
        ensures
            match r {
                Ok(e) => forall|next: spec_fn(EntryModel) -> StepModel<T::V>|
                    #[trigger] owned_entry(*f, workflow_id@, next) == next(e@),
                Err(step) => forall|next: spec_fn(EntryModel) -> StepModel<T::V>|
                    #[trigger] owned_entry(*f, workflow_id@, next) == step@,
            },
    {
        if !is_valid_id(workflow_id) {
            return Err(
                WorktreeStep::Fail(WorktreeError::InvalidWorkflowId(workflow_id.to_owned())),
            );
        }
        match &f.overlay_catalog {
            None => Err(WorktreeStep::Need(WorktreeWork::LoadOverlayCatalog)),
            Some(Err(e)) => Err(WorktreeStep::Fail(e.clone())),
            Some(Ok(c)) => match c.get(workflow_id) {
                Some(e) => Ok(e),
                None => Err(
                    WorktreeStep::Fail(WorktreeError::NotRegistered(workflow_id.to_owned())),
                ),
            },
        }
    }

    /// Nothing where a recorded overlay is there, or where making sure of it
    /// stands.
    pub fn ensure_mounted<T: View>(entry: &OverlayCatalogEntry, f: &WorktreeFacts) -> (r: Result<
        (),
        WorktreeStep<T>,
    >)
        ensures
            match r {
                Ok(_) => forall|next: StepModel<T::V>|
                    #[trigger] ensured_mounted(*f, entry@, next) == next,
                Err(step) => forall|next: StepModel<T::V>|
                    #[trigger] ensured_mounted(*f, entry@, next) == step@,
            },
    {
        if entry.backend == OverlayBackend::Rcopy {
            match f.present {
                None => Err(
                    WorktreeStep::Need(WorktreeWork::ProbeCheckout(entry.worktree_path.clone())),
                ),
                Some(true) => Ok(()),
                Some(false) => Err(
                    WorktreeStep::Fail(
                        WorktreeError::ownership(
                            entry.workflow_id.as_str(),
                            "recorded merged working copy is missing",
                        ),
                    ),
                ),
            }
        } else {
            match f.mounted {
                None => Err(
                    WorktreeStep::Need(
                        WorktreeWork::ProbeMount { layers: entry.layers(), backend: entry.backend },
                    ),
                ),
                Some(true) => Ok(()),
                Some(false) => match &f.remounted {
                    None => Err(
                        WorktreeStep::Need(
                            WorktreeWork::Remount {
                                layers: entry.layers(),
                                backend: entry.backend,
                            },
                        ),
                    ),
                    Some(Err(error)) => Err(
                        WorktreeStep::Fail(
                            WorktreeError::Other(
                                "re-establishing workflow overlay mount: ".to_owned().concat(
                                    error.as_str(),
                                ),
                            ),
                        ),
                    ),
                    Some(Ok(_)) => Ok(()),
                },
            }
        }
    }

    fn place(
        &self,
        workflow_id: &str,
        f: &WorktreeFacts,
        source: &str,
        root: &str,
        git: bool,
        base: &str,
    ) -> (r: WorktreeStep<WorkflowWorktreeIdentity>)
        ensures
            r@ == overlay_placed(*self, workflow_id@, *f, source@, root@, git, base@),
    {
        let overlay_dir = join_path(root, OVERLAY_ROOT_DIR_NAME);
        let location = join_path(overlay_dir.as_str(), workflow_id);
        match f.occupied {
            None => {
                return WorktreeStep::Need(WorktreeWork::ProbeLocation(location));
            },
            Some(true) => {
                return WorktreeStep::Fail(
                    WorktreeError::Other(
                        "managed overlay location already exists for workflow ".to_owned().concat(
                            workflow_id,
                        ),
                    ),
                );
            },
            Some(false) => {},
        }
        match &f.overlay_dir {
            None => {
                return WorktreeStep::Need(WorktreeWork::PrepareOverlayDir(overlay_dir));
            },
            Some(Err(e)) => {
                return WorktreeStep::Fail(e.clone());
            },
            Some(Ok(_)) => {},
        }
        match &f.catalog_dir {
            None => {
                return WorktreeStep::Need(
                    WorktreeWork::PrepareCatalogDir(join_path(root, CATALOG_DIR_NAME)),
                );
            },
            Some(Err(e)) => {
                return WorktreeStep::Fail(e.clone());
            },
            Some(Ok(_)) => {},
        }
        let layers = OverlayLayers {
            source: source.to_owned(),
            upper: join_path(location.as_str(), "upper"),
            work: join_path(location.as_str(), "work"),
            merged: join_path(location.as_str(), "merged"),
        };
        let backend = match &f.overlay_started {
            None => {
                return WorktreeStep::Need(
                    WorktreeWork::StartOverlay {
                        layers,
                        backends: clone_backends(&self.backend_candidates),
                    },
                );
            },
            Some(Err(error)) => {
                return WorktreeStep::Fail(
                    WorktreeError::Other(
                        "workflow overlay isolation failed: ".to_owned().concat(error.as_str()),
                    ),
                );
            },
            Some(Ok(backend)) => *backend,
        };
        if git {
            match &f.head {
                None => WorktreeStep::Need(WorktreeWork::ReadHead(layers.merged)),
                Some(Err(e)) => WorktreeStep::Fail(e.clone()),
                Some(Ok(head)) => self.record(
                    workflow_id,
                    f,
                    root,
                    layers,
                    backend,
                    base,
                    head.as_str(),
                ),
            }
        } else {
            self.record(workflow_id, f, root, layers, backend, base, "none")
        }
    }

    fn record(
        &self,
        workflow_id: &str,
        f: &WorktreeFacts,
        root: &str,
        layers: OverlayLayers,
        backend: OverlayBackend,
        base: &str,
        head: &str,
    ) -> (r: WorktreeStep<WorkflowWorktreeIdentity>)
        ensures
            r@ == overlay_recorded(workflow_id@, *f, root@, layers@, backend, base@, head@),
    {
        let now_ms: u64 = match f.now_ms {
            None => {
                return WorktreeStep::Need(WorktreeWork::Now);
            },
            Some(now_ms) => now_ms,
        };
        let identity = WorkflowWorktreeIdentity {
            workflow_id: workflow_id.to_owned(),
            source_root: layers.source,
            common_git_dir: root.to_owned(),
            worktree_path: layers.merged,
            branch: OVERLAY_BRANCH_PREFIX.to_owned().concat(workflow_id),
            base_commit: base.to_owned(),
            head_commit: head.to_owned(),
            created_at_ms: now_ms,
        };
        match &f.lock {
            None => {
                return WorktreeStep::Need(WorktreeWork::Lock(join_path(root, CATALOG_DIR_NAME)));
            },
            Some(Err(e)) => {
                return WorktreeStep::Fail(e.clone());
            },
            Some(Ok(_)) => {},
        }
        let fresh = match &f.fresh_overlay_catalog {
            None => {
                return WorktreeStep::Need(WorktreeWork::ReloadOverlayCatalog);
            },
            Some(Err(e)) => {
                return WorktreeStep::Fail(e.clone());
            },
            Some(Ok(c)) => c,
        };
        match &f.saved {
            None => {
                let mut c = fresh.copied();
                let entry = OverlayCatalogEntry::from_identity(&identity, backend);
                let ghost model = entry@;
                c.insert(workflow_id.to_owned(), entry);
                assert(overlay_catalog_model(c) =~= overlay_catalog_model(*fresh).insert(
                    workflow_id@,
                    model,
                ));
                WorktreeStep::Need(WorktreeWork::SaveOverlayCatalog(c))
            },
            Some(Err(e)) => WorktreeStep::Fail(e.clone()),
            Some(Ok(_)) => WorktreeStep::Done(identity),
        }
    }

    fn adopt(
        &self,
        workflow_id: &str,
        f: &WorktreeFacts,
        entry: &OverlayCatalogEntry,
        head: &str,
    ) -> (r: WorktreeStep<(WorkflowWorktreeIdentity, TrustedWorkflowCwd)>)
        ensures
            r@ == overlay_adopted(*self, workflow_id@, *f, entry@, head@),
    {
        match &f.lock {
            None => {
                return WorktreeStep::Need(WorktreeWork::Lock(self.lock_dir()));
            },
            Some(Err(e)) => {
                return WorktreeStep::Fail(e.clone());
            },
            Some(Ok(_)) => {},
        }
        let fresh = match &f.fresh_overlay_catalog {
            None => {
                return WorktreeStep::Need(WorktreeWork::ReloadOverlayCatalog);
            },
            Some(Err(e)) => {
                return WorktreeStep::Fail(e.clone());
            },
            Some(Ok(c)) => c,
        };
        match fresh.get(workflow_id) {
            None => {
                return WorktreeStep::Fail(WorktreeError::NotRegistered(workflow_id.to_owned()));
            },
            Some(current) => {
                if !current.same_as(entry) {
                    return WorktreeStep::Fail(
                        WorktreeError::ownership(
                            workflow_id,
                            "ownership catalog changed during verification",
                        ),
                    );
                }
            },
        }
        let mut refreshed = entry.clone();
        refreshed.head_commit = head.to_owned();
        let identity = refreshed.identity();
        match &f.saved {
            None => {
                let mut c = fresh.copied();
                let ghost model = refreshed@;
                c.insert(workflow_id.to_owned(), refreshed);
                assert(overlay_catalog_model(c) =~= overlay_catalog_model(*fresh).insert(
                    workflow_id@,
                    model,
                ));
                WorktreeStep::Need(WorktreeWork::SaveOverlayCatalog(c))
            },
            Some(Err(e)) => WorktreeStep::Fail(e.clone()),
            Some(Ok(_)) => {
                let cwd = TrustedWorkflowCwd::mint(entry.worktree_path.as_str(), workflow_id);
                WorktreeStep::Done((identity, cwd))
            },
        }
    }

    fn copy_back(
        workflow_id: &str,
        f: &WorktreeFacts,
        entry: &OverlayCatalogEntry,
        git: bool,
    ) -> (r: WorktreeStep<IntegrateOutcome>)
        ensures
            r@ == overlay_copied_back(workflow_id@, *f, entry@.identity, git),
    {
        match &f.synced {
            None => {
                return WorktreeStep::Need(
                    WorktreeWork::SyncBack {
                        from: entry.worktree_path.clone(),
                        to: entry.source_root.clone(),
                    },
                );
            },
            Some(Err(e)) => {
                return WorktreeStep::Fail(e.clone());
            },
            Some(Ok(_)) => {},
        }
        if !git {
            return WorktreeStep::Done(applied_at(entry.base_commit.as_str()));
        }
        let changed = match &f.source_changed {
            None => {
                return WorktreeStep::Need(
                    WorktreeWork::ProbeSourceChanged(entry.source_root.clone()),
                );
            },
            Some(Err(e)) => {
                return WorktreeStep::Fail(e.clone());
            },
            Some(Ok(changed)) => *changed,
        };
        if changed {
            match &f.staged {
                None => {
                    return WorktreeStep::Need(WorktreeWork::StageAll(entry.source_root.clone()));
                },
                Some(Err(e)) => {
                    return WorktreeStep::Fail(e.clone());
                },
                Some(Ok(_)) => {},
            }
            match &f.committed {
                None => {
                    return WorktreeStep::Need(
                        WorktreeWork::CommitAll {
                            path: entry.source_root.clone(),
                            message: "workflow ".to_owned().concat(workflow_id).concat(
                                ": integrate overlay changes",
                            ),
                        },
                    );
                },
                Some(Err(e)) => {
                    return WorktreeStep::Fail(e.clone());
                },
                Some(Ok(_)) => {},
            }
        }
        match &f.source_head {
            None => WorktreeStep::Need(WorktreeWork::ReadSourceHead(entry.source_root.clone())),
            Some(Err(e)) => WorktreeStep::Fail(e.clone()),
            Some(Ok(head)) => WorktreeStep::Done(applied_at(head.as_str())),
        }
    }

    fn tear_down(
        &self,
        f: &WorktreeFacts,
        identity: &WorkflowWorktreeIdentity,
        entry: &OverlayCatalogEntry,
        dir: String,
    ) -> (r: WorktreeStep<()>)
        ensures
            r@ == overlay_torn_down(*self, *f, identity@, entry@, dir@),
    {
        match &f.stopped {
            None => {
                let mut layers = entry.layers();
                layers.source = identity.source_root.clone();
                layers.merged = identity.worktree_path.clone();
                return WorktreeStep::Need(
                    WorktreeWork::StopOverlay { layers, backend: entry.backend },
                );
            },
            Some(Err(error)) => {
                return WorktreeStep::Fail(
                    WorktreeError::Other(
                        "workflow overlay teardown failed: ".to_owned().concat(error.as_str()),
                    ),
                );
            },
            Some(Ok(_)) => {},
        }
        match &f.merged_removed {
            None => {
                return WorktreeStep::Need(
                    WorktreeWork::RemoveMerged(identity.worktree_path.clone()),
                );
            },
            Some(Err(error)) => {
                return WorktreeStep::Fail(
                    WorktreeError::Other(
                        "removing workflow overlay merged view: ".to_owned().concat(
                            error.as_str(),
                        ),
                    ),
                );
            },
            Some(Ok(_)) => {},
        }
        match &f.dir_removed {
            None => {
                return WorktreeStep::Need(WorktreeWork::RemoveOverlayDir(dir));
            },
            Some(Err(error)) => {
                return WorktreeStep::Fail(
                    WorktreeError::Other(
                        "removing workflow overlay identity dir: ".to_owned().concat(
                            error.as_str(),
                        ),
                    ),
                );
            },
            Some(Ok(_)) => {},
        }
        match &f.lock {
            None => {
                return WorktreeStep::Need(WorktreeWork::Lock(self.lock_dir()));
            },
            Some(Err(e)) => {
                return WorktreeStep::Fail(e.clone());
            },
            Some(Ok(_)) => {},
        }
        let fresh = match &f.fresh_overlay_catalog {
            None => {
                return WorktreeStep::Need(WorktreeWork::ReloadOverlayCatalog);
            },
            Some(Err(e)) => {
                return WorktreeStep::Fail(e.clone());
            },
            Some(Ok(c)) => c,
        };
        match &f.saved {
            None => {
                let mut c = fresh.copied();
                c.remove(identity.workflow_id.as_str());
                assert(overlay_catalog_model(c) =~= overlay_catalog_model(*fresh).remove(
                    identity@.workflow_id,
                ));
                WorktreeStep::Need(WorktreeWork::SaveOverlayCatalog(c))
            },
            Some(Err(e)) => WorktreeStep::Fail(e.clone()),
            Some(Ok(_)) => WorktreeStep::Done(()),
        }
    }
}

/// An integration that went through.
pub(crate) fn applied_at(result_commit: &str) -> (r: IntegrateOutcome)
    ensures
        r@ == applied(result_commit@),
{
    IntegrateOutcome::Applied {
        strategy: IntegrateStrategy::Merge,
        result_commit: result_commit.to_owned(),
        merge_commit: None,
    }
}

impl WorkflowIsolation for OverlayWorkflowManager {
    fn create(
        &self,
        workflow_id: &str,
        options: &CreateWorktreeOptions,
        f: &WorktreeFacts,
    ) -> (r: WorktreeStep<WorkflowWorktreeIdentity>)
        ensures
            r@ == overlay_create_model(*self, workflow_id@, *options, *f),
    {
        if !is_valid_id(workflow_id) {
            return WorktreeStep::Fail(WorktreeError::InvalidWorkflowId(workflow_id.to_owned()));
        }
        let source = match &f.canonical_source {
            None => {
                return WorktreeStep::Need(WorktreeWork::CanonicalSource(self.source_cwd.clone()));
            },
            Some(Err(e)) => {
                return WorktreeStep::Fail(e.clone());
            },
            Some(Ok(source)) => source,
        };
        let root = match &f.managed_root {
            None => {
                return WorktreeStep::Need(
                    WorktreeWork::PrepareManagedRoot(options.managed_root.clone()),
                );
            },
            Some(Err(e)) => {
                return WorktreeStep::Fail(e.clone());
            },
            Some(Ok(root)) => root,
        };
        let expected = match &f.expected_root {
            None => {
                return WorktreeStep::Need(
                    WorktreeWork::PrepareExpectedRoot(self.managed_root.clone()),
                );
            },
            Some(Err(e)) => {
                return WorktreeStep::Fail(e.clone());
            },
            Some(Ok(expected)) => expected,
        };
        if !paths_agree(root.as_str(), expected.as_str()) {
            return WorktreeStep::Fail(
                WorktreeError::Other(
                    "managed root does not match the overlay isolation manager's root".to_owned(),
                ),
            );
        }
        match &f.outside {
            None => {
                return WorktreeStep::Need(
                    WorktreeWork::CheckOutside { managed: root.clone(), source: source.clone() },
                );
            },
            Some(Err(detail)) => {
                return WorktreeStep::Fail(
                    WorktreeError::Other(
                        "managed root must not be inside the source worktree: ".to_owned().concat(
                            detail.as_str(),
                        ),
                    ),
                );
            },
            Some(Ok(_)) => {},
        }
        let d = match maybe_discovery_gate::<WorkflowWorktreeIdentity>(source.as_str(), f) {
            Err(step) => {
                return step;
            },
            Ok(d) => d,
        };
        match d {
            None => self.place(workflow_id, f, source.as_str(), root.as_str(), false, "none"),
            Some(d) => match &options.base_commit {
                None => self.place(
                    workflow_id,
                    f,
                    source.as_str(),
                    root.as_str(),
                    true,
                    d.head_commit.as_str(),
                ),
                Some(revision) => match &f.base_commit {
                    None => WorktreeStep::Need(WorktreeWork::ResolveCommit(revision.clone())),
                    Some(Err(e)) => WorktreeStep::Fail(e.clone()),
                    Some(Ok(base)) => self.place(
                        workflow_id,
                        f,
                        source.as_str(),
                        root.as_str(),
                        true,
                        base.as_str(),
                    ),
                },
            },
        }
    }

    fn verify_owned(&self, identity: &WorkflowWorktreeIdentity, f: &WorktreeFacts) -> (r:
        WorktreeStep<TrustedWorkflowCwd>)
        ensures
            r@ == overlay_verify_model(identity@, *f),
    {
        let entry = match Self::entry_gate::<TrustedWorkflowCwd>(identity.workflow_id.as_str(), f) {
            Err(step) => {
                return step;
            },
            Ok(entry) => entry,
        };
        if !entry.identity().same_as(identity) {
            return WorktreeStep::Fail(
                WorktreeError::ownership(
                    identity.workflow_id.as_str(),
                    "provided identity does not exactly match the ownership catalog",
                ),
            );
        }
        match Self::ensure_mounted::<TrustedWorkflowCwd>(entry, f) {
            Err(step) => step,
            Ok(_) => WorktreeStep::Done(
                TrustedWorkflowCwd::mint(
                    identity.worktree_path.as_str(),
                    identity.workflow_id.as_str(),
                ),
            ),
        }
    }

    fn verify_owned_current(&self, workflow_id: &str, f: &WorktreeFacts) -> (r: WorktreeStep<
        (WorkflowWorktreeIdentity, TrustedWorkflowCwd),
    >)
        ensures
            r@ == overlay_current_model(*self, workflow_id@, *f),
    {
        let entry = match Self::entry_gate::<(WorkflowWorktreeIdentity, TrustedWorkflowCwd)>(
            workflow_id,
            f,
        ) {
            Err(step) => {
                return step;
            },
            Ok(entry) => entry,
        };
        match Self::ensure_mounted::<(WorkflowWorktreeIdentity, TrustedWorkflowCwd)>(entry, f) {
            Err(step) => {
                return step;
            },
            Ok(_) => {},
        }
        let git = match f.has_git {
            None => {
                return WorktreeStep::Need(
                    WorktreeWork::ProbeGit(join_path(entry.worktree_path.as_str(), ".git")),
                );
            },
            Some(git) => git,
        };
        if !git {
            return self.adopt(workflow_id, f, entry, "none");
        }
        let head = match &f.head {
            None => {
                return WorktreeStep::Need(WorktreeWork::ReadHead(entry.worktree_path.clone()));
            },
            Some(Err(e)) => {
                return WorktreeStep::Fail(e.clone());
            },
            Some(Ok(head)) => head,
        };
        if !same_text(head.as_str(), entry.head_commit.as_str()) {
            match &f.ancestry {
                None => {
                    return WorktreeStep::Need(
                        WorktreeWork::CheckAncestry {
                            path: entry.worktree_path.clone(),
                            ancestor: entry.head_commit.clone(),
                            descendant: head.clone(),
                        },
                    );
                },
                Some(Err(e)) => {
                    return WorktreeStep::Fail(e.clone());
                },
                Some(Ok(Ancestry::NotAncestor)) => {
                    return WorktreeStep::Fail(
                        WorktreeError::ownership(
                            workflow_id,
                            "live overlay HEAD rewound or diverged from the recorded history",
                        ),
                    );
                },
                Some(Ok(Ancestry::Failed(e))) => {
                    return WorktreeStep::Fail(e.clone());
                },
                Some(Ok(Ancestry::Ancestor)) => {},
            }
        }
        self.adopt(workflow_id, f, entry, head.as_str())
    }

    fn integrate(&self, workflow_id: &str, options: &IntegrateOptions, f: &WorktreeFacts) -> (r:
        WorktreeStep<IntegrateOutcome>)
        ensures
            r@ == overlay_integrate_model(workflow_id@, *options, *f),
    {
        let entry = match Self::entry_gate::<IntegrateOutcome>(workflow_id, f) {
            Err(step) => {
                return step;
            },
            Ok(entry) => entry,
        };
        match Self::ensure_mounted::<IntegrateOutcome>(entry, f) {
            Err(step) => {
                return step;
            },
            Ok(_) => {},
        }
        match maybe_discovery_gate::<IntegrateOutcome>(entry.source_root.as_str(), f) {
            Err(step) => {
                return step;
            },
            Ok(None) => {
                return Self::copy_back(workflow_id, f, entry, false);
            },
            Ok(Some(_)) => {},
        }
        match &f.dirty {
            None => {
                return WorktreeStep::Need(WorktreeWork::ProbeDirty(entry.worktree_path.clone()));
            },
            Some(Err(e)) => {
                return WorktreeStep::Fail(e.clone());
            },
            Some(Ok(dirty)) => {
                if *dirty {
                    return WorktreeStep::Fail(
                        WorktreeError::DirtyWorktree(workflow_id.to_owned()),
                    );
                }
            },
        }
        if options.require_clean_base {
            match &f.source_dirty {
                None => {
                    return WorktreeStep::Need(
                        WorktreeWork::ProbeSourceDirty(entry.source_root.clone()),
                    );
                },
                Some(Err(e)) => {
                    return WorktreeStep::Fail(e.clone());
                },
                Some(Ok(dirty)) => {
                    if *dirty {
                        return WorktreeStep::Fail(WorktreeError::DirtyBase);
                    }
                },
            }
        }
        Self::copy_back(workflow_id, f, entry, true)
    }

    fn remove(&self, identity: &WorkflowWorktreeIdentity, f: &WorktreeFacts) -> (r: WorktreeStep<
        (),
    >)
        ensures
            r@ == overlay_remove_model(*self, identity@, *f),
    {
        let entry = match Self::entry_gate::<()>(identity.workflow_id.as_str(), f) {
            Err(step) => {
                return step;
            },
            Ok(entry) => entry,
        };
        if !entry.identity().same_as(identity) {
            return WorktreeStep::Fail(
                WorktreeError::ownership(
                    identity.workflow_id.as_str(),
                    "provided identity does not exactly match the ownership catalog",
                ),
            );
        }
        let dir = match parent_path(identity.worktree_path.as_str()) {
            None => {
                return WorktreeStep::Fail(
                    WorktreeError::Other("recorded overlay merged view has no parent".to_owned()),
                );
            },
            Some(dir) => dir,
        };
        let managed = match &f.canonical_managed {
            None => {
                return WorktreeStep::Need(WorktreeWork::CanonicalManaged(self.managed_root.clone()));
            },
            Some(Ok(managed)) => managed,
            Some(Err(_)) => &self.managed_root,
        };
        if !is_within(dir.as_str(), managed.as_str()) {
            return WorktreeStep::Fail(
                WorktreeError::ownership(
                    identity.workflow_id.as_str(),
                    "recorded overlay checkout is outside the managed root",
                ),
            );
        }
        self.tear_down(f, identity, entry, dir)
    }

    fn inspect(&self, workflow_id: &str, f: &WorktreeFacts) -> (r: WorktreeStep<
        WorkflowWorktreeStatus,
    >)
        ensures
            r@ == overlay_inspect_model(workflow_id@, *f),
    {
        let entry = match Self::entry_gate::<WorkflowWorktreeStatus>(workflow_id, f) {
            Err(step) => {
                return step;
            },
            Ok(entry) => entry,
        };
        match Self::ensure_mounted::<WorkflowWorktreeStatus>(entry, f) {
            Err(step) => {
                return step;
            },
            Ok(_) => {},
        }
        let git = match f.has_git {
            None => {
                return WorktreeStep::Need(
                    WorktreeWork::ProbeGit(join_path(entry.worktree_path.as_str(), ".git")),
                );
            },
            Some(git) => git,
        };
        if !git {
            let status = WorkflowWorktreeStatus {
                identity: entry.identity(),
                dirty: false,
                ahead_commits: 0,
                changed_files: Vec::new(),
            };
            assert(status@.changed_files =~= Seq::<Seq<char>>::empty());
            return WorktreeStep::Done(status);
        }
        let dirty = match &f.dirty {
            None => {
                return WorktreeStep::Need(WorktreeWork::ProbeDirty(entry.worktree_path.clone()));
            },
            Some(Err(e)) => {
                return WorktreeStep::Fail(e.clone());
            },
            Some(Ok(dirty)) => *dirty,
        };
        let head = match &f.head {
            None => {
                return WorktreeStep::Need(WorktreeWork::ReadHead(entry.worktree_path.clone()));
            },
            Some(Err(e)) => {
                return WorktreeStep::Fail(e.clone());
            },
            Some(Ok(head)) => head,
        };
        let ahead_commits: u64 = match &f.ahead {
            None => {
                return WorktreeStep::Need(
                    WorktreeWork::CountAhead {
                        path: entry.worktree_path.clone(),
                        base: entry.base_commit.clone(),
                        head: head.clone(),
                    },
                );
            },
            Some(Err(e)) => {
                return WorktreeStep::Fail(e.clone());
            },
            Some(Ok(ahead)) => *ahead,
        };
        match &f.changed {
            None => WorktreeStep::Need(
                WorktreeWork::ListChanged {
                    path: entry.worktree_path.clone(),
                    base: entry.base_commit.clone(),
                },
            ),
            Some(Err(e)) => WorktreeStep::Fail(e.clone()),
            Some(Ok(changed)) => WorktreeStep::Done(
                WorkflowWorktreeStatus {
                    identity: entry.identity(),
                    dirty,
                    ahead_commits,
                    changed_files: clone_texts(changed),
                },
            ),
        }
    }

    fn list(&self, f: &WorktreeFacts) -> (r: WorktreeStep<Vec<WorkflowWorktreeIdentity>>)
        ensures
            r@ == overlay_list_model(*f),
    {
        let c = match &f.overlay_catalog {
            None => {
                return WorktreeStep::Need(WorktreeWork::LoadOverlayCatalog);
            },
            Some(Err(e)) => {
                return WorktreeStep::Fail(e.clone());
            },
            Some(Ok(c)) => c,
        };
        let n: usize = c.len();
        let mut entries: Vec<WorkflowWorktreeIdentity> = Vec::new();
        let mut i: usize = 0;
        while i < n
            invariant
                i <= n == c.keys().len(),
                entries@ == overlay_listed(*c).take(i as int),
            decreases n - i,
        {
            entries.push(c.value(i).identity());
            assert(overlay_listed(*c).take(i as int).push(overlay_listed(*c)[i as int])
                =~= overlay_listed(*c).take(i + 1));
            i += 1;
        }
        assert(overlay_listed(*c).take(n as int) =~= overlay_listed(*c));
        stable_sort(&mut entries);
        WorktreeStep::Done(entries)
    }

    fn prune_stale(&self, f: &WorktreeFacts) -> (r: WorktreeStep<Vec<String>>)
        ensures
            manager::prune_step(r) == overlay_prune_model(*f),
    {
        let c = match &f.overlay_catalog {
            None => {
                return WorktreeStep::Need(WorktreeWork::LoadOverlayCatalog);
            },
            Some(Err(e)) => {
                return WorktreeStep::Fail(e.clone());
            },
            Some(Ok(c)) => c,
        };
        let n: usize = c.len();
        if f.overlay_entries.len() < n {
            return WorktreeStep::Need(
                WorktreeWork::ProbeMerged(
                    c.value(f.overlay_entries.len()).worktree_path.clone(),
                ),
            );
        }
        let mut gone: Vec<String> = Vec::new();
        let mut i: usize = 0;
        assert(text::texts(gone@) =~= Seq::<Seq<char>>::empty());
        while i < n
            invariant
                i <= n == c.keys().len(),
                n <= f.overlay_entries@.len(),
                text::texts(gone@) == gone_ids(c.keys(), f.overlay_entries@, i as nat),
            decreases n - i,
        {
            if !f.overlay_entries[i] {
                push_text(&mut gone, c.key(i));
            }
            i += 1;
        }
        match &f.saved {
            None => {
                let mut kept = c.copied();
                let mut j: usize = 0;
                assert(text::texts(gone@).take(0) =~= Seq::<Seq<char>>::empty());
                while j < gone.len()
                    invariant
                        j <= gone@.len(),
                        overlay_catalog_model(kept) == manager::without(
                            overlay_catalog_model(*c),
                            text::texts(gone@).take(j as int),
                        ),
                    decreases gone@.len() - j,
                {
                    let ghost before = kept;
                    kept.remove(gone[j].as_str());
                    proof {
                        let keys = text::texts(gone@);
                        assert(keys.take(j + 1).drop_last() =~= keys.take(j as int));
                        assert(keys.take(j + 1).last() == gone@[j as int]@);
                        assert(overlay_catalog_model(kept) =~= overlay_catalog_model(
                            before,
                        ).remove(gone@[j as int]@));
                    }
                    j += 1;
                }
                assert(text::texts(gone@).take(gone@.len() as int) =~= text::texts(gone@));
                WorktreeStep::Need(WorktreeWork::SaveOverlayCatalog(kept))
            },
            Some(Err(e)) => WorktreeStep::Fail(e.clone()),
            Some(Ok(_)) => WorktreeStep::Done(gone),
        }
    }

    fn kind(&self) -> (r: WorkflowIsolationSetting)
        ensures
            r == WorkflowIsolationSetting::Overlayfs,
    {
        WorkflowIsolationSetting::Overlayfs
    }
}

// ---------------------------------------------------------------------------
// What holds of every overlay
// ---------------------------------------------------------------------------

/// Integration of an overlay never ends in a conflict.
pub proof fn law_overlay_never_conflicts(
    workflow_id: Seq<char>,
    o: IntegrateOptions,
    f: WorktreeFacts,
)
    ensures
        overlay_integrate_model(workflow_id, o, f) matches StepModel::Done(outcome) ==> outcome
            is Applied,
{
}

/// Nothing is copied back while the overlay of a repository has uncommitted
/// changes, nor, where a clean base is required, while the source has some.
pub proof fn law_copy_back_needs_clean_trees(
    workflow_id: Seq<char>,
    o: IntegrateOptions,
    f: WorktreeFacts,
)
    requires
        overlay_integrate_model(workflow_id, o, f) is Need,
        overlay_integrate_model(workflow_id, o, f)->Need_0 is SyncBack,
        f.discovery matches Some(Ok(_)),
    ensures
        f.dirty == Some(Ok::<bool, WorktreeError>(false)),
        o.require_clean_base ==> f.source_dirty == Some(Ok::<bool, WorktreeError>(false)),
{
}

/// A copied working tree is never made again, and a mount is only made again
/// with the backend on record.
pub proof fn law_overlay_is_remade_as_recorded<R>(f: WorktreeFacts, e: EntryModel, next: StepModel<R>)
    requires
        next !is Need,
        ensured_mounted(f, e, next) matches StepModel::Need(WorkModel::Remount { .. }),
    ensures
        e.backend != OverlayBackend::Rcopy,
        ensured_mounted(f, e, next) == StepModel::<R>::Need(
            WorkModel::Remount { layers: layers_of(e.identity), backend: e.backend },
        ),
{
}

/// A capability is only given for an identity that the catalog records exactly.
pub proof fn law_overlay_capability_needs_exact_ownership(i: IdentityModel, f: WorktreeFacts)
    requires
        overlay_verify_model(i, f) is Done,
    ensures
        store::valid_id(i.workflow_id),
        f.overlay_catalog matches Some(Ok(c)) && c@.contains_key(i.workflow_id)
            && workflow_worktree::same_identity(c@[i.workflow_id]@.identity, i),
        overlay_verify_model(i, f)->Done_0 == (CwdModel {
            path: i.worktree_path,
            workflow_id: i.workflow_id,
        }),
{
}

/// An adopted head is the recorded one, or descends from it, or the overlay has
/// no repository; every other part of the identity stays.
pub proof fn law_overlay_adopted_head_descends(
    m: OverlayWorkflowManager,
    workflow_id: Seq<char>,
    f: WorktreeFacts,
)
    requires
        overlay_current_model(m, workflow_id, f) is Done,
    ensures
        ({
            let recorded = f.overlay_catalog->0->Ok_0@[workflow_id]@.identity;
            let (adopted, cwd) = overlay_current_model(m, workflow_id, f)->Done_0;
            &&& adopted == (IdentityModel { head_commit: adopted.head_commit, ..recorded })
            &&& cwd == (CwdModel { path: recorded.worktree_path, workflow_id })
            &&& (adopted.head_commit == recorded.head_commit || f.has_git == Some(false)
                || f.ancestry == Some(Ok::<Ancestry, WorktreeError>(Ancestry::Ancestor)))
        }),
{
}

/// Only an exactly recorded overlay below the managed root is torn down.
pub proof fn law_overlay_removal_touches_only_owned(
    m: OverlayWorkflowManager,
    i: IdentityModel,
    f: WorktreeFacts,
)
    requires
        overlay_remove_model(m, i, f) matches StepModel::Need(w) && (w is StopOverlay
            || w is RemoveMerged || w is RemoveOverlayDir || w is SaveOverlayCatalog),
    ensures
        f.overlay_catalog matches Some(Ok(c)) && c@.contains_key(i.workflow_id)
            && workflow_worktree::same_identity(c@[i.workflow_id]@.identity, i),
        lexical_path::parent_of(i.worktree_path) is Some,
        f.canonical_managed is Some,
        lexical_path::within(
            lexical_path::parent_of(i.worktree_path)->0,
            manager::resolved_or(f.canonical_managed->0, m.managed_root@),
        ),
{
}

/// An invalid workflow id asks for no work at all.
pub proof fn law_overlay_invalid_id_does_nothing(
    m: OverlayWorkflowManager,
    workflow_id: Seq<char>,
    i: IdentityModel,
    c: CreateWorktreeOptions,
    o: IntegrateOptions,
    f: WorktreeFacts,
)
    requires
        !store::valid_id(workflow_id),
        i.workflow_id == workflow_id,
    ensures
        overlay_create_model(m, workflow_id, c, f) is Fail,
        overlay_verify_model(i, f) is Fail,
        overlay_current_model(m, workflow_id, f) is Fail,
        overlay_integrate_model(workflow_id, o, f) is Fail,
        overlay_remove_model(m, i, f) is Fail,
        overlay_inspect_model(workflow_id, f) is Fail,
{
}

// ---------------------------------------------------------------------------
// Copying a tree back
// ---------------------------------------------------------------------------

/// What a directory entry is.
#[derive(Clone, Copy, Debug, PartialEq, Eq, Structural)]
pub enum EntryKind {
    Directory,
    Symlink,
    File,
}

/// An entry of a directory.
#[derive(Debug, PartialEq, Eq)]
pub struct TreeEntry {
    pub name: String,
    pub kind: EntryKind,
}

/// One step of making a directory a copy of another.
#[derive(Debug, PartialEq, Eq)]
pub enum SyncAction {
    /// Remove an entry of the destination.
    Remove(String),
    /// Make a directory of the destination.
    MakeDirectory(String),
    /// Make a directory a copy of its counterpart, with nothing left out.
    Descend(String),
    /// Replace an entry of the destination by a link with the same target.
    Relink(String),
    /// Overwrite an entry of the destination by a copy.
    Copy(String),
}

/// The model of a step.
#[verifier::ext_equal]
pub enum SyncModel {
    Remove(Seq<char>),
    MakeDirectory(Seq<char>),
    Descend(Seq<char>),
    Relink(Seq<char>),
    Copy(Seq<char>),
}

impl View for SyncAction {
    type V = SyncModel;

    open spec fn view(&self) -> SyncModel {
        match *self {
            SyncAction::Remove(n) => SyncModel::Remove(n@),
            SyncAction::MakeDirectory(n) => SyncModel::MakeDirectory(n@),
            SyncAction::Descend(n) => SyncModel::Descend(n@),
            SyncAction::Relink(n) => SyncModel::Relink(n@),
            SyncAction::Copy(n) => SyncModel::Copy(n@),
        }
    }
}

/// The models of steps.
pub open spec fn sync_models(actions: Seq<SyncAction>) -> Seq<SyncModel> {
    actions.map_values(|a: SyncAction| a@)
}

/// What is listed of a directory: the name and the kind of each entry.
pub type Listing = Seq<(Seq<char>, EntryKind)>;

/// What is listed of a directory.
pub open spec fn listed(entries: Seq<TreeEntry>) -> Listing {
    entries.map_values(|e: TreeEntry| (e.name@, e.kind))
}

/// The removals among the first `n` entries of the destination: what the source
/// lacks, or has as something else, and is not excluded.
pub open spec fn removals(
    dst: Listing,
    src: Listing,
    excluded: Seq<Seq<char>>,
    n: nat,
) -> Seq<SyncModel>
    decreases n,
{
    if n == 0 {
        Seq::empty()
    } else {
        let before = removals(dst, src, excluded, (n - 1) as nat);
        if excluded.contains(dst[n - 1].0) || src.contains(dst[n - 1]) {
            before
        } else {
            before.push(SyncModel::Remove(dst[n - 1].0))
        }
    }
}

/// The steps that bring one entry of the source over, once nothing of another
/// kind is in its place.
pub open spec fn entry_steps(e: (Seq<char>, EntryKind), dst: Listing) -> Seq<SyncModel> {
    match e.1 {
        EntryKind::Directory => if dst.contains(e) {
            seq![SyncModel::Descend(e.0)]
        } else {
            seq![SyncModel::MakeDirectory(e.0), SyncModel::Descend(e.0)]
        },
        EntryKind::Symlink => seq![SyncModel::Relink(e.0)],
        EntryKind::File => seq![SyncModel::Copy(e.0)],
    }
}

/// The steps that bring the first `n` entries of the source over.
pub open spec fn transfers(
    src: Listing,
    dst: Listing,
    excluded: Seq<Seq<char>>,
    n: nat,
) -> Seq<SyncModel>
    decreases n,
{
    if n == 0 {
        Seq::empty()
    } else {
        let before = transfers(src, dst, excluded, (n - 1) as nat);
        if excluded.contains(src[n - 1].0) {
            before
        } else {
            before + entry_steps(src[n - 1], dst)
        }
    }
}

/// The steps that make a directory with the entries `dst` a copy of one with
/// the entries `src`.
pub open spec fn sync_plan(src: Listing, dst: Listing, excluded: Seq<Seq<char>>) -> Seq<SyncModel> {
    removals(dst, src, excluded, dst.len()) + transfers(src, dst, excluded, src.len())
}

fn has_entry(entries: &Vec<TreeEntry>, name: &str, kind: EntryKind) -> (r: bool)
    ensures
        r == listed(entries@).contains((name@, kind)),
{
    let mut i: usize = 0;
    let ghost all = listed(entries@);
    while i < entries.len()
        invariant
            i <= entries@.len(),
            all == listed(entries@),
            forall|j: int| 0 <= j < i ==> #[trigger] all[j] != (name@, kind),
        decreases entries@.len() - i,
    {
        assert(all[i as int] == (entries@[i as int].name@, entries@[i as int].kind));
        if entries[i].kind == kind && same_text(entries[i].name.as_str(), name) {
            return true;
        }
        i += 1;
    }
    false
}

/// Plans how `dst` becomes an exact copy of `src`: entries that `src` lacks or
/// has as something else go, entries of `src` overwrite those of `dst`, and
/// excluded names are not touched. Links are made anew, never followed.
pub fn sync_tree_excluding(src: &Vec<TreeEntry>, dst: &Vec<TreeEntry>, excluded: &Vec<String>) -> (r:
    Vec<SyncAction>)
    ensures
        sync_models(r@) == sync_plan(listed(src@), listed(dst@), text::texts(excluded@)),
{
    let ghost from = listed(src@);
    let ghost to = listed(dst@);
    let ghost left_out = text::texts(excluded@);
    let mut actions: Vec<SyncAction> = Vec::new();
    let mut i: usize = 0;
    assert(sync_models(actions@) =~= Seq::<SyncModel>::empty());
    while i < dst.len()
        invariant
            i <= dst@.len(),
            from == listed(src@),
            to == listed(dst@),
            left_out == text::texts(excluded@),
            sync_models(actions@) == removals(to, from, left_out, i as nat),
        decreases dst@.len() - i,
    {
        let name = dst[i].name.as_str();
        assert(to[i as int] == (name@, dst@[i as int].kind));
        if !contains_text(excluded, name) && !has_entry(src, name, dst[i].kind) {
            let ghost before = actions@;
            actions.push(SyncAction::Remove(name.to_owned()));
            assert(sync_models(actions@) =~= sync_models(before).push(SyncModel::Remove(name@)));
        }
        i += 1;
    }
    let ghost start = sync_models(actions@);
    let mut j: usize = 0;
    assert(start + Seq::<SyncModel>::empty() =~= start);
    while j < src.len()
        invariant
            j <= src@.len(),
            from == listed(src@),
            to == listed(dst@),
            left_out == text::texts(excluded@),
            sync_models(actions@) == start + transfers(from, to, left_out, j as nat),
        decreases src@.len() - j,
    {
        let entry = &src[j];
        let name = entry.name.as_str();
        let ghost e = (name@, entry.kind);
        assert(from[j as int] == e);
        if !contains_text(excluded, name) {
            let ghost before = actions@;
            match entry.kind {
                EntryKind::Directory => {
                    if !has_entry(dst, name, EntryKind::Directory) {
                        actions.push(SyncAction::MakeDirectory(name.to_owned()));
                    }
                    actions.push(SyncAction::Descend(name.to_owned()));
                },
                EntryKind::Symlink => {
                    actions.push(SyncAction::Relink(name.to_owned()));
                },
                EntryKind::File => {
                    actions.push(SyncAction::Copy(name.to_owned()));
                },
            }
            assert(sync_models(actions@) =~= sync_models(before) + entry_steps(e, to));
            assert(sync_models(before) + entry_steps(e, to) =~= start + (transfers(
                from,
                to,
                left_out,
                j as nat,
            ) + entry_steps(e, to)));
        }
        j += 1;
    }
    actions
}

// ---------------------------------------------------------------------------
// What a sync leaves
// ---------------------------------------------------------------------------

/// What stands under a name in a directory.
#[verifier::ext_equal]
pub enum Node {
    Directory(Map<Seq<char>, Node>),
    /// A link with its target.
    Symlink(Seq<char>),
    File(Seq<u8>),
}

/// A directory with all that is below it.
pub type Tree = Map<Seq<char>, Node>;

impl Node {
    pub open spec fn kind(self) -> EntryKind {
        match self {
            Node::Directory(_) => EntryKind::Directory,
            Node::Symlink(_) => EntryKind::Symlink,
            Node::File(_) => EntryKind::File,
        }
    }
}

/// Whether a directory holds finitely many entries, at every depth.
pub open spec fn finite_tree(t: Tree) -> bool
    decreases t,
{
    t.dom().finite() && forall|n: Seq<char>| #[trigger]
        t.contains_key(n) && t[n] is Directory ==> finite_tree(t[n]->Directory_0)
}

/// Whether a listing shows the entries of a directory, each one once.
pub open spec fn lists(listing: Listing, t: Tree) -> bool {
    &&& forall|i: int, j: int|
        0 <= i < j < listing.len() ==> (#[trigger] listing[i]).0 != (#[trigger] listing[j]).0
    &&& forall|n: Seq<char>, k: EntryKind| #[trigger]
        listing.contains((n, k)) <==> t.contains_key(n) && t[n].kind() == k
}

/// Whether `list` lists every directory, in whatever order.
pub open spec fn lists_all(list: spec_fn(Tree) -> Listing) -> bool {
    forall|t: Tree| finite_tree(t) ==> lists(#[trigger] list(t), t)
}

/// The destination once all steps are done. A directory that is entered is made a
/// copy of its counterpart by the steps that are planned for it.
pub open spec fn synced(
    src: Tree,
    dst: Tree,
    plan: Seq<SyncModel>,
    list: spec_fn(Tree) -> Listing,
) -> Tree
    decreases src, plan.len(),
{
    if plan.len() == 0 {
        dst
    } else {
        let now = synced(src, dst, plan.drop_last(), list);
        match plan.last() {
            SyncModel::Remove(n) => now.remove(n),
            SyncModel::MakeDirectory(n) => now.insert(n, Node::Directory(Map::empty())),
            SyncModel::Relink(n) => now.insert(n, src[n]),
            SyncModel::Copy(n) => now.insert(n, src[n]),
            SyncModel::Descend(n) => if src.dom().finite() && src.contains_key(n)
                && src[n] is Directory {
                let from = src[n]->Directory_0;
                let to = now[n]->Directory_0;
                now.insert(
                    n,
                    Node::Directory(
                        synced(from, to, sync_plan(list(from), list(to), Seq::empty()), list),
                    ),
                )
            } else {
                now
            },
        }
    }
}

/// Whether a step stays in the destination: it writes to no link, enters only
/// directories, and copies each entry as what it is.
pub open spec fn stays_inside(src: Tree, dst: Tree, a: SyncModel) -> bool {
    match a {
        SyncModel::Remove(n) => dst.contains_key(n),
        SyncModel::MakeDirectory(n) => !dst.contains_key(n),
        SyncModel::Descend(n) => src.contains_key(n) && src[n] is Directory && dst.contains_key(n)
            && dst[n] is Directory,
        SyncModel::Relink(n) => src.contains_key(n) && src[n] is Symlink && (dst.contains_key(n)
            ==> dst[n] is Symlink),
        SyncModel::Copy(n) => src.contains_key(n) && src[n] is File && (dst.contains_key(n)
            ==> dst[n] is File),
    }
}

/// The source, with what the destination has under the excluded names.
pub open spec fn mirrored(src: Tree, dst: Tree, excluded: Seq<Seq<char>>) -> Tree {
    Map::new(
        |n: Seq<char>|
            if excluded.contains(n) {
                dst.contains_key(n)
            } else {
                src.contains_key(n)
            },
        |n: Seq<char>|
            if excluded.contains(n) {
                dst[n]
            } else {
                src[n]
            },
    )
}

/// The destination after the removals among its first `n` entries.
spec fn thinned(dst: Tree, to: Listing, from: Listing, excluded: Seq<Seq<char>>, n: nat) -> Tree {
    Map::new(
        |x: Seq<char>|
            dst.contains_key(x) && forall|i: int|
                0 <= i < n && (#[trigger] to[i]).0 == x ==> excluded.contains(x) || from.contains(
                    to[i],
                ),
        |x: Seq<char>| dst[x],
    )
}

proof fn lemma_removed(
    src: Tree,
    dst: Tree,
    to: Listing,
    from: Listing,
    excluded: Seq<Seq<char>>,
    list: spec_fn(Tree) -> Listing,
    n: nat,
)
    requires
        n <= to.len(),
        lists(to, dst),
    ensures
        synced(src, dst, removals(to, from, excluded, n), list) == thinned(
            dst,
            to,
            from,
            excluded,
            n,
        ),
        forall|k: int|
            0 <= k < removals(to, from, excluded, n).len() ==> stays_inside(
                src,
                synced(src, dst, removals(to, from, excluded, n).take(k), list),
                #[trigger] removals(to, from, excluded, n)[k],
            ),
    decreases n,
{
    let plan = removals(to, from, excluded, n);
    if n == 0 {
        assert(plan.len() == 0);
        assert(thinned(dst, to, from, excluded, 0) =~= dst);
    } else {
        lemma_removed(src, dst, to, from, excluded, list, (n - 1) as nat);
        let before = removals(to, from, excluded, (n - 1) as nat);
        let e = to[n - 1];
        let was = thinned(dst, to, from, excluded, (n - 1) as nat);
        let is = thinned(dst, to, from, excluded, n);
        assert(to.contains((e.0, e.1)));
        assert forall|i: int| 0 <= i < n - 1 implies (#[trigger] to[i]).0 != e.0 by {
            assert(to[i].0 != to[n - 1].0);
        }
        if excluded.contains(e.0) || from.contains(e) {
            assert(is =~= was);
        } else {
            assert(plan.drop_last() =~= before);
            assert forall|x: Seq<char>| is.contains_key(x) == was.remove(e.0).contains_key(x) by {
                if x == e.0 {
                    assert(to[n - 1].0 == x);
                }
            }
            assert(is =~= was.remove(e.0));
            assert(was.contains_key(e.0));
            assert forall|k: int| 0 <= k < plan.len() implies stays_inside(
                src,
                synced(src, dst, plan.take(k), list),
                #[trigger] plan[k],
            ) by {
                assert(plan.take(k) =~= before.take(k));
                if k == before.len() {
                    assert(before.take(k) =~= before);
                } else {
                    assert(plan[k] == before[k]);
                }
            }
        }
    }
}

proof fn lemma_synced_add(
    src: Tree,
    dst: Tree,
    a: Seq<SyncModel>,
    b: Seq<SyncModel>,
    list: spec_fn(Tree) -> Listing,
)
    ensures
        synced(src, dst, a + b, list) == synced(src, synced(src, dst, a, list), b, list),
    decreases b.len(),
{
    if b.len() == 0 {
        assert(a + b =~= a);
    } else {
        assert((a + b).drop_last() =~= a + b.drop_last());
        assert((a + b).last() == b.last());
        lemma_synced_add(src, dst, a, b.drop_last(), list);
    }
}

/// Whether the first `n` entries of a listing have a name among them.
spec fn named(from: Listing, n: nat, x: Seq<char>) -> bool {
    exists|i: int| 0 <= i < n && (#[trigger] from[i]).0 == x
}

/// The destination after the first `n` entries of the source were brought over.
spec fn filled(base: Tree, src: Tree, from: Listing, excluded: Seq<Seq<char>>, n: nat) -> Tree {
    Map::new(
        |x: Seq<char>|
            base.contains_key(x) || (!excluded.contains(x) && named(from, n, x)),
        |x: Seq<char>|
            if !excluded.contains(x) && named(from, n, x) {
                src[x]
            } else {
                base[x]
            },
    )
}

proof fn lemma_finite_below(t: Tree, n: Seq<char>)
    requires
        finite_tree(t),
        t.contains_key(n),
        t[n] is Directory,
    ensures
        finite_tree(t[n]->Directory_0),
{
}

/// How one directory of the destination becomes a copy of its counterpart.
proof fn lemma_entered(
    src: Tree,
    now: Tree,
    n: Seq<char>,
    list: spec_fn(Tree) -> Listing,
)
    requires
        lists_all(list),
        finite_tree(src),
        src.contains_key(n),
        src[n] is Directory,
        now.contains_key(n),
        now[n] is Directory,
        finite_tree(now[n]->Directory_0),
    ensures
        synced(src, now, seq![SyncModel::Descend(n)], list) == now.insert(n, src[n]),
    decreases src, 0nat, 0nat,
{
    let plan = seq![SyncModel::Descend(n)];
    assert(plan.drop_last() =~= Seq::<SyncModel>::empty());
    assert(synced(src, now, plan.drop_last(), list) == now);
    let from = src[n]->Directory_0;
    let to = now[n]->Directory_0;
    lemma_finite_below(src, n);
    assert(decreases_to!(src => src[n]));
    lemma_synced(from, to, Seq::empty(), list);
    assert(mirrored(from, to, Seq::empty()) =~= from);
    assert(src[n] == Node::Directory(from));
}

proof fn lemma_filled(
    src: Tree,
    dst: Tree,
    excluded: Seq<Seq<char>>,
    list: spec_fn(Tree) -> Listing,
    n: nat,
)
    requires
        lists_all(list),
        finite_tree(src),
        finite_tree(dst),
        n <= list(src).len(),
    ensures
        ({
            let from = list(src);
            let to = list(dst);
            let base = thinned(dst, to, from, excluded, to.len());
            let plan = transfers(from, to, excluded, n);
            &&& synced(src, base, plan, list) == filled(base, src, from, excluded, n)
            &&& forall|k: int|
                0 <= k < plan.len() ==> stays_inside(
                    src,
                    synced(src, base, plan.take(k), list),
                    #[trigger] plan[k],
                )
        }),
    decreases src, 1nat, n,
{
    let from = list(src);
    let to = list(dst);
    let base = thinned(dst, to, from, excluded, to.len());
    let plan = transfers(from, to, excluded, n);
    assert(lists(from, src));
    assert(lists(to, dst));
    if n == 0 {
        assert(filled(base, src, from, excluded, 0) =~= base);
    } else {
        lemma_filled(src, dst, excluded, list, (n - 1) as nat);
        let before = transfers(from, to, excluded, (n - 1) as nat);
        let was = filled(base, src, from, excluded, (n - 1) as nat);
        let is = filled(base, src, from, excluded, n);
        let e = from[n - 1];
        assert(from.contains((e.0, e.1)));
        assert(src.contains_key(e.0) && src[e.0].kind() == e.1);
        assert forall|i: int| 0 <= i < n - 1 implies (#[trigger] from[i]).0 != e.0 by {
            assert(from[i].0 != from[n - 1].0);
        }
        assert forall|x: Seq<char>| #[trigger]
            named(from, n, x) == (named(from, (n - 1) as nat, x) || x == e.0) by {
            if x == e.0 {
                assert(from[n - 1].0 == x);
            }
        }
        if excluded.contains(e.0) {
            assert(is =~= was);
        } else {
            assert(is =~= was.insert(e.0, src[e.0]));
            assert(was.contains_key(e.0) == base.contains_key(e.0));
            assert(was.contains_key(e.0) ==> was[e.0] == dst[e.0]);
            lemma_kept_kind(src, dst, to, from, excluded, e);
            let tail = entry_steps(e, to);
            assert(plan =~= before + tail);
            lemma_synced_add(src, base, before, tail, list);
            lemma_entry(src, dst, was, e, to, list);
            assert forall|k: int| 0 <= k < plan.len() implies stays_inside(
                src,
                synced(src, base, plan.take(k), list),
                #[trigger] plan[k],
            ) by {
                if k < before.len() {
                    assert(plan.take(k) =~= before.take(k));
                    assert(plan[k] == before[k]);
                } else {
                    let t = k - before.len();
                    assert(plan.take(k) =~= before + tail.take(t));
                    lemma_synced_add(src, base, before, tail.take(t), list);
                    assert(plan[k] == tail[t]);
                }
            }
        }
    }
}

/// What is left under a name of the source is of the same kind.
proof fn lemma_kept_kind(
    src: Tree,
    dst: Tree,
    to: Listing,
    from: Listing,
    excluded: Seq<Seq<char>>,
    e: (Seq<char>, EntryKind),
)
    requires
        lists(from, src),
        lists(to, dst),
        from.contains(e),
        !excluded.contains(e.0),
    ensures
        thinned(dst, to, from, excluded, to.len()).contains_key(e.0) <==> to.contains(e),
        to.contains(e) ==> dst[e.0].kind() == e.1,
{
    let base = thinned(dst, to, from, excluded, to.len());
    assert(from.contains((e.0, e.1)));
    if base.contains_key(e.0) {
        let k = dst[e.0].kind();
        assert(to.contains((e.0, k)));
        let i = choose|i: int| 0 <= i < to.len() && to[i] == (e.0, k);
        assert(to[i].0 == e.0);
        assert(from.contains((e.0, k)));
        assert(e == (e.0, k));
    }
    if to.contains((e.0, e.1)) {
        assert(e == (e.0, e.1));
        assert forall|i: int| 0 <= i < to.len() && (#[trigger] to[i]).0 == e.0 implies from.contains(
            to[i],
        ) by {
            let j = choose|j: int| 0 <= j < to.len() && to[j] == e;
            assert(to[j].0 == e.0);
            if i < j {
                assert(to[i].0 != to[j].0);
            } else if j < i {
                assert(to[j].0 != to[i].0);
            }
        }
    }
    assert(e == (e.0, e.1));
}

/// One entry of the source is brought over.
proof fn lemma_entry(
    src: Tree,
    dst: Tree,
    was: Tree,
    e: (Seq<char>, EntryKind),
    to: Listing,
    list: spec_fn(Tree) -> Listing,
)
    requires
        lists_all(list),
        finite_tree(src),
        finite_tree(dst),
        lists(to, dst),
        src.contains_key(e.0),
        src[e.0].kind() == e.1,
        was.contains_key(e.0) <==> to.contains(e),
        was.contains_key(e.0) ==> was[e.0] == dst[e.0],
    ensures
        synced(src, was, entry_steps(e, to), list) == was.insert(e.0, src[e.0]),
        forall|k: int|
            0 <= k < entry_steps(e, to).len() ==> stays_inside(
                src,
                synced(src, was, entry_steps(e, to).take(k), list),
                #[trigger] entry_steps(e, to)[k],
            ),
    decreases src, 0nat, 1nat,
{
    let steps = entry_steps(e, to);
    let n = e.0;
    let nothing = Seq::<SyncModel>::empty();
    assert(steps.take(0) =~= nothing);
    assert(synced(src, was, nothing, list) == was);
    assert(e == (e.0, e.1));
    if to.contains(e) {
        assert(dst.contains_key(n) && dst[n].kind() == e.1);
    }
    match e.1 {
        EntryKind::Directory => {
            if to.contains(e) {
                lemma_finite_below(dst, n);
                lemma_entered(src, was, n, list);
            } else {
                let made = seq![SyncModel::MakeDirectory(n)];
                let enter = seq![SyncModel::Descend(n)];
                let empty = Map::<Seq<char>, Node>::empty();
                let mid = was.insert(n, Node::Directory(empty));
                assert(made.drop_last() =~= nothing);
                assert(synced(src, was, made, list) == mid);
                assert(steps =~= made + enter);
                assert(steps.take(1) =~= made);
                lemma_synced_add(src, was, made, enter, list);
                assert(finite_tree(empty));
                lemma_entered(src, mid, n, list);
                assert(mid.insert(n, src[n]) =~= was.insert(n, src[n]));
            }
        },
        _ => {
            assert(steps.drop_last() =~= nothing);
        },
    }
}

proof fn lemma_synced(
    src: Tree,
    dst: Tree,
    excluded: Seq<Seq<char>>,
    list: spec_fn(Tree) -> Listing,
)
    requires
        lists_all(list),
        finite_tree(src),
        finite_tree(dst),
    ensures
        ({
            let plan = sync_plan(list(src), list(dst), excluded);
            &&& synced(src, dst, plan, list) == mirrored(src, dst, excluded)
            &&& forall|k: int|
                0 <= k < plan.len() ==> stays_inside(
                    src,
                    synced(src, dst, plan.take(k), list),
                    #[trigger] plan[k],
                )
        }),
    decreases src, 2nat, 0nat,
{
    let from = list(src);
    let to = list(dst);
    assert(lists(from, src));
    assert(lists(to, dst));
    let first = removals(to, from, excluded, to.len());
    let second = transfers(from, to, excluded, from.len());
    let plan = sync_plan(from, to, excluded);
    let base = thinned(dst, to, from, excluded, to.len());
    lemma_removed(src, dst, to, from, excluded, list, to.len());
    lemma_filled(src, dst, excluded, list, from.len());
    lemma_synced_add(src, dst, first, second, list);
    let end = filled(base, src, from, excluded, from.len());
    assert forall|x: Seq<char>| #[trigger]
        src.contains_key(x) == named(from, from.len(), x) by {
        if src.contains_key(x) {
            assert(from.contains((x, src[x].kind())));
            let i = choose|i: int| 0 <= i < from.len() && from[i] == (x, src[x].kind());
            assert(from[i].0 == x);
        }
        if named(from, from.len(), x) {
            let i = choose|i: int| 0 <= i < from.len() && (#[trigger] from[i]).0 == x;
            assert(from.contains((from[i].0, from[i].1)));
        }
    }
    assert forall|x: Seq<char>| !excluded.contains(x) && base.contains_key(x) implies src.contains_key(
        x,
    ) by {
        assert(to.contains((x, dst[x].kind())));
        let i = choose|i: int| 0 <= i < to.len() && to[i] == (x, dst[x].kind());
        assert(to[i].0 == x);
        assert(from.contains((x, dst[x].kind())));
    }
    assert(end =~= mirrored(src, dst, excluded));
    assert forall|k: int| 0 <= k < plan.len() implies stays_inside(
        src,
        synced(src, dst, plan.take(k), list),
        #[trigger] plan[k],
    ) by {
        if k < first.len() {
            assert(plan.take(k) =~= first.take(k));
            assert(plan[k] == first[k]);
        } else {
            let t = k - first.len();
            assert(plan.take(k) =~= first + second.take(t));
            lemma_synced_add(src, dst, first, second.take(t), list);
            assert(plan[k] == second[t]);
        }
    }
}

/// Once all steps are done, the destination equals the source at every depth:
/// names, kinds, contents and link targets. Excluded names of the top keep what
/// the destination had under them.
pub proof fn law_sync_copies_the_tree(
    src: Tree,
    dst: Tree,
    excluded: Seq<Seq<char>>,
    list: spec_fn(Tree) -> Listing,
)
    requires
        lists_all(list),
        finite_tree(src),
        finite_tree(dst),
    ensures
        synced(src, dst, sync_plan(list(src), list(dst), excluded), list) == mirrored(
            src,
            dst,
            excluded,
        ),
{
    lemma_synced(src, dst, excluded, list);
}

/// No link is followed: no step writes to a link, a directory is entered only
/// where both sides have one, and everything is copied as what it is.
pub proof fn law_sync_follows_no_link(
    src: Tree,
    dst: Tree,
    excluded: Seq<Seq<char>>,
    list: spec_fn(Tree) -> Listing,
    k: int,
)
    requires
        lists_all(list),
        finite_tree(src),
        finite_tree(dst),
        0 <= k < sync_plan(list(src), list(dst), excluded).len(),
    ensures
        ({
            let plan = sync_plan(list(src), list(dst), excluded);
            stays_inside(src, synced(src, dst, plan.take(k), list), plan[k])
        }),
{
    lemma_synced(src, dst, excluded, list);
}

proof fn lemma_removals_skip(
    dst: Listing,
    src: Listing,
    excluded: Seq<Seq<char>>,
    n: nat,
    k: int,
)
    requires
        0 <= k < removals(dst, src, excluded, n).len(),
    ensures
        !excluded.contains(touched(removals(dst, src, excluded, n)[k])),
    decreases n,
{
    let before = removals(dst, src, excluded, (n - 1) as nat);
    if k < before.len() {
        lemma_removals_skip(dst, src, excluded, (n - 1) as nat, k);
    }
}

proof fn lemma_transfers_skip(
    src: Listing,
    dst: Listing,
    excluded: Seq<Seq<char>>,
    n: nat,
    k: int,
)
    requires
        0 <= k < transfers(src, dst, excluded, n).len(),
    ensures
        !excluded.contains(touched(transfers(src, dst, excluded, n)[k])),
    decreases n,
{
    let before = transfers(src, dst, excluded, (n - 1) as nat);
    if k < before.len() {
        lemma_transfers_skip(src, dst, excluded, (n - 1) as nat, k);
    }
}

/// The name that a step touches.
pub open spec fn touched(a: SyncModel) -> Seq<char> {
    match a {
        SyncModel::Remove(n) => n,
        SyncModel::MakeDirectory(n) => n,
        SyncModel::Descend(n) => n,
        SyncModel::Relink(n) => n,
        SyncModel::Copy(n) => n,
    }
}

/// No step touches an excluded name.
pub proof fn law_sync_spares_excluded(
    src: Listing,
    dst: Listing,
    excluded: Seq<Seq<char>>,
    k: int,
)
    requires
        0 <= k < sync_plan(src, dst, excluded).len(),
    ensures
        !excluded.contains(touched(sync_plan(src, dst, excluded)[k])),
{
    let first = removals(dst, src, excluded, dst.len());
    if k < first.len() {
        lemma_removals_skip(dst, src, excluded, dst.len(), k);
    } else {
        lemma_transfers_skip(src, dst, excluded, src.len(), k - first.len());
    }
}

} // verus!
