//! No isolation: workflows work directly on the source tree.

use crate::text;
use crate::text::clone_texts;
use crate::workflow::store;
use crate::workflow::store::is_valid_id;
use crate::workflow_worktree;
use crate::workflow_worktree::isolation::WorkflowIsolation;
use crate::workflow_worktree::overlay;
use crate::workflow_worktree::overlay::{applied_at, maybe_discovery_gate};
use crate::workflow_worktree::steps;
use crate::workflow_worktree::steps::{
    StepModel, WorkModel, WorktreeFacts, WorktreeStep, WorktreeWork,
};
use crate::workflow_worktree::{
    CreateWorktreeOptions, CwdModel, ErrorModel, IdentityModel, IntegrateOptions,
    IntegrateOutcome, OutcomeModel, RepoDiscovery, StatusModel, TrustedWorkflowCwd,
    WorkflowIsolationSetting, WorkflowWorktreeIdentity, WorkflowWorktreeStatus, WorktreeError,
    DEFAULT_GIT_TIMEOUT_MS,
};
use vstd::prelude::*;
use vstd::string::*;

verus! {

/// A backend without isolation. Integration and removal have nothing to do,
/// because the changes are in place and nothing was created. Concurrent
/// workflows share the source tree.
#[derive(Debug, PartialEq, Eq)]
pub struct NoopWorkflowIsolation {
    pub source_cwd: String,
    pub timeout_ms: u64,
}

/// The identity of a workflow on a source: every part follows from the two.
pub open spec fn noop_identity(workflow_id: Seq<char>, source: Seq<char>) -> IdentityModel {
    IdentityModel {
        workflow_id,
        source_root: source,
        common_git_dir: source,
        worktree_path: source,
        branch: "rpi/none/"@ + workflow_id,
        base_commit: "none"@,
        head_commit: "none"@,
        created_at_ms: 0,
    }
}

/// The model of finding the identity of a workflow.
pub open spec fn identified<R>(
    m: NoopWorkflowIsolation,
    workflow_id: Seq<char>,
    f: WorktreeFacts,
    next: spec_fn(IdentityModel) -> StepModel<R>,
) -> StepModel<R> {
    if !store::valid_id(workflow_id) {
        StepModel::Fail(ErrorModel::InvalidWorkflowId(workflow_id))
    } else {
        steps::need(
            f.canonical_source,
            WorkModel::CanonicalSource(m.source_cwd@),
            |source: String| next(noop_identity(workflow_id, source@)),
        )
    }
}

/// The model of checking an identity.
pub open spec fn noop_verify_model(
    m: NoopWorkflowIsolation,
    i: IdentityModel,
    f: WorktreeFacts,
) -> StepModel<CwdModel> {
    identified(
        m,
        i.workflow_id,
        f,
        |expected: IdentityModel|
            if !workflow_worktree::same_identity(expected, i) {
                StepModel::Fail(
                    workflow_worktree::ownership_error(
                        i.workflow_id,
                        "provided identity does not match the no-isolation identity"@,
                    ),
                )
            } else {
                StepModel::Done(
                    CwdModel { path: expected.worktree_path, workflow_id: i.workflow_id },
                )
            },
    )
}

/// The model of integration: the changes are in place already.
pub open spec fn noop_integrate_model(
    m: NoopWorkflowIsolation,
    workflow_id: Seq<char>,
    f: WorktreeFacts,
) -> StepModel<OutcomeModel> {
    identified(
        m,
        workflow_id,
        f,
        |i: IdentityModel|
            overlay::maybe_discovered(
                f,
                i.source_root,
                |d: Option<RepoDiscovery>|
                    StepModel::Done(
                        overlay::applied(
                            match d {
                                Some(d) => d.head_commit@,
                                None => "none"@,
                            },
                        ),
                    ),
            ),
    )
}

/// The status of a source without changes to show.
pub open spec fn clean_status(i: IdentityModel) -> StatusModel {
    StatusModel { identity: i, dirty: false, ahead_commits: 0, changed_files: Seq::empty() }
}

/// The model of inspection: any failure to find a repository means that there
/// is nothing to show.
pub open spec fn noop_inspect_model(
    m: NoopWorkflowIsolation,
    workflow_id: Seq<char>,
    f: WorktreeFacts,
) -> StepModel<StatusModel> {
    identified(
        m,
        workflow_id,
        f,
        |i: IdentityModel|
            match f.discovery {
                None => StepModel::Need(WorkModel::Discover(i.source_root)),
                Some(Err(_)) => StepModel::Done(clean_status(i)),
                Some(Ok(_)) => steps::need(
                    f.dirty,
                    WorkModel::ProbeDirty(i.source_root),
                    |dirty: bool|
                        if !dirty {
                            StepModel::Done(clean_status(i))
                        } else {
                            steps::need(
                                f.changed,
                                WorkModel::ListChanged { path: i.source_root, base: "HEAD"@ },
                                |changed: Vec<String>|
                                    StepModel::Done(
                                        StatusModel {
                                            identity: i,
                                            dirty: true,
                                            ahead_commits: 0,
                                            changed_files: text::texts(changed@),
                                        },
                                    ),
                            )
                        },
                ),
            },
    )
}

impl NoopWorkflowIsolation {
    pub fn new(source_cwd: &str) -> (r: Self)
        ensures
            r.source_cwd@ == source_cwd@,
            r.timeout_ms == DEFAULT_GIT_TIMEOUT_MS,
    {
        NoopWorkflowIsolation {
            source_cwd: source_cwd.to_owned(),
            timeout_ms: DEFAULT_GIT_TIMEOUT_MS,
        }
    }

    pub fn with_timeout(self, timeout_ms: u64) -> (r: Self)
        ensures
            r == (NoopWorkflowIsolation { timeout_ms, ..self }),
    {
        let mut r = self;
        r.timeout_ms = timeout_ms;
        r
    }

    fn identity_gate<T: View>(&self, workflow_id: &str, f: &WorktreeFacts) -> (r: Result<
        WorkflowWorktreeIdentity,
        WorktreeStep<T>,
    >)
        ensures
            match r {
                Ok(i) => forall|next: spec_fn(IdentityModel) -> StepModel<T::V>|
                    #[trigger] identified(*self, workflow_id@, *f, next) == next(i@),
                Err(step) => forall|next: spec_fn(IdentityModel) -> StepModel<T::V>|
                    #[trigger] identified(*self, workflow_id@, *f, next) == step@,
            },
    {
        if !is_valid_id(workflow_id) {
            return Err(
                WorktreeStep::Fail(WorktreeError::InvalidWorkflowId(workflow_id.to_owned())),
            );
        }
        match &f.canonical_source {
            None => Err(
                WorktreeStep::Need(WorktreeWork::CanonicalSource(self.source_cwd.clone())),
            ),
            Some(Err(e)) => Err(WorktreeStep::Fail(e.clone())),
            Some(Ok(source)) => {
                let i = WorkflowWorktreeIdentity {
                    workflow_id: workflow_id.to_owned(),
                    source_root: source.clone(),
                    common_git_dir: source.clone(),
                    worktree_path: source.clone(),
                    branch: "rpi/none/".to_owned().concat(workflow_id),
                    base_commit: "none".to_owned(),
                    head_commit: "none".to_owned(),
                    created_at_ms: 0,
                };
                assert(i@ =~= noop_identity(workflow_id@, source@));
                Ok(i)
            },
        }
    }

    /// The identity of a workflow: it follows from the id and the source.
    pub fn identity(&self, workflow_id: &str, f: &WorktreeFacts) -> (r: WorktreeStep<
        WorkflowWorktreeIdentity,
    >)
        ensures
            r@ == identified(*self, workflow_id@, *f, |i: IdentityModel| StepModel::Done(i)),
    {
        match self.identity_gate::<WorkflowWorktreeIdentity>(workflow_id, f) {
            Err(step) => step,
            Ok(i) => WorktreeStep::Done(i),
        }
    }
}

impl WorkflowIsolation for NoopWorkflowIsolation {
    fn create(
        &self,
        workflow_id: &str,
        options: &CreateWorktreeOptions,
        f: &WorktreeFacts,
    ) -> (r: WorktreeStep<WorkflowWorktreeIdentity>)
        ensures
            r@ == identified(*self, workflow_id@, *f, |i: IdentityModel| StepModel::Done(i)),
    {
        self.identity(workflow_id, f)
    }

    fn verify_owned(&self, identity: &WorkflowWorktreeIdentity, f: &WorktreeFacts) -> (r:
        WorktreeStep<TrustedWorkflowCwd>)
        ensures
            r@ == noop_verify_model(*self, identity@, *f),
    {
        let expected = match self.identity_gate::<TrustedWorkflowCwd>(
            identity.workflow_id.as_str(),
            f,
        ) {
            Err(step) => {
                return step;
            },
            Ok(i) => i,
        };
        if !expected.same_as(identity) {
            return WorktreeStep::Fail(
                WorktreeError::ownership(
                    identity.workflow_id.as_str(),
                    "provided identity does not match the no-isolation identity",
                ),
            );
        }
        WorktreeStep::Done(
            TrustedWorkflowCwd::mint(
                expected.worktree_path.as_str(),
                identity.workflow_id.as_str(),
            ),
        )
    }

    fn verify_owned_current(&self, workflow_id: &str, f: &WorktreeFacts) -> (r: WorktreeStep<
        (WorkflowWorktreeIdentity, TrustedWorkflowCwd),
    >)
        ensures
            r@ == identified(
                *self,
                workflow_id@,
                *f,
                |i: IdentityModel|
                    StepModel::Done((i, CwdModel { path: i.worktree_path, workflow_id: workflow_id@ })),
            ),
    {
        match self.identity_gate::<(WorkflowWorktreeIdentity, TrustedWorkflowCwd)>(workflow_id, f) {
            Err(step) => step,
            Ok(i) => {
                let cwd = TrustedWorkflowCwd::mint(i.worktree_path.as_str(), workflow_id);
                WorktreeStep::Done((i, cwd))
            },
        }
    }

    fn integrate(&self, workflow_id: &str, options: &IntegrateOptions, f: &WorktreeFacts) -> (r:
        WorktreeStep<IntegrateOutcome>)
        ensures
            r@ == noop_integrate_model(*self, workflow_id@, *f),
    {
        let i = match self.identity_gate::<IntegrateOutcome>(workflow_id, f) {
            Err(step) => {
                return step;
            },
            Ok(i) => i,
        };
        match maybe_discovery_gate::<IntegrateOutcome>(i.source_root.as_str(), f) {
            Err(step) => step,
            Ok(Some(d)) => WorktreeStep::Done(applied_at(d.head_commit.as_str())),
            Ok(None) => WorktreeStep::Done(applied_at("none")),
        }
    }

    fn remove(&self, identity: &WorkflowWorktreeIdentity, f: &WorktreeFacts) -> (r: WorktreeStep<
        (),
    >)
        ensures
            r@ == StepModel::Done(()),
    {
        WorktreeStep::Done(())
    }

    fn inspect(&self, workflow_id: &str, f: &WorktreeFacts) -> (r: WorktreeStep<
        WorkflowWorktreeStatus,
    >)
        ensures
            r@ == noop_inspect_model(*self, workflow_id@, *f),
    {
        let identity = match self.identity_gate::<WorkflowWorktreeStatus>(workflow_id, f) {
            Err(step) => {
                return step;
            },
            Ok(i) => i,
        };
        let dirty = match &f.discovery {
            None => {
                return WorktreeStep::Need(WorktreeWork::Discover(identity.source_root));
            },
            Some(Err(_)) => false,
            Some(Ok(_)) => match &f.dirty {
                None => {
                    return WorktreeStep::Need(WorktreeWork::ProbeDirty(identity.source_root));
                },
                Some(Err(e)) => {
                    return WorktreeStep::Fail(e.clone());
                },
                Some(Ok(dirty)) => *dirty,
            },
        };
        if !dirty {
            let status = WorkflowWorktreeStatus {
                identity,
                dirty: false,
                ahead_commits: 0,
                changed_files: Vec::new(),
            };
            assert(status@.changed_files =~= Seq::<Seq<char>>::empty());
            return WorktreeStep::Done(status);
        }
        match &f.changed {
            None => WorktreeStep::Need(
                WorktreeWork::ListChanged { path: identity.source_root, base: "HEAD".to_owned() },
            ),
            Some(Err(e)) => WorktreeStep::Fail(e.clone()),
            Some(Ok(changed)) => WorktreeStep::Done(
                WorkflowWorktreeStatus {
                    identity,
                    dirty: true,
                    ahead_commits: 0,
                    changed_files: clone_texts(changed),
                },
            ),
        }
    }

    fn list(&self, f: &WorktreeFacts) -> (r: WorktreeStep<Vec<WorkflowWorktreeIdentity>>)
        ensures
            r@ == StepModel::Done(Seq::<WorkflowWorktreeIdentity>::empty()),
    {
        WorktreeStep::Done(Vec::new())
    }

    fn prune_stale(&self, f: &WorktreeFacts) -> (r: WorktreeStep<Vec<String>>)
        ensures
            r@ == StepModel::Done(Seq::<String>::empty()),
    {
        WorktreeStep::Done(Vec::new())
    }

    fn kind(&self) -> (r: WorkflowIsolationSetting)
        ensures
            r == WorkflowIsolationSetting::NoIsolation,
    {
        WorkflowIsolationSetting::NoIsolation
    }
}

/// The identity that is handed out always passes its own check, and the
/// capability leads to the source.
pub proof fn law_noop_identity_verifies(
    m: NoopWorkflowIsolation,
    workflow_id: Seq<char>,
    source: String,
    f: WorktreeFacts,
)
    requires
        store::valid_id(workflow_id),
        f.canonical_source == Some(Ok::<String, WorktreeError>(source)),
    ensures
        noop_verify_model(m, noop_identity(workflow_id, source@), f) == StepModel::Done(
            CwdModel { path: source@, workflow_id },
        ),
{
}

} // verus!
