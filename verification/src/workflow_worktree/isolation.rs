//! What every way to isolate workflows offers.

use crate::workflow_worktree::manager;
use crate::workflow_worktree::manager::WorkflowWorktreeManager;
use crate::workflow_worktree::steps::{WorktreeFacts, WorktreeStep};
use crate::workflow_worktree::{
    CreateWorktreeOptions, IntegrateOptions, IntegrateOutcome, TrustedWorkflowCwd,
    WorkflowIsolationSetting, WorkflowWorktreeIdentity, WorkflowWorktreeStatus,
};
use vstd::prelude::*;

verus! {

/// A backend that gives workflows their working copies. Each operation says, of
/// what is known so far, where it stands.
pub trait WorkflowIsolation {
    /// Creates the working copy of a workflow.
    fn create(
        &self,
        workflow_id: &str,
        options: &CreateWorktreeOptions,
        f: &WorktreeFacts,
    ) -> WorktreeStep<WorkflowWorktreeIdentity>;

    /// Verifies exact ownership and mints a capability.
    fn verify_owned(
        &self,
        identity: &WorkflowWorktreeIdentity,
        f: &WorktreeFacts,
    ) -> WorktreeStep<TrustedWorkflowCwd>;

    /// Verifies ownership and adopts committed progress.
    fn verify_owned_current(
        &self,
        workflow_id: &str,
        f: &WorktreeFacts,
    ) -> WorktreeStep<(WorkflowWorktreeIdentity, TrustedWorkflowCwd)>;

    /// Integrates the workflow's changes into the source.
    fn integrate(
        &self,
        workflow_id: &str,
        options: &IntegrateOptions,
        f: &WorktreeFacts,
    ) -> WorktreeStep<IntegrateOutcome>;

    /// Removes an owned working copy.
    fn remove(&self, identity: &WorkflowWorktreeIdentity, f: &WorktreeFacts) -> WorktreeStep<()>;

    /// Inspects a working copy.
    fn inspect(&self, workflow_id: &str, f: &WorktreeFacts) -> WorktreeStep<WorkflowWorktreeStatus>;

    /// Lists the recorded identities.
    fn list(&self, f: &WorktreeFacts) -> WorktreeStep<Vec<WorkflowWorktreeIdentity>>;

    /// Drops records whose working copy is gone.
    fn prune_stale(&self, f: &WorktreeFacts) -> WorktreeStep<Vec<String>>;

    /// Which setting selects this backend.
    fn kind(&self) -> WorkflowIsolationSetting;
}

impl WorkflowIsolation for WorkflowWorktreeManager {
    fn create(
        &self,
        workflow_id: &str,
        options: &CreateWorktreeOptions,
        f: &WorktreeFacts,
    ) -> (r: WorktreeStep<WorkflowWorktreeIdentity>)
        ensures
            r@ == manager::create_model(*self, workflow_id@, *options, *f),
    {
        WorkflowWorktreeManager::create(self, workflow_id, options, f)
    }

    fn verify_owned(&self, identity: &WorkflowWorktreeIdentity, f: &WorktreeFacts) -> (r:
        WorktreeStep<TrustedWorkflowCwd>)
        ensures
            r@ == manager::verify_owned_model(*self, identity@, *f),
    {
        WorkflowWorktreeManager::verify_owned(self, identity, f)
    }

    fn verify_owned_current(&self, workflow_id: &str, f: &WorktreeFacts) -> (r: WorktreeStep<
        (WorkflowWorktreeIdentity, TrustedWorkflowCwd),
    >)
        ensures
            r@ == manager::verify_owned_current_model(*self, workflow_id@, *f),
    {
        WorkflowWorktreeManager::verify_owned_current(self, workflow_id, f)
    }

    fn integrate(&self, workflow_id: &str, options: &IntegrateOptions, f: &WorktreeFacts) -> (r:
        WorktreeStep<IntegrateOutcome>)
        ensures
            r@ == manager::integrate_model(*self, workflow_id@, *options, *f),
    {
        WorkflowWorktreeManager::integrate(self, workflow_id, options, f)
    }

    fn remove(&self, identity: &WorkflowWorktreeIdentity, f: &WorktreeFacts) -> (r: WorktreeStep<
        (),
    >)
        ensures
            r@ == manager::remove_model(*self, identity@, *f),
    {
        WorkflowWorktreeManager::remove(self, identity, f)
    }

    fn inspect(&self, workflow_id: &str, f: &WorktreeFacts) -> (r: WorktreeStep<
        WorkflowWorktreeStatus,
    >)
        ensures
            r@ == manager::inspect_model(*self, workflow_id@, *f),
    {
        WorkflowWorktreeManager::inspect(self, workflow_id, f)
    }

    fn list(&self, f: &WorktreeFacts) -> (r: WorktreeStep<Vec<WorkflowWorktreeIdentity>>)
        ensures
            r@ == manager::list_model(*self, *f),
    {
        WorkflowWorktreeManager::list(self, f)
    }

    fn prune_stale(&self, f: &WorktreeFacts) -> (r: WorktreeStep<Vec<String>>)
        ensures
            manager::prune_step(r) == manager::prune_model(*self, *f),
    {
        WorkflowWorktreeManager::prune_stale(self, f)
    }

    fn kind(&self) -> (r: WorkflowIsolationSetting)
        ensures
            r == WorkflowIsolationSetting::Worktree,
    {
        WorkflowIsolationSetting::Worktree
    }
}

} // verus!
