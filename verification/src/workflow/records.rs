//! The durable workflow record and what is exchanged with workflow runtimes.

use crate::sort;
use crate::sort::{text_is_before, Rank, Ranked};
use crate::text;
use crate::text::{clone_opt_text, clone_texts, decimal};
use crate::workflow::todo::{PhaseModel, TodoState};
use crate::workflow::{WorkflowId, WorkflowStatus};
use vstd::prelude::*;
use vstd::string::*;

verus! {

/// The name of a status as code spells it.
pub open spec fn status_variant(status: WorkflowStatus) -> Seq<char> {
    match status {
        WorkflowStatus::Queued => "Queued"@,
        WorkflowStatus::Planning => "Planning"@,
        WorkflowStatus::Running => "Running"@,
        WorkflowStatus::Paused => "Paused"@,
        WorkflowStatus::Integrating => "Integrating"@,
        WorkflowStatus::Completed => "Completed"@,
        WorkflowStatus::Failed => "Failed"@,
        WorkflowStatus::Cancelled => "Cancelled"@,
        WorkflowStatus::Conflicted => "Conflicted"@,
    }
}

/// The name of a status as code spells it.
pub fn status_variant_name(status: WorkflowStatus) -> (r: &'static str)
    ensures
        r@ == status_variant(status),
{
    match status {
        WorkflowStatus::Queued => "Queued",
        WorkflowStatus::Planning => "Planning",
        WorkflowStatus::Running => "Running",
        WorkflowStatus::Paused => "Paused",
        WorkflowStatus::Integrating => "Integrating",
        WorkflowStatus::Completed => "Completed",
        WorkflowStatus::Failed => "Failed",
        WorkflowStatus::Cancelled => "Cancelled",
        WorkflowStatus::Conflicted => "Conflicted",
    }
}

/// `true` or `false`.
pub open spec fn flag(b: bool) -> Seq<char> {
    if b {
        "true"@
    } else {
        "false"@
    }
}

/// `true` or `false`.
pub fn flag_text(b: bool) -> (r: &'static str)
    ensures
        r@ == flag(b),
{
    if b {
        "true"
    } else {
        "false"
    }
}

// ---------------------------------------------------------------------------
// Failure and integration
// ---------------------------------------------------------------------------

/// Why a workflow failed.
#[derive(PartialEq, Eq)]
pub struct WorkflowFailure {
    pub message: String,
}

impl Clone for WorkflowFailure {
    fn clone(&self) -> (r: Self)
        ensures
            r == *self,
    {
        WorkflowFailure { message: self.message.clone() }
    }
}

impl WorkflowFailure {
    /// The failure without its message.
    pub fn debug_text(&self) -> (r: String)
        ensures
            r@ == "WorkflowFailure { .. }"@,
    {
        "WorkflowFailure { .. }".to_owned()
    }
}

/// The message of an optional failure.
pub open spec fn failure_text(f: Option<WorkflowFailure>) -> Option<Seq<char>> {
    match f {
        Some(f) => Some(f.message@),
        None => None,
    }
}

/// A copy of an optional failure.
pub fn clone_failure(f: &Option<WorkflowFailure>) -> (r: Option<WorkflowFailure>)
    ensures
        r == *f,
{
    match f {
        Some(f) => Some(f.clone()),
        None => None,
    }
}

/// What came of merging a workflow back.
#[derive(PartialEq, Eq)]
pub enum WorkflowIntegration {
    /// No merge has been tried.
    NotIntegrated,
    Applied { result_commit: String },
    Conflicted { conflicts: Vec<String> },
}

/// The model of an integration.
#[verifier::ext_equal]
pub enum IntegrationModel {
    NotIntegrated,
    Applied { result_commit: Seq<char> },
    Conflicted { conflicts: Seq<Seq<char>> },
}

impl View for WorkflowIntegration {
    type V = IntegrationModel;

    open spec fn view(&self) -> IntegrationModel {
        match *self {
            WorkflowIntegration::NotIntegrated => IntegrationModel::NotIntegrated,
            WorkflowIntegration::Applied { result_commit } => IntegrationModel::Applied {
                result_commit: result_commit@,
            },
            WorkflowIntegration::Conflicted { conflicts } => IntegrationModel::Conflicted {
                conflicts: text::texts(conflicts@),
            },
        }
    }
}

impl Clone for WorkflowIntegration {
    fn clone(&self) -> (r: Self)
        ensures
            r@ == self@,
    {
        match self {
            WorkflowIntegration::NotIntegrated => WorkflowIntegration::NotIntegrated,
            WorkflowIntegration::Applied { result_commit } => WorkflowIntegration::Applied {
                result_commit: result_commit.clone(),
            },
            WorkflowIntegration::Conflicted { conflicts } => WorkflowIntegration::Conflicted {
                conflicts: clone_texts(conflicts),
            },
        }
    }
}

impl Default for WorkflowIntegration {
    fn default() -> (r: Self)
        ensures
            r@ == IntegrationModel::NotIntegrated,
    {
        WorkflowIntegration::NotIntegrated
    }
}

/// What is shown of an integration: no commit and no path.
pub open spec fn shown_integration(i: IntegrationModel) -> Seq<char> {
    match i {
        IntegrationModel::NotIntegrated => "WorkflowIntegration::None"@,
        IntegrationModel::Applied { .. } => "WorkflowIntegration::Applied { .. }"@,
        IntegrationModel::Conflicted { conflicts } =>
        "WorkflowIntegration::Conflicted { conflict_count: "@ + text::numeral(conflicts.len())
            + ", .. }"@,
    }
}

impl WorkflowIntegration {
    /// The integration without commits and paths.
    pub fn debug_text(&self) -> (r: String)
        ensures
            r@ == shown_integration(self@),
    {
        match self {
            WorkflowIntegration::NotIntegrated => "WorkflowIntegration::None".to_owned(),
            WorkflowIntegration::Applied { .. } => "WorkflowIntegration::Applied { .. }".to_owned(),
            WorkflowIntegration::Conflicted { conflicts } => {
                "WorkflowIntegration::Conflicted { conflict_count: ".to_owned().concat(
                    decimal(conflicts.len() as u64).as_str(),
                ).concat(", .. }")
            },
        }
    }
}

// ---------------------------------------------------------------------------
// The record
// ---------------------------------------------------------------------------

/// The durable record of a workflow.
#[derive(PartialEq, Eq)]
pub struct WorkflowSnapshot {
    pub workflow_id: WorkflowId,
    pub name: String,
    pub objective: String,
    pub status: WorkflowStatus,
    pub created_at_ms: u64,
    pub updated_at_ms: u64,
    pub generation: u64,
    pub todo: TodoState,
    pub worktree_label: Option<String>,
    pub branch: Option<String>,
    pub supervisor_agent_id: Option<String>,
    pub supervisor_job_id: Option<String>,
    pub failure: Option<WorkflowFailure>,
    pub integration: WorkflowIntegration,
}

/// The model of a record.
#[verifier::ext_equal]
pub struct SnapshotModel {
    pub workflow_id: Seq<char>,
    pub name: Seq<char>,
    pub objective: Seq<char>,
    pub status: WorkflowStatus,
    pub created_at_ms: u64,
    pub updated_at_ms: u64,
    pub generation: u64,
    pub todo: Seq<PhaseModel>,
    pub worktree_label: Option<Seq<char>>,
    pub branch: Option<Seq<char>>,
    pub supervisor_agent_id: Option<Seq<char>>,
    pub supervisor_job_id: Option<Seq<char>>,
    pub failure: Option<Seq<char>>,
    pub integration: IntegrationModel,
}

impl View for WorkflowSnapshot {
    type V = SnapshotModel;

    open spec fn view(&self) -> SnapshotModel {
        SnapshotModel {
            workflow_id: self.workflow_id@,
            name: self.name@,
            objective: self.objective@,
            status: self.status,
            created_at_ms: self.created_at_ms,
            updated_at_ms: self.updated_at_ms,
            generation: self.generation,
            todo: self.todo@,
            worktree_label: text::opt_text(self.worktree_label),
            branch: text::opt_text(self.branch),
            supervisor_agent_id: text::opt_text(self.supervisor_agent_id),
            supervisor_job_id: text::opt_text(self.supervisor_job_id),
            failure: failure_text(self.failure),
            integration: self.integration@,
        }
    }
}

impl Clone for WorkflowSnapshot {
    fn clone(&self) -> (r: Self)
        ensures
            r@ == self@,
    {
        WorkflowSnapshot {
            workflow_id: self.workflow_id.clone(),
            name: self.name.clone(),
            objective: self.objective.clone(),
            status: self.status,
            created_at_ms: self.created_at_ms,
            updated_at_ms: self.updated_at_ms,
            generation: self.generation,
            todo: self.todo.clone(),
            worktree_label: clone_opt_text(&self.worktree_label),
            branch: clone_opt_text(&self.branch),
            supervisor_agent_id: clone_opt_text(&self.supervisor_agent_id),
            supervisor_job_id: clone_opt_text(&self.supervisor_job_id),
            failure: clone_failure(&self.failure),
            integration: self.integration.clone(),
        }
    }
}

/// Older records rank first, then records with smaller ids.
pub open spec fn snapshot_before(a: SnapshotModel, b: SnapshotModel) -> bool {
    a.created_at_ms < b.created_at_ms || (a.created_at_ms == b.created_at_ms && sort::text_before(
        a.workflow_id,
        b.workflow_id,
    ))
}

impl Rank for SnapshotModel {
    open spec fn before(self, other: Self) -> bool {
        snapshot_before(self, other)
    }

    proof fn weak_order(a: Self, b: Self, c: Self) {
        sort::lemma_text_order(a.workflow_id, b.workflow_id, c.workflow_id);
    }
}

impl Rank for WorkflowSnapshot {
    open spec fn before(self, other: Self) -> bool {
        snapshot_before(self@, other@)
    }

    proof fn weak_order(a: Self, b: Self, c: Self) {
        sort::lemma_text_order(a.workflow_id@, b.workflow_id@, c.workflow_id@);
    }
}

impl Ranked for WorkflowSnapshot {
    fn is_before(&self, other: &Self) -> (r: bool) {
        self.created_at_ms < other.created_at_ms || (self.created_at_ms == other.created_at_ms
            && text_is_before(self.workflow_id.as_str(), other.workflow_id.as_str()))
    }
}

/// What is shown of a record: no identity, name, path or message.
pub open spec fn shown_snapshot(s: SnapshotModel) -> Seq<char> {
    "WorkflowSnapshot { status: "@ + status_variant(s.status) + ", generation: "@ + text::numeral(
        s.generation as nat,
    ) + ", phase_count: "@ + text::numeral(s.todo.len()) + ", .. }"@
}

impl WorkflowSnapshot {
    /// The record without anything private.
    pub fn debug_text(&self) -> (r: String)
        ensures
            r@ == shown_snapshot(self@),
    {
        "WorkflowSnapshot { status: ".to_owned().concat(status_variant_name(self.status)).concat(
            ", generation: ",
        ).concat(decimal(self.generation).as_str()).concat(", phase_count: ").concat(
            decimal(self.todo.phases.len() as u64).as_str(),
        ).concat(", .. }")
    }
}

// ---------------------------------------------------------------------------
// Requests and replies
// ---------------------------------------------------------------------------

/// What a caller asks for when a workflow is to be created.
#[derive(PartialEq, Eq)]
pub struct WorkflowCreateRequest {
    pub name: String,
    pub objective: String,
}

impl WorkflowCreateRequest {
    /// The request without its contents.
    pub fn debug_text(&self) -> (r: String)
        ensures
            r@ == "WorkflowCreateRequest { .. }"@,
    {
        "WorkflowCreateRequest { .. }".to_owned()
    }
}

/// What a runtime factory is asked to make or to restore.
#[derive(PartialEq, Eq)]
pub struct WorkflowRuntimeRequest {
    pub workflow_id: WorkflowId,
    pub name: String,
    pub objective: String,
    pub generation: u64,
}

/// The model of a runtime request.
#[verifier::ext_equal]
pub struct RuntimeRequestModel {
    pub workflow_id: Seq<char>,
    pub name: Seq<char>,
    pub objective: Seq<char>,
    pub generation: u64,
}

impl View for WorkflowRuntimeRequest {
    type V = RuntimeRequestModel;

    open spec fn view(&self) -> RuntimeRequestModel {
        RuntimeRequestModel {
            workflow_id: self.workflow_id@,
            name: self.name@,
            objective: self.objective@,
            generation: self.generation,
        }
    }
}

/// The request that restores the runtime of a record.
pub open spec fn request_for(s: SnapshotModel) -> RuntimeRequestModel {
    RuntimeRequestModel {
        workflow_id: s.workflow_id,
        name: s.name,
        objective: s.objective,
        generation: s.generation,
    }
}

impl WorkflowRuntimeRequest {
    /// The request that restores the runtime of a record.
    pub fn for_snapshot(s: &WorkflowSnapshot) -> (r: Self)
        ensures
            r@ == request_for(s@),
    {
        WorkflowRuntimeRequest {
            workflow_id: s.workflow_id.clone(),
            name: s.name.clone(),
            objective: s.objective.clone(),
            generation: s.generation,
        }
    }

    /// The request without its contents.
    pub fn debug_text(&self) -> (r: String)
        ensures
            r@ == "WorkflowRuntimeRequest { generation: "@ + text::numeral(
                self.generation as nat,
            ) + ", .. }"@,
    {
        "WorkflowRuntimeRequest { generation: ".to_owned().concat(
            decimal(self.generation).as_str(),
        ).concat(", .. }")
    }
}

/// What a factory tells of a runtime that it made or restored.
#[derive(PartialEq, Eq)]
pub struct WorkflowRuntimeIdentity {
    pub worktree_label: Option<String>,
    pub branch: Option<String>,
    pub supervisor_agent_id: Option<String>,
    pub supervisor_job_id: Option<String>,
    pub todo: TodoState,
}

/// The model of a runtime identity.
#[verifier::ext_equal]
pub struct RuntimeIdentityModel {
    pub worktree_label: Option<Seq<char>>,
    pub branch: Option<Seq<char>>,
    pub supervisor_agent_id: Option<Seq<char>>,
    pub supervisor_job_id: Option<Seq<char>>,
    pub todo: Seq<PhaseModel>,
}

impl View for WorkflowRuntimeIdentity {
    type V = RuntimeIdentityModel;

    open spec fn view(&self) -> RuntimeIdentityModel {
        RuntimeIdentityModel {
            worktree_label: text::opt_text(self.worktree_label),
            branch: text::opt_text(self.branch),
            supervisor_agent_id: text::opt_text(self.supervisor_agent_id),
            supervisor_job_id: text::opt_text(self.supervisor_job_id),
            todo: self.todo@,
        }
    }
}

impl WorkflowRuntimeIdentity {
    /// The identity without labels and ids.
    pub fn debug_text(&self) -> (r: String)
        ensures
            r@ == "WorkflowRuntimeIdentity { phase_count: "@ + text::numeral(self@.todo.len())
                + ", .. }"@,
    {
        "WorkflowRuntimeIdentity { phase_count: ".to_owned().concat(
            decimal(self.todo.phases.len() as u64).as_str(),
        ).concat(", .. }")
    }
}

/// What a runtime tells of a workflow that moved.
#[derive(PartialEq, Eq)]
pub struct WorkflowRuntimeUpdate {
    pub status: WorkflowStatus,
    pub todo: TodoState,
    pub supervisor_agent_id: Option<String>,
    pub supervisor_job_id: Option<String>,
    pub failure: Option<WorkflowFailure>,
    pub integration: WorkflowIntegration,
}

/// The model of an update.
#[verifier::ext_equal]
pub struct UpdateModel {
    pub status: WorkflowStatus,
    pub todo: Seq<PhaseModel>,
    pub supervisor_agent_id: Option<Seq<char>>,
    pub supervisor_job_id: Option<Seq<char>>,
    pub failure: Option<Seq<char>>,
    pub integration: IntegrationModel,
}

impl View for WorkflowRuntimeUpdate {
    type V = UpdateModel;

    open spec fn view(&self) -> UpdateModel {
        UpdateModel {
            status: self.status,
            todo: self.todo@,
            supervisor_agent_id: text::opt_text(self.supervisor_agent_id),
            supervisor_job_id: text::opt_text(self.supervisor_job_id),
            failure: failure_text(self.failure),
            integration: self.integration@,
        }
    }
}

impl Clone for WorkflowRuntimeUpdate {
    fn clone(&self) -> (r: Self)
        ensures
            r@ == self@,
    {
        WorkflowRuntimeUpdate {
            status: self.status,
            todo: self.todo.clone(),
            supervisor_agent_id: clone_opt_text(&self.supervisor_agent_id),
            supervisor_job_id: clone_opt_text(&self.supervisor_job_id),
            failure: clone_failure(&self.failure),
            integration: self.integration.clone(),
        }
    }
}

impl WorkflowRuntimeUpdate {
    /// The update without ids, messages, commits and paths.
    pub fn debug_text(&self) -> (r: String)
        ensures
            r@ == "WorkflowRuntimeUpdate { status: "@ + status_variant(self.status)
                + ", phase_count: "@ + text::numeral(self@.todo.len()) + ", has_failure: "@ + flag(
                self.failure is Some,
            ) + ", integration: "@ + shown_integration(self@.integration) + ", .. }"@,
    {
        "WorkflowRuntimeUpdate { status: ".to_owned().concat(
            status_variant_name(self.status),
        ).concat(", phase_count: ").concat(decimal(self.todo.phases.len() as u64).as_str()).concat(
            ", has_failure: ",
        ).concat(flag_text(self.failure.is_some())).concat(", integration: ").concat(
            self.integration.debug_text().as_str(),
        ).concat(", .. }")
    }
}

// ---------------------------------------------------------------------------
// Events and diagnostics
// ---------------------------------------------------------------------------

/// What the manager tells its observers.
#[derive(PartialEq, Eq)]
pub enum WorkflowEvent {
    Created { snapshot: WorkflowSnapshot },
    Updated { snapshot: WorkflowSnapshot },
    StatusChanged { workflow_id: WorkflowId, generation: u64, status: WorkflowStatus },
    Removed { workflow_id: WorkflowId, generation: u64 },
}

/// The model of an event.
#[verifier::ext_equal]
pub enum EventModel {
    Created { snapshot: SnapshotModel },
    Updated { snapshot: SnapshotModel },
    StatusChanged { workflow_id: Seq<char>, generation: u64, status: WorkflowStatus },
    Removed { workflow_id: Seq<char>, generation: u64 },
}

impl View for WorkflowEvent {
    type V = EventModel;

    open spec fn view(&self) -> EventModel {
        match *self {
            WorkflowEvent::Created { snapshot } => EventModel::Created { snapshot: snapshot@ },
            WorkflowEvent::Updated { snapshot } => EventModel::Updated { snapshot: snapshot@ },
            WorkflowEvent::StatusChanged { workflow_id, generation, status } =>
            EventModel::StatusChanged { workflow_id: workflow_id@, generation, status },
            WorkflowEvent::Removed { workflow_id, generation } => EventModel::Removed {
                workflow_id: workflow_id@,
                generation,
            },
        }
    }
}

/// What is shown of an event.
pub open spec fn shown_event(e: EventModel) -> Seq<char> {
    match e {
        EventModel::Created { snapshot } => "WorkflowEvent::Created { snapshot: "@ + shown_snapshot(
            snapshot,
        ) + " }"@,
        EventModel::Updated { snapshot } => "WorkflowEvent::Updated { snapshot: "@ + shown_snapshot(
            snapshot,
        ) + " }"@,
        EventModel::StatusChanged { workflow_id, generation, status } =>
        "WorkflowEvent::StatusChanged { generation: "@ + text::numeral(generation as nat)
            + ", status: "@ + status_variant(status) + ", .. }"@,
        EventModel::Removed { workflow_id, generation } =>
        "WorkflowEvent::Removed { generation: "@ + text::numeral(generation as nat) + ", .. }"@,
    }
}

impl WorkflowEvent {
    /// The event without anything private.
    pub fn debug_text(&self) -> (r: String)
        ensures
            r@ == shown_event(self@),
    {
        match self {
            WorkflowEvent::Created { snapshot } => {
                "WorkflowEvent::Created { snapshot: ".to_owned().concat(
                    snapshot.debug_text().as_str(),
                ).concat(" }")
            },
            WorkflowEvent::Updated { snapshot } => {
                "WorkflowEvent::Updated { snapshot: ".to_owned().concat(
                    snapshot.debug_text().as_str(),
                ).concat(" }")
            },
            WorkflowEvent::StatusChanged { workflow_id, generation, status } => {
                "WorkflowEvent::StatusChanged { generation: ".to_owned().concat(
                    decimal(*generation).as_str(),
                ).concat(", status: ").concat(status_variant_name(*status)).concat(", .. }")
            },
            WorkflowEvent::Removed { workflow_id, generation } => {
                "WorkflowEvent::Removed { generation: ".to_owned().concat(
                    decimal(*generation).as_str(),
                ).concat(", .. }")
            },
        }
    }
}

/// A record or selection that loading ignored.
#[derive(PartialEq, Eq)]
pub struct WorkflowStoreDiagnostic {
    pub workflow_id: Option<WorkflowId>,
    pub message: String,
}

impl WorkflowStoreDiagnostic {
    /// The diagnostic without its contents.
    pub fn debug_text(&self) -> (r: String)
        ensures
            r@ == "WorkflowStoreDiagnostic { has_workflow_id: "@ + flag(self.workflow_id is Some)
                + ", .. }"@,
    {
        "WorkflowStoreDiagnostic { has_workflow_id: ".to_owned().concat(
            flag_text(self.workflow_id.is_some()),
        ).concat(", .. }")
    }
}

/// What is shown of a record depends on its status, generation and number of
/// phases alone.
pub proof fn law_shown_snapshot_is_redacted(a: SnapshotModel, b: SnapshotModel)
    requires
        a.status == b.status,
        a.generation == b.generation,
        a.todo.len() == b.todo.len(),
    ensures
        shown_snapshot(a) == shown_snapshot(b),
        shown_event(EventModel::Created { snapshot: a }) == shown_event(
            EventModel::Created { snapshot: b },
        ),
        shown_event(EventModel::Updated { snapshot: a }) == shown_event(
            EventModel::Updated { snapshot: b },
        ),
{
}

} // verus!
