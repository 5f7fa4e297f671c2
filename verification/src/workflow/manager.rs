//! The workflow manager: which workflows exist, how they move, and what is
//! undone when a move cannot be saved.
//!
//! The manager never touches storage or runtimes itself. An operation starts
//! with a call of the manager, which names the first thing to do and the point
//! at which the operation waits; each reply takes it to the next one, until it
//! is finished. The driver runs the operations of one workflow one after
//! another.

use crate::sort;
use crate::sort::stable_sort;
use crate::text;
use crate::text::{same_text, trim};
use crate::text_map::TextMap;
use crate::workflow::records;
use crate::workflow::records::{
    EventModel, IntegrationModel, RuntimeIdentityModel, RuntimeRequestModel, SnapshotModel,
    UpdateModel, WorkflowCreateRequest, WorkflowEvent, WorkflowFailure, WorkflowIntegration,
    WorkflowRuntimeIdentity, WorkflowRuntimeRequest, WorkflowRuntimeUpdate, WorkflowSnapshot,
    WorkflowStoreDiagnostic,
};
use crate::workflow::store;
use crate::workflow::store::{StoreDiagnostic, StoreDiagnosticKind};
use crate::workflow::{WorkflowId, WorkflowStatus};
use crate::workflow_worktree::catalog;
use vstd::prelude::*;
use vstd::string::*;

verus! {

// ---------------------------------------------------------------------------
// The rules
// ---------------------------------------------------------------------------

/// What a caller can ask of a workflow.
#[derive(Clone, Copy, Debug, PartialEq, Eq, Structural)]
pub enum WorkflowAction {
    Pause,
    Resume,
    Cancel,
    Integrate,
}

impl WorkflowAction {
    /// What is told where the runtime fails; nothing of the cause.
    pub open spec fn failure(self) -> Seq<char> {
        match self {
            WorkflowAction::Pause => "workflow runtime pause failed"@,
            WorkflowAction::Resume => "workflow runtime resume failed"@,
            WorkflowAction::Cancel => "workflow runtime cancellation failed"@,
            WorkflowAction::Integrate => "workflow runtime integration failed"@,
        }
    }

    /// What is told where the runtime fails; nothing of the cause.
    pub fn factory_error(self) -> (r: &'static str)
        ensures
            r@ == self.failure(),
    {
        match self {
            WorkflowAction::Pause => "workflow runtime pause failed",
            WorkflowAction::Resume => "workflow runtime resume failed",
            WorkflowAction::Cancel => "workflow runtime cancellation failed",
            WorkflowAction::Integrate => "workflow runtime integration failed",
        }
    }
}

pub const NOT_FOUND: &'static str = "workflow was not found";

pub const AMBIGUOUS: &'static str = "workflow name is ambiguous";

pub const STALE: &'static str = "workflow generation is stale";

pub const NOT_ALLOWED: &'static str = "workflow lifecycle transition is not allowed";

pub const INVALID_STATUS: &'static str = "workflow runtime returned an invalid lifecycle status";

pub const INVALID_PROJECTION: &'static str = "workflow runtime projection is invalid";

pub const STALE_RESULT: &'static str = "workflow operation result is stale";

pub const UPDATE_UNSAVED: &'static str = "workflow update could not be saved";

pub const UPDATE_STUCK: &'static str = "workflow durable rollback failed";

pub const CREATE_UNSAVED: &'static str = "workflow creation could not be saved";

pub const CREATE_STUCK: &'static str = "workflow creation rollback failed";

pub const CREATE_FAILED: &'static str = "workflow runtime creation failed";

pub const EMPTY_NAME: &'static str = "workflow name must not be empty";

pub const EMPTY_OBJECTIVE: &'static str = "workflow objective must not be empty";

pub const NAME_TAKEN: &'static str = "workflow name already exists";

pub const REMOVE_FAILED: &'static str = "workflow runtime removal failed";

pub const REMOVE_UNSAVED: &'static str = "workflow removal could not be committed";

pub const REMOVE_STUCK: &'static str = "workflow removal rollback failed";

pub const NOT_CANCELLED: &'static str = "workflow could not be cancelled before removal: ";

pub const SELECT_UNSAVED: &'static str = "workflow selection could not be saved";

pub const SELECT_STUCK: &'static str = "workflow selection rollback failed";

pub const RECOVERY_FAILED: &'static str = "workflow runtime recovery failed";

/// Whether a workflow with the given status may be asked for the action.
pub open spec fn allowed(status: WorkflowStatus, action: WorkflowAction) -> bool {
    match action {
        WorkflowAction::Pause => status == WorkflowStatus::Queued || status
            == WorkflowStatus::Planning || status == WorkflowStatus::Running,
        WorkflowAction::Resume => status == WorkflowStatus::Paused || status
            == WorkflowStatus::Planning || status == WorkflowStatus::Running,
        WorkflowAction::Cancel => !status.terminal(),
        WorkflowAction::Integrate => status == WorkflowStatus::Completed || status
            == WorkflowStatus::Paused || status == WorkflowStatus::Conflicted,
    }
}

/// Whether an action may end in the given status.
pub open spec fn outcome_fits(action: WorkflowAction, status: WorkflowStatus) -> bool {
    match action {
        WorkflowAction::Pause => status == WorkflowStatus::Paused,
        WorkflowAction::Resume => status == WorkflowStatus::Planning || status
            == WorkflowStatus::Running || status == WorkflowStatus::Completed || status
            == WorkflowStatus::Failed,
        WorkflowAction::Cancel => status == WorkflowStatus::Cancelled,
        WorkflowAction::Integrate => status == WorkflowStatus::Completed || status
            == WorkflowStatus::Conflicted || status == WorkflowStatus::Failed,
    }
}

/// Whether a runtime may project `next` while the record says `prior`.
pub open spec fn projection_fits(prior: WorkflowStatus, next: WorkflowStatus) -> bool {
    prior == next || match prior {
        WorkflowStatus::Queued => next == WorkflowStatus::Planning || next
            == WorkflowStatus::Running || next == WorkflowStatus::Completed || next
            == WorkflowStatus::Failed,
        WorkflowStatus::Planning => next == WorkflowStatus::Running || next
            == WorkflowStatus::Completed || next == WorkflowStatus::Failed,
        WorkflowStatus::Running => next == WorkflowStatus::Completed || next
            == WorkflowStatus::Failed,
        _ => false,
    }
}

/// Refuses an action that the status does not allow.
pub fn ensure_allowed(status: WorkflowStatus, action: WorkflowAction) -> (r: Result<(), String>)
    ensures
        r is Ok <==> allowed(status, action),
        r is Err ==> r->Err_0@ == NOT_ALLOWED@,
{
    let ok = match action {
        WorkflowAction::Pause => matches!(
            status,
            WorkflowStatus::Queued | WorkflowStatus::Planning | WorkflowStatus::Running
        ),
        WorkflowAction::Resume => matches!(
            status,
            WorkflowStatus::Paused | WorkflowStatus::Planning | WorkflowStatus::Running
        ),
        WorkflowAction::Cancel => !status.is_terminal(),
        WorkflowAction::Integrate => matches!(
            status,
            WorkflowStatus::Completed | WorkflowStatus::Paused | WorkflowStatus::Conflicted
        ),
    };
    if ok {
        Ok(())
    } else {
        Err(NOT_ALLOWED.to_owned())
    }
}

/// Refuses a status in which the action cannot have ended.
pub fn validate_status(action: WorkflowAction, status: WorkflowStatus) -> (r: Result<(), String>)
    ensures
        r is Ok <==> outcome_fits(action, status),
        r is Err ==> r->Err_0@ == INVALID_STATUS@,
{
    let ok = match action {
        WorkflowAction::Pause => status == WorkflowStatus::Paused,
        WorkflowAction::Resume => matches!(
            status,
            WorkflowStatus::Planning | WorkflowStatus::Running | WorkflowStatus::Completed
                | WorkflowStatus::Failed
        ),
        WorkflowAction::Cancel => status == WorkflowStatus::Cancelled,
        WorkflowAction::Integrate => matches!(
            status,
            WorkflowStatus::Completed | WorkflowStatus::Conflicted | WorkflowStatus::Failed
        ),
    };
    if ok {
        Ok(())
    } else {
        Err(INVALID_STATUS.to_owned())
    }
}

/// Refuses a projection that would take a workflow where it cannot go by
/// itself.
pub fn validate_runtime_projection(prior: WorkflowStatus, next: WorkflowStatus) -> (r: Result<
    (),
    String,
>)
    ensures
        r is Ok <==> projection_fits(prior, next),
        r is Err ==> r->Err_0@ == INVALID_PROJECTION@,
{
    let ok = prior == next || match prior {
        WorkflowStatus::Queued => matches!(
            next,
            WorkflowStatus::Planning | WorkflowStatus::Running | WorkflowStatus::Completed
                | WorkflowStatus::Failed
        ),
        WorkflowStatus::Planning => matches!(
            next,
            WorkflowStatus::Running | WorkflowStatus::Completed | WorkflowStatus::Failed
        ),
        WorkflowStatus::Running => matches!(
            next,
            WorkflowStatus::Completed | WorkflowStatus::Failed
        ),
        _ => false,
    };
    if ok {
        Ok(())
    } else {
        Err(INVALID_PROJECTION.to_owned())
    }
}

/// A record with what a runtime projected; the integration stays.
pub open spec fn projected(s: SnapshotModel, u: UpdateModel) -> SnapshotModel {
    SnapshotModel {
        status: u.status,
        todo: u.todo,
        supervisor_agent_id: u.supervisor_agent_id,
        supervisor_job_id: u.supervisor_job_id,
        failure: u.failure,
        ..s
    }
}

/// Puts what a runtime projected into a record; the integration stays.
pub fn apply_runtime_projection(snapshot: &mut WorkflowSnapshot, update: WorkflowRuntimeUpdate)
    ensures
        final(snapshot)@ == projected(old(snapshot)@, update@),
{
    snapshot.status = update.status;
    snapshot.todo = update.todo;
    snapshot.supervisor_agent_id = update.supervisor_agent_id;
    snapshot.supervisor_job_id = update.supervisor_job_id;
    snapshot.failure = update.failure;
}

/// What is told of something that loading ignored: the kind alone.
pub open spec fn diagnostic_message(kind: StoreDiagnosticKind) -> Seq<char> {
    match kind {
        StoreDiagnosticKind::CorruptRecord => "ignored a corrupt workflow record"@,
        StoreDiagnosticKind::InvalidRecordName => "ignored a workflow record with an invalid name"@,
        StoreDiagnosticKind::UnsupportedRecordVersion =>
        "ignored a workflow record with an unsupported version"@,
        StoreDiagnosticKind::RecordIdentityMismatch =>
        "ignored a workflow record with inconsistent identity"@,
        StoreDiagnosticKind::RecordLimitExceeded =>
        "ignored a workflow record exceeding storage limits"@,
        StoreDiagnosticKind::UnsafeRecord => "ignored an unsafe workflow record"@,
        StoreDiagnosticKind::CorruptSelection => "ignored corrupt workflow selection"@,
        StoreDiagnosticKind::UnsupportedSelectionVersion =>
        "ignored workflow selection with an unsupported version"@,
        StoreDiagnosticKind::UnsafeSelection => "ignored unsafe workflow selection"@,
    }
}

/// A diagnostic that tells the kind of what was ignored, and nothing of it.
pub fn safe_store_diagnostic(diagnostic: StoreDiagnostic) -> (r: WorkflowStoreDiagnostic)
    ensures
        r.workflow_id == diagnostic.record_id,
        r.message@ == diagnostic_message(diagnostic.kind),
{
    let message = match diagnostic.kind {
        StoreDiagnosticKind::CorruptRecord => "ignored a corrupt workflow record",
        StoreDiagnosticKind::InvalidRecordName => "ignored a workflow record with an invalid name",
        StoreDiagnosticKind::UnsupportedRecordVersion => {
            "ignored a workflow record with an unsupported version"
        },
        StoreDiagnosticKind::RecordIdentityMismatch => {
            "ignored a workflow record with inconsistent identity"
        },
        StoreDiagnosticKind::RecordLimitExceeded => {
            "ignored a workflow record exceeding storage limits"
        },
        StoreDiagnosticKind::UnsafeRecord => "ignored an unsafe workflow record",
        StoreDiagnosticKind::CorruptSelection => "ignored corrupt workflow selection",
        StoreDiagnosticKind::UnsupportedSelectionVersion => {
            "ignored workflow selection with an unsupported version"
        },
        StoreDiagnosticKind::UnsafeSelection => "ignored unsafe workflow selection",
    };
    WorkflowStoreDiagnostic { workflow_id: diagnostic.record_id, message: message.to_owned() }
}

// ---------------------------------------------------------------------------
// Actions, replies and points
// ---------------------------------------------------------------------------

/// What the driver has to do next.
pub enum ManagerAction {
    /// Make a runtime; answered by an identity.
    CreateRuntime(WorkflowRuntimeRequest),
    /// Restore the runtime of a record; answered by an identity.
    RestoreRuntime(WorkflowRuntimeRequest, WorkflowSnapshot),
    /// Move a runtime; answered by an update.
    MoveRuntime(WorkflowAction, WorkflowSnapshot),
    /// Remove a runtime; answered by whether it worked.
    RemoveRuntime(WorkflowSnapshot),
    /// Write a record; answered by whether it worked.
    WriteRecord(WorkflowSnapshot),
    /// Remove a record; answered by whether it worked.
    RemoveRecord(WorkflowId),
    /// Write the selection; answered by whether it worked.
    WriteSelection(Option<WorkflowId>),
    /// The operation is over.
    Finish(Result<Vec<WorkflowSnapshot>, String>),
}

/// The model of an action.
#[verifier::ext_equal]
pub enum ActionModel {
    CreateRuntime(RuntimeRequestModel),
    RestoreRuntime(RuntimeRequestModel, SnapshotModel),
    MoveRuntime(WorkflowAction, SnapshotModel),
    RemoveRuntime(SnapshotModel),
    WriteRecord(SnapshotModel),
    RemoveRecord(Seq<char>),
    WriteSelection(Option<Seq<char>>),
    Finish(Result<Seq<SnapshotModel>, Seq<char>>),
}

/// The model of an optional id.
pub open spec fn opt_id(id: Option<WorkflowId>) -> Option<Seq<char>> {
    match id {
        Some(id) => Some(id@),
        None => None,
    }
}

impl View for ManagerAction {
    type V = ActionModel;

    open spec fn view(&self) -> ActionModel {
        match *self {
            ManagerAction::CreateRuntime(r) => ActionModel::CreateRuntime(r@),
            ManagerAction::RestoreRuntime(r, s) => ActionModel::RestoreRuntime(r@, s@),
            ManagerAction::MoveRuntime(a, s) => ActionModel::MoveRuntime(a, s@),
            ManagerAction::RemoveRuntime(s) => ActionModel::RemoveRuntime(s@),
            ManagerAction::WriteRecord(s) => ActionModel::WriteRecord(s@),
            ManagerAction::RemoveRecord(id) => ActionModel::RemoveRecord(id@),
            ManagerAction::WriteSelection(id) => ActionModel::WriteSelection(opt_id(id)),
            ManagerAction::Finish(Ok(v)) => ActionModel::Finish(Ok(sort::views(v@))),
            ManagerAction::Finish(Err(e)) => ActionModel::Finish(Err(e@)),
        }
    }
}

/// What came of an action. No reply carries the cause of a failure.
pub enum ManagerReply {
    Identity(Option<WorkflowRuntimeIdentity>),
    Update(Option<WorkflowRuntimeUpdate>),
    Worked(bool),
}

/// What a record is being replaced for.
pub enum Purpose {
    /// An action that a caller asked for, or a cancellation before removal.
    Lifecycle { action: WorkflowAction, removing: bool },
    /// A projection of the runtime.
    Projection,
    /// A runtime that was restored, or could not be, with the workflows that
    /// are left to restore and those that were.
    Restored {
        worked: bool,
        rest: Vec<(String, u64)>,
        restored: Vec<WorkflowSnapshot>,
    },
}

/// The model of a purpose.
#[verifier::ext_equal]
pub enum PurposeModel {
    Lifecycle { action: WorkflowAction, removing: bool },
    Projection,
    Restored { worked: bool, rest: Seq<(Seq<char>, u64)>, restored: Seq<SnapshotModel> },
}

/// The models of workflows to restore.
pub open spec fn targets(v: Seq<(String, u64)>) -> Seq<(Seq<char>, u64)> {
    v.map_values(|t: (String, u64)| (t.0@, t.1))
}

impl View for Purpose {
    type V = PurposeModel;

    open spec fn view(&self) -> PurposeModel {
        match *self {
            Purpose::Lifecycle { action, removing } => PurposeModel::Lifecycle { action, removing },
            Purpose::Projection => PurposeModel::Projection,
            Purpose::Restored { worked, rest, restored } => PurposeModel::Restored {
                worked,
                rest: targets(rest@),
                restored: sort::views(restored@),
            },
        }
    }
}

/// Where an operation waits for a reply.
pub enum ManagerPoint {
    Over,
    Creating { workflow_id: WorkflowId, name: String, objective: String },
    Saving { snapshot: WorkflowSnapshot, prior: Option<WorkflowId> },
    Selecting { snapshot: WorkflowSnapshot, prior: Option<WorkflowId> },
    Folding { snapshot: WorkflowSnapshot, prior: Option<WorkflowId> },
    UndoingRecord {
        snapshot: WorkflowSnapshot,
        prior: Option<WorkflowId>,
        selection_too: bool,
    },
    UndoingSelection { snapshot: WorkflowSnapshot, failed: bool },
    UndoingRuntime { name: String, failed: bool },
    Moving { current: WorkflowSnapshot, action: WorkflowAction, removing: bool },
    Replacing { current: WorkflowSnapshot, next: WorkflowSnapshot, purpose: Purpose },
    Reverting { removing: bool },
    Restoring {
        snapshot: WorkflowSnapshot,
        rest: Vec<(String, u64)>,
        restored: Vec<WorkflowSnapshot>,
    },
    RemovingRuntime { snapshot: WorkflowSnapshot },
    Deselecting { snapshot: WorkflowSnapshot, prior: Option<WorkflowId> },
    Erasing { snapshot: WorkflowSnapshot, prior: Option<WorkflowId>, clear: bool },
    Rewriting { snapshot: WorkflowSnapshot, prior: Option<WorkflowId>, clear: bool },
    Reselecting { snapshot: WorkflowSnapshot, failed: bool },
    Reviving { failed: bool },
    Choosing {
        target: Option<WorkflowId>,
        prior: Option<WorkflowId>,
        found: Vec<WorkflowSnapshot>,
    },
    Unchoosing,
}

/// The model of a point.
#[verifier::ext_equal]
pub enum PointModel {
    Over,
    Creating { workflow_id: Seq<char>, name: Seq<char>, objective: Seq<char> },
    Saving { snapshot: SnapshotModel, prior: Option<Seq<char>> },
    Selecting { snapshot: SnapshotModel, prior: Option<Seq<char>> },
    Folding { snapshot: SnapshotModel, prior: Option<Seq<char>> },
    UndoingRecord { snapshot: SnapshotModel, prior: Option<Seq<char>>, selection_too: bool },
    UndoingSelection { snapshot: SnapshotModel, failed: bool },
    UndoingRuntime { name: Seq<char>, failed: bool },
    Moving { current: SnapshotModel, action: WorkflowAction, removing: bool },
    Replacing { current: SnapshotModel, next: SnapshotModel, purpose: PurposeModel },
    Reverting { removing: bool },
    Restoring {
        snapshot: SnapshotModel,
        rest: Seq<(Seq<char>, u64)>,
        restored: Seq<SnapshotModel>,
    },
    RemovingRuntime { snapshot: SnapshotModel },
    Deselecting { snapshot: SnapshotModel, prior: Option<Seq<char>> },
    Erasing { snapshot: SnapshotModel, prior: Option<Seq<char>>, clear: bool },
    Rewriting { snapshot: SnapshotModel, prior: Option<Seq<char>>, clear: bool },
    Reselecting { snapshot: SnapshotModel, failed: bool },
    Reviving { failed: bool },
    Choosing {
        target: Option<Seq<char>>,
        prior: Option<Seq<char>>,
        found: Seq<SnapshotModel>,
    },
    Unchoosing,
}

impl View for ManagerPoint {
    type V = PointModel;

    open spec fn view(&self) -> PointModel {
        match *self {
            ManagerPoint::Over => PointModel::Over,
            ManagerPoint::Creating { workflow_id, name, objective } => PointModel::Creating {
                workflow_id: workflow_id@,
                name: name@,
                objective: objective@,
            },
            ManagerPoint::Saving { snapshot, prior } => PointModel::Saving {
                snapshot: snapshot@,
                prior: opt_id(prior),
            },
            ManagerPoint::Selecting { snapshot, prior } => PointModel::Selecting {
                snapshot: snapshot@,
                prior: opt_id(prior),
            },
            ManagerPoint::Folding { snapshot, prior } => PointModel::Folding {
                snapshot: snapshot@,
                prior: opt_id(prior),
            },
            ManagerPoint::UndoingRecord { snapshot, prior, selection_too } =>
            PointModel::UndoingRecord { snapshot: snapshot@, prior: opt_id(prior), selection_too },
            ManagerPoint::UndoingSelection { snapshot, failed } => PointModel::UndoingSelection {
                snapshot: snapshot@,
                failed,
            },
            ManagerPoint::UndoingRuntime { name, failed } => PointModel::UndoingRuntime {
                name: name@,
                failed,
            },
            ManagerPoint::Moving { current, action, removing } => PointModel::Moving {
                current: current@,
                action,
                removing,
            },
            ManagerPoint::Replacing { current, next, purpose } => PointModel::Replacing {
                current: current@,
                next: next@,
                purpose: purpose@,
            },
            ManagerPoint::Reverting { removing } => PointModel::Reverting { removing },
            ManagerPoint::Restoring { snapshot, rest, restored } => PointModel::Restoring {
                snapshot: snapshot@,
                rest: targets(rest@),
                restored: sort::views(restored@),
            },
            ManagerPoint::RemovingRuntime { snapshot } => PointModel::RemovingRuntime {
                snapshot: snapshot@,
            },
            ManagerPoint::Deselecting { snapshot, prior } => PointModel::Deselecting {
                snapshot: snapshot@,
                prior: opt_id(prior),
            },
            ManagerPoint::Erasing { snapshot, prior, clear } => PointModel::Erasing {
                snapshot: snapshot@,
                prior: opt_id(prior),
                clear,
            },
            ManagerPoint::Rewriting { snapshot, prior, clear } => PointModel::Rewriting {
                snapshot: snapshot@,
                prior: opt_id(prior),
                clear,
            },
            ManagerPoint::Reselecting { snapshot, failed } => PointModel::Reselecting {
                snapshot: snapshot@,
                failed,
            },
            ManagerPoint::Reviving { failed } => PointModel::Reviving { failed },
            ManagerPoint::Choosing { target, prior, found } => PointModel::Choosing {
                target: opt_id(target),
                prior: opt_id(prior),
                found: sort::views(found@),
            },
            ManagerPoint::Unchoosing => PointModel::Unchoosing,
        }
    }
}

/// Whether a reply answers the action of a point.
pub open spec fn reply_fits(point: ManagerPoint, reply: ManagerReply) -> bool {
    match point {
        ManagerPoint::Over => false,
        ManagerPoint::Creating { .. } => reply is Identity,
        ManagerPoint::Restoring { .. } => reply is Identity,
        ManagerPoint::Reviving { .. } => reply is Identity,
        ManagerPoint::Moving { .. } => reply is Update,
        _ => reply is Worked,
    }
}

/// Whether a reply answers the action of a point.
pub fn reply_answers(point: &ManagerPoint, reply: &ManagerReply) -> (r: bool)
    ensures
        r == reply_fits(*point, *reply),
{
    match point {
        ManagerPoint::Over => false,
        ManagerPoint::Creating { .. } => matches!(reply, ManagerReply::Identity(_)),
        ManagerPoint::Restoring { .. } => matches!(reply, ManagerReply::Identity(_)),
        ManagerPoint::Reviving { .. } => matches!(reply, ManagerReply::Identity(_)),
        ManagerPoint::Moving { .. } => matches!(reply, ManagerReply::Update(_)),
        _ => matches!(reply, ManagerReply::Worked(_)),
    }
}

// ---------------------------------------------------------------------------
// The model of the manager
// ---------------------------------------------------------------------------

/// The model of a workflow that is being created.
#[verifier::ext_equal]
pub struct CreatingModel {
    pub generation: u64,
    pub status: WorkflowStatus,
    /// The latest projection that has not been folded in yet.
    pub projection: Option<UpdateModel>,
}

/// The model of the manager.
#[verifier::ext_equal]
pub struct ManagerModel {
    pub workflows: Map<Seq<char>, SnapshotModel>,
    pub selected: Option<Seq<char>>,
    /// Names of workflows that are being created.
    pub names: Set<Seq<char>>,
    pub creating: Map<Seq<char>, CreatingModel>,
    /// What observers have not been told yet.
    pub events: Seq<EventModel>,
    /// What loading ignored.
    pub diagnostics: Seq<WorkflowStoreDiagnostic>,
}

/// The manager, the next action, and the point at which the operation waits.
pub type StepModel = (ManagerModel, ActionModel, PointModel);

/// What is told of a failed cancellation before removal.
pub open spec fn told(removing: bool, error: Seq<char>) -> Seq<char> {
    if removing {
        NOT_CANCELLED@ + error
    } else {
        error
    }
}

/// A record that an action moved.
pub open spec fn moved_record(s: SnapshotModel, u: UpdateModel, now_ms: u64) -> SnapshotModel {
    SnapshotModel {
        updated_at_ms: now_ms,
        integration: u.integration,
        ..projected(s, u)
    }
}

/// A record whose runtime was restored.
pub open spec fn restored_record(
    s: SnapshotModel,
    i: RuntimeIdentityModel,
    now_ms: u64,
) -> SnapshotModel {
    SnapshotModel {
        todo: i.todo,
        worktree_label: i.worktree_label,
        branch: i.branch,
        supervisor_agent_id: i.supervisor_agent_id,
        supervisor_job_id: i.supervisor_job_id,
        updated_at_ms: now_ms,
        ..s
    }
}

/// A record whose runtime could not be restored.
pub open spec fn unrestored_record(s: SnapshotModel, now_ms: u64) -> SnapshotModel {
    SnapshotModel {
        status: WorkflowStatus::Failed,
        failure: Some(RECOVERY_FAILED@),
        updated_at_ms: now_ms,
        ..s
    }
}

/// The first record of a workflow.
pub open spec fn new_record(
    workflow_id: Seq<char>,
    name: Seq<char>,
    objective: Seq<char>,
    i: RuntimeIdentityModel,
    now_ms: u64,
) -> SnapshotModel {
    SnapshotModel {
        workflow_id,
        name,
        objective,
        status: WorkflowStatus::Queued,
        created_at_ms: now_ms,
        updated_at_ms: now_ms,
        generation: 1,
        todo: i.todo,
        worktree_label: i.worktree_label,
        branch: i.branch,
        supervisor_agent_id: i.supervisor_agent_id,
        supervisor_job_id: i.supervisor_job_id,
        failure: None,
        integration: IntegrationModel::NotIntegrated,
    }
}

/// Whether a completed record still has to be merged back.
pub open spec fn settles(s: SnapshotModel) -> bool {
    s.status == WorkflowStatus::Completed && s.integration == IntegrationModel::NotIntegrated
}

/// The one record with the given name.
pub open spec fn named(all: Seq<SnapshotModel>, name: Seq<char>) -> Result<
    SnapshotModel,
    Seq<char>,
> {
    let found = all.filter(|s: SnapshotModel| s.name == name);
    if found.len() == 1 {
        Ok(found[0])
    } else if found.len() == 0 {
        Err(NOT_FOUND@)
    } else {
        Err(AMBIGUOUS@)
    }
}

impl ManagerModel {
    /// A manager of the given records and selection.
    pub open spec fn opened(
        records: Seq<SnapshotModel>,
        selection: Option<Seq<char>>,
        diagnostics: Seq<WorkflowStoreDiagnostic>,
    ) -> ManagerModel {
        ManagerModel {
            workflows: by_id(records),
            selected: match selection {
                Some(id) => if by_id(records).contains_key(id) {
                    Some(id)
                } else {
                    None
                },
                None => None,
            },
            names: Set::empty(),
            creating: Map::empty(),
            events: Seq::empty(),
            diagnostics,
        }
    }

    /// The record of a workflow.
    pub open spec fn record(self, id: Seq<char>) -> Option<SnapshotModel> {
        if self.workflows.contains_key(id) {
            Some(self.workflows[id])
        } else {
            None
        }
    }

    /// The record of the selected workflow.
    pub open spec fn selected_record(self) -> Option<SnapshotModel> {
        match self.selected {
            Some(id) => self.record(id),
            None => None,
        }
    }

    /// The manager once observers have been told everything.
    pub open spec fn told(self) -> ManagerModel {
        ManagerModel { events: Seq::empty(), ..self }
    }

    pub open spec fn finish(self, found: Seq<SnapshotModel>) -> StepModel {
        (self, ActionModel::Finish(Ok(found)), PointModel::Over)
    }

    pub open spec fn fail(self, error: Seq<char>) -> StepModel {
        (self, ActionModel::Finish(Err(error)), PointModel::Over)
    }

    /// The record of a workflow in the given generation.
    pub open spec fn checked(self, id: Seq<char>, generation: u64) -> Result<
        SnapshotModel,
        Seq<char>,
    > {
        if !self.workflows.contains_key(id) {
            Err(NOT_FOUND@)
        } else if self.workflows[id].generation != generation {
            Err(STALE@)
        } else {
            Ok(self.workflows[id])
        }
    }

    /// Observers are told of a changed record; of a changed status first.
    pub open spec fn told_of(self, current: SnapshotModel, next: SnapshotModel) -> ManagerModel {
        let events = if current.status != next.status {
            self.events.push(
                EventModel::StatusChanged {
                    workflow_id: next.workflow_id,
                    generation: next.generation,
                    status: next.status,
                },
            )
        } else {
            self.events
        };
        ManagerModel { events: events.push(EventModel::Updated { snapshot: next }), ..self }
    }

    /// A record is replaced.
    pub open spec fn with_record(self, next: SnapshotModel) -> ManagerModel {
        ManagerModel { workflows: self.workflows.insert(next.workflow_id, next), ..self }
    }

    // -- lifecycle --

    /// An action on a workflow starts, where its status allows it.
    pub open spec fn begin_move(
        self,
        id: Seq<char>,
        generation: u64,
        action: WorkflowAction,
        removing: bool,
    ) -> StepModel {
        match self.checked(id, generation) {
            Err(e) => self.fail(told(removing, e)),
            Ok(current) => if !allowed(current.status, action) {
                self.fail(told(removing, NOT_ALLOWED@))
            } else {
                (
                    self,
                    ActionModel::MoveRuntime(action, current),
                    PointModel::Moving { current, action, removing },
                )
            },
        }
    }

    /// The runtime has moved, or failed to. The record must not have changed
    /// meanwhile.
    pub open spec fn moved(
        self,
        current: SnapshotModel,
        action: WorkflowAction,
        removing: bool,
        update: Option<UpdateModel>,
        now_ms: u64,
    ) -> StepModel {
        match update {
            None => self.fail(told(removing, action.failure())),
            Some(u) => if !outcome_fits(action, u.status) {
                self.fail(told(removing, INVALID_STATUS@))
            } else {
                match self.checked(current.workflow_id, current.generation) {
                    Err(e) => self.fail(told(removing, e)),
                    Ok(latest) => if latest.status != current.status || latest.updated_at_ms
                        != current.updated_at_ms {
                        self.fail(told(removing, STALE_RESULT@))
                    } else {
                        self.begin_replace(
                            current,
                            moved_record(current, u, now_ms),
                            PurposeModel::Lifecycle { action, removing },
                        )
                    },
                }
            },
        }
    }

    /// A record is about to be replaced: it is written first.
    pub open spec fn begin_replace(
        self,
        current: SnapshotModel,
        next: SnapshotModel,
        purpose: PurposeModel,
    ) -> StepModel {
        (
            self,
            ActionModel::WriteRecord(next),
            PointModel::Replacing { current, next, purpose },
        )
    }

    /// The record has been written, or not; where it has not, the prior one is
    /// written again.
    pub open spec fn replaced(
        self,
        current: SnapshotModel,
        next: SnapshotModel,
        purpose: PurposeModel,
        worked: bool,
    ) -> StepModel {
        if !worked {
            (
                self,
                ActionModel::WriteRecord(current),
                PointModel::Reverting {
                    removing: match purpose {
                        PurposeModel::Lifecycle { action, removing } => removing,
                        _ => false,
                    },
                },
            )
        } else {
            let m = self.with_record(next);
            match purpose {
                PurposeModel::Lifecycle { action, removing } => {
                    let m = m.told_of(current, next);
                    if action == WorkflowAction::Resume && settles(next) {
                        m.begin_move(
                            next.workflow_id,
                            next.generation,
                            WorkflowAction::Integrate,
                            false,
                        )
                    } else if removing {
                        m.begin_removal(next)
                    } else {
                        m.finish(seq![next])
                    }
                },
                PurposeModel::Projection => {
                    let m = m.told_of(current, next);
                    if settles(next) && current.status != WorkflowStatus::Completed {
                        m.begin_move(
                            next.workflow_id,
                            next.generation,
                            WorkflowAction::Integrate,
                            false,
                        )
                    } else {
                        m.finish(seq![next])
                    }
                },
                PurposeModel::Restored { worked, rest, restored } => if worked {
                    ManagerModel {
                        events: m.events.push(EventModel::Updated { snapshot: next }),
                        ..m
                    }.restore_next(rest, restored.push(next))
                } else {
                    m.told_of(current, next).restore_next(rest, restored)
                },
            }
        }
    }

    /// The prior record has been written again, or not.
    pub open spec fn reverted(self, removing: bool, worked: bool) -> StepModel {
        self.fail(
            told(
                removing,
                if worked {
                    UPDATE_UNSAVED@
                } else {
                    UPDATE_STUCK@
                },
            ),
        )
    }

    // -- projection --

    /// A runtime projects an update. While the workflow is being created, the
    /// latest one is kept and folded in later.
    pub open spec fn begin_projection(
        self,
        id: Seq<char>,
        generation: u64,
        u: UpdateModel,
        now_ms: u64,
    ) -> StepModel {
        if self.creating.contains_key(id) {
            let c = self.creating[id];
            if c.generation != generation {
                self.fail(STALE@)
            } else if !projection_fits(c.status, u.status) {
                self.fail(INVALID_PROJECTION@)
            } else {
                ManagerModel {
                    creating: self.creating.insert(
                        id,
                        CreatingModel { generation, status: u.status, projection: Some(u) },
                    ),
                    ..self
                }.finish(Seq::empty())
            }
        } else {
            match self.checked(id, generation) {
                Err(e) => self.fail(e),
                Ok(current) => if !projection_fits(current.status, u.status) {
                    self.fail(INVALID_PROJECTION@)
                } else {
                    self.begin_replace(
                        current,
                        SnapshotModel { updated_at_ms: now_ms, ..projected(current, u) },
                        PurposeModel::Projection,
                    )
                },
            }
        }
    }

    // -- restoring --

    /// The next workflow of a list is restored; settled ones are passed over.
    pub open spec fn restore_next(
        self,
        rest: Seq<(Seq<char>, u64)>,
        restored: Seq<SnapshotModel>,
    ) -> StepModel
        decreases rest.len(),
    {
        if rest.len() == 0 {
            self.finish(restored)
        } else {
            match self.checked(rest[0].0, rest[0].1) {
                Err(e) => self.fail(e),
                Ok(snapshot) => if snapshot.status.terminal() {
                    self.restore_next(rest.skip(1), restored)
                } else {
                    (
                        self,
                        ActionModel::RestoreRuntime(records::request_for(snapshot), snapshot),
                        PointModel::Restoring { snapshot, rest: rest.skip(1), restored },
                    )
                },
            }
        }
    }

    /// A runtime has been restored, or could not be.
    pub open spec fn restored(
        self,
        snapshot: SnapshotModel,
        rest: Seq<(Seq<char>, u64)>,
        restored: Seq<SnapshotModel>,
        identity: Option<RuntimeIdentityModel>,
        now_ms: u64,
    ) -> StepModel {
        self.begin_replace(
            snapshot,
            match identity {
                Some(i) => restored_record(snapshot, i, now_ms),
                None => unrestored_record(snapshot, now_ms),
            },
            PurposeModel::Restored { worked: identity is Some, rest, restored },
        )
    }

    // -- removal --

    /// A workflow is to be removed; an active one is cancelled first.
    pub open spec fn begin_remove(self, id: Seq<char>, generation: u64) -> StepModel {
        match self.checked(id, generation) {
            Err(e) => self.fail(e),
            Ok(snapshot) => if snapshot.status.terminal() {
                self.begin_removal(snapshot)
            } else {
                self.begin_move(id, generation, WorkflowAction::Cancel, true)
            },
        }
    }

    /// The runtime of a settled workflow is removed.
    pub open spec fn begin_removal(self, snapshot: SnapshotModel) -> StepModel {
        (
            self,
            ActionModel::RemoveRuntime(snapshot),
            PointModel::RemovingRuntime { snapshot },
        )
    }

    /// The runtime is gone, or not.
    pub open spec fn runtime_removed(self, snapshot: SnapshotModel, worked: bool) -> StepModel {
        if !worked {
            self.fail(REMOVE_FAILED@)
        } else if self.selected == Some(snapshot.workflow_id) {
            (
                self,
                ActionModel::WriteSelection(None),
                PointModel::Deselecting { snapshot, prior: self.selected },
            )
        } else {
            self.begin_erase(snapshot, self.selected, false)
        }
    }

    pub open spec fn begin_erase(
        self,
        snapshot: SnapshotModel,
        prior: Option<Seq<char>>,
        clear: bool,
    ) -> StepModel {
        (
            self,
            ActionModel::RemoveRecord(snapshot.workflow_id),
            PointModel::Erasing { snapshot, prior, clear },
        )
    }

    pub open spec fn deselected(
        self,
        snapshot: SnapshotModel,
        prior: Option<Seq<char>>,
        worked: bool,
    ) -> StepModel {
        if worked {
            self.begin_erase(snapshot, prior, true)
        } else {
            (
                self,
                ActionModel::WriteSelection(prior),
                PointModel::Reselecting { snapshot, failed: false },
            )
        }
    }

    pub open spec fn erased(
        self,
        snapshot: SnapshotModel,
        prior: Option<Seq<char>>,
        clear: bool,
        worked: bool,
    ) -> StepModel {
        if worked {
            ManagerModel {
                workflows: self.workflows.remove(snapshot.workflow_id),
                selected: if clear {
                    None
                } else {
                    self.selected
                },
                events: self.events.push(
                    EventModel::Removed {
                        workflow_id: snapshot.workflow_id,
                        generation: snapshot.generation,
                    },
                ),
                ..self
            }.finish(seq![snapshot])
        } else {
            (
                self,
                ActionModel::WriteRecord(snapshot),
                PointModel::Rewriting { snapshot, prior, clear },
            )
        }
    }

    pub open spec fn rewritten(
        self,
        snapshot: SnapshotModel,
        prior: Option<Seq<char>>,
        clear: bool,
        worked: bool,
    ) -> StepModel {
        if clear {
            (
                self,
                ActionModel::WriteSelection(prior),
                PointModel::Reselecting { snapshot, failed: !worked },
            )
        } else {
            self.begin_revive(snapshot, !worked)
        }
    }

    pub open spec fn begin_revive(self, snapshot: SnapshotModel, failed: bool) -> StepModel {
        (
            self,
            ActionModel::RestoreRuntime(records::request_for(snapshot), snapshot),
            PointModel::Reviving { failed },
        )
    }

    pub open spec fn revived(self, failed: bool, worked: bool) -> StepModel {
        self.fail(
            if failed || !worked {
                REMOVE_STUCK@
            } else {
                REMOVE_UNSAVED@
            },
        )
    }

    // -- selection --

    /// A workflow, or none, is to be selected.
    pub open spec fn begin_select(self, target: Option<Seq<char>>) -> StepModel {
        match target {
            Some(id) => if self.workflows.contains_key(id) {
                self.begin_choice(target, seq![self.workflows[id]])
            } else {
                self.fail(NOT_FOUND@)
            },
            None => self.begin_choice(target, Seq::empty()),
        }
    }

    pub open spec fn begin_choice(
        self,
        target: Option<Seq<char>>,
        found: Seq<SnapshotModel>,
    ) -> StepModel {
        (
            self,
            ActionModel::WriteSelection(target),
            PointModel::Choosing { target, prior: self.selected, found },
        )
    }

    pub open spec fn chosen(
        self,
        target: Option<Seq<char>>,
        prior: Option<Seq<char>>,
        found: Seq<SnapshotModel>,
        worked: bool,
    ) -> StepModel {
        if worked {
            ManagerModel { selected: target, ..self }.finish(found)
        } else {
            (self, ActionModel::WriteSelection(prior), PointModel::Unchoosing)
        }
    }

    pub open spec fn unchosen(self, worked: bool) -> StepModel {
        self.fail(
            if worked {
                SELECT_UNSAVED@
            } else {
                SELECT_STUCK@
            },
        )
    }

    // -- creation --

    /// Whether some workflow has the given name.
    pub open spec fn has_name(self, name: Seq<char>) -> bool {
        exists|id: Seq<char>|
            self.workflows.contains_key(id) && (#[trigger] self.workflows[id]).name == name
    }

    /// A workflow is to be created; its name is reserved meanwhile.
    pub open spec fn begin_create(
        self,
        raw_name: Seq<char>,
        raw_objective: Seq<char>,
        id: Seq<char>,
    ) -> StepModel {
        let name = text::trimmed(raw_name);
        let objective = text::trimmed(raw_objective);
        if name.len() == 0 {
            self.fail(EMPTY_NAME@)
        } else if objective.len() == 0 {
            self.fail(EMPTY_OBJECTIVE@)
        } else if self.has_name(name) || self.names.contains(name) {
            self.fail(NAME_TAKEN@)
        } else {
            (
                ManagerModel {
                    names: self.names.insert(name),
                    creating: self.creating.insert(
                        id,
                        CreatingModel {
                            generation: 1,
                            status: WorkflowStatus::Queued,
                            projection: None,
                        },
                    ),
                    ..self
                },
                ActionModel::CreateRuntime(
                    RuntimeRequestModel { workflow_id: id, name, objective, generation: 1 },
                ),
                PointModel::Creating { workflow_id: id, name, objective },
            )
        }
    }

    /// The latest projection of a workflow that is being created.
    pub open spec fn pending(self, id: Seq<char>) -> Option<UpdateModel> {
        if self.creating.contains_key(id) {
            self.creating[id].projection
        } else {
            None
        }
    }

    /// The latest projection has been taken.
    pub open spec fn taken(self, id: Seq<char>) -> ManagerModel {
        if self.pending(id) is Some {
            ManagerModel {
                creating: self.creating.insert(
                    id,
                    CreatingModel { projection: None, ..self.creating[id] },
                ),
                ..self
            }
        } else {
            self
        }
    }

    /// A workflow is no longer being created.
    pub open spec fn released(self, id: Seq<char>) -> ManagerModel {
        ManagerModel { creating: self.creating.remove(id), ..self }
    }

    /// A name is free again.
    pub open spec fn unnamed(self, name: Seq<char>) -> ManagerModel {
        ManagerModel { names: self.names.remove(name), ..self }
    }

    /// The runtime has been made, or not. What it projected meanwhile is part
    /// of the first record.
    pub open spec fn created(
        self,
        id: Seq<char>,
        name: Seq<char>,
        objective: Seq<char>,
        identity: Option<RuntimeIdentityModel>,
        now_ms: u64,
    ) -> StepModel {
        match identity {
            None => self.released(id).unnamed(name).fail(CREATE_FAILED@),
            Some(i) => {
                let fresh = new_record(id, name, objective, i, now_ms);
                let snapshot = match self.pending(id) {
                    Some(u) => if self.creating[id].generation == 1 {
                        projected(fresh, u)
                    } else {
                        fresh
                    },
                    None => fresh,
                };
                let m = if self.creating.contains_key(id) && self.creating[id].generation == 1 {
                    self.taken(id)
                } else {
                    self
                };
                (
                    m,
                    ActionModel::WriteRecord(snapshot),
                    PointModel::Saving { snapshot, prior: self.selected },
                )
            },
        }
    }

    /// The first record has been written, or not.
    pub open spec fn saved(
        self,
        snapshot: SnapshotModel,
        prior: Option<Seq<char>>,
        worked: bool,
    ) -> StepModel {
        if worked {
            (
                self,
                ActionModel::WriteSelection(Some(snapshot.workflow_id)),
                PointModel::Selecting { snapshot, prior },
            )
        } else {
            self.begin_undo(snapshot, prior, false)
        }
    }

    /// What a creation did is undone.
    pub open spec fn begin_undo(
        self,
        snapshot: SnapshotModel,
        prior: Option<Seq<char>>,
        selection_too: bool,
    ) -> StepModel {
        (
            self,
            ActionModel::RemoveRecord(snapshot.workflow_id),
            PointModel::UndoingRecord { snapshot, prior, selection_too },
        )
    }

    /// The selection, or the record with a projection folded in, has been
    /// written, or not.
    pub open spec fn folded(
        self,
        snapshot: SnapshotModel,
        prior: Option<Seq<char>>,
        worked: bool,
        now_ms: u64,
    ) -> StepModel {
        if !worked {
            self.begin_undo(snapshot, prior, true)
        } else {
            match self.pending(snapshot.workflow_id) {
                Some(u) => {
                    let next = SnapshotModel { updated_at_ms: now_ms, ..projected(snapshot, u) };
                    (
                        self.taken(snapshot.workflow_id),
                        ActionModel::WriteRecord(next),
                        PointModel::Folding { snapshot: next, prior },
                    )
                },
                None => {
                    let m = if self.creating.contains_key(snapshot.workflow_id) {
                        ManagerModel {
                            selected: Some(snapshot.workflow_id),
                            ..self.released(snapshot.workflow_id).with_record(snapshot)
                        }
                    } else {
                        self
                    };
                    ManagerModel {
                        events: m.events.push(EventModel::Created { snapshot }),
                        ..m.unnamed(snapshot.name)
                    }.finish(seq![snapshot])
                },
            }
        }
    }

    pub open spec fn record_undone(
        self,
        snapshot: SnapshotModel,
        prior: Option<Seq<char>>,
        selection_too: bool,
        worked: bool,
    ) -> StepModel {
        if selection_too {
            (
                self,
                ActionModel::WriteSelection(prior),
                PointModel::UndoingSelection { snapshot, failed: !worked },
            )
        } else {
            self.begin_runtime_undo(snapshot, !worked)
        }
    }

    pub open spec fn begin_runtime_undo(self, snapshot: SnapshotModel, failed: bool) -> StepModel {
        (
            self.released(snapshot.workflow_id),
            ActionModel::RemoveRuntime(snapshot),
            PointModel::UndoingRuntime { name: snapshot.name, failed },
        )
    }

    pub open spec fn runtime_undone(self, name: Seq<char>, failed: bool, worked: bool) -> StepModel {
        self.unnamed(name).fail(
            if failed || !worked {
                CREATE_STUCK@
            } else {
                CREATE_UNSAVED@
            },
        )
    }

    // -- all of it --

    /// Where a reply takes an operation.
    pub open spec fn advanced(
        self,
        point: PointModel,
        reply: ReplyModel,
        now_ms: u64,
    ) -> StepModel {
        match point {
            PointModel::Over => self.fail(NOT_FOUND@),
            PointModel::Creating { workflow_id, name, objective } => self.created(
                workflow_id,
                name,
                objective,
                reply.identity,
                now_ms,
            ),
            PointModel::Saving { snapshot, prior } => self.saved(snapshot, prior, reply.worked),
            PointModel::Selecting { snapshot, prior } => self.folded(
                snapshot,
                prior,
                reply.worked,
                now_ms,
            ),
            PointModel::Folding { snapshot, prior } => self.folded(
                snapshot,
                prior,
                reply.worked,
                now_ms,
            ),
            PointModel::UndoingRecord { snapshot, prior, selection_too } => self.record_undone(
                snapshot,
                prior,
                selection_too,
                reply.worked,
            ),
            PointModel::UndoingSelection { snapshot, failed } => self.begin_runtime_undo(
                snapshot,
                failed || !reply.worked,
            ),
            PointModel::UndoingRuntime { name, failed } => self.runtime_undone(
                name,
                failed,
                reply.worked,
            ),
            PointModel::Moving { current, action, removing } => self.moved(
                current,
                action,
                removing,
                reply.update,
                now_ms,
            ),
            PointModel::Replacing { current, next, purpose } => self.replaced(
                current,
                next,
                purpose,
                reply.worked,
            ),
            PointModel::Reverting { removing } => self.reverted(removing, reply.worked),
            PointModel::Restoring { snapshot, rest, restored } => self.restored(
                snapshot,
                rest,
                restored,
                reply.identity,
                now_ms,
            ),
            PointModel::RemovingRuntime { snapshot } => self.runtime_removed(
                snapshot,
                reply.worked,
            ),
            PointModel::Deselecting { snapshot, prior } => self.deselected(
                snapshot,
                prior,
                reply.worked,
            ),
            PointModel::Erasing { snapshot, prior, clear } => self.erased(
                snapshot,
                prior,
                clear,
                reply.worked,
            ),
            PointModel::Rewriting { snapshot, prior, clear } => self.rewritten(
                snapshot,
                prior,
                clear,
                reply.worked,
            ),
            PointModel::Reselecting { snapshot, failed } => self.begin_revive(
                snapshot,
                failed || !reply.worked,
            ),
            PointModel::Reviving { failed } => self.revived(failed, reply.identity is Some),
            PointModel::Choosing { target, prior, found } => self.chosen(
                target,
                prior,
                found,
                reply.worked,
            ),
            PointModel::Unchoosing => self.unchosen(reply.worked),
        }
    }
}

/// The model of a reply.
#[verifier::ext_equal]
pub struct ReplyModel {
    pub identity: Option<RuntimeIdentityModel>,
    pub update: Option<UpdateModel>,
    pub worked: bool,
}

impl View for ManagerReply {
    type V = ReplyModel;

    open spec fn view(&self) -> ReplyModel {
        match *self {
            ManagerReply::Identity(i) => ReplyModel {
                identity: match i {
                    Some(i) => Some(i@),
                    None => None,
                },
                update: None,
                worked: false,
            },
            ManagerReply::Update(u) => ReplyModel {
                identity: None,
                update: match u {
                    Some(u) => Some(u@),
                    None => None,
                },
                worked: false,
            },
            ManagerReply::Worked(worked) => ReplyModel { identity: None, update: None, worked },
        }
    }
}

// ---------------------------------------------------------------------------
// The manager
// ---------------------------------------------------------------------------

/// A workflow that is being created.
pub struct CreatingWorkflow {
    pub generation: u64,
    pub status: WorkflowStatus,
    pub projection: Option<WorkflowRuntimeUpdate>,
}

impl View for CreatingWorkflow {
    type V = CreatingModel;

    open spec fn view(&self) -> CreatingModel {
        CreatingModel {
            generation: self.generation,
            status: self.status,
            projection: match self.projection {
                Some(u) => Some(u@),
                None => None,
            },
        }
    }
}

/// The workflows of a session.
pub struct WorkflowManager {
    pub workflows: TextMap<WorkflowSnapshot>,
    pub selected: Option<WorkflowId>,
    /// Names of workflows that are being created.
    pub names: TextMap<bool>,
    pub creating: TextMap<CreatingWorkflow>,
    /// What observers have not been told yet.
    pub events: Vec<WorkflowEvent>,
    /// What loading ignored.
    pub diagnostics: Vec<WorkflowStoreDiagnostic>,
}

/// The models of the values of a map.
pub open spec fn map_views<V: View>(m: Map<Seq<char>, V>) -> Map<Seq<char>, V::V> {
    m.map_values(|v: V| v@)
}

impl View for WorkflowManager {
    type V = ManagerModel;

    open spec fn view(&self) -> ManagerModel {
        ManagerModel {
            workflows: map_views(self.workflows@),
            selected: opt_id(self.selected),
            names: self.names@.dom(),
            creating: map_views(self.creating@),
            events: sort::views(self.events@),
            diagnostics: self.diagnostics@,
        }
    }
}

/// The records of a map in the order of its keys.
pub open spec fn in_key_order(w: TextMap<WorkflowSnapshot>) -> Seq<SnapshotModel> {
    Seq::new(w.keys().len(), |i: int| w@[w.keys()[i]]@)
}

/// The records of a map, the oldest first.
pub open spec fn in_order(w: TextMap<WorkflowSnapshot>) -> Seq<SnapshotModel> {
    sort::stable_sorted(in_key_order(w))
}

/// The workflows among the first `n` records that have not settled.
pub open spec fn unsettled(s: Seq<SnapshotModel>, n: nat) -> Seq<(Seq<char>, u64)>
    decreases n,
{
    if n == 0 {
        Seq::empty()
    } else {
        let before = unsettled(s, (n - 1) as nat);
        if s[n - 1].status.terminal() {
            before
        } else {
            before.push((s[n - 1].workflow_id, s[n - 1].generation))
        }
    }
}

/// The records of loading, later ones with the same id in place of earlier
/// ones.
pub open spec fn by_id(records: Seq<SnapshotModel>) -> Map<Seq<char>, SnapshotModel>
    decreases records.len(),
{
    if records.len() == 0 {
        Map::empty()
    } else {
        by_id(records.drop_last()).insert(records.last().workflow_id, records.last())
    }
}

/// Whether a text has the shape of a hyphenated UUID.
pub open spec fn uuid_text(s: Seq<char>) -> bool {
    &&& s.len() == 36
    &&& forall|i: int|
        0 <= i < 36 ==> if i == 8 || i == 13 || i == 18 || i == 23 {
            #[trigger] s[i] == '-'
        } else {
            catalog::hex_digit(s[i])
        }
}

/// A fresh id from `uuid::Uuid::now_v7`, in its hyphenated form. Which id comes
/// is up to the clock and to chance, and is left unsaid.
#[verifier::external_body]
fn fresh_workflow_id() -> (r: String)
    ensures
        uuid_text(r@),
{
    uuid::Uuid::now_v7().to_string()
}

proof fn lemma_uuid_is_valid(s: Seq<char>)
    requires
        uuid_text(s),
    ensures
        store::valid_id(s),
{
    reveal_strlit("..");
    reveal_strlit(".");
    reveal_strlit(".lock");
    assert(catalog::hex_digit(s[0]));
    assert(catalog::hex_digit(s[35]));
    assert forall|i: int| 0 <= i < s.len() implies store::id_char(#[trigger] s[i]) && s[i]
        != '.' by {
    }
    assert forall|at: int| !#[trigger] text::occurs_at(s, ".."@, at) by {
        if text::occurs_at(s, ".."@, at) {
            assert(s.subrange(at, at + 2)[0] == s[at]);
        }
    }
    if "."@.is_suffix_of(s) {
        assert(s.subrange(s.len() - 1, s.len() as int)[0] == '.');
    }
    if ".lock"@.is_suffix_of(s) {
        assert(s.subrange(s.len() - 5, s.len() as int)[0] == '.');
    }
}

/// The next action and the point at which the operation waits.
pub type Step = (ManagerAction, ManagerPoint);

/// The model of the manager after a step.
pub open spec fn after(m: WorkflowManager, step: Step) -> StepModel {
    (m@, step.0@, step.1@)
}

fn one(snapshot: WorkflowSnapshot) -> (r: Vec<WorkflowSnapshot>)
    ensures
        sort::views(r@) == seq![snapshot@],
{
    let mut r: Vec<WorkflowSnapshot> = Vec::new();
    r.push(snapshot);
    assert(sort::views(r@) =~= seq![snapshot@]);
    r
}

fn finish(found: Vec<WorkflowSnapshot>) -> (r: Step)
    ensures
        r.0@ == ActionModel::Finish(Ok(sort::views(found@))),
        r.1@ == PointModel::Over,
{
    (ManagerAction::Finish(Ok(found)), ManagerPoint::Over)
}

fn fail(error: &str) -> (r: Step)
    ensures
        r.0@ == ActionModel::Finish(Err(error@)),
        r.1@ == PointModel::Over,
{
    (ManagerAction::Finish(Err(error.to_owned())), ManagerPoint::Over)
}

fn fail_told(removing: bool, error: &str) -> (r: Step)
    ensures
        r.0@ == ActionModel::Finish(Err(told(removing, error@))),
        r.1@ == PointModel::Over,
{
    if removing {
        (
            ManagerAction::Finish(Err(NOT_CANCELLED.to_owned().concat(error))),
            ManagerPoint::Over,
        )
    } else {
        fail(error)
    }
}

fn clone_id(id: &Option<WorkflowId>) -> (r: Option<WorkflowId>)
    ensures
        r == *id,
{
    match id {
        Some(id) => Some(id.clone()),
        None => None,
    }
}

fn is_settling(s: &WorkflowSnapshot) -> (r: bool)
    ensures
        r == settles(s@),
{
    s.status == WorkflowStatus::Completed && matches!(
        s.integration,
        WorkflowIntegration::NotIntegrated
    )
}

impl WorkflowManager {
    /// A manager of the given records, with the given selection where it is
    /// still among them.
    pub fn open(
        records: Vec<WorkflowSnapshot>,
        selection: Option<WorkflowId>,
        diagnostics: Vec<WorkflowStoreDiagnostic>,
    ) -> (r: Self)
        ensures
            r@ == ManagerModel::opened(sort::views(records@), opt_id(selection), diagnostics@),
            r@ == (ManagerModel {
                workflows: by_id(sort::views(records@)),
                selected: match opt_id(selection) {
                    Some(id) => if by_id(sort::views(records@)).contains_key(id) {
                        Some(id)
                    } else {
                        None
                    },
                    None => None,
                },
                names: Set::empty(),
                creating: Map::empty(),
                events: Seq::empty(),
                diagnostics: diagnostics@,
            }),
    {
        let ghost all = sort::views(records@);
        let mut workflows: TextMap<WorkflowSnapshot> = TextMap::new();
        let mut i: usize = 0;
        assert(map_views(workflows@) =~= Map::<Seq<char>, SnapshotModel>::empty());
        assert(all.take(0) =~= Seq::<SnapshotModel>::empty());
        while i < records.len()
            invariant
                i <= records@.len(),
                all == sort::views(records@),
                map_views(workflows@) == by_id(all.take(i as int)),
            decreases records@.len() - i,
        {
            let ghost before = workflows@;
            let copy = records[i].clone();
            let ghost model = copy@;
            workflows.insert(records[i].workflow_id.0.clone(), copy);
            assert(all.take(i + 1).drop_last() =~= all.take(i as int));
            assert(all.take(i + 1).last() == model);
            assert(map_views(workflows@) =~= map_views(before).insert(model.workflow_id, model));
            i += 1;
        }
        assert(all.take(records@.len() as int) =~= all);
        let selected = match selection {
            Some(id) => if workflows.contains(id.as_str()) {
                Some(id)
            } else {
                None
            },
            None => None,
        };
        let r = WorkflowManager {
            workflows,
            selected,
            names: TextMap::new(),
            creating: TextMap::new(),
            events: Vec::new(),
            diagnostics,
        };
        assert(r@.names =~= Set::<Seq<char>>::empty());
        assert(r@.creating =~= Map::<Seq<char>, CreatingModel>::empty());
        assert(r@.events =~= Seq::<EventModel>::empty());
        r
    }

    /// What observers have not been told yet, in order.
    pub fn take_events(&mut self) -> (r: Vec<WorkflowEvent>)
        ensures
            sort::views(r@) == old(self)@.events,
            final(self)@ == old(self)@.told(),
            final(self)@ == (ManagerModel { events: Seq::empty(), ..old(self)@ }),
            final(self).workflows == old(self).workflows,
    {
        let mut r: Vec<WorkflowEvent> = Vec::new();
        std::mem::swap(&mut r, &mut self.events);
        assert(sort::views(self.events@) =~= Seq::<EventModel>::empty());
        r
    }

    /// All records, the oldest first.
    pub fn list(&self) -> (r: Vec<WorkflowSnapshot>)
        ensures
            sort::views(r@) == in_order(self.workflows),
    {
        let ghost wanted = in_key_order(self.workflows);
        let n: usize = self.workflows.len();
        let mut items: Vec<WorkflowSnapshot> = Vec::new();
        let mut i: usize = 0;
        assert(sort::views(items@) =~= wanted.take(0));
        while i < n
            invariant
                i <= n == self.workflows.keys().len(),
                wanted == in_key_order(self.workflows),
                sort::views(items@) == wanted.take(i as int),
            decreases n - i,
        {
            let ghost before = items@;
            let copy = self.workflows.value(i).clone();
            let ghost model = copy@;
            items.push(copy);
            assert(sort::views(items@) =~= sort::views(before).push(model));
            assert(wanted.take(i as int).push(wanted[i as int]) =~= wanted.take(i + 1));
            i += 1;
        }
        assert(wanted.take(n as int) =~= wanted);
        let ghost unsorted = items@;
        stable_sort(&mut items);
        proof {
            sort::lemma_sorted_views(unsorted);
        }
        items
    }

    /// The record of a workflow.
    pub fn get(&self, id: &WorkflowId) -> (r: Result<WorkflowSnapshot, String>)
        ensures
            match r {
                Ok(s) => self@.record(id@) == Some(s@),
                Err(_) => self@.record(id@) is None,
            },
            match r {
                Ok(s) => self@.workflows.contains_key(id@) && s@ == self@.workflows[id@],
                Err(e) => !self@.workflows.contains_key(id@) && e@ == NOT_FOUND@,
            },
    {
        match self.workflows.get(id.as_str()) {
            Some(s) => Ok(s.clone()),
            None => Err(NOT_FOUND.to_owned()),
        }
    }

    /// The record of the one workflow with the given name.
    pub fn get_by_name(&self, name: &str) -> (r: Result<WorkflowSnapshot, String>)
        ensures
            match r {
                Ok(s) => named(in_key_order(self.workflows), name@) == Ok::<
                    SnapshotModel,
                    Seq<char>,
                >(s@),
                Err(e) => named(in_key_order(self.workflows), name@) == Err::<
                    SnapshotModel,
                    Seq<char>,
                >(e@),
            },
            ({
                let found = in_key_order(self.workflows).filter(
                    |s: SnapshotModel| s.name == name@,
                );
                match r {
                    Ok(s) => found.len() == 1 && s@ == found[0],
                    Err(e) => found.len() != 1 && e@ == (if found.len() == 0 {
                        NOT_FOUND@
                    } else {
                        AMBIGUOUS@
                    }),
                }
            }),
    {
        let ghost p = |s: SnapshotModel| s.name == name@;
        let ghost all = in_key_order(self.workflows);
        let n: usize = self.workflows.len();
        let mut found: Option<usize> = None;
        let mut count: usize = 0;
        let mut i: usize = 0;
        assert(all.take(0).filter(p) =~= Seq::<SnapshotModel>::empty()) by {
            reveal(Seq::filter);
        }
        while i < n
            invariant
                i <= n == self.workflows.keys().len(),
                all == in_key_order(self.workflows),
                p == (|s: SnapshotModel| s.name == name@),
                count <= i,
                count == all.take(i as int).filter(p).len(),
                match found {
                    Some(k) => count > 0 && k < n && (count == 1 ==> all.take(i as int).filter(
                        p,
                    )[0] == all[k as int]),
                    None => count == 0,
                },
            decreases n - i,
        {
            let s = self.workflows.value(i);
            assert(all[i as int] == s@);
            proof {
                broadcast use Seq::lemma_filter_push;

                assert(all.take(i + 1) =~= all.take(i as int).push(all[i as int]));
                assert(all.take(i as int).push(all[i as int]).filter(p) == if p(all[i as int]) {
                    all.take(i as int).filter(p).push(all[i as int])
                } else {
                    all.take(i as int).filter(p)
                });
            }
            if same_text(s.name.as_str(), name) {
                found = Some(i);
                count += 1;
            }
            i += 1;
        }
        assert(all.take(n as int) =~= all);
        match found {
            Some(k) => if count == 1 {
                Ok(self.workflows.value(k).clone())
            } else {
                Err(AMBIGUOUS.to_owned())
            },
            None => Err(NOT_FOUND.to_owned()),
        }
    }

    /// The record of the selected workflow.
    pub fn selected(&self) -> (r: Option<WorkflowSnapshot>)
        ensures
            match r {
                Some(s) => self@.selected_record() == Some(s@),
                None => self@.selected_record() is None,
            },
            match r {
                Some(s) => self@.selected is Some && self@.workflows.contains_key(
                    self@.selected->0,
                ) && s@ == self@.workflows[self@.selected->0],
                None => self@.selected is None || !self@.workflows.contains_key(
                    self@.selected->0,
                ),
            },
    {
        match &self.selected {
            Some(id) => match self.workflows.get(id.as_str()) {
                Some(s) => Some(s.clone()),
                None => None,
            },
            None => None,
        }
    }

    fn checked(&self, id: &str, generation: u64) -> (r: Result<WorkflowSnapshot, &'static str>)
        ensures
            match r {
                Ok(s) => self@.checked(id@, generation) == Ok::<SnapshotModel, Seq<char>>(s@),
                Err(e) => self@.checked(id@, generation) == Err::<SnapshotModel, Seq<char>>(e@),
            },
    {
        match self.workflows.get(id) {
            None => Err(NOT_FOUND),
            Some(s) => if s.generation != generation {
                Err(STALE)
            } else {
                Ok(s.clone())
            },
        }
    }

    fn put(&mut self, next: &WorkflowSnapshot)
        ensures
            final(self)@ == old(self)@.with_record(next@),
    {
        let ghost before = self.workflows@;
        let copy = next.clone();
        let ghost model = copy@;
        self.workflows.insert(next.workflow_id.0.clone(), copy);
        assert(map_views(self.workflows@) =~= map_views(before).insert(model.workflow_id, model));
    }

    fn tell(&mut self, event: WorkflowEvent)
        ensures
            final(self)@ == (ManagerModel {
                events: old(self)@.events.push(event@),
                ..old(self)@
            }),
    {
        let ghost before = self.events@;
        self.events.push(event);
        assert(sort::views(self.events@) =~= sort::views(before).push(event@));
    }

    fn tell_of(&mut self, current: &WorkflowSnapshot, next: &WorkflowSnapshot)
        ensures
            final(self)@ == old(self)@.told_of(current@, next@),
    {
        if current.status != next.status {
            self.tell(
                WorkflowEvent::StatusChanged {
                    workflow_id: next.workflow_id.clone(),
                    generation: next.generation,
                    status: next.status,
                },
            );
        }
        self.tell(WorkflowEvent::Updated { snapshot: next.clone() });
    }

    // -- lifecycle --

    fn begin_move(&self, id: &str, generation: u64, action: WorkflowAction, removing: bool) -> (r:
        Step)
        ensures
            after(*self, r) == self@.begin_move(id@, generation, action, removing),
    {
        match self.checked(id, generation) {
            Err(e) => fail_told(removing, e),
            Ok(current) => match ensure_allowed(current.status, action) {
                Err(e) => fail_told(removing, e.as_str()),
                Ok(_) => {
                    let copy = current.clone();
                    (
                        ManagerAction::MoveRuntime(action, copy),
                        ManagerPoint::Moving { current, action, removing },
                    )
                },
            },
        }
    }

    /// Pauses a workflow.
    pub fn pause(&self, id: &WorkflowId, generation: u64) -> (r: Step)
        ensures
            after(*self, r) == self@.begin_move(id@, generation, WorkflowAction::Pause, false),
    {
        self.begin_move(id.as_str(), generation, WorkflowAction::Pause, false)
    }

    /// Resumes a workflow.
    pub fn resume(&self, id: &WorkflowId, generation: u64) -> (r: Step)
        ensures
            after(*self, r) == self@.begin_move(id@, generation, WorkflowAction::Resume, false),
    {
        self.begin_move(id.as_str(), generation, WorkflowAction::Resume, false)
    }

    /// Cancels a workflow. Cancelling again changes nothing.
    pub fn cancel(&self, id: &WorkflowId, generation: u64) -> (r: Step)
        ensures
            after(*self, r) == (match self@.checked(id@, generation) {
                Err(e) => self@.fail(e),
                Ok(current) => if current.status == WorkflowStatus::Cancelled {
                    self@.finish(seq![current])
                } else {
                    self@.begin_move(id@, generation, WorkflowAction::Cancel, false)
                },
            }),
    {
        match self.checked(id.as_str(), generation) {
            Err(e) => fail(e),
            Ok(current) => if current.status == WorkflowStatus::Cancelled {
                finish(one(current))
            } else {
                self.begin_move(id.as_str(), generation, WorkflowAction::Cancel, false)
            },
        }
    }

    /// Merges a workflow back into its source.
    pub fn integrate(&self, id: &WorkflowId, generation: u64) -> (r: Step)
        ensures
            after(*self, r) == self@.begin_move(id@, generation, WorkflowAction::Integrate, false),
    {
        self.begin_move(id.as_str(), generation, WorkflowAction::Integrate, false)
    }

    fn moved(
        &self,
        current: WorkflowSnapshot,
        action: WorkflowAction,
        removing: bool,
        update: Option<WorkflowRuntimeUpdate>,
        now_ms: u64,
    ) -> (r: Step)
        ensures
            after(*self, r) == self@.moved(
                current@,
                action,
                removing,
                match update {
                    Some(u) => Some(u@),
                    None => None,
                },
                now_ms,
            ),
    {
        let update = match update {
            None => {
                return fail_told(removing, action.factory_error());
            },
            Some(update) => update,
        };
        if let Err(e) = validate_status(action, update.status) {
            return fail_told(removing, e.as_str());
        }
        match self.checked(current.workflow_id.as_str(), current.generation) {
            Err(e) => {
                return fail_told(removing, e);
            },
            Ok(latest) => {
                if latest.status != current.status || latest.updated_at_ms
                    != current.updated_at_ms {
                    return fail_told(removing, STALE_RESULT);
                }
            },
        }
        let mut next = current.clone();
        next.integration = update.integration.clone();
        apply_runtime_projection(&mut next, update);
        next.updated_at_ms = now_ms;
        self.begin_replace(current, next, Purpose::Lifecycle { action, removing })
    }

    fn begin_replace(&self, current: WorkflowSnapshot, next: WorkflowSnapshot, purpose: Purpose) -> (r:
        Step)
        ensures
            after(*self, r) == self@.begin_replace(current@, next@, purpose@),
    {
        let copy = next.clone();
        (
            ManagerAction::WriteRecord(copy),
            ManagerPoint::Replacing { current, next, purpose },
        )
    }

    fn replaced(
        &mut self,
        current: WorkflowSnapshot,
        next: WorkflowSnapshot,
        purpose: Purpose,
        worked: bool,
    ) -> (r: Step)
        ensures
            after(*final(self), r) == old(self)@.replaced(current@, next@, purpose@, worked),
    {
        if !worked {
            let removing = match &purpose {
                Purpose::Lifecycle { action, removing } => *removing,
                _ => false,
            };
            return (ManagerAction::WriteRecord(current), ManagerPoint::Reverting { removing });
        }
        self.put(&next);
        match purpose {
            Purpose::Lifecycle { action, removing } => {
                self.tell_of(&current, &next);
                if action == WorkflowAction::Resume && is_settling(&next) {
                    self.begin_move(
                        next.workflow_id.as_str(),
                        next.generation,
                        WorkflowAction::Integrate,
                        false,
                    )
                } else if removing {
                    self.begin_removal(next)
                } else {
                    finish(one(next))
                }
            },
            Purpose::Projection => {
                self.tell_of(&current, &next);
                if is_settling(&next) && current.status != WorkflowStatus::Completed {
                    self.begin_move(
                        next.workflow_id.as_str(),
                        next.generation,
                        WorkflowAction::Integrate,
                        false,
                    )
                } else {
                    finish(one(next))
                }
            },
            Purpose::Restored { worked, rest, restored } => {
                let mut restored = restored;
                if worked {
                    self.tell(WorkflowEvent::Updated { snapshot: next.clone() });
                    let ghost before = restored@;
                    let ghost model = next@;
                    restored.push(next);
                    assert(sort::views(restored@) =~= sort::views(before).push(model));
                } else {
                    self.tell_of(&current, &next);
                }
                self.restore_next(rest, restored)
            },
        }
    }

    // -- projection --

    /// Takes in what the runtime of a workflow projects.
    pub fn project_runtime_update(
        &mut self,
        id: &WorkflowId,
        generation: u64,
        update: WorkflowRuntimeUpdate,
        now_ms: u64,
    ) -> (r: Step)
        ensures
            after(*final(self), r) == old(self)@.begin_projection(
                id@,
                generation,
                update@,
                now_ms,
            ),
    {
        let creating = match self.creating.get(id.as_str()) {
            Some(c) => Some((c.generation, c.status)),
            None => None,
        };
        if let Some((creating_generation, creating_status)) = creating {
            if creating_generation != generation {
                return fail(STALE);
            }
            if let Err(e) = validate_runtime_projection(creating_status, update.status) {
                return fail(e.as_str());
            }
            let ghost before = self.creating@;
            let entry = CreatingWorkflow {
                generation,
                status: update.status,
                projection: Some(update),
            };
            let ghost model = entry@;
            self.creating.insert(id.0.clone(), entry);
            assert(map_views(self.creating@) =~= map_views(before).insert(id@, model));
            let none: Vec<WorkflowSnapshot> = Vec::new();
            assert(sort::views(none@) =~= Seq::<SnapshotModel>::empty());
            return finish(none);
        }
        match self.checked(id.as_str(), generation) {
            Err(e) => fail(e),
            Ok(current) => {
                if let Err(e) = validate_runtime_projection(current.status, update.status) {
                    return fail(e.as_str());
                }
                let mut next = current.clone();
                apply_runtime_projection(&mut next, update);
                next.updated_at_ms = now_ms;
                self.begin_replace(current, next, Purpose::Projection)
            },
        }
    }

    // -- restoring --

    /// Restores the runtimes of all workflows that have not settled.
    pub fn restore_all(&self) -> (r: Step)
        ensures
            after(*self, r) == self@.restore_next(
                unsettled(in_order(self.workflows), in_order(self.workflows).len()),
                Seq::empty(),
            ),
    {
        let items = self.list();
        let ghost all = sort::views(items@);
        let mut rest: Vec<(String, u64)> = Vec::new();
        let mut i: usize = 0;
        assert(targets(rest@) =~= Seq::<(Seq<char>, u64)>::empty());
        while i < items.len()
            invariant
                i <= items@.len(),
                all == sort::views(items@),
                targets(rest@) == unsettled(all, i as nat),
            decreases items@.len() - i,
        {
            let s = &items[i];
            assert(all[i as int] == s@);
            if !s.status.is_terminal() {
                let ghost before = rest@;
                let target = (s.workflow_id.0.clone(), s.generation);
                rest.push(target);
                assert(targets(rest@) =~= targets(before).push((s@.workflow_id, s@.generation)));
            }
            i += 1;
        }
        let none: Vec<WorkflowSnapshot> = Vec::new();
        assert(sort::views(none@) =~= Seq::<SnapshotModel>::empty());
        self.restore_next(rest, none)
    }

    fn restore_next(&self, rest: Vec<(String, u64)>, restored: Vec<WorkflowSnapshot>) -> (r: Step)
        ensures
            after(*self, r) == self@.restore_next(targets(rest@), sort::views(restored@)),
    {
        let ghost all = targets(rest@);
        let ghost done = sort::views(restored@);
        let mut i: usize = 0;
        assert(all.skip(0) =~= all);
        while i < rest.len()
            invariant
                i <= rest@.len(),
                all == targets(rest@),
                done == sort::views(restored@),
                self@.restore_next(all, done) == self@.restore_next(all.skip(i as int), done),
            decreases rest@.len() - i,
        {
            let ghost here = all.skip(i as int);
            assert(here[0] == all[i as int]);
            assert(all[i as int] == (rest@[i as int].0@, rest@[i as int].1));
            assert(here.skip(1) =~= all.skip(i + 1));
            match self.checked(rest[i].0.as_str(), rest[i].1) {
                Err(e) => {
                    return fail(e);
                },
                Ok(snapshot) => {
                    if !snapshot.status.is_terminal() {
                        let mut head = rest;
                        let tail = head.split_off(i + 1);
                        assert(targets(tail@) =~= all.skip(i + 1));
                        let request = WorkflowRuntimeRequest::for_snapshot(&snapshot);
                        let copy = snapshot.clone();
                        return (
                            ManagerAction::RestoreRuntime(request, copy),
                            ManagerPoint::Restoring { snapshot, rest: tail, restored },
                        );
                    }
                },
            }
            i += 1;
        }
        assert(all.skip(rest@.len() as int) =~= Seq::<(Seq<char>, u64)>::empty());
        finish(restored)
    }

    fn restored(
        &self,
        snapshot: WorkflowSnapshot,
        rest: Vec<(String, u64)>,
        restored: Vec<WorkflowSnapshot>,
        identity: Option<WorkflowRuntimeIdentity>,
        now_ms: u64,
    ) -> (r: Step)
        ensures
            after(*self, r) == self@.restored(
                snapshot@,
                targets(rest@),
                sort::views(restored@),
                match identity {
                    Some(i) => Some(i@),
                    None => None,
                },
                now_ms,
            ),
    {
        let mut next = snapshot.clone();
        next.updated_at_ms = now_ms;
        match identity {
            Some(i) => {
                next.todo = i.todo;
                next.worktree_label = i.worktree_label;
                next.branch = i.branch;
                next.supervisor_agent_id = i.supervisor_agent_id;
                next.supervisor_job_id = i.supervisor_job_id;
                self.begin_replace(
                    snapshot,
                    next,
                    Purpose::Restored { worked: true, rest, restored },
                )
            },
            None => {
                next.status = WorkflowStatus::Failed;
                next.failure = Some(WorkflowFailure { message: RECOVERY_FAILED.to_owned() });
                self.begin_replace(
                    snapshot,
                    next,
                    Purpose::Restored { worked: false, rest, restored },
                )
            },
        }
    }

    // -- removal --

    /// Removes a workflow; an active one is cancelled first.
    pub fn remove(&self, id: &WorkflowId, generation: u64) -> (r: Step)
        ensures
            after(*self, r) == self@.begin_remove(id@, generation),
    {
        match self.checked(id.as_str(), generation) {
            Err(e) => fail(e),
            Ok(snapshot) => if snapshot.status.is_terminal() {
                self.begin_removal(snapshot)
            } else {
                self.begin_move(id.as_str(), generation, WorkflowAction::Cancel, true)
            },
        }
    }

    fn begin_removal(&self, snapshot: WorkflowSnapshot) -> (r: Step)
        ensures
            after(*self, r) == self@.begin_removal(snapshot@),
    {
        let copy = snapshot.clone();
        (ManagerAction::RemoveRuntime(copy), ManagerPoint::RemovingRuntime { snapshot })
    }

    fn begin_erase(&self, snapshot: WorkflowSnapshot, prior: Option<WorkflowId>, clear: bool) -> (r:
        Step)
        ensures
            after(*self, r) == self@.begin_erase(snapshot@, opt_id(prior), clear),
    {
        let id = snapshot.workflow_id.clone();
        (ManagerAction::RemoveRecord(id), ManagerPoint::Erasing { snapshot, prior, clear })
    }

    fn runtime_removed(&self, snapshot: WorkflowSnapshot, worked: bool) -> (r: Step)
        ensures
            after(*self, r) == self@.runtime_removed(snapshot@, worked),
    {
        if !worked {
            return fail(REMOVE_FAILED);
        }
        let prior = clone_id(&self.selected);
        let clear = match &self.selected {
            Some(id) => same_text(id.as_str(), snapshot.workflow_id.as_str()),
            None => false,
        };
        if clear {
            (
                ManagerAction::WriteSelection(None),
                ManagerPoint::Deselecting { snapshot, prior },
            )
        } else {
            self.begin_erase(snapshot, prior, false)
        }
    }

    fn erased(
        &mut self,
        snapshot: WorkflowSnapshot,
        prior: Option<WorkflowId>,
        clear: bool,
        worked: bool,
    ) -> (r: Step)
        ensures
            after(*final(self), r) == old(self)@.erased(snapshot@, opt_id(prior), clear, worked),
    {
        if !worked {
            let copy = snapshot.clone();
            return (
                ManagerAction::WriteRecord(copy),
                ManagerPoint::Rewriting { snapshot, prior, clear },
            );
        }
        let ghost before = self.workflows@;
        self.workflows.remove(snapshot.workflow_id.as_str());
        assert(map_views(self.workflows@) =~= map_views(before).remove(snapshot@.workflow_id));
        if clear {
            self.selected = None;
        }
        self.tell(
            WorkflowEvent::Removed {
                workflow_id: snapshot.workflow_id.clone(),
                generation: snapshot.generation,
            },
        );
        finish(one(snapshot))
    }

    fn begin_revive(&self, snapshot: WorkflowSnapshot, failed: bool) -> (r: Step)
        ensures
            after(*self, r) == self@.begin_revive(snapshot@, failed),
    {
        let request = WorkflowRuntimeRequest::for_snapshot(&snapshot);
        (ManagerAction::RestoreRuntime(request, snapshot), ManagerPoint::Reviving { failed })
    }

    // -- selection --

    /// Selects a workflow, or none.
    pub fn select(&self, id: Option<WorkflowId>) -> (r: Step)
        ensures
            after(*self, r) == self@.begin_select(opt_id(id)),
    {
        let mut found: Vec<WorkflowSnapshot> = Vec::new();
        assert(sort::views(found@) =~= Seq::<SnapshotModel>::empty());
        if let Some(target) = &id {
            match self.workflows.get(target.as_str()) {
                None => {
                    return fail(NOT_FOUND);
                },
                Some(s) => {
                    found = one(s.clone());
                },
            }
        }
        let prior = clone_id(&self.selected);
        let target = clone_id(&id);
        (ManagerAction::WriteSelection(id), ManagerPoint::Choosing { target, prior, found })
    }

    // -- creation --

    fn name_is_taken(&self, name: &str) -> (r: bool)
        ensures
            r == (self@.has_name(name@) || self@.names.contains(name@)),
    {
        if self.names.contains(name) {
            return true;
        }
        let n: usize = self.workflows.len();
        let mut i: usize = 0;
        while i < n
            invariant
                i <= n == self.workflows.keys().len(),
                forall|k: int|
                    0 <= k < i ==> self@.workflows[#[trigger] self.workflows.keys()[k]].name
                        != name@,
                forall|k: Seq<char>|
                    self.workflows.keys().contains(k) <==> #[trigger] self.workflows@.contains_key(
                        k,
                    ),
            decreases n - i,
        {
            let s = self.workflows.value(i);
            let ghost key = self.workflows.keys()[i as int];
            assert(self@.workflows[key] == s@);
            if same_text(s.name.as_str(), name) {
                assert(self@.workflows.contains_key(key) && self@.workflows[key].name == name@);
                return true;
            }
            i += 1;
        }
        proof {
            assert forall|id: Seq<char>| self@.workflows.contains_key(id) implies (
            #[trigger] self@.workflows[id]).name != name@ by {
                assert(self.workflows@.contains_key(id));
                assert(self.workflows.keys().contains(id));
                let k = choose|k: int|
                    0 <= k < self.workflows.keys().len() && self.workflows.keys()[k] == id;
                assert(self@.workflows[self.workflows.keys()[k]].name != name@);
            }
        }
        false
    }

    /// Creates a workflow with the given fresh id.
    pub fn create_with_id(&mut self, request: WorkflowCreateRequest, workflow_id: WorkflowId) -> (r:
        Step)
        ensures
            after(*final(self), r) == old(self)@.begin_create(
                request.name@,
                request.objective@,
                workflow_id@,
            ),
    {
        let name = trim(request.name.as_str());
        let objective = trim(request.objective.as_str());
        if name.as_str().is_empty() {
            return fail(EMPTY_NAME);
        }
        if objective.as_str().is_empty() {
            return fail(EMPTY_OBJECTIVE);
        }
        if self.name_is_taken(name.as_str()) {
            return fail(NAME_TAKEN);
        }
        let ghost names_before = self.names@;
        self.names.insert(name.clone(), true);
        assert(self.names@.dom() =~= names_before.dom().insert(name@));
        let ghost before = self.creating@;
        let entry = CreatingWorkflow {
            generation: 1,
            status: WorkflowStatus::Queued,
            projection: None,
        };
        let ghost model = entry@;
        self.creating.insert(workflow_id.0.clone(), entry);
        assert(map_views(self.creating@) =~= map_views(before).insert(workflow_id@, model));
        let runtime_request = WorkflowRuntimeRequest {
            workflow_id: workflow_id.clone(),
            name: name.clone(),
            objective: objective.clone(),
            generation: 1,
        };
        (
            ManagerAction::CreateRuntime(runtime_request),
            ManagerPoint::Creating { workflow_id, name, objective },
        )
    }

    /// Creates a workflow with a fresh id.
    pub fn create(&mut self, request: WorkflowCreateRequest) -> (r: Step)
        ensures
            exists|id: Seq<char>| #[trigger]
                uuid_text(id) && store::valid_id(id) && after(*final(self), r) == old(self)@.begin_create(request.name@, request.objective@, id),
    {
        let id = fresh_workflow_id();
        proof {
            lemma_uuid_is_valid(id@);
        }
        self.create_with_id(request, WorkflowId(id))
    }

    /// Takes the latest projection of a workflow that is being created.
    fn take_create_projection(&mut self, id: &str) -> (r: Option<WorkflowRuntimeUpdate>)
        ensures
            final(self)@ == old(self)@.taken(id@),
            match r {
                Some(u) => old(self)@.pending(id@) == Some(u@),
                None => old(self)@.pending(id@) is None,
            },
    {
        let (generation, status, update): (u64, WorkflowStatus, WorkflowRuntimeUpdate) =
            match self.creating.get(id) {
            None => {
                return None;
            },
            Some(c) => match &c.projection {
                None => {
                    return None;
                },
                Some(u) => (c.generation, c.status, u.clone()),
            },
        };
        let ghost before = self.creating@;
        let entry = CreatingWorkflow { generation, status, projection: None };
        let ghost model = entry@;
        self.creating.insert(id.to_owned(), entry);
        assert(map_views(self.creating@) =~= map_views(before).insert(id@, model));
        Some(update)
    }

    fn release(&mut self, id: &str)
        ensures
            final(self)@ == old(self)@.released(id@),
    {
        let ghost before = self.creating@;
        self.creating.remove(id);
        assert(map_views(self.creating@) =~= map_views(before).remove(id@));
    }

    fn unname(&mut self, name: &str)
        ensures
            final(self)@ == old(self)@.unnamed(name@),
    {
        let ghost before = self.names@;
        self.names.remove(name);
        assert(self.names@.dom() =~= before.dom().remove(name@));
    }

    fn created(
        &mut self,
        workflow_id: WorkflowId,
        name: String,
        objective: String,
        identity: Option<WorkflowRuntimeIdentity>,
        now_ms: u64,
    ) -> (r: Step)
        ensures
            after(*final(self), r) == old(self)@.created(
                workflow_id@,
                name@,
                objective@,
                match identity {
                    Some(i) => Some(i@),
                    None => None,
                },
                now_ms,
            ),
    {
        let identity = match identity {
            None => {
                self.release(workflow_id.as_str());
                self.unname(name.as_str());
                return fail(CREATE_FAILED);
            },
            Some(identity) => identity,
        };
        let mut snapshot = WorkflowSnapshot {
            workflow_id: workflow_id.clone(),
            name,
            objective,
            status: WorkflowStatus::Queued,
            created_at_ms: now_ms,
            updated_at_ms: now_ms,
            generation: 1,
            todo: identity.todo,
            worktree_label: identity.worktree_label,
            branch: identity.branch,
            supervisor_agent_id: identity.supervisor_agent_id,
            supervisor_job_id: identity.supervisor_job_id,
            failure: None,
            integration: WorkflowIntegration::NotIntegrated,
        };
        let fits = match self.creating.get(workflow_id.as_str()) {
            Some(c) => c.generation == 1,
            None => false,
        };
        if fits {
            if let Some(update) = self.take_create_projection(workflow_id.as_str()) {
                apply_runtime_projection(&mut snapshot, update);
            }
        }
        let prior = clone_id(&self.selected);
        let copy = snapshot.clone();
        (ManagerAction::WriteRecord(copy), ManagerPoint::Saving { snapshot, prior })
    }

    fn begin_undo(
        &self,
        snapshot: WorkflowSnapshot,
        prior: Option<WorkflowId>,
        selection_too: bool,
    ) -> (r: Step)
        ensures
            after(*self, r) == self@.begin_undo(snapshot@, opt_id(prior), selection_too),
    {
        let id = snapshot.workflow_id.clone();
        (
            ManagerAction::RemoveRecord(id),
            ManagerPoint::UndoingRecord { snapshot, prior, selection_too },
        )
    }

    fn folded(
        &mut self,
        snapshot: WorkflowSnapshot,
        prior: Option<WorkflowId>,
        worked: bool,
        now_ms: u64,
    ) -> (r: Step)
        ensures
            after(*final(self), r) == old(self)@.folded(snapshot@, opt_id(prior), worked, now_ms),
    {
        if !worked {
            return self.begin_undo(snapshot, prior, true);
        }
        match self.take_create_projection(snapshot.workflow_id.as_str()) {
            Some(update) => {
                let mut next = snapshot;
                apply_runtime_projection(&mut next, update);
                next.updated_at_ms = now_ms;
                let copy = next.clone();
                (
                    ManagerAction::WriteRecord(copy),
                    ManagerPoint::Folding { snapshot: next, prior },
                )
            },
            None => {
                if self.creating.contains(snapshot.workflow_id.as_str()) {
                    self.release(snapshot.workflow_id.as_str());
                    self.put(&snapshot);
                    self.selected = Some(snapshot.workflow_id.clone());
                }
                self.unname(snapshot.name.as_str());
                self.tell(WorkflowEvent::Created { snapshot: snapshot.clone() });
                finish(one(snapshot))
            },
        }
    }

    fn begin_runtime_undo(&mut self, snapshot: WorkflowSnapshot, failed: bool) -> (r: Step)
        ensures
            after(*final(self), r) == old(self)@.begin_runtime_undo(snapshot@, failed),
    {
        self.release(snapshot.workflow_id.as_str());
        let name = snapshot.name.clone();
        (ManagerAction::RemoveRuntime(snapshot), ManagerPoint::UndoingRuntime { name, failed })
    }

    // -- all of it --

    /// Goes on with an operation once its action has been answered.
    pub fn advance(&mut self, point: ManagerPoint, reply: ManagerReply, now_ms: u64) -> (r: Step)
        requires
            reply_fits(point, reply),
        ensures
            after(*final(self), r) == old(self)@.advanced(point@, reply@, now_ms),
    {
        match (point, reply) {
            (
                ManagerPoint::Creating { workflow_id, name, objective },
                ManagerReply::Identity(identity),
            ) => self.created(workflow_id, name, objective, identity, now_ms),
            (
                ManagerPoint::Restoring { snapshot, rest, restored },
                ManagerReply::Identity(identity),
            ) => self.restored(snapshot, rest, restored, identity, now_ms),
            (ManagerPoint::Reviving { failed }, ManagerReply::Identity(identity)) => {
                if failed || identity.is_none() {
                    fail(REMOVE_STUCK)
                } else {
                    fail(REMOVE_UNSAVED)
                }
            },
            (
                ManagerPoint::Moving { current, action, removing },
                ManagerReply::Update(update),
            ) => self.moved(current, action, removing, update, now_ms),
            (point, ManagerReply::Worked(worked)) => self.advance_worked(point, worked, now_ms),
            _ => fail(NOT_FOUND),
        }
    }

    fn advance_worked(&mut self, point: ManagerPoint, worked: bool, now_ms: u64) -> (r: Step)
        requires
            reply_fits(point, ManagerReply::Worked(worked)),
        ensures
            after(*final(self), r) == old(self)@.advanced(
                point@,
                ManagerReply::Worked(worked)@,
                now_ms,
            ),
    {
        match point {
            ManagerPoint::Saving { snapshot, prior } => {
                if worked {
                    let id = snapshot.workflow_id.clone();
                    (
                        ManagerAction::WriteSelection(Some(id)),
                        ManagerPoint::Selecting { snapshot, prior },
                    )
                } else {
                    self.begin_undo(snapshot, prior, false)
                }
            },
            ManagerPoint::Selecting { snapshot, prior } => self.folded(
                snapshot,
                prior,
                worked,
                now_ms,
            ),
            ManagerPoint::Folding { snapshot, prior } => self.folded(
                snapshot,
                prior,
                worked,
                now_ms,
            ),
            ManagerPoint::UndoingRecord { snapshot, prior, selection_too } => {
                if selection_too {
                    (
                        ManagerAction::WriteSelection(prior),
                        ManagerPoint::UndoingSelection { snapshot, failed: !worked },
                    )
                } else {
                    self.begin_runtime_undo(snapshot, !worked)
                }
            },
            ManagerPoint::UndoingSelection { snapshot, failed } => self.begin_runtime_undo(
                snapshot,
                failed || !worked,
            ),
            ManagerPoint::UndoingRuntime { name, failed } => {
                self.unname(name.as_str());
                if failed || !worked {
                    fail(CREATE_STUCK)
                } else {
                    fail(CREATE_UNSAVED)
                }
            },
            ManagerPoint::Replacing { current, next, purpose } => self.replaced(
                current,
                next,
                purpose,
                worked,
            ),
            ManagerPoint::Reverting { removing } => {
                if worked {
                    fail_told(removing, UPDATE_UNSAVED)
                } else {
                    fail_told(removing, UPDATE_STUCK)
                }
            },
            ManagerPoint::RemovingRuntime { snapshot } => self.runtime_removed(snapshot, worked),
            ManagerPoint::Deselecting { snapshot, prior } => {
                if worked {
                    self.begin_erase(snapshot, prior, true)
                } else {
                    (
                        ManagerAction::WriteSelection(prior),
                        ManagerPoint::Reselecting { snapshot, failed: false },
                    )
                }
            },
            ManagerPoint::Erasing { snapshot, prior, clear } => self.erased(
                snapshot,
                prior,
                clear,
                worked,
            ),
            ManagerPoint::Rewriting { snapshot, prior, clear } => {
                if clear {
                    (
                        ManagerAction::WriteSelection(prior),
                        ManagerPoint::Reselecting { snapshot, failed: !worked },
                    )
                } else {
                    self.begin_revive(snapshot, !worked)
                }
            },
            ManagerPoint::Reselecting { snapshot, failed } => self.begin_revive(
                snapshot,
                failed || !worked,
            ),
            ManagerPoint::Choosing { target, prior, found } => {
                if worked {
                    self.selected = target;
                    finish(found)
                } else {
                    (ManagerAction::WriteSelection(prior), ManagerPoint::Unchoosing)
                }
            },
            ManagerPoint::Unchoosing => {
                if worked {
                    fail(SELECT_UNSAVED)
                } else {
                    fail(SELECT_STUCK)
                }
            },
            _ => fail(NOT_FOUND),
        }
    }
}

// ---------------------------------------------------------------------------
// What holds of every manager
// ---------------------------------------------------------------------------

/// Whether an action reaches a runtime or the store.
pub open spec fn acts(a: ActionModel) -> bool {
    !(a is Finish)
}

/// Whether every record stands under its own id.
pub open spec fn keyed(m: ManagerModel) -> bool {
    forall|id: Seq<char>|
        m.workflows.contains_key(id) ==> (#[trigger] m.workflows[id]).workflow_id == id
}

/// A stale generation is refused before any runtime is reached, whatever is
/// asked for.
pub proof fn law_stale_generation_is_refused(
    m: ManagerModel,
    id: Seq<char>,
    generation: u64,
    action: WorkflowAction,
    u: UpdateModel,
    now_ms: u64,
)
    requires
        m.workflows.contains_key(id),
        m.workflows[id].generation != generation,
        !m.creating.contains_key(id),
    ensures
        m.begin_move(id, generation, action, false) == m.fail(STALE@),
        m.begin_remove(id, generation) == m.fail(STALE@),
        m.begin_projection(id, generation, u, now_ms) == m.fail(STALE@),
{
}

/// A name that is taken, or about to be, is refused, so that of two creations
/// with one name only the first goes on.
pub proof fn law_names_have_one_winner(
    m: ManagerModel,
    name: Seq<char>,
    objective: Seq<char>,
    other_objective: Seq<char>,
    id: Seq<char>,
    other_id: Seq<char>,
)
    requires
        acts(m.begin_create(name, objective, id).1),
        text::trimmed(other_objective).len() > 0,
    ensures
        m.begin_create(name, objective, id).0.begin_create(name, other_objective, other_id)
            == m.begin_create(name, objective, id).0.fail(NAME_TAKEN@),
{
}

/// A settled or paused workflow takes no projection that would move it.
pub proof fn law_settled_and_paused_stay(
    m: ManagerModel,
    id: Seq<char>,
    generation: u64,
    u: UpdateModel,
    now_ms: u64,
)
    requires
        !m.creating.contains_key(id),
        m.workflows.contains_key(id),
        m.workflows[id].generation == generation,
        m.workflows[id].status.terminal() || m.workflows[id].status == WorkflowStatus::Paused,
        u.status != m.workflows[id].status,
    ensures
        m.begin_projection(id, generation, u, now_ms) == m.fail(INVALID_PROJECTION@),
{
}

/// Nothing takes a workflow out of a terminal status but another merge.
pub proof fn law_terminal_only_integrates(status: WorkflowStatus, action: WorkflowAction)
    requires
        status.terminal(),
        allowed(status, action),
    ensures
        action == WorkflowAction::Integrate,
        status == WorkflowStatus::Completed || status == WorkflowStatus::Conflicted,
{
}

/// A merge follows a projection exactly when the workflow has just completed
/// and was never merged.
pub proof fn law_completion_is_merged_once(
    m: ManagerModel,
    current: SnapshotModel,
    next: SnapshotModel,
)
    requires
        next.workflow_id == current.workflow_id,
    ensures
        ({
            let step = m.replaced(current, next, PurposeModel::Projection, true);
            step.1 is MoveRuntime <==> next.status == WorkflowStatus::Completed && current.status
                != WorkflowStatus::Completed && next.integration == IntegrationModel::NotIntegrated
        }),
{
}

/// A merge follows a resumption exactly when the workflow comes back completed
/// and without a merge on record. No other move is followed by one.
pub proof fn law_resumption_merges_what_settled(
    m: ManagerModel,
    current: SnapshotModel,
    next: SnapshotModel,
    action: WorkflowAction,
)
    requires
        next.workflow_id == current.workflow_id,
    ensures
        ({
            let step = m.replaced(
                current,
                next,
                PurposeModel::Lifecycle { action, removing: false },
                true,
            );
            step.1 is MoveRuntime <==> action == WorkflowAction::Resume && next.status
                == WorkflowStatus::Completed && next.integration == IntegrationModel::NotIntegrated
        }),
{
}

/// Where a record cannot be written, the manager stays as it was, and the prior
/// record is written again.
pub proof fn law_unsaved_update_changes_nothing(
    m: ManagerModel,
    current: SnapshotModel,
    next: SnapshotModel,
    purpose: PurposeModel,
    worked: bool,
    removing: bool,
)
    ensures
        m.replaced(current, next, purpose, false).0 == m,
        m.replaced(current, next, purpose, false).1 == ActionModel::WriteRecord(current),
        m.reverted(removing, worked).0 == m,
{
}

/// Where a removal cannot be committed, the manager keeps the workflow and its
/// selection.
pub proof fn law_failed_removal_keeps_the_workflow(
    m: ManagerModel,
    snapshot: SnapshotModel,
    prior: Option<Seq<char>>,
    clear: bool,
    failed: bool,
    worked: bool,
)
    ensures
        m.runtime_removed(snapshot, false).0 == m,
        m.deselected(snapshot, prior, false) == (
            m,
            ActionModel::WriteSelection(prior),
            PointModel::Reselecting { snapshot, failed: false },
        ),
        m.erased(snapshot, prior, clear, false) == (
            m,
            ActionModel::WriteRecord(snapshot),
            PointModel::Rewriting { snapshot, prior, clear },
        ),
        m.rewritten(snapshot, prior, clear, worked).0 == m,
        m.begin_revive(snapshot, failed).0 == m,
        m.revived(failed, worked).0 == m,
{
}

/// An active workflow is cancelled before it is removed.
pub proof fn law_removal_cancels_first(m: ManagerModel, id: Seq<char>, generation: u64)
    requires
        m.workflows.contains_key(id),
        m.workflows[id].generation == generation,
        !m.workflows[id].status.terminal(),
    ensures
        m.begin_remove(id, generation).1 == ActionModel::MoveRuntime(
            WorkflowAction::Cancel,
            m.workflows[id],
        ),
        m.begin_remove(id, generation).0 == m,
{
}

/// Observers hear of a changed status before they hear of the changed record.
pub proof fn law_status_is_told_first(
    m: ManagerModel,
    current: SnapshotModel,
    next: SnapshotModel,
)
    requires
        current.status != next.status,
    ensures
        m.told_of(current, next).events == m.events.push(
            EventModel::StatusChanged {
                workflow_id: next.workflow_id,
                generation: next.generation,
                status: next.status,
            },
        ).push(EventModel::Updated { snapshot: next }),
{
}

/// A creation that failed leaves the workflows and the selection as they were,
/// and frees its name and its id.
pub proof fn law_failed_creation_leaves_no_trace(
    m: ManagerModel,
    snapshot: SnapshotModel,
    failed: bool,
    worked: bool,
)
    ensures
        ({
            let undoing = m.begin_runtime_undo(snapshot, failed).0;
            let over = undoing.runtime_undone(snapshot.name, failed, worked).0;
            &&& over.workflows == m.workflows
            &&& over.selected == m.selected
            &&& over.events == m.events
            &&& !over.names.contains(snapshot.name)
            &&& !over.creating.contains_key(snapshot.workflow_id)
        }),
{
}

/// No error of an operation depends on what a runtime or the store said: the
/// replies carry no text.
pub proof fn law_errors_are_fixed_texts(
    m: ManagerModel,
    current: SnapshotModel,
    action: WorkflowAction,
    removing: bool,
    now_ms: u64,
)
    ensures
        m.moved(current, action, removing, None, now_ms) == m.fail(
            told(removing, action.failure()),
        ),
{
}

proof fn lemma_restore_keeps_records(
    m: ManagerModel,
    rest: Seq<(Seq<char>, u64)>,
    restored: Seq<SnapshotModel>,
)
    ensures
        m.restore_next(rest, restored).0 == m,
    decreases rest.len(),
{
    if rest.len() > 0 {
        match m.checked(rest[0].0, rest[0].1) {
            Err(_) => {},
            Ok(snapshot) => {
                if snapshot.status.terminal() {
                    lemma_restore_keeps_records(m, rest.skip(1), restored);
                }
            },
        }
    }
}

/// No step puts a record under another id than its own.
pub proof fn law_records_stay_keyed(
    m: ManagerModel,
    point: PointModel,
    reply: ReplyModel,
    now_ms: u64,
)
    requires
        keyed(m),
    ensures
        keyed(m.advanced(point, reply, now_ms).0),
{
    match point {
        PointModel::Replacing { current, next, purpose } => {
            let n = m.with_record(next);
            assert(keyed(n));
            match purpose {
                PurposeModel::Restored { worked, rest, restored } => {
                    lemma_restore_keeps_records(
                        ManagerModel {
                            events: n.events.push(EventModel::Updated { snapshot: next }),
                            ..n
                        },
                        rest,
                        restored.push(next),
                    );
                    lemma_restore_keeps_records(n.told_of(current, next), rest, restored);
                },
                _ => {},
            }
        },
        _ => {},
    }
}

/// Whether no two workflows have one name.
pub open spec fn names_unique(m: ManagerModel) -> bool {
    forall|a: Seq<char>, b: Seq<char>|
        m.workflows.contains_key(a) && m.workflows.contains_key(b) && (
        #[trigger] m.workflows[a]).name == (#[trigger] m.workflows[b]).name ==> a == b
}

/// Whether a name is reserved and not in use.
pub open spec fn reserved(m: ManagerModel, name: Seq<char>) -> bool {
    m.names.contains(name) && !m.has_name(name)
}

/// Whether a workflow is known under the name of a record.
pub open spec fn known(m: ManagerModel, s: SnapshotModel) -> bool {
    m.workflows.contains_key(s.workflow_id) && m.workflows[s.workflow_id].name == s.name
}

/// What holds of the manager where an operation waits: a creation has reserved
/// its name, and any other operation is about a known workflow.
pub open spec fn sound(m: ManagerModel, point: PointModel) -> bool {
    match point {
        PointModel::Creating { workflow_id, name, objective } => reserved(m, name),
        PointModel::Saving { snapshot, prior } => reserved(m, snapshot.name),
        PointModel::Selecting { snapshot, prior } => reserved(m, snapshot.name),
        PointModel::Folding { snapshot, prior } => reserved(m, snapshot.name),
        PointModel::Moving { current, action, removing } => known(m, current),
        PointModel::Replacing { current, next, purpose } => known(m, current) && known(m, next),
        PointModel::Restoring { snapshot, rest, restored } => known(m, snapshot),
        _ => true,
    }
}

proof fn lemma_restore_is_sound(
    m: ManagerModel,
    rest: Seq<(Seq<char>, u64)>,
    restored: Seq<SnapshotModel>,
)
    requires
        keyed(m),
    ensures
        sound(m, m.restore_next(rest, restored).2),
    decreases rest.len(),
{
    if rest.len() > 0 {
        match m.checked(rest[0].0, rest[0].1) {
            Err(_) => {},
            Ok(snapshot) => {
                if snapshot.status.terminal() {
                    lemma_restore_is_sound(m, rest.skip(1), restored);
                }
            },
        }
    }
}

proof fn lemma_replacing_known(m: ManagerModel, next: SnapshotModel)
    requires
        keyed(m),
        names_unique(m),
        known(m, next),
    ensures
        keyed(m.with_record(next)),
        names_unique(m.with_record(next)),
{
    let n = m.with_record(next);
    assert forall|a: Seq<char>| n.workflows.contains_key(a) implies (
    #[trigger] n.workflows[a]).name == m.workflows[a].name && m.workflows.contains_key(a) by {
    }
}

proof fn lemma_adding_reserved(m: ManagerModel, s: SnapshotModel)
    requires
        keyed(m),
        names_unique(m),
        reserved(m, s.name),
    ensures
        keyed(m.with_record(s)),
        names_unique(m.with_record(s)),
{
    let n = m.with_record(s);
    assert forall|a: Seq<char>, b: Seq<char>|
        n.workflows.contains_key(a) && n.workflows.contains_key(b) && (
        #[trigger] n.workflows[a]).name == (#[trigger] n.workflows[b]).name implies a == b by {
        if a != s.workflow_id {
            assert(m.workflows.contains_key(a) && m.workflows[a] == n.workflows[a]);
        }
        if b != s.workflow_id {
            assert(m.workflows.contains_key(b) && m.workflows[b] == n.workflows[b]);
        }
    }
}

/// Names stay unique: no step of an operation gives two workflows one name.
pub proof fn law_names_stay_unique(
    m: ManagerModel,
    point: PointModel,
    reply: ReplyModel,
    now_ms: u64,
)
    requires
        keyed(m),
        names_unique(m),
        sound(m, point),
    ensures
        names_unique(m.advanced(point, reply, now_ms).0),
        sound(m.advanced(point, reply, now_ms).0, m.advanced(point, reply, now_ms).2),
{
    match point {
        PointModel::Replacing { current, next, purpose } => {
            lemma_replacing_known(m, next);
            let n = m.with_record(next);
            match purpose {
                PurposeModel::Restored { worked, rest, restored } => {
                    let a = ManagerModel {
                        events: n.events.push(EventModel::Updated { snapshot: next }),
                        ..n
                    };
                    let b = n.told_of(current, next);
                    lemma_restore_keeps_records(a, rest, restored.push(next));
                    lemma_restore_keeps_records(b, rest, restored);
                    lemma_restore_is_sound(a, rest, restored.push(next));
                    lemma_restore_is_sound(b, rest, restored);
                },
                _ => {},
            }
        },
        PointModel::Selecting { snapshot, prior } => {
            lemma_adding_reserved(m.released(snapshot.workflow_id), snapshot);
        },
        PointModel::Folding { snapshot, prior } => {
            lemma_adding_reserved(m.released(snapshot.workflow_id), snapshot);
        },
        _ => {},
    }
}

/// A creation starts by reserving a name that is not in use.
pub proof fn law_creation_reserves_its_name(
    m: ManagerModel,
    name: Seq<char>,
    objective: Seq<char>,
    id: Seq<char>,
)
    requires
        names_unique(m),
    ensures
        names_unique(m.begin_create(name, objective, id).0),
        sound(m.begin_create(name, objective, id).0, m.begin_create(name, objective, id).2),
{
}

} // verus!
