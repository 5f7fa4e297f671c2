//! What the manager of the workflows promises.

use crate::sort;
use crate::text;
use crate::text_map::TextMap;
use crate::workflow::manager;
use crate::workflow::manager::{
    ActionModel, CreatingModel, ManagerModel, PointModel, ReplyModel, WorkflowAction,
    CREATE_FAILED, CREATE_STUCK, CREATE_UNSAVED, EMPTY_NAME, EMPTY_OBJECTIVE, INVALID_PROJECTION,
    INVALID_STATUS, NAME_TAKEN, NOT_ALLOWED, NOT_CANCELLED, NOT_FOUND, RECOVERY_FAILED,
    REMOVE_FAILED, REMOVE_STUCK, REMOVE_UNSAVED, SELECT_STUCK, SELECT_UNSAVED, STALE, STALE_RESULT,
    UPDATE_STUCK, UPDATE_UNSAVED,
};
use crate::workflow::records::{
    EventModel, IntegrationModel, RuntimeIdentityModel, SnapshotModel, UpdateModel,
    WorkflowSnapshot,
};
use crate::workflow::WorkflowStatus;
use vstd::prelude::*;
use vstd::string::*;

verus! {

/// The reply that something worked, or did not.
pub open spec fn outcome(worked: bool) -> ReplyModel {
    ReplyModel { identity: None, update: None, worked }
}

/// The reply of a runtime that was made or restored, or could not be.
pub open spec fn identified(identity: Option<RuntimeIdentityModel>) -> ReplyModel {
    ReplyModel { identity, update: None, worked: false }
}

/// The reply of a runtime that moved, or could not.
pub open spec fn updated(update: Option<UpdateModel>) -> ReplyModel {
    ReplyModel { identity: None, update, worked: false }
}

/// Whether two managers differ in nothing but one record and in what observers
/// have been told.
pub open spec fn differ_in_record(a: ManagerModel, b: ManagerModel, id: Seq<char>) -> bool {
    &&& b.selected == a.selected
    &&& b.names == a.names
    &&& b.creating == a.creating
    &&& b.diagnostics == a.diagnostics
    &&& b.workflows.dom() == a.workflows.dom().insert(id)
    &&& forall|other: Seq<char>|
        other != id && a.workflows.contains_key(other) ==> #[trigger] b.workflows[other]
            == a.workflows[other]
}

// ---------------------------------------------------------------------------
// What may happen to a workflow
// ---------------------------------------------------------------------------

/// How far a workflow has come by itself: a runtime reports progress along this
/// scale alone. A workflow that was stopped or merged has left it.
pub open spec fn progress(status: WorkflowStatus) -> Option<int> {
    match status {
        WorkflowStatus::Queued => Some(0),
        WorkflowStatus::Planning => Some(1),
        WorkflowStatus::Running => Some(2),
        WorkflowStatus::Completed | WorkflowStatus::Failed => Some(3),
        WorkflowStatus::Integrating | WorkflowStatus::Paused | WorkflowStatus::Cancelled
        | WorkflowStatus::Conflicted => None,
    }
}

/// A runtime may always report the status that the record has; apart from that
/// it may only report progress, from any earlier stage to any later one, and
/// never out of or into a stop.
pub proof fn law_projections_only_make_progress(prior: WorkflowStatus, next: WorkflowStatus)
    ensures
        manager::projection_fits(prior, next) <==> prior == next || (progress(prior) is Some
            && progress(next) is Some && progress(prior)->0 < progress(next)->0),
{
}

/// Which actions each status allows.
pub proof fn law_each_status_has_its_actions(status: WorkflowStatus, action: WorkflowAction)
    ensures
        status == WorkflowStatus::Queued ==> (manager::allowed(status, action) <==> action
            == WorkflowAction::Pause || action == WorkflowAction::Cancel),
        status == WorkflowStatus::Planning || status == WorkflowStatus::Running ==> (
        manager::allowed(status, action) <==> action != WorkflowAction::Integrate),
        status == WorkflowStatus::Integrating ==> (manager::allowed(status, action) <==> action
            == WorkflowAction::Cancel),
        status == WorkflowStatus::Paused ==> (manager::allowed(status, action) <==> action
            != WorkflowAction::Pause),
        status == WorkflowStatus::Completed || status == WorkflowStatus::Conflicted ==> (
        manager::allowed(status, action) <==> action == WorkflowAction::Integrate),
        status == WorkflowStatus::Failed || status == WorkflowStatus::Cancelled
            ==> !manager::allowed(status, action),
{
}

/// Which actions can end in each status.
pub proof fn law_each_status_has_its_causes(status: WorkflowStatus, action: WorkflowAction)
    ensures
        status == WorkflowStatus::Queued || status == WorkflowStatus::Integrating
            ==> !manager::outcome_fits(action, status),
        status == WorkflowStatus::Planning || status == WorkflowStatus::Running ==> (
        manager::outcome_fits(action, status) <==> action == WorkflowAction::Resume),
        status == WorkflowStatus::Paused ==> (manager::outcome_fits(action, status) <==> action
            == WorkflowAction::Pause),
        status == WorkflowStatus::Cancelled ==> (manager::outcome_fits(action, status) <==> action
            == WorkflowAction::Cancel),
        status == WorkflowStatus::Conflicted ==> (manager::outcome_fits(action, status) <==> action
            == WorkflowAction::Integrate),
        status == WorkflowStatus::Completed || status == WorkflowStatus::Failed ==> (
        manager::outcome_fits(action, status) <==> action == WorkflowAction::Resume || action
            == WorkflowAction::Integrate),
{
}

// ---------------------------------------------------------------------------
// Runtime updates
// ---------------------------------------------------------------------------

/// After an accepted runtime update, the record has exactly the update's
/// status, todo, supervisor ids and failure, the time of the update, and every
/// other field as before; the same record is written, kept in memory, and told.
pub proof fn law_a_runtime_update_is_recorded(
    m: ManagerModel,
    id: Seq<char>,
    u: UpdateModel,
    now_ms: u64,
    later_ms: u64,
)
    requires
        m.workflows.contains_key(id),
        m.workflows[id].workflow_id == id,
        !m.creating.contains_key(id),
        manager::projection_fits(m.workflows[id].status, u.status),
    ensures
        ({
            let old = m.workflows[id];
            let first = m.begin_projection(id, old.generation, u, now_ms);
            let second = first.0.advanced(first.2, outcome(true), later_ms);
            let new = second.0.workflows[id];
            &&& new.status == u.status
            &&& new.todo == u.todo
            &&& new.supervisor_agent_id == u.supervisor_agent_id
            &&& new.supervisor_job_id == u.supervisor_job_id
            &&& new.failure == u.failure
            &&& new.updated_at_ms == now_ms
            &&& new.workflow_id == old.workflow_id
            &&& new.name == old.name
            &&& new.objective == old.objective
            &&& new.created_at_ms == old.created_at_ms
            &&& new.generation == old.generation
            &&& new.worktree_label == old.worktree_label
            &&& new.branch == old.branch
            &&& new.integration == old.integration
            &&& first.0 == m
            &&& first.1 == ActionModel::WriteRecord(new)
            &&& differ_in_record(m, second.0, id)
            &&& second.0.events.last() == (EventModel::Updated { snapshot: new })
        }),
{
    let old = m.workflows[id];
    let first = m.begin_projection(id, old.generation, u, now_ms);
    let second = first.0.advanced(first.2, outcome(true), later_ms);
    assert(second.0.workflows =~= m.workflows.insert(id, second.0.workflows[id]));
    assert(second.0.workflows.dom() =~= m.workflows.dom().insert(id));
}

/// A runtime update is refused, with nothing changed, if and only if the
/// workflow is unknown, is of another generation, or would not make progress;
/// each refusal has its reason.
pub proof fn law_other_runtime_updates_are_refused(
    m: ManagerModel,
    id: Seq<char>,
    generation: u64,
    u: UpdateModel,
    now_ms: u64,
)
    requires
        !m.creating.contains_key(id),
    ensures
        ({
            let step = m.begin_projection(id, generation, u, now_ms);
            let known = m.workflows.contains_key(id);
            let fresh = known && m.workflows[id].generation == generation;
            let fits = fresh && manager::projection_fits(m.workflows[id].status, u.status);
            &&& step.0 == m
            &&& !known ==> step.1 == ActionModel::Finish(Err(NOT_FOUND@))
            &&& known && !fresh ==> step.1 == ActionModel::Finish(Err(STALE@))
            &&& fresh && !fits ==> step.1 == ActionModel::Finish(Err(INVALID_PROJECTION@))
            &&& fits <==> step.1 is WriteRecord
        }),
{
}

/// What a runtime reports while its workflow is being created is kept, the
/// latest report alone, and the first record has it, field by field.
pub proof fn law_early_updates_are_folded_in(
    m: ManagerModel,
    id: Seq<char>,
    name: Seq<char>,
    objective: Seq<char>,
    u: UpdateModel,
    identity: RuntimeIdentityModel,
    now_ms: u64,
    later_ms: u64,
)
    requires
        m.creating.contains_key(id),
        m.creating[id].generation == 1,
        manager::projection_fits(m.creating[id].status, u.status),
    ensures
        ({
            let first = m.begin_projection(id, 1, u, now_ms);
            let point = PointModel::Creating { workflow_id: id, name, objective };
            let second = first.0.advanced(point, identified(Some(identity)), later_ms);
            &&& first.0.workflows == m.workflows
            &&& first.0.events == m.events
            &&& first.0.creating[id].status == u.status
            &&& first.1 == ActionModel::Finish(Ok(Seq::empty()))
            &&& second.1 matches ActionModel::WriteRecord(new) && {
                &&& new.status == u.status
                &&& new.todo == u.todo
                &&& new.supervisor_agent_id == u.supervisor_agent_id
                &&& new.supervisor_job_id == u.supervisor_job_id
                &&& new.failure == u.failure
                &&& new.workflow_id == id
                &&& new.name == name
                &&& new.objective == objective
                &&& new.created_at_ms == later_ms
                &&& new.updated_at_ms == later_ms
                &&& new.generation == 1
                &&& new.worktree_label == identity.worktree_label
                &&& new.branch == identity.branch
                &&& new.integration == IntegrationModel::NotIntegrated
            }
            &&& second.0.creating[id].projection is None
        }),
{
}

/// What a runtime reports after the first record of its workflow was written is
/// folded into a second one, field by field, before the creation ends.
pub proof fn law_late_updates_are_folded_in(
    m: ManagerModel,
    s: SnapshotModel,
    prior: Option<Seq<char>>,
    u: UpdateModel,
    now_ms: u64,
)
    requires
        m.creating.contains_key(s.workflow_id),
        m.creating[s.workflow_id].projection == Some(u),
    ensures
        ({
            let step = m.advanced(
                PointModel::Selecting { snapshot: s, prior },
                outcome(true),
                now_ms,
            );
            &&& step.1 matches ActionModel::WriteRecord(new) && {
                &&& new.status == u.status
                &&& new.todo == u.todo
                &&& new.supervisor_agent_id == u.supervisor_agent_id
                &&& new.supervisor_job_id == u.supervisor_job_id
                &&& new.failure == u.failure
                &&& new.updated_at_ms == now_ms
                &&& new.workflow_id == s.workflow_id
                &&& new.name == s.name
                &&& new.objective == s.objective
                &&& new.created_at_ms == s.created_at_ms
                &&& new.generation == s.generation
                &&& new.worktree_label == s.worktree_label
                &&& new.branch == s.branch
                &&& new.integration == s.integration
                &&& step.2 == (PointModel::Folding { snapshot: new, prior })
            }
            &&& step.0.creating[s.workflow_id].projection is None
            &&& step.0.workflows == m.workflows
            &&& step.0.events == m.events
        }),
{
}

// ---------------------------------------------------------------------------
// Actions
// ---------------------------------------------------------------------------

/// An allowed action is handed to the runtime with the record as it stands, and
/// its outcome becomes the record: status, todo, supervisor ids, failure and
/// integration from the update, the time of the move, and the rest as before.
pub proof fn law_an_action_is_recorded(
    m: ManagerModel,
    id: Seq<char>,
    action: WorkflowAction,
    u: UpdateModel,
    now_ms: u64,
    later_ms: u64,
)
    requires
        m.workflows.contains_key(id),
        m.workflows[id].workflow_id == id,
        manager::allowed(m.workflows[id].status, action),
        manager::outcome_fits(action, u.status),
    ensures
        ({
            let old = m.workflows[id];
            let first = m.begin_move(id, old.generation, action, false);
            let second = first.0.advanced(first.2, updated(Some(u)), now_ms);
            let third = second.0.advanced(second.2, outcome(true), later_ms);
            let new = third.0.workflows[id];
            &&& first.1 == ActionModel::MoveRuntime(action, old)
            &&& first.0 == m
            &&& second.1 == ActionModel::WriteRecord(new)
            &&& second.0 == m
            &&& new.status == u.status
            &&& new.todo == u.todo
            &&& new.supervisor_agent_id == u.supervisor_agent_id
            &&& new.supervisor_job_id == u.supervisor_job_id
            &&& new.failure == u.failure
            &&& new.integration == u.integration
            &&& new.updated_at_ms == now_ms
            &&& new.workflow_id == old.workflow_id
            &&& new.name == old.name
            &&& new.objective == old.objective
            &&& new.created_at_ms == old.created_at_ms
            &&& new.generation == old.generation
            &&& new.worktree_label == old.worktree_label
            &&& new.branch == old.branch
            &&& differ_in_record(m, third.0, id)
            &&& third.0.events.last() == (EventModel::Updated { snapshot: new })
            &&& third.1 == ActionModel::Finish(Ok(seq![new])) <==> !(action
                == WorkflowAction::Resume && u.status == WorkflowStatus::Completed && u.integration
                == IntegrationModel::NotIntegrated)
        }),
{
    let old = m.workflows[id];
    let first = m.begin_move(id, old.generation, action, false);
    let second = first.0.advanced(first.2, updated(Some(u)), now_ms);
    let third = second.0.advanced(second.2, outcome(true), later_ms);
    assert(third.0.workflows =~= m.workflows.insert(id, third.0.workflows[id]));
    assert(third.0.workflows.dom() =~= m.workflows.dom().insert(id));
}

/// An action is refused with nothing changed where the workflow is unknown, of
/// another generation, or does not allow it; and nothing is changed either where
/// the runtime fails, ends in a status that the action cannot end in, or the
/// record moved on meanwhile. Each has its reason.
pub proof fn law_refused_actions_change_nothing(
    m: ManagerModel,
    id: Seq<char>,
    generation: u64,
    action: WorkflowAction,
    current: SnapshotModel,
    update: Option<UpdateModel>,
    now_ms: u64,
)
    ensures
        ({
            let step = m.begin_move(id, generation, action, false);
            let known = m.workflows.contains_key(id);
            let fresh = known && m.workflows[id].generation == generation;
            let free = fresh && manager::allowed(m.workflows[id].status, action);
            &&& step.0 == m
            &&& !known ==> step.1 == ActionModel::Finish(Err(NOT_FOUND@))
            &&& known && !fresh ==> step.1 == ActionModel::Finish(Err(STALE@))
            &&& fresh && !free ==> step.1 == ActionModel::Finish(Err(NOT_ALLOWED@))
            &&& free <==> step.1 is MoveRuntime
        }),
        ({
            let point = PointModel::Moving { current, action, removing: false };
            let step = m.advanced(point, updated(update), now_ms);
            let id = current.workflow_id;
            let known = m.workflows.contains_key(id);
            let fresh = known && m.workflows[id].generation == current.generation;
            let same = fresh && m.workflows[id].status == current.status
                && m.workflows[id].updated_at_ms == current.updated_at_ms;
            &&& step.0 == m
            &&& update is None ==> step.1 == ActionModel::Finish(
                Err(
                    match action {
                        WorkflowAction::Pause => "workflow runtime pause failed"@,
                        WorkflowAction::Resume => "workflow runtime resume failed"@,
                        WorkflowAction::Cancel => "workflow runtime cancellation failed"@,
                        WorkflowAction::Integrate => "workflow runtime integration failed"@,
                    },
                ),
            )
            &&& update matches Some(u) ==> {
                let fits = manager::outcome_fits(action, u.status);
                &&& !fits ==> step.1 == ActionModel::Finish(Err(INVALID_STATUS@))
                &&& fits && !known ==> step.1 == ActionModel::Finish(Err(NOT_FOUND@))
                &&& fits && known && !fresh ==> step.1 == ActionModel::Finish(Err(STALE@))
                &&& fits && fresh && !same ==> step.1 == ActionModel::Finish(Err(STALE_RESULT@))
                &&& fits && same <==> step.1 is WriteRecord
            }
        }),
{
}

/// A record that cannot be written is put back as it was, on disk and in
/// memory, and the caller learns whether the disk took it.
pub proof fn law_an_unsaved_record_is_put_back(
    m: ManagerModel,
    current: SnapshotModel,
    next: SnapshotModel,
    purpose: manager::PurposeModel,
    again: bool,
    now_ms: u64,
)
    requires
        !(purpose is Lifecycle),
    ensures
        ({
            let first = m.advanced(
                PointModel::Replacing { current, next, purpose },
                outcome(false),
                now_ms,
            );
            let second = first.0.advanced(first.2, outcome(again), now_ms);
            &&& first.1 == ActionModel::WriteRecord(current)
            &&& second.0 == m
            &&& again ==> second.1 == ActionModel::Finish(Err(UPDATE_UNSAVED@))
            &&& !again ==> second.1 == ActionModel::Finish(Err(UPDATE_STUCK@))
        }),
{
}

/// A workflow that completes by itself is merged back at once, by the same
/// rules as if a caller had asked for it.
pub proof fn law_completion_starts_integration(
    m: ManagerModel,
    id: Seq<char>,
    u: UpdateModel,
    now_ms: u64,
    later_ms: u64,
)
    requires
        m.workflows.contains_key(id),
        m.workflows[id].workflow_id == id,
        !m.creating.contains_key(id),
        manager::projection_fits(m.workflows[id].status, u.status),
    ensures
        ({
            let old = m.workflows[id];
            let first = m.begin_projection(id, old.generation, u, now_ms);
            let second = first.0.advanced(first.2, outcome(true), later_ms);
            let new = second.0.workflows[id];
            let completes = old.status != WorkflowStatus::Completed && u.status
                == WorkflowStatus::Completed && old.integration == IntegrationModel::NotIntegrated;
            &&& completes ==> second.1 == ActionModel::MoveRuntime(WorkflowAction::Integrate, new)
            &&& !completes ==> second.1 == ActionModel::Finish(Ok(seq![new]))
        }),
{
}

/// Observers are told of a new status if and only if it is new, and then before
/// the record itself is told; what they were told before stays.
pub proof fn law_changes_are_told(m: ManagerModel, current: SnapshotModel, next: SnapshotModel)
    ensures
        ({
            let told = m.told_of(current, next).events;
            let n = m.events.len() as int;
            &&& told.take(n) == m.events
            &&& current.status == next.status ==> told.len() == n + 1
            &&& current.status != next.status ==> told.len() == n + 2 && told[n]
                == (EventModel::StatusChanged {
                workflow_id: next.workflow_id,
                generation: next.generation,
                status: next.status,
            })
            &&& told.last() == (EventModel::Updated { snapshot: next })
        }),
{
    assert(m.told_of(current, next).events.take(m.events.len() as int) =~= m.events);
}

// ---------------------------------------------------------------------------
// Creation
// ---------------------------------------------------------------------------

/// A creation with a free name and an objective makes a runtime, writes the
/// first record, selects the workflow, and tells of it; the record is queued, of
/// the first generation, with what the runtime is known by, and its name is no
/// longer reserved. Nothing else changes.
pub proof fn law_creation_ends_in_a_selected_workflow(
    m: ManagerModel,
    raw_name: Seq<char>,
    raw_objective: Seq<char>,
    id: Seq<char>,
    identity: RuntimeIdentityModel,
    now_ms: u64,
)
    requires
        text::trimmed(raw_name).len() > 0,
        text::trimmed(raw_objective).len() > 0,
        !m.names.contains(text::trimmed(raw_name)),
        forall|other: Seq<char>| #[trigger]
            m.workflows.contains_key(other) ==> m.workflows[other].name != text::trimmed(raw_name),
        !m.creating.contains_key(id),
    ensures
        ({
            let a = m.begin_create(raw_name, raw_objective, id);
            let b = a.0.advanced(a.2, identified(Some(identity)), now_ms);
            let c = b.0.advanced(b.2, outcome(true), now_ms);
            let d = c.0.advanced(c.2, outcome(true), now_ms);
            let new = d.0.workflows[id];
            &&& a.1 matches ActionModel::CreateRuntime(request) && {
                &&& request.workflow_id == id
                &&& request.name == text::trimmed(raw_name)
                &&& request.objective == text::trimmed(raw_objective)
                &&& request.generation == 1
            }
            &&& a.0.names == m.names.insert(text::trimmed(raw_name))
            &&& a.0.workflows == m.workflows
            &&& b.1 == ActionModel::WriteRecord(new)
            &&& c.1 == ActionModel::WriteSelection(Some(id))
            &&& d.1 == ActionModel::Finish(Ok(seq![new]))
            &&& new.workflow_id == id
            &&& new.name == text::trimmed(raw_name)
            &&& new.objective == text::trimmed(raw_objective)
            &&& new.status == WorkflowStatus::Queued
            &&& new.created_at_ms == now_ms
            &&& new.updated_at_ms == now_ms
            &&& new.generation == 1
            &&& new.todo == identity.todo
            &&& new.worktree_label == identity.worktree_label
            &&& new.branch == identity.branch
            &&& new.supervisor_agent_id == identity.supervisor_agent_id
            &&& new.supervisor_job_id == identity.supervisor_job_id
            &&& new.failure is None
            &&& new.integration == IntegrationModel::NotIntegrated
            &&& d.0.workflows == m.workflows.insert(id, new)
            &&& d.0.selected == Some(id)
            &&& d.0.names == m.names
            &&& d.0.creating == m.creating
            &&& d.0.events == m.events.push(EventModel::Created { snapshot: new })
            &&& d.0.diagnostics == m.diagnostics
        }),
{
    let a = m.begin_create(raw_name, raw_objective, id);
    let b = a.0.advanced(a.2, identified(Some(identity)), now_ms);
    let c = b.0.advanced(b.2, outcome(true), now_ms);
    let d = c.0.advanced(c.2, outcome(true), now_ms);
    assert(d.0.names =~= m.names);
    assert(d.0.creating =~= m.creating);
}

/// A creation is refused, with nothing changed, if and only if the name or the
/// objective is blank or the name is in use or reserved, and tells which.
pub proof fn law_creations_are_refused(
    m: ManagerModel,
    raw_name: Seq<char>,
    raw_objective: Seq<char>,
    id: Seq<char>,
)
    ensures
        ({
            let step = m.begin_create(raw_name, raw_objective, id);
            let name = text::trimmed(raw_name);
            let blank = text::trimmed(raw_objective).len() == 0;
            let used = m.names.contains(name) || exists|other: Seq<char>|
                m.workflows.contains_key(other) && (#[trigger] m.workflows[other]).name == name;
            &&& name.len() == 0 ==> step.1 == ActionModel::Finish(Err(EMPTY_NAME@))
            &&& name.len() > 0 && blank ==> step.1 == ActionModel::Finish(Err(EMPTY_OBJECTIVE@))
            &&& name.len() > 0 && !blank && used ==> step.1 == ActionModel::Finish(Err(NAME_TAKEN@))
            &&& name.len() > 0 && !blank && !used <==> step.1 is CreateRuntime
            &&& !(step.1 is CreateRuntime) ==> step.0 == m
        }),
{
}

/// A runtime that cannot be made ends the creation with nothing but the name and
/// the place of the workflow given back.
pub proof fn law_a_runtime_that_cannot_be_made_ends_the_creation(
    m: ManagerModel,
    id: Seq<char>,
    name: Seq<char>,
    objective: Seq<char>,
    now_ms: u64,
)
    ensures
        ({
            let step = m.advanced(
                PointModel::Creating { workflow_id: id, name, objective },
                identified(None),
                now_ms,
            );
            &&& step.1 == ActionModel::Finish(Err(CREATE_FAILED@))
            &&& step.0.names == m.names.remove(name)
            &&& step.0.creating == m.creating.remove(id)
            &&& step.0.workflows == m.workflows
            &&& step.0.selected == m.selected
            &&& step.0.events == m.events
        }),
{
}

/// A creation whose record or selection cannot be written is undone: the record
/// goes, the prior selection comes back where it was touched, the runtime goes,
/// the name is free again, and the caller learns whether all of that worked.
pub proof fn law_an_unsaved_creation_is_undone(
    m: ManagerModel,
    s: SnapshotModel,
    prior: Option<Seq<char>>,
    selecting: bool,
    x: bool,
    y: bool,
    z: bool,
    now_ms: u64,
)
    ensures
        ({
            let point = if selecting {
                PointModel::Selecting { snapshot: s, prior }
            } else {
                PointModel::Saving { snapshot: s, prior }
            };
            let a = m.advanced(point, outcome(false), now_ms);
            let b = a.0.advanced(a.2, outcome(x), now_ms);
            let c = if selecting {
                b.0.advanced(b.2, outcome(y), now_ms)
            } else {
                b
            };
            let d = c.0.advanced(c.2, outcome(z), now_ms);
            let clean = x && z && (selecting ==> y);
            &&& a.1 == ActionModel::RemoveRecord(s.workflow_id)
            &&& selecting ==> b.1 == ActionModel::WriteSelection(prior)
            &&& c.1 == ActionModel::RemoveRuntime(s)
            &&& clean ==> d.1 == ActionModel::Finish(Err(CREATE_UNSAVED@))
            &&& !clean ==> d.1 == ActionModel::Finish(Err(CREATE_STUCK@))
            &&& d.0.names == m.names.remove(s.name)
            &&& d.0.creating == m.creating.remove(s.workflow_id)
            &&& d.0.workflows == m.workflows
            &&& d.0.selected == m.selected
            &&& d.0.events == m.events
        }),
{
}

// ---------------------------------------------------------------------------
// Selection
// ---------------------------------------------------------------------------

/// Selecting a workflow writes and remembers exactly that workflow, and hands
/// its record out; selecting none forgets the selection; an unknown one is
/// refused.
pub proof fn law_selection_is_remembered(
    m: ManagerModel,
    target: Option<Seq<char>>,
    now_ms: u64,
)
    ensures
        ({
            let a = m.begin_select(target);
            let b = a.0.advanced(a.2, outcome(true), now_ms);
            let known = match target {
                Some(id) => m.workflows.contains_key(id),
                None => true,
            };
            &&& a.0 == m
            &&& !known ==> a.1 == ActionModel::Finish(Err(NOT_FOUND@))
            &&& known ==> a.1 == ActionModel::WriteSelection(target) && b.0.selected == target
                && b.0.workflows == m.workflows && b.0.events == m.events && b.0.names == m.names
                && b.0.creating == m.creating
            &&& target is None ==> b.1 == ActionModel::Finish(Ok(Seq::empty()))
            &&& known && target is Some ==> b.1 == ActionModel::Finish(
                Ok(seq![m.workflows[target->0]]),
            )
        }),
{
}

/// A selection that cannot be written leaves the prior one in place, on disk and
/// in memory, and the caller learns whether the disk took it.
pub proof fn law_an_unsaved_selection_is_put_back(
    m: ManagerModel,
    target: Option<Seq<char>>,
    again: bool,
    now_ms: u64,
)
    requires
        target matches Some(id) ==> m.workflows.contains_key(id),
    ensures
        ({
            let a = m.begin_select(target);
            let b = a.0.advanced(a.2, outcome(false), now_ms);
            let c = b.0.advanced(b.2, outcome(again), now_ms);
            &&& b.1 == ActionModel::WriteSelection(m.selected)
            &&& c.0 == m
            &&& again ==> c.1 == ActionModel::Finish(Err(SELECT_UNSAVED@))
            &&& !again ==> c.1 == ActionModel::Finish(Err(SELECT_STUCK@))
        }),
{
}

// ---------------------------------------------------------------------------
// Removal
// ---------------------------------------------------------------------------

/// Removing a settled workflow removes its runtime, gives the selection up if
/// and only if it was on this workflow, removes the record, and tells of it.
/// Every other workflow stays.
pub proof fn law_removal_takes_the_workflow_away(m: ManagerModel, id: Seq<char>, now_ms: u64)
    requires
        m.workflows.contains_key(id),
        m.workflows[id].workflow_id == id,
        m.workflows[id].status == WorkflowStatus::Completed || m.workflows[id].status
            == WorkflowStatus::Failed || m.workflows[id].status == WorkflowStatus::Cancelled
            || m.workflows[id].status == WorkflowStatus::Conflicted,
    ensures
        ({
            let old = m.workflows[id];
            let chosen = m.selected == Some(id);
            let a = m.begin_remove(id, old.generation);
            let b = a.0.advanced(a.2, outcome(true), now_ms);
            let c = if chosen {
                b.0.advanced(b.2, outcome(true), now_ms)
            } else {
                b
            };
            let d = c.0.advanced(c.2, outcome(true), now_ms);
            &&& a.1 == ActionModel::RemoveRuntime(old)
            &&& chosen ==> b.1 == ActionModel::WriteSelection(None)
            &&& c.1 == ActionModel::RemoveRecord(id)
            &&& c.0 == m
            &&& d.1 == ActionModel::Finish(Ok(seq![old]))
            &&& d.0.workflows == m.workflows.remove(id)
            &&& chosen ==> d.0.selected is None
            &&& !chosen ==> d.0.selected == m.selected
            &&& d.0.events == m.events.push(
                EventModel::Removed { workflow_id: id, generation: old.generation },
            )
            &&& d.0.names == m.names
            &&& d.0.creating == m.creating
        }),
{
}

/// An active workflow is cancelled before it is removed, and removed right after
/// it was; where the cancellation fails, the caller is told so, and why.
pub proof fn law_active_workflows_are_cancelled_before_removal(
    m: ManagerModel,
    id: Seq<char>,
    u: UpdateModel,
    now_ms: u64,
)
    requires
        m.workflows.contains_key(id),
        m.workflows[id].workflow_id == id,
        m.workflows[id].status == WorkflowStatus::Queued || m.workflows[id].status
            == WorkflowStatus::Planning || m.workflows[id].status == WorkflowStatus::Running
            || m.workflows[id].status == WorkflowStatus::Integrating || m.workflows[id].status
            == WorkflowStatus::Paused,
        u.status == WorkflowStatus::Cancelled,
    ensures
        ({
            let old = m.workflows[id];
            let a = m.begin_remove(id, old.generation);
            let b = a.0.advanced(a.2, updated(Some(u)), now_ms);
            let c = b.0.advanced(b.2, outcome(true), now_ms);
            let failed = a.0.advanced(a.2, updated(None), now_ms);
            &&& a.1 == ActionModel::MoveRuntime(WorkflowAction::Cancel, old)
            &&& c.0.workflows[id].status == WorkflowStatus::Cancelled
            &&& b.1 == ActionModel::WriteRecord(c.0.workflows[id])
            &&& c.1 == ActionModel::RemoveRuntime(c.0.workflows[id])
            &&& failed.0 == m
            &&& failed.1 == ActionModel::Finish(
                Err(NOT_CANCELLED@ + "workflow runtime cancellation failed"@),
            )
        }),
{
}

/// A removal whose record cannot be removed is undone: the record is written as
/// it was, the prior selection too where it was given up, and the runtime is
/// restored from the record; memory never changed.
pub proof fn law_an_unfinished_removal_is_undone(
    m: ManagerModel,
    s: SnapshotModel,
    prior: Option<Seq<char>>,
    clear: bool,
    x: bool,
    y: bool,
    back: Option<RuntimeIdentityModel>,
    now_ms: u64,
)
    ensures
        ({
            let a = m.advanced(
                PointModel::Erasing { snapshot: s, prior, clear },
                outcome(false),
                now_ms,
            );
            let b = a.0.advanced(a.2, outcome(x), now_ms);
            let c = if clear {
                b.0.advanced(b.2, outcome(y), now_ms)
            } else {
                b
            };
            let d = c.0.advanced(c.2, identified(back), now_ms);
            let clean = x && (clear ==> y) && back is Some;
            &&& a.1 == ActionModel::WriteRecord(s)
            &&& clear ==> b.1 == ActionModel::WriteSelection(prior)
            &&& c.1 matches ActionModel::RestoreRuntime(request, record) && {
                &&& record == s
                &&& request.workflow_id == s.workflow_id
                &&& request.name == s.name
                &&& request.objective == s.objective
                &&& request.generation == s.generation
            }
            &&& d.0 == m
            &&& clean ==> d.1 == ActionModel::Finish(Err(REMOVE_UNSAVED@))
            &&& !clean ==> d.1 == ActionModel::Finish(Err(REMOVE_STUCK@))
        }),
        ({
            let a = m.advanced(
                PointModel::Deselecting { snapshot: s, prior },
                outcome(false),
                now_ms,
            );
            &&& a.0 == m
            &&& a.1 == ActionModel::WriteSelection(prior)
            &&& a.2 == (PointModel::Reselecting { snapshot: s, failed: false })
        }),
        m.advanced(PointModel::RemovingRuntime { snapshot: s }, outcome(false), now_ms) == (
            m,
            ActionModel::Finish(Err(REMOVE_FAILED@)),
            PointModel::Over,
        ),
{
}

// ---------------------------------------------------------------------------
// Restoring
// ---------------------------------------------------------------------------

/// Restoring asks for the runtime of the first workflow of the list that has not
/// settled, by what its record says, and passes settled ones over.
pub proof fn law_restoring_asks_for_the_next_active_workflow(
    m: ManagerModel,
    id: Seq<char>,
    rest: Seq<(Seq<char>, u64)>,
    restored: Seq<SnapshotModel>,
)
    requires
        m.workflows.contains_key(id),
    ensures
        ({
            let s = m.workflows[id];
            let list = seq![(id, s.generation)] + rest;
            let step = m.restore_next(list, restored);
            let settled = s.status == WorkflowStatus::Completed || s.status
                == WorkflowStatus::Failed || s.status == WorkflowStatus::Cancelled || s.status
                == WorkflowStatus::Conflicted;
            &&& settled ==> step == m.restore_next(rest, restored)
            &&& !settled ==> step.0 == m && step.2 == (PointModel::Restoring {
                snapshot: s,
                rest,
                restored,
            }) && (step.1 matches ActionModel::RestoreRuntime(request, record) && {
                &&& record == s
                &&& request.workflow_id == s.workflow_id
                &&& request.name == s.name
                &&& request.objective == s.objective
                &&& request.generation == s.generation
            })
        }),
        m.restore_next(Seq::empty(), restored) == (
            m,
            ActionModel::Finish(Ok(restored)),
            PointModel::Over,
        ),
{
    let s = m.workflows[id];
    let list = seq![(id, s.generation)] + rest;
    assert(list.skip(1) =~= rest);
    reveal_with_fuel(ManagerModel::restore_next, 2);
}

/// A restored runtime gives the record its todo, worktree, branch and supervisor
/// ids, and nothing else but the time; a runtime that could not be restored
/// fails the workflow and says so, and changes nothing else but the time.
pub proof fn law_restored_records_keep_the_workflow(
    m: ManagerModel,
    s: SnapshotModel,
    rest: Seq<(Seq<char>, u64)>,
    restored: Seq<SnapshotModel>,
    identity: Option<RuntimeIdentityModel>,
    now_ms: u64,
)
    ensures
        ({
            let step = m.advanced(
                PointModel::Restoring { snapshot: s, rest, restored },
                identified(identity),
                now_ms,
            );
            &&& step.0 == m
            &&& step.1 matches ActionModel::WriteRecord(new) && {
                &&& new.workflow_id == s.workflow_id
                &&& new.name == s.name
                &&& new.objective == s.objective
                &&& new.created_at_ms == s.created_at_ms
                &&& new.updated_at_ms == now_ms
                &&& new.generation == s.generation
                &&& new.integration == s.integration
                &&& identity matches Some(i) ==> {
                    &&& new.status == s.status
                    &&& new.failure == s.failure
                    &&& new.todo == i.todo
                    &&& new.worktree_label == i.worktree_label
                    &&& new.branch == i.branch
                    &&& new.supervisor_agent_id == i.supervisor_agent_id
                    &&& new.supervisor_job_id == i.supervisor_job_id
                }
                &&& identity is None ==> {
                    &&& new.status == WorkflowStatus::Failed
                    &&& new.failure == Some("workflow runtime recovery failed"@)
                    &&& new.todo == s.todo
                    &&& new.worktree_label == s.worktree_label
                    &&& new.branch == s.branch
                    &&& new.supervisor_agent_id == s.supervisor_agent_id
                    &&& new.supervisor_job_id == s.supervisor_job_id
                }
            }
        }),
{
}

/// A restored workflow is among the restored ones that are handed out; one that
/// could not be restored is not, but its new status is told. Both are kept, and
/// restoring goes on with the rest.
pub proof fn law_restoring_goes_on(
    m: ManagerModel,
    s: SnapshotModel,
    next: SnapshotModel,
    restored: Seq<SnapshotModel>,
    worked: bool,
    now_ms: u64,
)
    ensures
        ({
            let step = m.advanced(
                PointModel::Replacing {
                    current: s,
                    next,
                    purpose: manager::PurposeModel::Restored {
                        worked,
                        rest: Seq::empty(),
                        restored,
                    },
                },
                outcome(true),
                now_ms,
            );
            &&& step.0.workflows == m.workflows.insert(next.workflow_id, next)
            &&& worked ==> step.1 == ActionModel::Finish(Ok(restored.push(next)))
                && step.0.events == m.events.push(EventModel::Updated { snapshot: next })
            &&& !worked ==> step.1 == ActionModel::Finish(Ok(restored)) && step.0.events
                == m.told_of(s, next).events
        }),
{
}

/// A workflow whose runtime came back is told among the restored ones once its
/// record is written. One whose runtime did not is not.
pub proof fn law_restored_workflows_are_told(
    m: ManagerModel,
    s: SnapshotModel,
    restored: Seq<SnapshotModel>,
    identity: Option<RuntimeIdentityModel>,
    now_ms: u64,
    later_ms: u64,
)
    ensures
        ({
            let asked = m.advanced(
                PointModel::Restoring { snapshot: s, rest: Seq::empty(), restored },
                identified(identity),
                now_ms,
            );
            let step = asked.0.advanced(asked.2, outcome(true), later_ms);
            &&& asked.1 is WriteRecord
            &&& identity is Some ==> step.1 == ActionModel::Finish(
                Ok(restored.push(asked.1->WriteRecord_0)),
            )
            &&& identity is None ==> step.1 == ActionModel::Finish(Ok(restored))
        }),
{
}

/// Whether a workflow still has something to do.
pub open spec fn active(status: WorkflowStatus) -> bool {
    match status {
        WorkflowStatus::Queued | WorkflowStatus::Planning | WorkflowStatus::Running
        | WorkflowStatus::Integrating | WorkflowStatus::Paused => true,
        WorkflowStatus::Completed | WorkflowStatus::Failed | WorkflowStatus::Cancelled
        | WorkflowStatus::Conflicted => false,
    }
}

/// The workflows to restore are those of the records that are still active, in
/// the order of the records, each with the generation of its record.
pub proof fn law_active_workflows_are_restored(s: Seq<SnapshotModel>)
    ensures
        manager::unsettled(s, s.len()) == s.filter(|r: SnapshotModel| active(r.status)).map_values(
            |r: SnapshotModel| (r.workflow_id, r.generation),
        ),
{
    lemma_active(s, s.len());
    assert(s.take(s.len() as int) =~= s);
}

proof fn lemma_active(s: Seq<SnapshotModel>, n: nat)
    requires
        n <= s.len(),
    ensures
        manager::unsettled(s, n) == s.take(n as int).filter(
            |r: SnapshotModel| active(r.status),
        ).map_values(|r: SnapshotModel| (r.workflow_id, r.generation)),
    decreases n,
{
    broadcast use Seq::lemma_filter_push;

    let p = |r: SnapshotModel| active(r.status);
    let f = |r: SnapshotModel| (r.workflow_id, r.generation);
    if n > 0 {
        lemma_active(s, (n - 1) as nat);
        assert(s.take(n as int) =~= s.take(n - 1).push(s[n - 1]));
        assert(manager::unsettled(s, n) =~= s.take(n as int).filter(p).map_values(f));
    } else {
        reveal(Seq::filter);
        assert(manager::unsettled(s, n) =~= s.take(0).filter(p).map_values(f));
    }
}

// ---------------------------------------------------------------------------
// Lists
// ---------------------------------------------------------------------------

/// A list of the workflows holds every record once, older ones before newer
/// ones, and those of one moment in the order of their ids.
pub proof fn law_lists_are_in_order_of_age(w: TextMap<WorkflowSnapshot>)
    ensures
        manager::in_order(w).to_multiset() == manager::in_key_order(w).to_multiset(),
        manager::in_order(w).len() == w.keys().len(),
        forall|i: int, j: int|
            0 <= i < j < manager::in_order(w).len() ==> {
                let a = #[trigger] manager::in_order(w)[i];
                let b = #[trigger] manager::in_order(w)[j];
                a.created_at_ms < b.created_at_ms || (a.created_at_ms == b.created_at_ms
                    && !sort::text_before(b.workflow_id, a.workflow_id))
            },
{
    sort::lemma_stable_sorted(manager::in_key_order(w));
}

/// Of the records that loading gave, the last one of an id counts, and only ids
/// of records are known.
pub proof fn law_the_last_record_of_an_id_counts(
    front: Seq<SnapshotModel>,
    record: SnapshotModel,
    back: Seq<SnapshotModel>,
)
    requires
        forall|j: int|
            0 <= j < back.len() ==> (#[trigger] back[j]).workflow_id != record.workflow_id,
    ensures
        manager::by_id(front.push(record) + back).contains_key(record.workflow_id),
        manager::by_id(front.push(record) + back)[record.workflow_id] == record,
    decreases back.len(),
{
    let all = front.push(record) + back;
    if back.len() > 0 {
        let shorter = back.drop_last();
        assert forall|j: int| 0 <= j < shorter.len() implies (#[trigger] shorter[j]).workflow_id
            != record.workflow_id by {
            assert(shorter[j] == back[j]);
        }
        law_the_last_record_of_an_id_counts(front, record, shorter);
        assert(all.drop_last() =~= front.push(record) + shorter);
        assert(all.last() == back[back.len() - 1]);
    } else {
        assert(all =~= front.push(record));
        assert(all.drop_last() =~= front);
    }
}

/// An id that no record has is not known.
pub proof fn law_only_recorded_ids_are_known(records: Seq<SnapshotModel>, id: Seq<char>)
    requires
        forall|j: int| 0 <= j < records.len() ==> (#[trigger] records[j]).workflow_id != id,
    ensures
        !manager::by_id(records).contains_key(id),
    decreases records.len(),
{
    if records.len() > 0 {
        let front = records.drop_last();
        assert forall|j: int| 0 <= j < front.len() implies (#[trigger] front[j]).workflow_id
            != id by {
            assert(front[j] == records[j]);
        }
        law_only_recorded_ids_are_known(front, id);
        assert(records.last() == records[records.len() - 1]);
    }
}

/// An update of another generation than the one in the making is stale. It is
/// refused, and nothing is kept of it. So is one that would be no progress.
pub proof fn law_stale_early_updates_are_refused(
    m: ManagerModel,
    id: Seq<char>,
    generation: u64,
    u: UpdateModel,
    now_ms: u64,
)
    requires
        m.creating.contains_key(id),
    ensures
        ({
            let step = m.begin_projection(id, generation, u, now_ms);
            let c = m.creating[id];
            &&& c.generation != generation ==> step == m.fail(manager::STALE@)
            &&& c.generation == generation && !manager::projection_fits(c.status, u.status) ==> step
                == m.fail(manager::INVALID_PROJECTION@)
            &&& c.generation == generation && manager::projection_fits(c.status, u.status) ==> {
                &&& step.1 == ActionModel::Finish(Ok(Seq::empty()))
                &&& step.0.creating[id].projection == Some(u)
                &&& step.0.creating[id].status == u.status
                &&& step.0.creating[id].generation == generation
                &&& step.0.workflows == m.workflows && step.0.events == m.events
            }
        }),
{
}

/// A report is taken once. Where there is none, nothing changes, and the reports
/// of other workflows stay.
pub proof fn law_reports_are_taken_once(m: ManagerModel, id: Seq<char>, other: Seq<char>)
    ensures
        m.pending(id) is None ==> m.taken(id) == m,
        m.taken(id).pending(id) is None,
        other != id ==> m.taken(id).pending(other) == m.pending(other),
        m.taken(id).creating.contains_key(other) <==> m.creating.contains_key(other),
        m.creating.contains_key(id) ==> m.taken(id).creating[id].status == m.creating[id].status
            && m.taken(id).creating[id].generation == m.creating[id].generation,
        m.taken(id).workflows == m.workflows && m.taken(id).events == m.events,
{
}

} // verus!
