//! What the supervisor of a workflow promises.

use crate::text;
use crate::workflow::supervisor;
use crate::workflow::supervisor::{
    ActionModel, ActorModel, Admission, ApplicationEvent, BackendModel, BackendReply, EventModel,
    FramePoint, PlanningTurnOutcome, PointModel, SupervisorRequest, TurnEvent, TurnEndModel,
    WorkflowSupervisorActivityKind, WorkflowSupervisorContract, WorkflowSupervisorTodoObservation,
};
use crate::workflow::todo;
use crate::workflow::todo::{
    JobStatus, MailboxMessage, PhaseModel, TaskModel, TodoDagExecutionStatus, TodoStatus,
    WorkflowJobSnapshot,
};
use crate::workflow::WorkflowStatus;
use vstd::prelude::*;
use vstd::string::*;

verus! {

// ---------------------------------------------------------------------------
// Worker jobs
// ---------------------------------------------------------------------------

/// Whether a job report is about this workflow and generation, as far as it says.
pub open spec fn reports_own_job(s: ActorModel, job: WorkflowJobSnapshot) -> bool {
    &&& match job.workflow_id {
        Some(id) => id@ == s.contract.workflow_id@,
        None => true,
    }
    &&& match job.workflow_generation {
        Some(generation) => generation == s.contract.generation,
        None => true,
    }
}

/// A Todo task is only ever marked done for a job of this very workflow that
/// completed within its budget, while the workflow runs, and it is the job's own
/// task. No backend reply marks one.
pub proof fn law_only_completed_jobs_close_tasks(
    s: ActorModel,
    request: SupervisorRequest,
    point: FramePoint,
    reply: BackendReply,
    b: BackendModel,
    task: Seq<char>,
)
    ensures
        s.opened(request, b).1 == ActionModel::MarkDone(task) ==> {
            &&& s.status == WorkflowStatus::Running
            &&& !s.planning_in_flight
            &&& request matches SupervisorRequest::ApplicationEvent {
                generation,
                event: ApplicationEvent::JobUpdated { job },
            }
            &&& generation == s.contract.generation
            &&& reports_own_job(s, job)
            &&& job.status == JobStatus::Completed
            &&& !job.soft_budget_exhausted
            &&& job.todo_task_id matches Some(id)
            &&& id@ == task
        },
        s.advanced(point, reply, b).1 !is MarkDone,
{
}

/// What a job report leads to in a running workflow: a completed job closes its
/// task; one that failed, was cancelled or has no task has the DAG reconciled;
/// partial work and unfinished work leave the DAG alone.
pub proof fn law_job_reports_drive_the_dag(
    s: ActorModel,
    job: WorkflowJobSnapshot,
    b: BackendModel,
)
    requires
        s.status == WorkflowStatus::Running,
        !s.planning_in_flight,
        reports_own_job(s, job),
    ensures
        ({
            let step = s.opened(
                SupervisorRequest::ApplicationEvent {
                    generation: s.contract.generation,
                    event: ApplicationEvent::JobUpdated { job },
                },
                b,
            );
            &&& job.status == JobStatus::Completed && !job.soft_budget_exhausted
                && job.todo_task_id is Some ==> step.0 == s && step.1 == ActionModel::MarkDone(
                job.todo_task_id->0@,
            ) && step.2 == PointModel::MarkingDone
            &&& job.status == JobStatus::Completed && !job.soft_budget_exhausted
                && job.todo_task_id is None ==> step.0 == s && step.1 == ActionModel::Reconcile
                && step.2 == PointModel::Reconciling
            &&& job.status == JobStatus::Failed || job.status == JobStatus::Cancelled ==> step.0
                == s && step.1 == ActionModel::Reconcile && step.2 == PointModel::Reconciling
            &&& job.status == JobStatus::Queued || job.status == JobStatus::Running || (job.status
                == JobStatus::Completed && job.soft_budget_exhausted) ==> step.1 is Finish
                && step.0.status == supervisor::backend_status(b) && step.0.failure == s.failure
        }),
{
}

/// A report of another workflow's job, or of another generation, changes nothing
/// and calls for nothing.
pub proof fn law_foreign_jobs_are_ignored(
    s: ActorModel,
    generation: u64,
    job: WorkflowJobSnapshot,
    b: BackendModel,
)
    requires
        !reports_own_job(s, job) || generation != s.contract.generation,
    ensures
        ({
            let step = s.opened(
                SupervisorRequest::ApplicationEvent {
                    generation,
                    event: ApplicationEvent::JobUpdated { job },
                },
                b,
            );
            step.0 == s && step.1 == (ActionModel::Finish {
                result: Ok(Seq::empty()),
                keep_deferred: true,
            })
        }),
{
}

/// Outside a running workflow, and while a prompt is awaited, a job report never
/// touches the DAG; a paused workflow stays paused, and one that plans keeps its
/// status.
pub proof fn law_job_reports_wait_for_execution(
    s: ActorModel,
    job: WorkflowJobSnapshot,
    b: BackendModel,
)
    requires
        s.status != WorkflowStatus::Running || s.planning_in_flight,
    ensures
        ({
            let step = s.opened(
                SupervisorRequest::ApplicationEvent {
                    generation: s.contract.generation,
                    event: ApplicationEvent::JobUpdated { job },
                },
                b,
            );
            &&& step.1 == (ActionModel::Finish { result: Ok(Seq::empty()), keep_deferred: true })
            &&& s.status == WorkflowStatus::Paused || s.planning_in_flight ==> step.0.status
                == s.status
        }),
{
}

/// Marking a task done is followed by reconciling the DAG, whether it worked or
/// not, and reconciling by the status that the DAG then shows.
pub proof fn law_closing_a_task_reconciles_the_dag(
    s: ActorModel,
    reply: BackendReply,
    b: BackendModel,
)
    requires
        reply is Done || reply is Failed,
    ensures
        s.advanced(FramePoint::MarkingDone, reply, b) == (
            s,
            ActionModel::Reconcile,
            PointModel::Reconciling,
        ),
        s.advanced(FramePoint::Reconciling, reply, b).1 == (ActionModel::Finish {
            result: Ok(Seq::empty()),
            keep_deferred: true,
        }),
        s.advanced(FramePoint::Reconciling, reply, b).0.status == supervisor::backend_status(b),
{
}

// ---------------------------------------------------------------------------
// The status that the DAG shows
// ---------------------------------------------------------------------------

/// Whether the DAG holds an open task.
pub open spec fn has_open_task(todo: Seq<PhaseModel>) -> bool {
    exists|i: int, j: int|
        0 <= i < todo.len() && 0 <= j < todo[i].tasks.len() && (#[trigger] todo[i].tasks[j]).status
            != TodoStatus::Completed && todo[i].tasks[j].status != TodoStatus::Abandoned
}

/// Whether the DAG holds any task.
pub open spec fn has_task(todo: Seq<PhaseModel>) -> bool {
    exists|i: int| 0 <= i < todo.len() && (#[trigger] todo[i]).tasks.len() != 0
}

proof fn lemma_tasks(todo: Seq<PhaseModel>)
    ensures
        has_task(todo) == todo::has_any_task(todo),
        has_open_task(todo) == !todo::all_closed(todo),
{
    if has_open_task(todo) {
        let (i, j) = choose|i: int, j: int|
            0 <= i < todo.len() && 0 <= j < todo[i].tasks.len() && (
            #[trigger] todo[i].tasks[j]).status != TodoStatus::Completed
                && todo[i].tasks[j].status != TodoStatus::Abandoned;
        assert(!todo::task_closed(todo[i].tasks[j]));
    }
    if !todo::all_closed(todo) {
        let (i, j) = choose|i: int, j: int|
            0 <= i < todo.len() && 0 <= j < todo[i].tasks.len() && !todo::task_closed(
                #[trigger] todo[i].tasks[j],
            );
        assert(todo[i].tasks[j].status != TodoStatus::Completed);
    }
}

/// A workflow is completed exactly when its DAG holds tasks, none of them open,
/// and nothing runs any more; it has failed when the DAG is blocked, or settled
/// without that; it plans while there is no task at all.
pub proof fn law_status_follows_the_dag(b: BackendModel)
    ensures
        supervisor::backend_status(b) == WorkflowStatus::Completed <==> has_task(b.todo)
            && !has_open_task(b.todo) && (b.dag == TodoDagExecutionStatus::Settled || b.dag
            == TodoDagExecutionStatus::Dormant),
        supervisor::backend_status(b) == WorkflowStatus::Failed <==> b.dag
            == TodoDagExecutionStatus::Blocked || (b.dag == TodoDagExecutionStatus::Settled && (
        has_open_task(b.todo) || !has_task(b.todo))),
        supervisor::backend_status(b) == WorkflowStatus::Running <==> b.dag
            == TodoDagExecutionStatus::Active || (b.dag == TodoDagExecutionStatus::Dormant
            && has_open_task(b.todo)),
        supervisor::backend_status(b) == WorkflowStatus::Planning <==> b.dag
            == TodoDagExecutionStatus::Dormant && !has_task(b.todo),
{
    lemma_tasks(b.todo);
    if has_open_task(b.todo) {
        let (i, j) = choose|i: int, j: int|
            0 <= i < b.todo.len() && 0 <= j < b.todo[i].tasks.len() && (
            #[trigger] b.todo[i].tasks[j]).status != TodoStatus::Completed
                && b.todo[i].tasks[j].status != TodoStatus::Abandoned;
        assert(b.todo[i].tasks.len() > 0);
    }
}

// ---------------------------------------------------------------------------
// Requests
// ---------------------------------------------------------------------------

/// A fresh supervisor is idle and clean: nothing failed, nothing planned, nothing
/// shown, nothing published. It is made exactly for a contract whose texts are
/// not blank and that allows a job.
pub proof fn law_a_supervisor_starts_clean(
    contract: WorkflowSupervisorContract,
    status: WorkflowStatus,
    now_ms: u64,
)
    ensures
        contract.refusal() is None <==> !text::blank(contract.workflow_id@) && !text::blank(
            contract.worktree_label@,
        ) && !text::blank(contract.objective@) && !text::blank(contract.supervisor_agent_id@)
            && contract.max_concurrency > 0,
        ({
            let s = supervisor::fresh(contract, status, now_ms);
            &&& s.contract == contract
            &&& s.status == status
            &&& s.failure is None
            &&& !s.planning_in_flight && !s.plan_committed
            &&& !s.suppress_abort_failure && !s.non_progress_tripped
            &&& s.activity.len() == 0 && s.outbox.len() == 0
            &&& s.planning_started_at_ms == if status == WorkflowStatus::Planning {
                Some(now_ms)
            } else {
                None
            }
        }),
        supervisor::restorable(status) <==> !status.terminal() && status
            != WorkflowStatus::Integrating,
{
}

/// Starting a queued workflow checks its objective and moves it to planning; a
/// workflow in any other status is left alone.
pub proof fn law_start_plans_a_queued_workflow(s: ActorModel, b: BackendModel)
    ensures
        s.status == WorkflowStatus::Queued ==> {
            let step = s.opened(SupervisorRequest::Start, b);
            &&& step.0.status == WorkflowStatus::Planning
            &&& step.0.contract == s.contract
            &&& step.0.planning_started_at_ms is Some
            &&& step.1 == ActionModel::ValidateObjective(s.contract.objective@)
            &&& step.2 == PointModel::Validating { announce: true }
        },
        s.status != WorkflowStatus::Queued ==> s.opened(SupervisorRequest::Start, b).0 == s
            && s.opened(SupervisorRequest::Start, b).1 is Finish,
{
}

/// A pause is asked of the backend for every workflow that is neither settled
/// nor paused, and takes effect exactly when the backend did it.
pub proof fn law_pause_pauses(s: ActorModel, message: String, b: BackendModel)
    ensures
        !s.status.terminal() && s.status != WorkflowStatus::Paused ==> s.opened(
            SupervisorRequest::Pause,
            b,
        ) == (s, ActionModel::Pause, PointModel::Pausing),
        s.status.terminal() || s.status == WorkflowStatus::Paused ==> s.opened(
            SupervisorRequest::Pause,
            b,
        ).0 == s && s.opened(SupervisorRequest::Pause, b).1 is Finish,
        s.advanced(FramePoint::Pausing, BackendReply::Done, b).0.status
            == WorkflowStatus::Paused,
        s.advanced(FramePoint::Pausing, BackendReply::Failed(message), b).0 == s,
        s.advanced(FramePoint::Pausing, BackendReply::Failed(message), b).1
            == (ActionModel::Finish { result: Err(message@), keep_deferred: true }),
{
}

/// A resumed workflow goes on with its tasks where it has any, and plans where
/// it has none; one that is queued or settled is left alone.
pub proof fn law_resume_goes_on(s: ActorModel, b: BackendModel)
    ensures
        ({
            let step = s.opened(SupervisorRequest::Resume, b);
            let planned = has_task(b.todo);
            &&& s.status == WorkflowStatus::Paused && planned ==> step == (
                s,
                ActionModel::Resume,
                PointModel::Resuming,
            )
            &&& s.status == WorkflowStatus::Running && planned ==> step == (
                s,
                ActionModel::ExecuteDag,
                PointModel::Executing,
            )
            &&& (s.status == WorkflowStatus::Planning || (!planned && (s.status
                == WorkflowStatus::Paused || s.status == WorkflowStatus::Running))) ==> step == (
                s,
                ActionModel::ValidateObjective(s.contract.objective@),
                PointModel::Validating { announce: false },
            )
            &&& s.status.terminal() || s.status == WorkflowStatus::Queued || s.status
                == WorkflowStatus::Integrating ==> step.0 == s && step.1 is Finish
        }),
        s.advanced(FramePoint::Resuming, BackendReply::Done, b).0.status
            == supervisor::backend_status(b),
{
    lemma_tasks(b.todo);
}

/// A restored workflow goes on by itself: a queued one starts, a planning one
/// plans, a running one executes; a paused or settled one waits.
pub proof fn law_restored_workflows_go_on(s: ActorModel, b: BackendModel)
    ensures
        s.status == WorkflowStatus::Queued ==> s.opened(SupervisorRequest::RestoreContinue, b)
            == s.opened(SupervisorRequest::Start, b),
        s.status == WorkflowStatus::Planning || s.status == WorkflowStatus::Running ==> s.opened(
            SupervisorRequest::RestoreContinue,
            b,
        ) == s.opened(SupervisorRequest::Resume, b),
        s.status == WorkflowStatus::Paused || s.status.terminal() ==> s.opened(
            SupervisorRequest::RestoreContinue,
            b,
        ).0 == s && s.opened(SupervisorRequest::RestoreContinue, b).1 is Finish,
{
}

/// A cancel stops the jobs of a workflow that has not settled, and ends in the
/// cancelled status with the ids of the jobs; where stopping them fails, nothing
/// has changed.
pub proof fn law_cancel_cancels(
    s: ActorModel,
    ids: Vec<String>,
    message: String,
    b: BackendModel,
)
    ensures
        !s.status.terminal() ==> s.opened(SupervisorRequest::Cancel, b) == (
            s,
            ActionModel::CancelJobs,
            PointModel::Cancelling,
        ),
        s.advanced(FramePoint::Cancelling, BackendReply::Cancelled(ids), b).0.status
            == WorkflowStatus::Cancelled,
        s.advanced(FramePoint::Cancelling, BackendReply::Cancelled(ids), b).1
            == (ActionModel::Finish { result: Ok(text::texts(ids@)), keep_deferred: true }),
        s.advanced(FramePoint::Cancelling, BackendReply::Failed(message), b).0 == s,
        s.advanced(FramePoint::Cancelling, BackendReply::Failed(message), b).1
            == (ActionModel::Finish { result: Err(message@), keep_deferred: true }),
{
}

/// A message for the supervisor is handed over as it is, and refused once the
/// workflow has settled. Steering never moves the workflow.
pub proof fn law_steering_hands_the_message_over(
    s: ActorModel,
    message: String,
    reply: BackendReply,
    b: BackendModel,
)
    requires
        reply is Done || reply is Failed,
    ensures
        !s.status.terminal() ==> s.opened(SupervisorRequest::Steer(message), b) == (
            s,
            ActionModel::Steer(message@),
            PointModel::Steering,
        ),
        s.status.terminal() ==> s.opened(SupervisorRequest::Steer(message), b).0 == s && (s.opened(
            SupervisorRequest::Steer(message),
            b,
        ).1 matches ActionModel::Finish { result, .. } && result is Err),
        s.advanced(FramePoint::Steering, reply, b).0.status == s.status,
        s.advanced(FramePoint::Steering, reply, b).0.failure == s.failure,
{
}

/// A failed run fails the workflow with its message, once, unless the run was
/// aborted on purpose; a delivered message is announced to observers unchanged.
pub proof fn law_run_failures_fail_the_workflow(
    s: ActorModel,
    message: String,
    note: MailboxMessage,
    b: BackendModel,
)
    requires
        !s.status.terminal(),
    ensures
        ({
            let step = s.opened(
                SupervisorRequest::ApplicationEvent {
                    generation: s.contract.generation,
                    event: ApplicationEvent::RunFailed { message },
                },
                b,
            );
            &&& !s.suppress_abort_failure ==> {
                &&& step.0.status == WorkflowStatus::Failed
                &&& step.0.failure == Some(message@)
                &&& step.0.outbox.last() == (EventModel::Failed {
                    workflow_id: s.contract.workflow_id@,
                    generation: s.contract.generation,
                    message: message@,
                })
            }
            &&& s.suppress_abort_failure ==> step.0.status == s.status && step.0.failure
                == s.failure && !step.0.suppress_abort_failure
        }),
        ({
            let step = s.opened(
                SupervisorRequest::ApplicationEvent {
                    generation: s.contract.generation,
                    event: ApplicationEvent::MessageDelivered { message: note },
                },
                b,
            );
            &&& step.0.outbox.last() == (EventModel::IrcDelivered {
                workflow_id: s.contract.workflow_id@,
                generation: s.contract.generation,
                message: note,
            })
            &&& step.1 == ActionModel::Redact(note.body@)
            &&& step.0.status == s.status
        }),
{
}

// ---------------------------------------------------------------------------
// What observers see
// ---------------------------------------------------------------------------

/// Every move to another status is told to observers: first what the workflow
/// looks like now, then the new status. What was published before stays.
pub proof fn law_moves_are_published(s: ActorModel, status: WorkflowStatus, b: BackendModel)
    ensures
        ({
            let after = s.with_status(status, b);
            let n = s.outbox.len() as int;
            &&& after.status == status
            &&& after.failure == s.failure && after.contract == s.contract && after.activity
                == s.activity
            &&& after.outbox.take(n) == s.outbox
            &&& after.outbox[n] matches EventModel::ProjectionChanged { projection }
            &&& projection.status == status
            &&& projection.workflow_id == s.contract.workflow_id@
            &&& projection.generation == s.contract.generation
            &&& projection.supervisor_agent_id == s.contract.supervisor_agent_id@
            &&& projection.todo == b.todo && projection.jobs == b.jobs && projection.irc == b.irc
            &&& projection.failure == s.failure && projection.activity == s.activity
            &&& projection.planning_started_at_ms == after.planning_started_at_ms
            &&& after.planning_started_at_ms is Some <==> status == WorkflowStatus::Planning
            &&& status == WorkflowStatus::Planning ==> after.planning_started_at_ms
                == match s.planning_started_at_ms {
                Some(at) => Some(at),
                None => Some(b.now_ms),
            }
            &&& s.status == status ==> after.outbox.len() == n + 1
            &&& s.status != status ==> after.outbox.len() == n + 2 && after.outbox[n + 1]
                == (EventModel::StatusChanged {
                workflow_id: s.contract.workflow_id@,
                generation: s.contract.generation,
                status,
            })
        }),
{
    let after = s.with_status(status, b);
    assert(after.outbox.take(s.outbox.len() as int) =~= s.outbox);
}

/// The activity feed shows the newest entry last, with its time, its kind and the
/// start of its text, behind the newest of the entries before it.
pub proof fn law_activity_is_shown_newest_last(
    s: ActorModel,
    kind: WorkflowSupervisorActivityKind,
    t: Seq<char>,
    b: BackendModel,
)
    requires
        s.activity.len() <= 12,
    ensures
        ({
            let feed = s.with_activity(kind, t, b).activity;
            &&& feed.len() == if s.activity.len() < 12 { s.activity.len() + 1 } else { 12 }
            &&& feed.last().at_ms == b.now_ms
            &&& feed.last().kind == kind
            &&& feed.last().text.len() <= 240
            &&& feed.last().text.is_prefix_of(t)
            &&& t.len() <= 240 ==> feed.last().text == t
            &&& t.len() > 240 ==> feed.last().text.len() == 240
            &&& forall|i: int|
                0 <= i < feed.len() - 1 ==> #[trigger] feed[i] == s.activity[i + s.activity.len()
                    + 1 - feed.len()]
        }),
        s.with_activity(kind, t, b).status == s.status,
        s.with_activity(kind, t, b).outbox.len() == s.outbox.len() + 1,
        s.with_activity(kind, t, b).outbox.last() matches EventModel::ProjectionChanged {
            projection,
        } && projection.activity == s.with_activity(kind, t, b).activity && projection.status
            == s.status,
{
    let cut = text::first_chars(t, 240);
    assert(cut =~= t.take(cut.len() as int));
}

// ---------------------------------------------------------------------------
// Planning
// ---------------------------------------------------------------------------

/// The prompts name the workflow they plan, and the first one its objective.
pub proof fn law_prompts_name_the_workflow(c: WorkflowSupervisorContract, d: WorkflowSupervisorContract)
    ensures
        c.workflow_id@ == d.workflow_id@ && c.initial_text() == d.initial_text() ==> c.objective@
            == d.objective@,
        c.objective@ == d.objective@ && c.initial_text() == d.initial_text() ==> c.workflow_id@
            == d.workflow_id@,
        c.replan_text() == d.replan_text() ==> c.workflow_id@ == d.workflow_id@,
        supervisor::INITIAL_INSTRUCTIONS@.is_suffix_of(c.initial_text()),
        supervisor::REPLAN_INSTRUCTIONS@.is_suffix_of(c.replan_text()),
{
    let tail = supervisor::INITIAL_INSTRUCTIONS@;
    let head = "You plan workflow "@ + c.workflow_id@ + ". Objective: "@ + c.objective@;
    assert(c.initial_text() =~= head + tail);
    assert(c.initial_text().skip(head.len() as int) =~= tail);
    let mid = ". Objective: "@;
    let first = "You plan workflow "@;
    if c.initial_text() == d.initial_text() {
        if c.workflow_id@ == d.workflow_id@ {
            let front = first + c.workflow_id@ + mid;
            lemma_middle(front, c.objective@, d.objective@, tail);
        }
        if c.objective@ == d.objective@ {
            assert(c.initial_text() =~= first + c.workflow_id@ + (mid + c.objective@ + tail));
            assert(d.initial_text() =~= first + d.workflow_id@ + (mid + c.objective@ + tail));
            lemma_middle(first, c.workflow_id@, d.workflow_id@, mid + c.objective@ + tail);
        }
    }
    let again = supervisor::REPLAN_INSTRUCTIONS@;
    let opening = "The planning turn for workflow "@;
    assert(c.replan_text().skip((opening + c.workflow_id@).len() as int) =~= again);
    if c.replan_text() == d.replan_text() {
        lemma_middle(opening, c.workflow_id@, d.workflow_id@, again);
    }
}

proof fn lemma_middle(front: Seq<char>, a: Seq<char>, b: Seq<char>, tail: Seq<char>)
    requires
        front + a + tail == front + b + tail,
    ensures
        a == b,
{
    let x = front + a + tail;
    let y = front + b + tail;
    assert(x.len() == front.len() + a.len() + tail.len());
    assert(a =~= x.subrange(front.len() as int, (front.len() + a.len()) as int));
    assert(b =~= y.subrange(front.len() as int, (front.len() + b.len()) as int));
}

/// Once the objective was accepted, the first prompt goes out with the counters
/// of the turn at zero; where it was not, the workflow fails with the reason.
pub proof fn law_planning_begins_with_the_first_prompt(
    s: ActorModel,
    announce: bool,
    message: String,
    b: BackendModel,
)
    requires
        !s.status.terminal(),
    ensures
        ({
            let step = s.advanced(FramePoint::Validating { announce }, BackendReply::Done, b);
            &&& step.1 == ActionModel::Prompt(s.contract.initial_text())
            &&& step.2 == PointModel::Planning { announce, second: false }
            &&& step.0.planning_in_flight && !step.0.plan_committed
            &&& !step.0.non_progress_tripped && step.0.non_progress_reason is None
            &&& step.0.identical_failed_ops == 0 && step.0.corrections_without_progress == 0
            &&& step.0.last_failed_fingerprint is None
            &&& step.0.last_todo_state_hash == Some(
                todo::default_hash_of(todo::hashed_todo(b.todo)),
            )
            &&& step.0.status == s.status && step.0.activity == s.activity && step.0.outbox
                == s.outbox
        }),
        ({
            let step = s.advanced(
                FramePoint::Validating { announce },
                BackendReply::Failed(message),
                b,
            );
            &&& step.0.status == WorkflowStatus::Failed
            &&& step.0.failure == Some(message@)
            &&& step.1 == (ActionModel::Finish { result: Ok(Seq::empty()), keep_deferred: false })
        }),
{
}

/// How a planning turn ends, for a workflow that has not settled meanwhile. Over
/// a plan, a turn that ended by itself arms it at once, and one that a bound
/// ended shows the bound first. Without a plan, a bound fails the workflow and
/// names itself; a turn that ended by itself is followed by the one other prompt,
/// and the second fails the workflow. Deferred requests run before it fails.
pub proof fn law_turns_end_in_a_plan_or_a_failure(
    s: ActorModel,
    announce: bool,
    second: bool,
    reason: String,
    b: BackendModel,
)
    requires
        !s.status.terminal(),
    ensures
        ({
            let point = FramePoint::Planning { announce, second };
            let done = s.advanced(point, BackendReply::Turn(PlanningTurnOutcome::Completed), b);
            let committed = s.advanced(
                point,
                BackendReply::Turn(PlanningTurnOutcome::PlanCommitted),
                b,
            );
            let late = s.advanced(point, BackendReply::Turn(PlanningTurnOutcome::TimedOut), b);
            let over = s.advanced(
                point,
                BackendReply::Turn(PlanningTurnOutcome::PlanBudgetReached { reason }),
                b,
            );
            &&& committed == done
            &&& has_task(b.todo) ==> {
                &&& done.1 == ActionModel::ExecuteDag
                &&& done.2 == PointModel::Arming { announce }
                &&& late.1 matches ActionModel::Redact(shown)
                &&& supervisor::DEADLINE_REASON@.is_prefix_of(shown)
                &&& late.2 == PointModel::Redacting { announce }
                &&& over.1 matches ActionModel::Redact(told)
                &&& reason@.is_prefix_of(told)
                &&& over.2 == PointModel::Redacting { announce }
            }
            &&& !has_task(b.todo) ==> {
                &&& !second ==> done.1 == ActionModel::Prompt(s.contract.replan_text()) && done.2
                    == PointModel::Planning { announce, second: true } && done.0.planning_in_flight
                &&& second ==> done.1 == ActionModel::FlushDeferred && done.2
                    == PointModel::Flushing { message: supervisor::NO_TASKS_FAILURE@ }
                &&& late.1 == ActionModel::FlushDeferred && late.2 == PointModel::Flushing {
                    message: supervisor::TIMED_OUT_FAILURE@,
                }
                &&& over.1 == ActionModel::FlushDeferred
                &&& over.2 matches PointModel::Flushing { message }
                &&& message == "planning stopped without a committed plan: "@ + reason@
                    + "; remove and re-create the workflow to retry"@
            }
            &&& has_task(b.todo) || second ==> !done.0.planning_in_flight
            &&& !late.0.planning_in_flight && !over.0.planning_in_flight
        }),
{
    lemma_tasks(b.todo);
    let tasks = todo::task_total(b.todo);
    lemma_preserved(supervisor::DEADLINE_REASON@, tasks);
    lemma_preserved(reason@, tasks);
}

proof fn lemma_preserved(reason: Seq<char>, tasks: nat)
    ensures
        reason.is_prefix_of(supervisor::preserved_text(reason, tasks)),
{
    let shown = supervisor::preserved_text(reason, tasks);
    assert(shown.take(reason.len() as int) =~= reason);
}

/// A failed prompt fails the workflow with its message, and the failure that was
/// held back while deferred requests ran is recorded as it was.
pub proof fn law_planning_failures_are_recorded(
    s: ActorModel,
    announce: bool,
    second: bool,
    message: String,
    b: BackendModel,
)
    requires
        !s.status.terminal(),
    ensures
        ({
            let prompt = s.advanced(
                FramePoint::Planning { announce, second },
                BackendReply::Failed(message),
                b,
            );
            let held = s.advanced(FramePoint::Flushing { message }, BackendReply::Done, b);
            let armed = s.advanced(
                FramePoint::Arming { announce },
                BackendReply::Failed(message),
                b,
            );
            let executed = s.advanced(FramePoint::Executing, BackendReply::Failed(message), b);
            &&& prompt.0.status == WorkflowStatus::Failed && prompt.0.failure == Some(message@)
            &&& !prompt.0.planning_in_flight
            &&& held.0.status == WorkflowStatus::Failed && held.0.failure == Some(message@)
            &&& armed.0.status == WorkflowStatus::Failed && armed.0.failure == Some(message@)
            &&& executed.0.status == WorkflowStatus::Failed && executed.0.failure == Some(message@)
        }),
{
}

/// Arming a plan ends in the status that the DAG shows, and a start that has not
/// settled is announced.
pub proof fn law_an_armed_plan_is_announced(s: ActorModel, announce: bool, b: BackendModel)
    requires
        !s.status.terminal(),
    ensures
        ({
            let step = s.advanced(FramePoint::Arming { announce }, BackendReply::Done, b);
            &&& step.0.status == supervisor::backend_status(b)
            &&& step.1 == (ActionModel::Finish { result: Ok(Seq::empty()), keep_deferred: true })
            &&& announce && !step.0.status.terminal() ==> step.0.outbox.last()
                == (EventModel::Started {
                workflow_id: s.contract.workflow_id@,
                generation: s.contract.generation,
            })
            &&& !announce || step.0.status.terminal() ==> step.0.outbox.last() !is Started
        }),
        s.advanced(FramePoint::Executing, BackendReply::Done, b).0.status
            == supervisor::backend_status(b),
{
}

/// The first successful `init` of a prompt ends planning at once: the workflow
/// runs. No other observation moves it.
pub proof fn law_the_first_plan_ends_planning(
    s: ActorModel,
    observation: WorkflowSupervisorTodoObservation,
    b: BackendModel,
)
    requires
        !s.status.terminal(),
        s.planning_in_flight,
    ensures
        ({
            let step = s.opened(
                SupervisorRequest::TodoObservation {
                    generation: s.contract.generation,
                    observation,
                },
                b,
            );
            let commits = !observation.is_error && (observation.op matches Some(op) && op@
                == "init"@);
            &&& step.0.plan_committed == (s.plan_committed || commits)
            &&& step.0.status == if commits && !s.plan_committed && s.status
                == WorkflowStatus::Planning {
                WorkflowStatus::Running
            } else {
                s.status
            }
            &&& step.1 is Finish
        }),
{
}

/// Planning is given up after three identical failed calls, or six failed calls
/// of any kind, without a change of the Todo state; a change starts the count
/// anew, and a call that worked without a change counts for nothing.
pub proof fn law_planning_gives_up_without_progress(
    s: ActorModel,
    o: WorkflowSupervisorTodoObservation,
    b: BackendModel,
)
    requires
        s.identical_failed_ops < 100,
        s.corrections_without_progress < 100,
    ensures
        ({
            let hash = todo::default_hash_of(todo::hashed_todo(b.todo));
            let after = s.progress_noted(o, b);
            let same = s.last_failed_fingerprint == Some(supervisor::fingerprint(o));
            &&& after.last_todo_state_hash == Some(hash)
            &&& after.status == s.status && after.activity == s.activity
            &&& s.last_todo_state_hash != Some(hash) ==> after.identical_failed_ops == 0
                && after.corrections_without_progress == 0 && after.last_failed_fingerprint is None
                && after.non_progress_tripped == s.non_progress_tripped
            &&& s.last_todo_state_hash == Some(hash) && !o.is_error ==> after == s
            &&& s.last_todo_state_hash == Some(hash) && o.is_error ==> {
                &&& after.last_failed_fingerprint == Some(supervisor::fingerprint(o))
                &&& after.corrections_without_progress == s.corrections_without_progress + 1
                &&& after.identical_failed_ops == if same {
                    s.identical_failed_ops + 1
                } else {
                    1
                }
                &&& !s.non_progress_tripped ==> (after.non_progress_tripped <==> (same
                    && s.identical_failed_ops >= 2) || s.corrections_without_progress >= 5)
                &&& after.non_progress_tripped && !s.non_progress_tripped ==>
                    after.non_progress_reason is Some
            }
        }),
{
    assert(s.last_todo_state_hash == Some(todo::default_hash_of(todo::hashed_todo(b.todo)))
        && !o.is_error ==> s.progress_noted(o, b) =~= s);
}

/// Failed calls that differ in their operation alone, or in their error alone,
/// are told apart.
pub proof fn law_different_failures_are_told_apart(
    a: WorkflowSupervisorTodoObservation,
    c: WorkflowSupervisorTodoObservation,
)
    requires
        text::texts(a.target_ids@) == text::texts(c.target_ids@),
        a.op is Some,
        c.op is Some,
        a.error_prefix is Some,
        c.error_prefix is Some,
    ensures
        a.op->0@ == c.op->0@ ==> (supervisor::fingerprint(a) == supervisor::fingerprint(c)
            <==> a.error_prefix->0@ == c.error_prefix->0@),
        a.error_prefix->0@ == c.error_prefix->0@ ==> (supervisor::fingerprint(a)
            == supervisor::fingerprint(c) <==> a.op->0@ == c.op->0@),
{
    let list = crate::render::debug_list_of(text::texts(a.target_ids@));
    let mid = "|"@ + list + "|"@;
    let x = supervisor::fingerprint(a);
    let y = supervisor::fingerprint(c);
    assert(x =~= a.op->0@ + mid + a.error_prefix->0@);
    assert(y =~= c.op->0@ + mid + c.error_prefix->0@);
    if x == y {
        if a.op->0@ == c.op->0@ {
            let none = Seq::<char>::empty();
            assert(x =~= (a.op->0@ + mid) + a.error_prefix->0@ + none);
            assert(y =~= (a.op->0@ + mid) + c.error_prefix->0@ + none);
            lemma_middle(a.op->0@ + mid, a.error_prefix->0@, c.error_prefix->0@, none);
        }
        if a.error_prefix->0@ == c.error_prefix->0@ {
            let none = Seq::<char>::empty();
            assert(x =~= none + a.op->0@ + (mid + a.error_prefix->0@));
            assert(y =~= none + c.op->0@ + (mid + a.error_prefix->0@));
            lemma_middle(none, a.op->0@, c.op->0@, mid + a.error_prefix->0@);
        }
    }
}

/// What interrupts a prompt: the deadline ends the turn as timed out, lost
/// convergence ends it with the reason that was found, and a prompt that ended or
/// failed by itself ends it as it did.
pub proof fn law_turn_events_tell_how_the_turn_ended(
    s: ActorModel,
    outcome: PlanningTurnOutcome,
    message: String,
)
    ensures
        s.turn_stepped(TurnEvent::Deadline).1.end == Some(TurnEndModel::TimedOut),
        s.turn_stepped(TurnEvent::Deadline).0.suppress_abort_failure,
        s.turn_stepped(TurnEvent::Ended(outcome)).0 == s,
        !s.turn_stepped(TurnEvent::Ended(outcome)).1.abort,
        (outcome is Completed) == (s.turn_stepped(TurnEvent::Ended(outcome)).1.end == Some(
            TurnEndModel::Completed,
        )),
        (outcome is PlanCommitted) == (s.turn_stepped(TurnEvent::Ended(outcome)).1.end == Some(
            TurnEndModel::PlanCommitted,
        )),
        (outcome is TimedOut) == (s.turn_stepped(TurnEvent::Ended(outcome)).1.end == Some(
            TurnEndModel::TimedOut,
        )),
        outcome matches PlanningTurnOutcome::PlanBudgetReached { reason } ==> s.turn_stepped(
            TurnEvent::Ended(outcome),
        ).1.end == Some(TurnEndModel::PlanBudgetReached { reason: reason@ }),
        s.turn_stepped(TurnEvent::Failed(message)).1.end == Some(TurnEndModel::Failed(message@)),
        s.turn_stepped(TurnEvent::Closed).1.end is None,
        !s.turn_stepped(TurnEvent::Closed).1.listening,
        s.non_progress_tripped ==> {
            let step = s.turn_stepped(TurnEvent::Admitted(Admission::HandleThenCheck));
            &&& !step.0.non_progress_tripped && step.0.non_progress_reason is None
            &&& step.0.suppress_abort_failure
            &&& s.non_progress_reason matches Some(reason) ==> step.1.end == Some(
                TurnEndModel::PlanBudgetReached { reason },
            )
        },
        !s.non_progress_tripped ==> s.turn_stepped(
            TurnEvent::Admitted(Admission::HandleThenCheck),
        ).0 == s,
        s.turn_stepped(TurnEvent::Admitted(Admission::HandleThenAbort)).0.suppress_abort_failure,
        s.turn_stepped(TurnEvent::Admitted(Admission::Handle)).0 == s,
        s.turn_stepped(TurnEvent::Admitted(Admission::Defer)).0 == s,
{
}

/// A planning prompt is aborted at its deadline, after a cancel, and once planning
/// no longer converges, and in no other case. The turn goes on listening while
/// nothing has ended it.
pub proof fn law_prompts_are_aborted_for_a_reason(
    s: ActorModel,
    outcome: PlanningTurnOutcome,
    message: String,
)
    ensures
        s.turn_stepped(TurnEvent::Deadline).1.abort,
        !s.turn_stepped(TurnEvent::Deadline).1.listening,
        !s.turn_stepped(TurnEvent::Ended(outcome)).1.listening,
        !s.turn_stepped(TurnEvent::Failed(message)).1.listening,
        !s.turn_stepped(TurnEvent::Failed(message)).1.abort,
        s.turn_stepped(TurnEvent::Failed(message)).0 == s,
        !s.turn_stepped(TurnEvent::Closed).1.abort,
        s.turn_stepped(TurnEvent::Closed).0 == s,
        ({
            let step = s.turn_stepped(TurnEvent::Admitted(Admission::HandleThenAbort)).1;
            step.abort && step.listening && step.end is None
        }),
        ({
            let step = s.turn_stepped(TurnEvent::Admitted(Admission::HandleThenCheck)).1;
            &&& step.abort <==> s.non_progress_tripped
            &&& step.listening <==> !s.non_progress_tripped
            &&& step.end is Some <==> s.non_progress_tripped
            &&& s.non_progress_tripped && s.non_progress_reason is None ==> step.end == Some(
                TurnEndModel::PlanBudgetReached { reason: "planning is not converging"@ },
            )
        }),
        ({
            let step = s.turn_stepped(TurnEvent::Admitted(Admission::Handle)).1;
            !step.abort && step.listening && step.end is None
        }),
        ({
            let step = s.turn_stepped(TurnEvent::Admitted(Admission::Defer)).1;
            !step.abort && step.listening && step.end is None
        }),
{
}

/// A failure settles the workflow as failed, with its message, and is told last.
/// A workflow that is settled already stays as it is.
pub proof fn law_failures_settle_what_is_not_settled(
    s: ActorModel,
    message: Seq<char>,
    b: BackendModel,
)
    ensures
        ({
            let after = s.failed(message, b);
            let settled = s.status == WorkflowStatus::Completed || s.status
                == WorkflowStatus::Failed || s.status == WorkflowStatus::Cancelled || s.status
                == WorkflowStatus::Conflicted;
            &&& settled ==> after == s
            &&& !settled ==> {
                &&& after.status == WorkflowStatus::Failed
                &&& after.failure == Some(message)
                &&& after.outbox.len() > s.outbox.len()
                &&& after.outbox.last() == (supervisor::EventModel::Failed {
                    workflow_id: s.contract.workflow_id@,
                    generation: s.contract.generation,
                    message,
                })
            }
        }),
{
}

/// Whether an answer settles the caller and drops what was put off.
pub open spec fn settles_and_drops(action: supervisor::ActionModel) -> bool {
    action == (supervisor::ActionModel::Finish { result: Ok(Seq::empty()), keep_deferred: false })
}

/// A backend that fails while the workflow is checked, planned, armed or executed
/// fails the workflow, and what was put off is dropped. So does a failure that
/// was held back until everything put off was told.
pub proof fn law_backend_failures_fail_the_workflow(
    s: ActorModel,
    announce: bool,
    second: bool,
    message: String,
    b: BackendModel,
)
    ensures
        ({
            let step = s.advanced(
                supervisor::FramePoint::Validating { announce },
                supervisor::BackendReply::Failed(message),
                b,
            );
            step.0 == s.failed(message@, b) && settles_and_drops(step.1)
        }),
        ({
            let step = s.advanced(
                supervisor::FramePoint::Arming { announce },
                supervisor::BackendReply::Failed(message),
                b,
            );
            step.0 == s.failed(message@, b) && settles_and_drops(step.1)
        }),
        ({
            let step = s.advanced(
                supervisor::FramePoint::Executing,
                supervisor::BackendReply::Failed(message),
                b,
            );
            step.0 == s.failed(message@, b) && settles_and_drops(step.1)
        }),
        ({
            let step = s.advanced(
                supervisor::FramePoint::Flushing { message },
                supervisor::BackendReply::Done,
                b,
            );
            step.0 == s.failed(message@, b) && settles_and_drops(step.1)
        }),
        ({
            let step = s.advanced(
                supervisor::FramePoint::Planning { announce, second },
                supervisor::BackendReply::Failed(message),
                b,
            );
            &&& !step.0.planning_in_flight
            &&& !s.status.terminal() ==> step.0.failure == Some(message@) && step.0.status
                == WorkflowStatus::Failed
            &&& s.status.terminal() ==> step.0.failure == s.failure && step.0.status == s.status
            &&& settles_and_drops(step.1)
        }),
{
}

/// A backend that fails at anything else is told to the caller, and the workflow
/// stays as it is.
pub proof fn law_other_backend_failures_are_told(s: ActorModel, message: String, b: BackendModel)
    ensures
        ({
            let told = supervisor::ActionModel::Finish {
                result: Err(message@),
                keep_deferred: true,
            };
            let failed = supervisor::BackendReply::Failed(message);
            let pausing = s.advanced(supervisor::FramePoint::Pausing, failed, b);
            let resuming = s.advanced(supervisor::FramePoint::Resuming, failed, b);
            let cancelling = s.advanced(supervisor::FramePoint::Cancelling, failed, b);
            let steering = s.advanced(supervisor::FramePoint::Steering, failed, b);
            &&& pausing.0 == s && pausing.1 == told
            &&& resuming.0 == s && resuming.1 == told
            &&& cancelling.0 == s && cancelling.1 == told
            &&& steering.0 == s && steering.1 == told
        }),
{
}

} // verus!
