//! Workflow-scoped supervisor: planning contract, lifecycle state machine and
//! the projections it publishes.
//!
//! The supervisor never touches its backend itself. [`SupervisorActor::open`]
//! takes a request and [`SupervisorActor::advance`] takes the backend's reply;
//! each says which backend call comes next. Published events collect in the
//! actor's outbox.

use crate::json;
use crate::json::{Json, JsonModel};
use crate::render;
use crate::render::debug_list;
use crate::text;
use crate::text::{clone_opt_text, decimal, is_blank, same_opt_text, same_text, take_chars};
use crate::workflow::todo;
use crate::workflow::todo::{
    clone_jobs, clone_messages, todo_has_any_task, todo_is_exactly_complete, todo_state_hash,
    todo_task_count, MailboxMessage, PhaseModel, TodoDagExecutionStatus, TodoState,
    WorkflowJobSnapshot,
};
use crate::workflow::{WorkflowStatus, WorkflowTaskOwnership};
use vstd::prelude::*;
use vstd::string::*;

verus! {

/// Bound on the live activity feed kept in the supervisor projection.
pub const SUPERVISOR_ACTIVITY_CAP: usize = 12;

/// Bound on a single activity entry's display text.
pub const SUPERVISOR_ACTIVITY_TEXT_CAP: usize = 240;

/// Maximum assistant turns in one bounded planning prompt.
pub const PLANNING_MAX_TURNS: usize = 8;

/// Maximum Todo/tool calls in one bounded planning prompt.
pub const PLANNING_MAX_TOOL_CALLS: usize = 16;

/// Default wall-clock budget for one planning prompt, in seconds.
pub const PLANNING_DEFAULT_DEADLINE_SECS: u64 = 90;

/// Identical failed Todo operations with no Todo-state change that terminate
/// planning as non-converging.
pub const PLANNING_IDENTICAL_FAILED_OP_LIMIT: usize = 3;

/// Total Todo corrections with no Todo-state change that terminate planning.
pub const PLANNING_CORRECTIONS_WITHOUT_PROGRESS_LIMIT: usize = 6;

/// Instructions that follow the objective in the first planning prompt.
pub const INITIAL_INSTRUCTIONS: &'static str = "\n\
    Work only in the current workflow Application cwd. During this planning phase, create the complete canonical Todo DAG \
    exactly once with the todo tool, then stop. Do not delegate workers, modify files, wait on jobs, or keep refining \
    after the plan is accepted. Use only task IDs returned by the todo tool (every task has a stable todoTaskId). \
    If the objective assigns work to a specific agent by name, PRESERVE that role as a typed routing contract: \
    pass an `agents` array in the matching todo init phase entry, parallel to `items` (agents[i] names the agent that \
    must execute items[i]), and also keep the agent's name in that task's content. Only use agents that are defined and \
    enabled in this workflow; do not invent agent names. \
    Every Todo task must be a single concise line of at most ~60 characters: a terse imperative title \
    (e.g. \"Bootstrap pi-zig sources\"), never a paragraph. The task content is the title the panel shows — \
    longer titles are truncated — so keep detail out of the title; split work into more granular tasks when needed. \
    Prefer a WIDE, parallel DAG: keep independent work in separate tasks with no dependency edges, because the executor \
    runs every ready task concurrently up to the configured concurrency limit. Reserve depends_on for genuine data or \
    control dependencies (a task consumes another's output, or must not start before it); never chain unrelated steps. \
    Aim for several ready tasks per execution wave so independent branches progress in parallel. \
    If the todo tool rejects the plan, make at most one corrected call; otherwise report the reason you cannot plan.";

/// Instructions that follow the workflow id in the second planning prompt.
pub const REPLAN_INSTRUCTIONS: &'static str = " produced no Todo tasks. \
    This is the final attempt: call the todo tool now to create the complete canonical Todo DAG exactly once, then stop. \
    Do not delegate workers, modify files, or keep refining after the plan is accepted. \
    Use only task IDs returned by the todo tool. \
    Give every Todo task a single concise title of at most ~60 characters — a terse imperative phrase \
    (e.g. \"Bootstrap pi-zig sources\"), never a paragraph: the title is what the panel shows and \
    longer titles are truncated, so keep detail out of the title. \
    Prefer a WIDE, parallel DAG: independent work stays in separate tasks with no dependency edges — the executor \
    runs every ready task concurrently up to its limit, so reserve depends_on for genuine data or control dependencies \
    and aim for several ready tasks per execution wave. \
    If the plan is rejected, make at most one corrected call; \
    otherwise report the reason you cannot plan.";

/// Typed outcome of one bounded planning prompt.
#[derive(Debug, PartialEq, Eq)]
pub enum PlanningTurnOutcome {
    /// The run ended naturally with no remaining tool calls.
    Completed,
    /// The run was terminated because a valid plan was committed.
    PlanCommitted,
    /// The run was stopped by the planning budget; `reason` names the bound.
    PlanBudgetReached { reason: String },
    /// The run was aborted by the wall-clock deadline.
    TimedOut,
}

/// Semantic fingerprint of one completed `todo` tool call during planning.
#[derive(Debug, PartialEq, Eq)]
pub struct WorkflowSupervisorTodoObservation {
    /// Normalized Todo operation name, when the arguments could be parsed.
    pub op: Option<String>,
    /// Target task/dependency IDs named by the call, in argument order.
    pub target_ids: Vec<String>,
    pub is_error: bool,
    /// Normalized, bounded error prefix for failed calls.
    pub error_prefix: Option<String>,
}

/// What a live activity entry shows.
#[derive(Clone, Copy, Debug, PartialEq, Eq, Structural)]
pub enum WorkflowSupervisorActivityKind {
    /// A coalesced model thinking chunk.
    Thinking,
    /// A coalesced reply-text chunk while the supervisor drafts its turn.
    Text,
    /// A tool call the supervisor started.
    Tool,
    /// A delivered IRC progress message.
    Irc,
}

/// One bounded entry of the supervisor's live activity feed.
#[derive(Debug, PartialEq, Eq)]
pub struct WorkflowSupervisorActivity {
    /// Epoch millis when the activity was observed.
    pub at_ms: u64,
    pub kind: WorkflowSupervisorActivityKind,
    /// Bounded, credential-redacted display text.
    pub text: String,
}

impl Clone for WorkflowSupervisorActivity {
    fn clone(&self) -> (r: Self)
        ensures
            r == *self,
    {
        WorkflowSupervisorActivity { at_ms: self.at_ms, kind: self.kind, text: self.text.clone() }
    }
}

/// The model of an activity entry.
#[verifier::ext_equal]
pub struct ActivityModel {
    pub at_ms: u64,
    pub kind: WorkflowSupervisorActivityKind,
    pub text: Seq<char>,
}

impl View for WorkflowSupervisorActivity {
    type V = ActivityModel;

    open spec fn view(&self) -> ActivityModel {
        ActivityModel { at_ms: self.at_ms, kind: self.kind, text: self.text@ }
    }
}

/// The model of an activity feed.
pub open spec fn feed(v: Seq<WorkflowSupervisorActivity>) -> Seq<ActivityModel> {
    v.map_values(|a: WorkflowSupervisorActivity| a@)
}

/// A copy of an activity feed.
pub fn clone_feed(v: &Vec<WorkflowSupervisorActivity>) -> (r: Vec<WorkflowSupervisorActivity>)
    ensures
        r@ == v@,
{
    let mut r: Vec<WorkflowSupervisorActivity> = Vec::new();
    let mut i: usize = 0;
    while i < v.len()
        invariant
            i <= v@.len(),
            r@ == v@.take(i as int),
        decreases v@.len() - i,
    {
        r.push(v[i].clone());
        assert(v@.take(i as int).push(v@[i as int]) =~= v@.take(i + 1));
        i += 1;
    }
    assert(v@.take(v@.len() as int) =~= v@);
    r
}

/// What a supervisor is bound to.
#[derive(Debug, PartialEq, Eq)]
pub struct WorkflowSupervisorContract {
    pub workflow_id: String,
    pub generation: u64,
    pub worktree_label: String,
    pub objective: String,
    pub supervisor_agent_id: String,
    pub max_concurrency: usize,
}

impl Clone for WorkflowSupervisorContract {
    fn clone(&self) -> (r: Self)
        ensures
            r == *self,
    {
        WorkflowSupervisorContract {
            workflow_id: self.workflow_id.clone(),
            generation: self.generation,
            worktree_label: self.worktree_label.clone(),
            objective: self.objective.clone(),
            supervisor_agent_id: self.supervisor_agent_id.clone(),
            max_concurrency: self.max_concurrency,
        }
    }
}

impl WorkflowSupervisorContract {
    /// Why the contract is refused, if it is.
    pub open spec fn refusal(self) -> Option<Seq<char>> {
        if text::blank(self.workflow_id@) {
            Some("workflow id must not be empty"@)
        } else if text::blank(self.worktree_label@) {
            Some("workflow worktree label must not be empty"@)
        } else if text::blank(self.objective@) {
            Some("workflow objective must not be empty"@)
        } else if text::blank(self.supervisor_agent_id@) {
            Some("workflow supervisor agent id must not be empty"@)
        } else if self.max_concurrency == 0 {
            Some("workflow max concurrency must be greater than zero"@)
        } else {
            None
        }
    }

    /// The first planning prompt.
    pub open spec fn initial_text(self) -> Seq<char> {
        "You plan workflow "@ + self.workflow_id@ + ". Objective: "@ + self.objective@
            + INITIAL_INSTRUCTIONS@
    }

    /// The second and last planning prompt.
    pub open spec fn replan_text(self) -> Seq<char> {
        "The planning turn for workflow "@ + self.workflow_id@ + REPLAN_INSTRUCTIONS@
    }

    /// Checks that every identifying text holds more than white space and that
    /// at least one job may run.
    pub fn validate(&self) -> (r: Result<(), String>)
        ensures
            match r {
                Ok(_) => self.refusal() is None,
                Err(message) => self.refusal() == Some(message@),
            },
    {
        if is_blank(self.workflow_id.as_str()) {
            return Err("workflow id must not be empty".to_owned());
        }
        if is_blank(self.worktree_label.as_str()) {
            return Err("workflow worktree label must not be empty".to_owned());
        }
        if is_blank(self.objective.as_str()) {
            return Err("workflow objective must not be empty".to_owned());
        }
        if is_blank(self.supervisor_agent_id.as_str()) {
            return Err("workflow supervisor agent id must not be empty".to_owned());
        }
        if self.max_concurrency == 0 {
            return Err("workflow max concurrency must be greater than zero".to_owned());
        }
        Ok(())
    }

    /// The first planning prompt.
    pub fn initial_prompt(&self) -> (r: String)
        ensures
            r@ == self.initial_text(),
    {
        "You plan workflow ".to_owned().concat(self.workflow_id.as_str()).concat(
            ". Objective: ",
        ).concat(self.objective.as_str()).concat(INITIAL_INSTRUCTIONS)
    }

    /// Bounded continuation prompt for a planning turn that produced no Todo
    /// tasks.
    pub fn replan_prompt(&self) -> (r: String)
        ensures
            r@ == self.replan_text(),
    {
        "The planning turn for workflow ".to_owned().concat(self.workflow_id.as_str()).concat(
            REPLAN_INSTRUCTIONS,
        )
    }
}

/// Whether ownership metadata places a task under a contract.
pub open spec fn owned_under(
    contract: WorkflowSupervisorContract,
    todo_task_id: Seq<char>,
    owner: WorkflowTaskOwnership,
) -> bool {
    &&& owner.workflow_id@ == contract.workflow_id@
    &&& owner.todo_task_id@ == todo_task_id
    &&& owner.generation == contract.generation
}

/// Ownership metadata for one task that the workflow delegates.
pub fn workflow_task_ownership(
    contract: &WorkflowSupervisorContract,
    todo_task_id: &str,
) -> (r: WorkflowTaskOwnership)
    ensures
        owned_under(*contract, todo_task_id@, r),
        r.workflow_id@ == contract.workflow_id@,
        r.todo_task_id@ == todo_task_id@,
        r.generation == contract.generation,
{
    WorkflowTaskOwnership {
        workflow_id: contract.workflow_id.clone(),
        todo_task_id: todo_task_id.to_owned(),
        generation: contract.generation,
    }
}

/// Whether a completed tool call committed a plan: a `todo` call without an
/// error whose details name the operation `init`.
pub open spec fn commits_plan(
    tool_name: Seq<char>,
    is_error: bool,
    details: Option<JsonModel>,
) -> bool {
    tool_name == "todo"@ && !is_error && details is Some && json::text_under(details->0, "op"@)
        == Some("init"@)
}

/// Whether a completed tool call is a successful `todo init`.
pub fn workflow_supervisor_todo_init_succeeded(
    tool_name: &str,
    is_error: bool,
    details: &Option<Json>,
) -> (r: bool)
    ensures
        r == commits_plan(
            tool_name@,
            is_error,
            match *details {
                Some(d) => Some(d@),
                None => None,
            },
        ),
{
    if is_error || !same_text(tool_name, "todo") {
        return false;
    }
    match details {
        None => false,
        Some(details) => match details.words_at("op") {
            Some(op) => same_text(op, "init"),
            None => false,
        },
    }
}

/// What the backend showed when the actor was last entered.
pub struct BackendView {
    pub now_ms: u64,
    pub todo: TodoState,
    pub dag: TodoDagExecutionStatus,
    pub jobs: Vec<WorkflowJobSnapshot>,
    pub irc: Vec<MailboxMessage>,
}

/// The model of a backend view.
#[verifier::ext_equal]
pub struct BackendModel {
    pub now_ms: u64,
    pub todo: Seq<PhaseModel>,
    pub dag: TodoDagExecutionStatus,
    pub jobs: Seq<WorkflowJobSnapshot>,
    pub irc: Seq<MailboxMessage>,
}

impl View for BackendView {
    type V = BackendModel;

    open spec fn view(&self) -> BackendModel {
        BackendModel {
            now_ms: self.now_ms,
            todo: self.todo@,
            dag: self.dag,
            jobs: self.jobs@,
            irc: self.irc@,
        }
    }
}

/// The lifecycle status that the backend's Todo DAG shows.
pub open spec fn backend_status(b: BackendModel) -> WorkflowStatus {
    match b.dag {
        TodoDagExecutionStatus::Active => WorkflowStatus::Running,
        TodoDagExecutionStatus::Settled => if todo::exactly_complete(b.todo) {
            WorkflowStatus::Completed
        } else {
            WorkflowStatus::Failed
        },
        TodoDagExecutionStatus::Blocked => WorkflowStatus::Failed,
        TodoDagExecutionStatus::Dormant => if todo::exactly_complete(b.todo) {
            WorkflowStatus::Completed
        } else if todo::has_any_task(b.todo) {
            WorkflowStatus::Running
        } else {
            WorkflowStatus::Planning
        },
    }
}

/// The lifecycle status that the backend's Todo DAG shows. A parked DAG with
/// open tasks is an actively worked workflow, not a planning one.
pub fn status_from_backend(b: &BackendView) -> (r: WorkflowStatus)
    ensures
        r == backend_status(b@),
{
    match b.dag {
        TodoDagExecutionStatus::Active => WorkflowStatus::Running,
        TodoDagExecutionStatus::Settled => if todo_is_exactly_complete(&b.todo) {
            WorkflowStatus::Completed
        } else {
            WorkflowStatus::Failed
        },
        TodoDagExecutionStatus::Blocked => WorkflowStatus::Failed,
        TodoDagExecutionStatus::Dormant => if todo_is_exactly_complete(&b.todo) {
            WorkflowStatus::Completed
        } else if todo_has_any_task(&b.todo) {
            WorkflowStatus::Running
        } else {
            WorkflowStatus::Planning
        },
    }
}

/// Live state of one workflow as published to observers.
#[derive(Debug, PartialEq, Eq)]
pub struct WorkflowSupervisorProjection {
    pub workflow_id: String,
    pub generation: u64,
    pub status: WorkflowStatus,
    pub supervisor_agent_id: String,
    pub todo: TodoState,
    pub jobs: Vec<WorkflowJobSnapshot>,
    pub irc: Vec<MailboxMessage>,
    pub failure: Option<String>,
    /// Bounded live activity feed, newest last.
    pub activity: Vec<WorkflowSupervisorActivity>,
    /// Epoch millis when the current planning phase started.
    pub planning_started_at_ms: Option<u64>,
}

/// The model of a projection.
#[verifier::ext_equal]
pub struct ProjectionModel {
    pub workflow_id: Seq<char>,
    pub generation: u64,
    pub status: WorkflowStatus,
    pub supervisor_agent_id: Seq<char>,
    pub todo: Seq<PhaseModel>,
    pub jobs: Seq<WorkflowJobSnapshot>,
    pub irc: Seq<MailboxMessage>,
    pub failure: Option<Seq<char>>,
    pub activity: Seq<ActivityModel>,
    pub planning_started_at_ms: Option<u64>,
}

impl View for WorkflowSupervisorProjection {
    type V = ProjectionModel;

    open spec fn view(&self) -> ProjectionModel {
        ProjectionModel {
            workflow_id: self.workflow_id@,
            generation: self.generation,
            status: self.status,
            supervisor_agent_id: self.supervisor_agent_id@,
            todo: self.todo@,
            jobs: self.jobs@,
            irc: self.irc@,
            failure: text::opt_text(self.failure),
            activity: feed(self.activity@),
            planning_started_at_ms: self.planning_started_at_ms,
        }
    }
}

/// The projection of the backend's state under the given lifecycle state.
pub fn project_backend(
    contract: &WorkflowSupervisorContract,
    backend: &BackendView,
    status: WorkflowStatus,
    failure: &Option<String>,
    activity: &Vec<WorkflowSupervisorActivity>,
    planning_started_at_ms: Option<u64>,
) -> (r: WorkflowSupervisorProjection)
    ensures
        r@ == (ProjectionModel {
            workflow_id: contract.workflow_id@,
            generation: contract.generation,
            status,
            supervisor_agent_id: contract.supervisor_agent_id@,
            todo: backend.todo@,
            jobs: backend.jobs@,
            irc: backend.irc@,
            failure: text::opt_text(*failure),
            activity: feed(activity@),
            planning_started_at_ms,
        }),
{
    WorkflowSupervisorProjection {
        workflow_id: contract.workflow_id.clone(),
        generation: contract.generation,
        status,
        supervisor_agent_id: contract.supervisor_agent_id.clone(),
        todo: backend.todo.clone(),
        jobs: clone_jobs(&backend.jobs),
        irc: clone_messages(&backend.irc),
        failure: clone_opt_text(failure),
        activity: clone_feed(activity),
        planning_started_at_ms,
    }
}

/// What the supervisor publishes.
#[derive(Debug, PartialEq, Eq)]
pub enum WorkflowSupervisorEvent {
    Started { workflow_id: String, generation: u64 },
    StatusChanged { workflow_id: String, generation: u64, status: WorkflowStatus },
    ProjectionChanged { projection: WorkflowSupervisorProjection },
    IrcDelivered { workflow_id: String, generation: u64, message: MailboxMessage },
    Failed { workflow_id: String, generation: u64, message: String },
}

/// The model of a published event.
#[verifier::ext_equal]
pub enum EventModel {
    Started { workflow_id: Seq<char>, generation: u64 },
    StatusChanged { workflow_id: Seq<char>, generation: u64, status: WorkflowStatus },
    ProjectionChanged { projection: ProjectionModel },
    IrcDelivered { workflow_id: Seq<char>, generation: u64, message: MailboxMessage },
    Failed { workflow_id: Seq<char>, generation: u64, message: Seq<char> },
}

impl View for WorkflowSupervisorEvent {
    type V = EventModel;

    open spec fn view(&self) -> EventModel {
        match *self {
            WorkflowSupervisorEvent::Started { workflow_id, generation } => EventModel::Started {
                workflow_id: workflow_id@,
                generation,
            },
            WorkflowSupervisorEvent::StatusChanged { workflow_id, generation, status } =>
            EventModel::StatusChanged { workflow_id: workflow_id@, generation, status },
            WorkflowSupervisorEvent::ProjectionChanged { projection } =>
            EventModel::ProjectionChanged { projection: projection@ },
            WorkflowSupervisorEvent::IrcDelivered { workflow_id, generation, message } =>
            EventModel::IrcDelivered { workflow_id: workflow_id@, generation, message },
            WorkflowSupervisorEvent::Failed { workflow_id, generation, message } =>
            EventModel::Failed { workflow_id: workflow_id@, generation, message: message@ },
        }
    }
}

/// The model of a list of published events.
pub open spec fn events(v: Seq<WorkflowSupervisorEvent>) -> Seq<EventModel> {
    v.map_values(|e: WorkflowSupervisorEvent| e@)
}

// ---------------------------------------------------------------------------
// Requests, backend calls and backend replies
// ---------------------------------------------------------------------------

/// Something the workflow application reported.
#[derive(Debug, PartialEq, Eq)]
pub enum ApplicationEvent {
    /// The agent run failed.
    RunFailed { message: String },
    /// A delegated job changed.
    JobUpdated { job: WorkflowJobSnapshot },
    /// A message was delivered.
    MessageDelivered { message: MailboxMessage },
    /// Anything else.
    Other,
}

/// What a caller asks of the supervisor.
#[derive(Debug, PartialEq, Eq)]
pub enum SupervisorRequest {
    Start,
    Pause,
    Resume,
    RestoreContinue,
    Cancel,
    Steer(String),
    ApplicationEvent { generation: u64, event: ApplicationEvent },
    /// Coalesced live activity from the supervisor's own turn.
    Activity { generation: u64, kind: WorkflowSupervisorActivityKind, text: String },
    /// Semantic `todo` tool observation from the supervisor's own turn.
    TodoObservation { generation: u64, observation: WorkflowSupervisorTodoObservation },
}

/// What the driver of the actor has to do next.
#[derive(Debug, PartialEq, Eq)]
pub enum SupervisorAction {
    /// Answer the request. Requests deferred during planning are processed
    /// afterwards where `keep_deferred` holds and dropped otherwise.
    Finish { result: Result<Vec<String>, String>, keep_deferred: bool },
    /// Check the agents that the objective names.
    ValidateObjective(String),
    /// Run one bounded planning prompt.
    Prompt(String),
    Pause,
    Resume,
    /// Cancel the workflow's active jobs.
    CancelJobs,
    Steer(String),
    /// Arm execution of the Todo DAG.
    ExecuteDag,
    /// Mark one Todo task done.
    MarkDone(String),
    /// Re-evaluate an armed Todo DAG.
    Reconcile,
    /// Strip credentials from an activity text; nothing shows it before.
    Redact(String),
    /// Process every deferred request now.
    FlushDeferred,
}

/// What came of the last action.
#[derive(Debug, PartialEq, Eq)]
pub enum BackendReply {
    Done,
    Failed(String),
    Cancelled(Vec<String>),
    Turn(PlanningTurnOutcome),
    Redacted(String),
}

/// Where the handling of one request stands while a backend call is out.
#[derive(Debug, PartialEq, Eq)]
pub enum FramePoint {
    Finished,
    Validating { announce: bool },
    Planning { announce: bool, second: bool },
    Redacting { announce: bool },
    Noting { kind: WorkflowSupervisorActivityKind, absorb: bool },
    Arming { announce: bool },
    Executing,
    Flushing { message: String },
    Pausing,
    Resuming,
    Cancelling,
    Steering,
    MarkingDone,
    Reconciling,
}

/// The model of an answer.
pub type AnswerModel = Result<Seq<Seq<char>>, Seq<char>>;

/// The model of an answer.
pub open spec fn answer(r: Result<Vec<String>, String>) -> AnswerModel {
    match r {
        Ok(ids) => Ok(text::texts(ids@)),
        Err(message) => Err(message@),
    }
}

/// The model of an action.
#[verifier::ext_equal]
pub enum ActionModel {
    Finish { result: AnswerModel, keep_deferred: bool },
    ValidateObjective(Seq<char>),
    Prompt(Seq<char>),
    Pause,
    Resume,
    CancelJobs,
    Steer(Seq<char>),
    ExecuteDag,
    MarkDone(Seq<char>),
    Reconcile,
    Redact(Seq<char>),
    FlushDeferred,
}

impl View for SupervisorAction {
    type V = ActionModel;

    open spec fn view(&self) -> ActionModel {
        match *self {
            SupervisorAction::Finish { result, keep_deferred } => ActionModel::Finish {
                result: answer(result),
                keep_deferred,
            },
            SupervisorAction::ValidateObjective(s) => ActionModel::ValidateObjective(s@),
            SupervisorAction::Prompt(s) => ActionModel::Prompt(s@),
            SupervisorAction::Pause => ActionModel::Pause,
            SupervisorAction::Resume => ActionModel::Resume,
            SupervisorAction::CancelJobs => ActionModel::CancelJobs,
            SupervisorAction::Steer(s) => ActionModel::Steer(s@),
            SupervisorAction::ExecuteDag => ActionModel::ExecuteDag,
            SupervisorAction::MarkDone(s) => ActionModel::MarkDone(s@),
            SupervisorAction::Reconcile => ActionModel::Reconcile,
            SupervisorAction::Redact(s) => ActionModel::Redact(s@),
            SupervisorAction::FlushDeferred => ActionModel::FlushDeferred,
        }
    }
}

/// The model of a frame point.
#[verifier::ext_equal]
pub enum PointModel {
    Finished,
    Validating { announce: bool },
    Planning { announce: bool, second: bool },
    Redacting { announce: bool },
    Noting { kind: WorkflowSupervisorActivityKind, absorb: bool },
    Arming { announce: bool },
    Executing,
    Flushing { message: Seq<char> },
    Pausing,
    Resuming,
    Cancelling,
    Steering,
    MarkingDone,
    Reconciling,
}

impl View for FramePoint {
    type V = PointModel;

    open spec fn view(&self) -> PointModel {
        match *self {
            FramePoint::Finished => PointModel::Finished,
            FramePoint::Validating { announce } => PointModel::Validating { announce },
            FramePoint::Planning { announce, second } => PointModel::Planning { announce, second },
            FramePoint::Redacting { announce } => PointModel::Redacting { announce },
            FramePoint::Noting { kind, absorb } => PointModel::Noting { kind, absorb },
            FramePoint::Arming { announce } => PointModel::Arming { announce },
            FramePoint::Executing => PointModel::Executing,
            FramePoint::Flushing { message } => PointModel::Flushing { message: message@ },
            FramePoint::Pausing => PointModel::Pausing,
            FramePoint::Resuming => PointModel::Resuming,
            FramePoint::Cancelling => PointModel::Cancelling,
            FramePoint::Steering => PointModel::Steering,
            FramePoint::MarkingDone => PointModel::MarkingDone,
            FramePoint::Reconciling => PointModel::Reconciling,
        }
    }
}

/// Whether `reply` answers the backend call that is out at `point`.
pub open spec fn reply_fits(point: FramePoint, reply: BackendReply) -> bool {
    match point {
        FramePoint::Finished => false,
        FramePoint::Validating { .. } => reply is Done || reply is Failed,
        FramePoint::Planning { .. } => reply is Turn || reply is Failed,
        FramePoint::Redacting { .. } => reply is Redacted,
        FramePoint::Noting { .. } => reply is Redacted,
        FramePoint::Arming { .. } => reply is Done || reply is Failed,
        FramePoint::Executing => reply is Done || reply is Failed,
        FramePoint::Flushing { .. } => reply is Done,
        FramePoint::Pausing => reply is Done || reply is Failed,
        FramePoint::Resuming => reply is Done || reply is Failed,
        FramePoint::Cancelling => reply is Cancelled || reply is Failed,
        FramePoint::Steering => reply is Done || reply is Failed,
        FramePoint::MarkingDone => reply is Done || reply is Failed,
        FramePoint::Reconciling => reply is Done || reply is Failed,
    }
}

/// Whether `reply` answers the backend call that is out at `point`.
pub fn reply_answers(point: &FramePoint, reply: &BackendReply) -> (r: bool)
    ensures
        r == reply_fits(*point, *reply),
{
    match point {
        FramePoint::Finished => false,
        FramePoint::Planning { .. } => matches!(
            reply,
            BackendReply::Turn(_) | BackendReply::Failed(_)
        ),
        FramePoint::Redacting { .. } => matches!(reply, BackendReply::Redacted(_)),
        FramePoint::Noting { .. } => matches!(reply, BackendReply::Redacted(_)),
        FramePoint::Flushing { .. } => matches!(reply, BackendReply::Done),
        FramePoint::Cancelling => matches!(
            reply,
            BackendReply::Cancelled(_) | BackendReply::Failed(_)
        ),
        _ => matches!(reply, BackendReply::Done | BackendReply::Failed(_)),
    }
}

/// What happens to a request that arrives while a planning prompt is awaited.
#[derive(Clone, Copy, Debug, PartialEq, Eq, Structural)]
pub enum Admission {
    /// Handle it at once.
    Handle,
    /// Handle it at once, then abort the prompt.
    HandleThenAbort,
    /// Handle it at once, then ask whether planning still converges.
    HandleThenCheck,
    /// Keep it until the prompt has ended.
    Defer,
}

/// What happens to `request` while a planning prompt is awaited.
pub open spec fn admission(request: SupervisorRequest) -> Admission {
    match request {
        SupervisorRequest::ApplicationEvent { .. } => Admission::Handle,
        SupervisorRequest::Activity { .. } => Admission::Handle,
        SupervisorRequest::Cancel => Admission::HandleThenAbort,
        SupervisorRequest::TodoObservation { .. } => Admission::HandleThenCheck,
        _ => Admission::Defer,
    }
}

/// What happens to `request` while a planning prompt is awaited: events and
/// activity keep flowing, a cancel interrupts the prompt, and everything else
/// waits for its end.
pub fn admission_of(request: &SupervisorRequest) -> (r: Admission)
    ensures
        r == admission(*request),
{
    match request {
        SupervisorRequest::ApplicationEvent { .. } => Admission::Handle,
        SupervisorRequest::Activity { .. } => Admission::Handle,
        SupervisorRequest::Cancel => Admission::HandleThenAbort,
        SupervisorRequest::TodoObservation { .. } => Admission::HandleThenCheck,
        _ => Admission::Defer,
    }
}

/// Something that happened while a planning prompt is awaited.
#[derive(Debug, PartialEq, Eq)]
pub enum TurnEvent {
    /// The prompt ended by itself.
    Ended(PlanningTurnOutcome),
    /// The prompt failed.
    Failed(String),
    /// A request came in and was dealt with as its admission says.
    Admitted(Admission),
    /// No request can come in any more.
    Closed,
    /// The wall-clock budget of the prompt is used up.
    Deadline,
}

/// How the awaiting of a planning prompt goes on.
#[derive(Debug, PartialEq, Eq)]
pub enum TurnStep {
    /// Await the prompt, requests and the deadline.
    Listen,
    /// Abort the prompt, whatever comes of that, then go on as before.
    AbortAndListen,
    /// Await the prompt alone.
    AwaitPrompt,
    /// The turn is over.
    Over(BackendReply),
    /// Abort the prompt, whatever comes of that; the turn is over.
    AbortAndEnd(BackendReply),
}

/// The model of how a turn ended.
#[verifier::ext_equal]
pub enum TurnEndModel {
    Completed,
    PlanCommitted,
    PlanBudgetReached { reason: Seq<char> },
    TimedOut,
    Failed(Seq<char>),
}

/// The model of an outcome.
pub open spec fn turn_end(outcome: PlanningTurnOutcome) -> TurnEndModel {
    match outcome {
        PlanningTurnOutcome::Completed => TurnEndModel::Completed,
        PlanningTurnOutcome::PlanCommitted => TurnEndModel::PlanCommitted,
        PlanningTurnOutcome::PlanBudgetReached { reason } => TurnEndModel::PlanBudgetReached {
            reason: reason@,
        },
        PlanningTurnOutcome::TimedOut => TurnEndModel::TimedOut,
    }
}

/// The end of a turn that a reply tells of.
pub open spec fn reply_end(reply: BackendReply) -> Option<TurnEndModel> {
    match reply {
        BackendReply::Turn(outcome) => Some(turn_end(outcome)),
        BackendReply::Failed(message) => Some(TurnEndModel::Failed(message@)),
        _ => None,
    }
}

/// The model of how awaiting a prompt goes on.
#[verifier::ext_equal]
pub struct TurnStepModel {
    /// Whether the prompt is aborted.
    pub abort: bool,
    /// Whether requests and the deadline are still listened to.
    pub listening: bool,
    /// How the turn ended, where it is over.
    pub end: Option<TurnEndModel>,
}

impl View for TurnStep {
    type V = TurnStepModel;

    open spec fn view(&self) -> TurnStepModel {
        match *self {
            TurnStep::Listen => TurnStepModel { abort: false, listening: true, end: None },
            TurnStep::AbortAndListen => TurnStepModel { abort: true, listening: true, end: None },
            TurnStep::AwaitPrompt => TurnStepModel { abort: false, listening: false, end: None },
            TurnStep::Over(reply) => TurnStepModel {
                abort: false,
                listening: false,
                end: reply_end(reply),
            },
            TurnStep::AbortAndEnd(reply) => TurnStepModel {
                abort: true,
                listening: false,
                end: reply_end(reply),
            },
        }
    }
}

// ---------------------------------------------------------------------------
// Actor state
// ---------------------------------------------------------------------------

/// The model of the actor's state.
#[verifier::ext_equal]
pub struct ActorModel {
    pub contract: WorkflowSupervisorContract,
    pub status: WorkflowStatus,
    pub failure: Option<Seq<char>>,
    pub planning_in_flight: bool,
    pub plan_committed: bool,
    pub suppress_abort_failure: bool,
    pub non_progress_tripped: bool,
    pub non_progress_reason: Option<Seq<char>>,
    pub last_todo_state_hash: Option<u64>,
    pub last_failed_fingerprint: Option<Seq<char>>,
    pub identical_failed_ops: usize,
    pub corrections_without_progress: usize,
    pub activity: Seq<ActivityModel>,
    pub planning_started_at_ms: Option<u64>,
    pub outbox: Seq<EventModel>,
}

/// By what two failed Todo operations count as identical: operation, target IDs
/// and error prefix.
pub open spec fn fingerprint(o: WorkflowSupervisorTodoObservation) -> Seq<char> {
    let op = match o.op {
        Some(op) => op@,
        None => "todo"@,
    };
    let prefix = match o.error_prefix {
        Some(prefix) => prefix@,
        None => ""@,
    };
    op + "|"@ + render::debug_list_of(text::texts(o.target_ids@)) + "|"@ + prefix
}

/// One more, up to the largest count.
pub open spec fn counted(n: usize) -> usize {
    if n < usize::MAX {
        (n + 1) as usize
    } else {
        n
    }
}

/// Why planning was stopped for want of progress.
pub open spec fn non_progress_text(identical: usize, corrections: usize) -> Seq<char> {
    "planning is not converging: "@ + text::numeral(identical as nat)
        + " identical failed todo operation(s) and "@ + text::numeral(corrections as nat)
        + " todo correction(s) with no Todo-state change"@
}

/// How a tripped bound with a committed plan shows in the activity feed.
pub open spec fn preserved_text(reason: Seq<char>, tasks: nat) -> Seq<char> {
    reason + " — preserving "@ + text::numeral(
        if tasks <= usize::MAX {
            tasks
        } else {
            usize::MAX as nat
        },
    ) + "-task DAG"@
}

pub const DEADLINE_REASON: &'static str =
    "planning exceeded the wall-clock deadline; preserving the committed plan";

pub const TIMED_OUT_FAILURE: &'static str =
    "planning timed out before a plan was committed; remove and re-create the workflow to retry";

pub const NO_TASKS_FAILURE: &'static str =
    "planning produced no tasks; remove and re-create the workflow to retry";

/// The failure of a planning phase that a bound stopped without a plan.
pub open spec fn stopped_failure(reason: Seq<char>) -> Seq<char> {
    "planning stopped without a committed plan: "@ + reason
        + "; remove and re-create the workflow to retry"@
}

/// The newest entries of a feed, at most the cap.
pub open spec fn capped(activity: Seq<ActivityModel>) -> Seq<ActivityModel> {
    if activity.len() > SUPERVISOR_ACTIVITY_CAP {
        activity.skip(activity.len() - SUPERVISOR_ACTIVITY_CAP)
    } else {
        activity
    }
}

/// A state, the action to take in it and the point reached.
pub type StepModel = (ActorModel, ActionModel, PointModel);

impl ActorModel {
    pub open spec fn emit(self, event: EventModel) -> ActorModel {
        ActorModel { outbox: self.outbox.push(event), ..self }
    }

    /// What observers are shown.
    pub open spec fn projection(self, b: BackendModel) -> ProjectionModel {
        ProjectionModel {
            workflow_id: self.contract.workflow_id@,
            generation: self.contract.generation,
            status: self.status,
            supervisor_agent_id: self.contract.supervisor_agent_id@,
            todo: b.todo,
            jobs: b.jobs,
            irc: b.irc,
            failure: self.failure,
            activity: self.activity,
            planning_started_at_ms: self.planning_started_at_ms,
        }
    }

    pub open spec fn refreshed(self, b: BackendModel) -> ActorModel {
        self.emit(EventModel::ProjectionChanged { projection: self.projection(b) })
    }

    /// The state after moving to `status`: the planning clock runs exactly
    /// while planning, and a change is announced after the new projection.
    pub open spec fn with_status(self, status: WorkflowStatus, b: BackendModel) -> ActorModel {
        let started = if status == WorkflowStatus::Planning {
            match self.planning_started_at_ms {
                Some(at) => Some(at),
                None => Some(b.now_ms),
            }
        } else {
            None
        };
        let moved = ActorModel { status, planning_started_at_ms: started, ..self }.refreshed(b);
        if self.status != status {
            moved.emit(
                EventModel::StatusChanged {
                    workflow_id: self.contract.workflow_id@,
                    generation: self.contract.generation,
                    status,
                },
            )
        } else {
            moved
        }
    }

    /// The state after one more activity entry.
    pub open spec fn with_activity(
        self,
        kind: WorkflowSupervisorActivityKind,
        t: Seq<char>,
        b: BackendModel,
    ) -> ActorModel {
        let entry = ActivityModel {
            at_ms: b.now_ms,
            kind,
            text: text::first_chars(t, SUPERVISOR_ACTIVITY_TEXT_CAP as nat),
        };
        ActorModel { activity: capped(self.activity.push(entry)), ..self }.refreshed(b)
    }

    /// The state settled from the backend, unless it is terminal already.
    pub open spec fn settled(self, b: BackendModel) -> ActorModel {
        if self.status.terminal() {
            self
        } else {
            self.with_status(backend_status(b), b)
        }
    }

    /// The state after a failure; a terminal status stands.
    pub open spec fn failed(self, message: Seq<char>, b: BackendModel) -> ActorModel {
        if self.status.terminal() {
            self
        } else {
            ActorModel { failure: Some(message), ..self }.with_status(
                WorkflowStatus::Failed,
                b,
            ).emit(
                EventModel::Failed {
                    workflow_id: self.contract.workflow_id@,
                    generation: self.contract.generation,
                    message,
                },
            )
        }
    }

    /// The state at the start of a planning prompt.
    pub open spec fn turn_started(self, b: BackendModel) -> ActorModel {
        ActorModel {
            planning_in_flight: true,
            plan_committed: false,
            last_todo_state_hash: Some(todo::default_hash_of(todo::hashed_todo(b.todo))),
            last_failed_fingerprint: None,
            identical_failed_ops: 0,
            corrections_without_progress: 0,
            non_progress_tripped: false,
            non_progress_reason: None,
            ..self
        }
    }

    /// The state after the plan-commit signal of an observation: the first
    /// successful `init` moves a planning workflow to running.
    pub open spec fn commit_noted(
        self,
        o: WorkflowSupervisorTodoObservation,
        b: BackendModel,
    ) -> ActorModel {
        if !self.plan_committed && !o.is_error && text::opt_text(o.op) == Some("init"@) {
            let noted = ActorModel { plan_committed: true, ..self };
            if self.planning_in_flight && self.status == WorkflowStatus::Planning {
                noted.with_status(WorkflowStatus::Running, b)
            } else {
                noted
            }
        } else {
            self
        }
    }

    /// The state after the progress signal of an observation: a changed Todo
    /// state clears the counters, a failed call without change counts.
    pub open spec fn progress_noted(
        self,
        o: WorkflowSupervisorTodoObservation,
        b: BackendModel,
    ) -> ActorModel {
        let hash = todo::default_hash_of(todo::hashed_todo(b.todo));
        let seen = ActorModel { last_todo_state_hash: Some(hash), ..self };
        if self.last_todo_state_hash != Some(hash) {
            ActorModel {
                last_failed_fingerprint: None,
                identical_failed_ops: 0,
                corrections_without_progress: 0,
                ..seen
            }
        } else if !o.is_error {
            seen
        } else {
            let print = fingerprint(o);
            let identical = if self.last_failed_fingerprint == Some(print) {
                counted(self.identical_failed_ops)
            } else {
                1
            };
            let corrections = counted(self.corrections_without_progress);
            let tripped = identical >= PLANNING_IDENTICAL_FAILED_OP_LIMIT || corrections
                >= PLANNING_CORRECTIONS_WITHOUT_PROGRESS_LIMIT;
            ActorModel {
                last_failed_fingerprint: Some(print),
                identical_failed_ops: identical,
                corrections_without_progress: corrections,
                non_progress_tripped: self.non_progress_tripped || tripped,
                non_progress_reason: if tripped {
                    Some(non_progress_text(identical, corrections))
                } else {
                    self.non_progress_reason
                },
                ..seen
            }
        }
    }

    /// The answer to a request that is done.
    pub open spec fn finished(self, result: AnswerModel, keep_deferred: bool) -> StepModel {
        (self, ActionModel::Finish { result, keep_deferred }, PointModel::Finished)
    }

    pub open spec fn done(self) -> StepModel {
        self.finished(Ok(Seq::empty()), true)
    }

    /// The end of a planning phase that did not fail: settle, and announce a
    /// start that is not over yet.
    pub open spec fn planning_ended(self, announce: bool, b: BackendModel) -> StepModel {
        let s = self.settled(b);
        if announce && !s.status.terminal() {
            s.emit(
                EventModel::Started {
                    workflow_id: s.contract.workflow_id@,
                    generation: s.contract.generation,
                },
            ).done()
        } else {
            s.done()
        }
    }

    /// The start of a planning phase.
    pub open spec fn planning_begun(self, announce: bool) -> StepModel {
        (
            self,
            ActionModel::ValidateObjective(self.contract.objective@),
            PointModel::Validating { announce },
        )
    }

    /// Re-arms execution, or plans where there is nothing to execute.
    pub open spec fn execution_continued(self, b: BackendModel) -> StepModel {
        if todo::has_any_task(b.todo) {
            (self, ActionModel::ExecuteDag, PointModel::Executing)
        } else {
            self.planning_begun(false)
        }
    }

    /// The end of handling an application event that calls for nothing else.
    pub open spec fn event_absorbed(self, b: BackendModel) -> StepModel {
        if self.status == WorkflowStatus::Paused || self.planning_in_flight {
            self.refreshed(b).done()
        } else {
            self.with_status(backend_status(b), b).done()
        }
    }

    /// Whether a job report belongs to another workflow or generation.
    pub open spec fn foreign_job(self, job: WorkflowJobSnapshot) -> bool {
        (job.workflow_id is Some && job.workflow_id->0@ != self.contract.workflow_id@) || (
        job.workflow_generation is Some && job.workflow_generation->0 != self.contract.generation)
    }

    /// The first step for an application event of this generation.
    pub open spec fn event_opened(self, event: ApplicationEvent, b: BackendModel) -> StepModel {
        match event {
            ApplicationEvent::RunFailed { message } => if self.suppress_abort_failure {
                ActorModel { suppress_abort_failure: false, ..self }.done()
            } else {
                self.failed(message@, b).done()
            },
            ApplicationEvent::JobUpdated { job } => if self.foreign_job(job) {
                self.done()
            } else if self.status == WorkflowStatus::Running && !self.planning_in_flight
                && job.status.settled() && !(job.status == todo::JobStatus::Completed
                && job.soft_budget_exhausted) {
                if job.status == todo::JobStatus::Completed && job.todo_task_id is Some {
                    (
                        self,
                        ActionModel::MarkDone(job.todo_task_id->0@),
                        PointModel::MarkingDone,
                    )
                } else {
                    (self, ActionModel::Reconcile, PointModel::Reconciling)
                }
            } else {
                self.event_absorbed(b)
            },
            ApplicationEvent::MessageDelivered { message } => (
                self.emit(
                    EventModel::IrcDelivered {
                        workflow_id: self.contract.workflow_id@,
                        generation: self.contract.generation,
                        message,
                    },
                ),
                ActionModel::Redact(message.body@),
                PointModel::Noting { kind: WorkflowSupervisorActivityKind::Irc, absorb: true },
            ),
            ApplicationEvent::Other => self.event_absorbed(b),
        }
    }

    /// The first step for a request.
    pub open spec fn opened(self, request: SupervisorRequest, b: BackendModel) -> StepModel {
        match request {
            SupervisorRequest::Start => if self.status != WorkflowStatus::Queued {
                self.done()
            } else {
                self.with_status(WorkflowStatus::Planning, b).planning_begun(true)
            },
            SupervisorRequest::RestoreContinue => match self.status {
                WorkflowStatus::Queued => self.with_status(
                    WorkflowStatus::Planning,
                    b,
                ).planning_begun(true),
                WorkflowStatus::Planning => self.planning_begun(false),
                WorkflowStatus::Running => self.execution_continued(b),
                _ => self.done(),
            },
            SupervisorRequest::Pause => if self.status.terminal() || self.status
                == WorkflowStatus::Paused {
                self.done()
            } else {
                (self, ActionModel::Pause, PointModel::Pausing)
            },
            SupervisorRequest::Resume => match self.status {
                WorkflowStatus::Paused => if todo::has_any_task(b.todo) {
                    (self, ActionModel::Resume, PointModel::Resuming)
                } else {
                    self.planning_begun(false)
                },
                WorkflowStatus::Planning => self.planning_begun(false),
                WorkflowStatus::Running => self.execution_continued(b),
                _ => self.done(),
            },
            SupervisorRequest::Cancel => if self.status.terminal() {
                self.done()
            } else {
                (self, ActionModel::CancelJobs, PointModel::Cancelling)
            },
            SupervisorRequest::Steer(message) => if self.status.terminal() {
                self.finished(Err("cannot steer terminal workflow supervisor"@), true)
            } else {
                (self, ActionModel::Steer(message@), PointModel::Steering)
            },
            SupervisorRequest::ApplicationEvent { generation, event } => if generation
                != self.contract.generation || self.status.terminal() {
                self.done()
            } else {
                self.event_opened(event, b)
            },
            SupervisorRequest::Activity { generation, kind, text } => if generation
                != self.contract.generation || self.status.terminal() {
                self.done()
            } else {
                (
                    self,
                    ActionModel::Redact(text@),
                    PointModel::Noting { kind, absorb: false },
                )
            },
            SupervisorRequest::TodoObservation { generation, observation } => if generation
                != self.contract.generation || self.status.terminal() || !self.planning_in_flight {
                self.done()
            } else {
                self.commit_noted(observation, b).progress_noted(observation, b).done()
            },
        }
    }

    /// The state in which the run failure of an aborted prompt is expected.
    pub open spec fn abort_expected(self) -> ActorModel {
        ActorModel { suppress_abort_failure: true, ..self }
    }

    /// What an event during a planning prompt leads to. The prompt is aborted
    /// at its deadline, after a cancel, and once planning no longer converges;
    /// the first and the last end the turn.
    pub open spec fn turn_stepped(self, event: TurnEvent) -> (ActorModel, TurnStepModel) {
        let listen = TurnStepModel { abort: false, listening: true, end: None };
        match event {
            TurnEvent::Ended(outcome) => (
                self,
                TurnStepModel { abort: false, listening: false, end: Some(turn_end(outcome)) },
            ),
            TurnEvent::Failed(message) => (
                self,
                TurnStepModel {
                    abort: false,
                    listening: false,
                    end: Some(TurnEndModel::Failed(message@)),
                },
            ),
            TurnEvent::Admitted(Admission::HandleThenAbort) => (
                self.abort_expected(),
                TurnStepModel { abort: true, ..listen },
            ),
            TurnEvent::Admitted(Admission::HandleThenCheck) => if self.non_progress_tripped {
                (
                    ActorModel {
                        non_progress_tripped: false,
                        non_progress_reason: None,
                        ..self
                    }.abort_expected(),
                    TurnStepModel {
                        abort: true,
                        listening: false,
                        end: Some(
                            TurnEndModel::PlanBudgetReached {
                                reason: match self.non_progress_reason {
                                    Some(reason) => reason,
                                    None => "planning is not converging"@,
                                },
                            },
                        ),
                    },
                )
            } else {
                (self, listen)
            },
            TurnEvent::Admitted(_) => (self, listen),
            TurnEvent::Closed => (
                self,
                TurnStepModel { abort: false, listening: false, end: None },
            ),
            TurnEvent::Deadline => (
                self.abort_expected(),
                TurnStepModel { abort: true, listening: false, end: Some(TurnEndModel::TimedOut) },
            ),
        }
    }

    /// The step after a planning prompt ended with `outcome`.
    pub open spec fn turn_ended(
        self,
        announce: bool,
        second: bool,
        outcome: PlanningTurnOutcome,
        b: BackendModel,
    ) -> StepModel {
        let idle = ActorModel { planning_in_flight: false, ..self };
        let planned = todo::has_any_task(b.todo);
        if self.status.terminal() {
            idle.planning_ended(announce, b)
        } else {
            match outcome {
                PlanningTurnOutcome::PlanBudgetReached { reason } => if planned {
                    idle.plan_preserved(reason@, announce, b)
                } else {
                    idle.plan_missing(stopped_failure(reason@))
                },
                PlanningTurnOutcome::TimedOut => if planned {
                    idle.plan_preserved(DEADLINE_REASON@, announce, b)
                } else {
                    idle.plan_missing(TIMED_OUT_FAILURE@)
                },
                _ => if planned {
                    (idle, ActionModel::ExecuteDag, PointModel::Arming { announce })
                } else if !second {
                    (
                        idle.turn_started(b),
                        ActionModel::Prompt(self.contract.replan_text()),
                        PointModel::Planning { announce, second: true },
                    )
                } else {
                    idle.plan_missing(NO_TASKS_FAILURE@)
                },
            }
        }
    }

    /// A bound tripped over a committed plan: show it, then arm the plan.
    pub open spec fn plan_preserved(
        self,
        reason: Seq<char>,
        announce: bool,
        b: BackendModel,
    ) -> StepModel {
        (
            self,
            ActionModel::Redact(preserved_text(reason, todo::task_total(b.todo))),
            PointModel::Redacting { announce },
        )
    }

    /// Planning ended without a plan: let deferred requests run, then fail.
    pub open spec fn plan_missing(self, message: Seq<char>) -> StepModel {
        (self, ActionModel::FlushDeferred, PointModel::Flushing { message })
    }

    /// The step after the backend's reply at `point`.
    pub open spec fn advanced(
        self,
        point: FramePoint,
        reply: BackendReply,
        b: BackendModel,
    ) -> StepModel {
        match (point, reply) {
            (FramePoint::Validating { announce }, BackendReply::Done) => (
                self.turn_started(b),
                ActionModel::Prompt(self.contract.initial_text()),
                PointModel::Planning { announce, second: false },
            ),
            (FramePoint::Planning { announce, second }, BackendReply::Turn(outcome)) =>
            self.turn_ended(announce, second, outcome, b),
            (FramePoint::Planning { .. }, BackendReply::Failed(message)) => ActorModel {
                planning_in_flight: false,
                ..self
            }.failed(message@, b).finished(Ok(Seq::empty()), false),
            (FramePoint::Redacting { announce }, BackendReply::Redacted(t)) => (
                self.with_activity(WorkflowSupervisorActivityKind::Tool, t@, b),
                ActionModel::ExecuteDag,
                PointModel::Arming { announce },
            ),
            (FramePoint::Noting { kind, absorb }, BackendReply::Redacted(t)) => if absorb {
                self.with_activity(kind, t@, b).event_absorbed(b)
            } else {
                self.with_activity(kind, t@, b).done()
            },
            (FramePoint::Arming { announce }, BackendReply::Done) => self.with_status(
                WorkflowStatus::Running,
                b,
            ).planning_ended(announce, b),
            (FramePoint::Executing, BackendReply::Done) => self.settled(b).done(),
            (FramePoint::Flushing { message }, BackendReply::Done) => self.failed(
                message@,
                b,
            ).finished(Ok(Seq::empty()), false),
            (FramePoint::Pausing, BackendReply::Done) => self.with_status(
                WorkflowStatus::Paused,
                b,
            ).done(),
            (FramePoint::Resuming, BackendReply::Done) => self.with_status(
                backend_status(b),
                b,
            ).done(),
            (FramePoint::Cancelling, BackendReply::Cancelled(ids)) => self.with_status(
                WorkflowStatus::Cancelled,
                b,
            ).finished(Ok(text::texts(ids@)), true),
            (FramePoint::Steering, BackendReply::Done) => self.refreshed(b).done(),
            (FramePoint::MarkingDone, _) => (self, ActionModel::Reconcile, PointModel::Reconciling),
            (FramePoint::Reconciling, _) => self.with_status(backend_status(b), b).done(),
            (FramePoint::Validating { .. }, BackendReply::Failed(message)) => self.failed(
                message@,
                b,
            ).finished(Ok(Seq::empty()), false),
            (FramePoint::Arming { .. }, BackendReply::Failed(message)) => self.failed(
                message@,
                b,
            ).finished(Ok(Seq::empty()), false),
            (FramePoint::Executing, BackendReply::Failed(message)) => self.failed(
                message@,
                b,
            ).finished(Ok(Seq::empty()), false),
            (_, BackendReply::Failed(message)) => self.finished(Err(message@), true),
            _ => self.done(),
        }
    }
}

/// The supervisor of one workflow. Requests are handled one after the other.
pub struct SupervisorActor {
    pub contract: WorkflowSupervisorContract,
    pub status: WorkflowStatus,
    pub failure: Option<String>,
    /// True while a planning prompt is awaited.
    pub planning_in_flight: bool,
    /// True once the first successful `todo init` of the current planning
    /// prompt was observed.
    pub plan_committed: bool,
    /// Set when the prompt was aborted on purpose: the run failure that follows
    /// must not fail the workflow.
    pub suppress_abort_failure: bool,
    /// Set when planning no longer converges.
    pub non_progress_tripped: bool,
    pub non_progress_reason: Option<String>,
    /// Hash of the Todo state at the last observed Todo call.
    pub last_todo_state_hash: Option<u64>,
    pub last_failed_fingerprint: Option<String>,
    pub identical_failed_ops: usize,
    pub corrections_without_progress: usize,
    /// Bounded live activity feed, newest last.
    pub activity: Vec<WorkflowSupervisorActivity>,
    /// Epoch millis when the current planning phase started.
    pub planning_started_at_ms: Option<u64>,
    /// Published events that the driver has not taken yet.
    pub outbox: Vec<WorkflowSupervisorEvent>,
}

impl View for SupervisorActor {
    type V = ActorModel;

    open spec fn view(&self) -> ActorModel {
        ActorModel {
            contract: self.contract,
            status: self.status,
            failure: text::opt_text(self.failure),
            planning_in_flight: self.planning_in_flight,
            plan_committed: self.plan_committed,
            suppress_abort_failure: self.suppress_abort_failure,
            non_progress_tripped: self.non_progress_tripped,
            non_progress_reason: text::opt_text(self.non_progress_reason),
            last_todo_state_hash: self.last_todo_state_hash,
            last_failed_fingerprint: text::opt_text(self.last_failed_fingerprint),
            identical_failed_ops: self.identical_failed_ops,
            corrections_without_progress: self.corrections_without_progress,
            activity: feed(self.activity@),
            planning_started_at_ms: self.planning_started_at_ms,
            outbox: events(self.outbox@),
        }
    }
}

/// Whether a supervisor can be restored in `status`.
pub open spec fn restorable(status: WorkflowStatus) -> bool {
    status == WorkflowStatus::Queued || status == WorkflowStatus::Planning || status
        == WorkflowStatus::Running || status == WorkflowStatus::Paused
}

/// The state that a new supervisor starts in.
pub open spec fn fresh(
    contract: WorkflowSupervisorContract,
    status: WorkflowStatus,
    now_ms: u64,
) -> ActorModel {
    ActorModel {
        contract,
        status,
        failure: None,
        planning_in_flight: false,
        plan_committed: false,
        suppress_abort_failure: false,
        non_progress_tripped: false,
        non_progress_reason: None,
        last_todo_state_hash: None,
        last_failed_fingerprint: None,
        identical_failed_ops: 0,
        corrections_without_progress: 0,
        activity: Seq::empty(),
        planning_started_at_ms: if status == WorkflowStatus::Planning {
            Some(now_ms)
        } else {
            None
        },
        outbox: Seq::empty(),
    }
}

impl SupervisorActor {
    fn with_initial_status(
        contract: WorkflowSupervisorContract,
        status: WorkflowStatus,
        now_ms: u64,
    ) -> (r: Result<SupervisorActor, String>)
        ensures
            match r {
                Ok(actor) => contract.refusal() is None && actor@ == fresh(
                    contract,
                    status,
                    now_ms,
                ),
                Err(message) => contract.refusal() == Some(message@),
            },
    {
        match contract.validate() {
            Err(message) => Err(message),
            Ok(_) => {
                let planning_started_at_ms: Option<u64> = if status == WorkflowStatus::Planning {
                    Some(now_ms)
                } else {
                    None
                };
                let actor = SupervisorActor {
                    contract,
                    status,
                    failure: None,
                    planning_in_flight: false,
                    plan_committed: false,
                    suppress_abort_failure: false,
                    non_progress_tripped: false,
                    non_progress_reason: None,
                    last_todo_state_hash: None,
                    last_failed_fingerprint: None,
                    identical_failed_ops: 0,
                    corrections_without_progress: 0,
                    activity: Vec::new(),
                    planning_started_at_ms,
                    outbox: Vec::new(),
                };
                assert(actor@ =~= fresh(contract, status, now_ms));
                Ok(actor)
            },
        }
    }

    /// A supervisor for a workflow that has not started. Refused where the
    /// contract is.
    pub fn spawn(contract: WorkflowSupervisorContract, now_ms: u64) -> (r: Result<
        SupervisorActor,
        String,
    >)
        ensures
            match r {
                Ok(actor) => contract.refusal() is None && actor@ == fresh(
                    contract,
                    WorkflowStatus::Queued,
                    now_ms,
                ),
                Err(message) => contract.refusal() == Some(message@),
            },
    {
        Self::with_initial_status(contract, WorkflowStatus::Queued, now_ms)
    }

    /// A supervisor for a durably restored workflow. Only a workflow that can
    /// still move before integration is restored.
    pub fn spawn_restored(
        contract: WorkflowSupervisorContract,
        status: WorkflowStatus,
        now_ms: u64,
    ) -> (r: Result<SupervisorActor, String>)
        ensures
            match r {
                Ok(actor) => restorable(status) && contract.refusal() is None && actor@ == fresh(
                    contract,
                    status,
                    now_ms,
                ),
                Err(message) => if restorable(status) {
                    contract.refusal() == Some(message@)
                } else {
                    message@ == "workflow supervisor cannot restore lifecycle status "@
                        + status.name()
                },
            },
    {
        if !matches!(
            status,
            WorkflowStatus::Queued | WorkflowStatus::Planning | WorkflowStatus::Running
                | WorkflowStatus::Paused
        ) {
            return Err(
                "workflow supervisor cannot restore lifecycle status ".to_owned().concat(
                    status.as_str(),
                ),
            );
        }
        Self::with_initial_status(contract, status, now_ms)
    }

    /// The published events that were not taken yet, oldest first.
    pub fn take_events(&mut self) -> (r: Vec<WorkflowSupervisorEvent>)
        ensures
            events(r@) == old(self)@.outbox,
            final(self)@ == (ActorModel { outbox: Seq::empty(), ..old(self)@ }),
    {
        let mut out: Vec<WorkflowSupervisorEvent> = Vec::new();
        out.append(&mut self.outbox);
        assert(events(out@) =~= old(self)@.outbox);
        assert(self@ =~= (ActorModel { outbox: Seq::empty(), ..old(self)@ }));
        out
    }

    fn emit(&mut self, event: WorkflowSupervisorEvent)
        ensures
            final(self)@ == old(self)@.emit(event@),
    {
        self.outbox.push(event);
        assert(self@ =~= old(self)@.emit(event@));
    }

    /// Publishes the current projection.
    fn refresh(&mut self, b: &BackendView)
        ensures
            final(self)@ == old(self)@.refreshed(b@),
    {
        let projection = project_backend(
            &self.contract,
            b,
            self.status,
            &self.failure,
            &self.activity,
            self.planning_started_at_ms,
        );
        self.emit(WorkflowSupervisorEvent::ProjectionChanged { projection });
    }

    /// Moves to `status`, publishes the projection and announces a change.
    fn set_status(&mut self, status: WorkflowStatus, b: &BackendView)
        ensures
            final(self)@ == old(self)@.with_status(status, b@),
    {
        let changed = self.status != status;
        self.status = status;
        if status == WorkflowStatus::Planning {
            if self.planning_started_at_ms.is_none() {
                self.planning_started_at_ms = Some(b.now_ms);
            }
        } else {
            self.planning_started_at_ms = None;
        }
        self.refresh(b);
        if changed {
            let workflow_id = self.contract.workflow_id.clone();
            let generation: u64 = self.contract.generation;
            self.emit(WorkflowSupervisorEvent::StatusChanged { workflow_id, generation, status });
        }
    }

    /// Appends one bounded activity entry and publishes the projection. `text`
    /// holds no credentials.
    pub fn push_activity(
        &mut self,
        kind: WorkflowSupervisorActivityKind,
        text: &str,
        b: &BackendView,
    )
        ensures
            final(self)@ == old(self)@.with_activity(kind, text@, b@),
    {
        let entry = WorkflowSupervisorActivity {
            at_ms: b.now_ms,
            kind,
            text: take_chars(text, SUPERVISOR_ACTIVITY_TEXT_CAP),
        };
        let ghost pushed = feed(self.activity@).push(entry@);
        self.activity.push(entry);
        assert(feed(self.activity@) =~= pushed);
        if self.activity.len() > SUPERVISOR_ACTIVITY_CAP {
            let excess: usize = self.activity.len() - SUPERVISOR_ACTIVITY_CAP;
            let ghost all = self.activity@;
            let kept = self.activity.split_off(excess);
            self.activity = kept;
            assert(self.activity@ =~= all.skip(excess as int));
            assert(feed(self.activity@) =~= pushed.skip(excess as int));
        }
        self.refresh(b);
    }

    /// Settles the status from the backend unless it is terminal already.
    fn settle_status(&mut self, b: &BackendView)
        ensures
            final(self)@ == old(self)@.settled(b@),
    {
        if !self.status.is_terminal() {
            let status = status_from_backend(b);
            self.set_status(status, b);
        }
    }

    /// Records a failure. A terminal status stands.
    fn fail(&mut self, message: &str, b: &BackendView)
        ensures
            final(self)@ == old(self)@.failed(message@, b@),
    {
        if self.status.is_terminal() {
            return;
        }
        self.failure = Some(message.to_owned());
        assert(self@ =~= (ActorModel { failure: Some(message@), ..old(self)@ }));
        self.set_status(WorkflowStatus::Failed, b);
        let workflow_id = self.contract.workflow_id.clone();
        let generation: u64 = self.contract.generation;
        let message = message.to_owned();
        self.emit(WorkflowSupervisorEvent::Failed { workflow_id, generation, message });
    }

    /// Resets the per-prompt state at the start of a planning prompt.
    fn start_turn(&mut self, b: &BackendView)
        ensures
            final(self)@ == old(self)@.turn_started(b@),
    {
        self.planning_in_flight = true;
        self.plan_committed = false;
        self.last_todo_state_hash = Some(todo_state_hash(&b.todo));
        self.last_failed_fingerprint = None;
        self.identical_failed_ops = 0;
        self.corrections_without_progress = 0;
        self.non_progress_tripped = false;
        self.non_progress_reason = None;
    }

    /// Plan-commit signal and non-progress detection for one observed `todo`
    /// call. A legitimate sequence changes the Todo state on every successful
    /// call and never trips.
    pub fn record_planning_observation(
        &mut self,
        observation: &WorkflowSupervisorTodoObservation,
        b: &BackendView,
    )
        ensures
            final(self)@ == old(self)@.commit_noted(*observation, b@).progress_noted(
                *observation,
                b@,
            ),
    {
        if !self.plan_committed && !observation.is_error && same_opt_text(
            &observation.op,
            &Some("init".to_owned()),
        ) {
            self.plan_committed = true;
            if self.planning_in_flight && self.status == WorkflowStatus::Planning {
                self.set_status(WorkflowStatus::Running, b);
            }
        }
        let ghost noted = self@;
        assert(noted =~= old(self)@.commit_noted(*observation, b@));
        let hash: u64 = todo_state_hash(&b.todo);
        let progressed = match self.last_todo_state_hash {
            Some(last) => last != hash,
            None => true,
        };
        self.last_todo_state_hash = Some(hash);
        if progressed {
            self.last_failed_fingerprint = None;
            self.identical_failed_ops = 0;
            self.corrections_without_progress = 0;
            return;
        }
        if !observation.is_error {
            return;
        }
        let op = match &observation.op {
            Some(op) => op.clone(),
            None => "todo".to_owned(),
        };
        let prefix = match &observation.error_prefix {
            Some(prefix) => prefix.clone(),
            None => "".to_owned(),
        };
        let print = op.concat("|").concat(debug_list(&observation.target_ids).as_str()).concat(
            "|",
        ).concat(prefix.as_str());
        assert(print@ == fingerprint(*observation));
        let print = Some(print);
        if same_opt_text(&self.last_failed_fingerprint, &print) {
            if self.identical_failed_ops < usize::MAX {
                self.identical_failed_ops = self.identical_failed_ops + 1;
            }
        } else {
            self.last_failed_fingerprint = print;
            self.identical_failed_ops = 1;
        }
        if self.corrections_without_progress < usize::MAX {
            self.corrections_without_progress = self.corrections_without_progress + 1;
        }
        if self.identical_failed_ops >= PLANNING_IDENTICAL_FAILED_OP_LIMIT
            || self.corrections_without_progress >= PLANNING_CORRECTIONS_WITHOUT_PROGRESS_LIMIT {
            self.non_progress_tripped = true;
            self.non_progress_reason = Some(
                "planning is not converging: ".to_owned().concat(
                    decimal(self.identical_failed_ops as u64).as_str(),
                ).concat(" identical failed todo operation(s) and ").concat(
                    decimal(self.corrections_without_progress as u64).as_str(),
                ).concat(" todo correction(s) with no Todo-state change"),
            );
        }
        assert(self@ =~= noted.progress_noted(*observation, b@));
    }

    /// Takes note of an event while a planning prompt is awaited, and says
    /// whether the prompt is aborted and how awaiting it goes on. The run
    /// failure that an abort causes must not fail the workflow.
    pub fn turn_event(&mut self, event: TurnEvent) -> (r: TurnStep)
        ensures
            (final(self)@, r@) == old(self)@.turn_stepped(event),
    {
        match event {
            TurnEvent::Ended(outcome) => TurnStep::Over(BackendReply::Turn(outcome)),
            TurnEvent::Failed(message) => TurnStep::Over(BackendReply::Failed(message)),
            TurnEvent::Admitted(Admission::HandleThenAbort) => {
                self.suppress_abort_failure = true;
                TurnStep::AbortAndListen
            },
            TurnEvent::Admitted(Admission::HandleThenCheck) => {
                if !self.non_progress_tripped {
                    return TurnStep::Listen;
                }
                self.non_progress_tripped = false;
                let reason = match self.non_progress_reason.take() {
                    Some(reason) => reason,
                    None => "planning is not converging".to_owned(),
                };
                self.suppress_abort_failure = true;
                TurnStep::AbortAndEnd(
                    BackendReply::Turn(PlanningTurnOutcome::PlanBudgetReached { reason }),
                )
            },
            TurnEvent::Admitted(_) => TurnStep::Listen,
            TurnEvent::Closed => TurnStep::AwaitPrompt,
            TurnEvent::Deadline => {
                self.suppress_abort_failure = true;
                TurnStep::AbortAndEnd(BackendReply::Turn(PlanningTurnOutcome::TimedOut))
            },
        }
    }

    fn done() -> (r: (SupervisorAction, FramePoint))
        ensures
            r.0@ == (ActionModel::Finish { result: Ok(Seq::empty()), keep_deferred: true }),
            r.1@ == PointModel::Finished,
    {
        let r = (
            SupervisorAction::Finish { result: Ok(Vec::new()), keep_deferred: true },
            FramePoint::Finished,
        );
        assert(text::texts(Seq::<String>::empty()) =~= Seq::<Seq<char>>::empty());
        r
    }

    fn dropped() -> (r: (SupervisorAction, FramePoint))
        ensures
            r.0@ == (ActionModel::Finish { result: Ok(Seq::empty()), keep_deferred: false }),
            r.1@ == PointModel::Finished,
    {
        let r = (
            SupervisorAction::Finish { result: Ok(Vec::new()), keep_deferred: false },
            FramePoint::Finished,
        );
        assert(text::texts(Seq::<String>::empty()) =~= Seq::<Seq<char>>::empty());
        r
    }

    fn refused(message: String) -> (r: (SupervisorAction, FramePoint))
        ensures
            r.0@ == (ActionModel::Finish { result: Err(message@), keep_deferred: true }),
            r.1@ == PointModel::Finished,
    {
        (
            SupervisorAction::Finish { result: Err(message), keep_deferred: true },
            FramePoint::Finished,
        )
    }

    fn begin_planning(&self, announce: bool) -> (r: (SupervisorAction, FramePoint))
        ensures
            (self@, r.0@, r.1@) == self@.planning_begun(announce),
    {
        (
            SupervisorAction::ValidateObjective(self.contract.objective.clone()),
            FramePoint::Validating { announce },
        )
    }

    fn end_planning(&mut self, announce: bool, b: &BackendView) -> (r: (
        SupervisorAction,
        FramePoint,
    ))
        ensures
            (final(self)@, r.0@, r.1@) == old(self)@.planning_ended(announce, b@),
    {
        self.settle_status(b);
        if announce && !self.status.is_terminal() {
            let workflow_id = self.contract.workflow_id.clone();
            let generation: u64 = self.contract.generation;
            self.emit(WorkflowSupervisorEvent::Started { workflow_id, generation });
        }
        Self::done()
    }

    fn continue_execution(&self, b: &BackendView) -> (r: (SupervisorAction, FramePoint))
        ensures
            (self@, r.0@, r.1@) == self@.execution_continued(b@),
    {
        if todo_has_any_task(&b.todo) {
            (SupervisorAction::ExecuteDag, FramePoint::Executing)
        } else {
            self.begin_planning(false)
        }
    }

    fn absorb_event(&mut self, b: &BackendView) -> (r: (SupervisorAction, FramePoint))
        ensures
            (final(self)@, r.0@, r.1@) == old(self)@.event_absorbed(b@),
    {
        if self.status == WorkflowStatus::Paused || self.planning_in_flight {
            self.refresh(b);
        } else {
            let status = status_from_backend(b);
            self.set_status(status, b);
        }
        Self::done()
    }

    fn open_event(&mut self, event: ApplicationEvent, b: &BackendView) -> (r: (
        SupervisorAction,
        FramePoint,
    ))
        ensures
            (final(self)@, r.0@, r.1@) == old(self)@.event_opened(event, b@),
    {
        match event {
            ApplicationEvent::RunFailed { message } => {
                if self.suppress_abort_failure {
                    self.suppress_abort_failure = false;
                } else {
                    self.fail(message.as_str(), b);
                }
                Self::done()
            },
            ApplicationEvent::JobUpdated { job } => {
                let other_workflow = match &job.workflow_id {
                    Some(id) => !same_text(id.as_str(), self.contract.workflow_id.as_str()),
                    None => false,
                };
                let other_generation = match job.workflow_generation {
                    Some(generation) => generation != self.contract.generation,
                    None => false,
                };
                if other_workflow || other_generation {
                    return Self::done();
                }
                let completed = job.status == todo::JobStatus::Completed;
                if self.status == WorkflowStatus::Running && !self.planning_in_flight
                    && job.status.is_settled() && !(completed && job.soft_budget_exhausted) {
                    if completed {
                        if let Some(task) = job.todo_task_id {
                            return (SupervisorAction::MarkDone(task), FramePoint::MarkingDone);
                        }
                    }
                    return (SupervisorAction::Reconcile, FramePoint::Reconciling);
                }
                self.absorb_event(b)
            },
            ApplicationEvent::MessageDelivered { message } => {
                let workflow_id = self.contract.workflow_id.clone();
                let generation: u64 = self.contract.generation;
                let body = message.body.clone();
                self.emit(
                    WorkflowSupervisorEvent::IrcDelivered { workflow_id, generation, message },
                );
                (
                    SupervisorAction::Redact(body),
                    FramePoint::Noting { kind: WorkflowSupervisorActivityKind::Irc, absorb: true },
                )
            },
            ApplicationEvent::Other => self.absorb_event(b),
        }
    }

    /// Takes a request and says which backend call comes first.
    pub fn open(&mut self, request: SupervisorRequest, b: &BackendView) -> (r: (
        SupervisorAction,
        FramePoint,
    ))
        ensures
            (final(self)@, r.0@, r.1@) == old(self)@.opened(request, b@),
    {
        match request {
            SupervisorRequest::Start => {
                if self.status != WorkflowStatus::Queued {
                    return Self::done();
                }
                self.set_status(WorkflowStatus::Planning, b);
                self.begin_planning(true)
            },
            SupervisorRequest::RestoreContinue => match self.status {
                WorkflowStatus::Queued => {
                    self.set_status(WorkflowStatus::Planning, b);
                    self.begin_planning(true)
                },
                WorkflowStatus::Planning => self.begin_planning(false),
                WorkflowStatus::Running => self.continue_execution(b),
                _ => Self::done(),
            },
            SupervisorRequest::Pause => {
                if self.status.is_terminal() || self.status == WorkflowStatus::Paused {
                    return Self::done();
                }
                (SupervisorAction::Pause, FramePoint::Pausing)
            },
            SupervisorRequest::Resume => match self.status {
                WorkflowStatus::Paused => {
                    if todo_has_any_task(&b.todo) {
                        (SupervisorAction::Resume, FramePoint::Resuming)
                    } else {
                        self.begin_planning(false)
                    }
                },
                WorkflowStatus::Planning => self.begin_planning(false),
                WorkflowStatus::Running => self.continue_execution(b),
                _ => Self::done(),
            },
            SupervisorRequest::Cancel => {
                if self.status.is_terminal() {
                    return Self::done();
                }
                (SupervisorAction::CancelJobs, FramePoint::Cancelling)
            },
            SupervisorRequest::Steer(message) => {
                if self.status.is_terminal() {
                    return Self::refused("cannot steer terminal workflow supervisor".to_owned());
                }
                (SupervisorAction::Steer(message), FramePoint::Steering)
            },
            SupervisorRequest::ApplicationEvent { generation, event } => {
                if generation != self.contract.generation || self.status.is_terminal() {
                    return Self::done();
                }
                self.open_event(event, b)
            },
            SupervisorRequest::Activity { generation, kind, text } => {
                if generation != self.contract.generation || self.status.is_terminal() {
                    return Self::done();
                }
                (SupervisorAction::Redact(text), FramePoint::Noting { kind, absorb: false })
            },
            SupervisorRequest::TodoObservation { generation, observation } => {
                if generation != self.contract.generation || self.status.is_terminal()
                    || !self.planning_in_flight {
                    return Self::done();
                }
                self.record_planning_observation(&observation, b);
                Self::done()
            },
        }
    }

    fn preserve_plan(&self, reason: &str, announce: bool, b: &BackendView) -> (r: (
        SupervisorAction,
        FramePoint,
    ))
        ensures
            (self@, r.0@, r.1@) == self@.plan_preserved(reason@, announce, b@),
    {
        let tasks: usize = todo_task_count(&b.todo);
        let shown = reason.to_owned().concat(" — preserving ").concat(
            decimal(tasks as u64).as_str(),
        ).concat("-task DAG");
        (SupervisorAction::Redact(shown), FramePoint::Redacting { announce })
    }

    fn end_turn(
        &mut self,
        announce: bool,
        second: bool,
        outcome: PlanningTurnOutcome,
        b: &BackendView,
    ) -> (r: (SupervisorAction, FramePoint))
        ensures
            (final(self)@, r.0@, r.1@) == old(self)@.turn_ended(announce, second, outcome, b@),
    {
        self.planning_in_flight = false;
        if self.status.is_terminal() {
            return self.end_planning(announce, b);
        }
        let planned = todo_has_any_task(&b.todo);
        match outcome {
            PlanningTurnOutcome::PlanBudgetReached { reason } => {
                if planned {
                    return self.preserve_plan(reason.as_str(), announce, b);
                }
                let message = "planning stopped without a committed plan: ".to_owned().concat(
                    reason.as_str(),
                ).concat("; remove and re-create the workflow to retry");
                (SupervisorAction::FlushDeferred, FramePoint::Flushing { message })
            },
            PlanningTurnOutcome::TimedOut => {
                if planned {
                    return self.preserve_plan(DEADLINE_REASON, announce, b);
                }
                let message = TIMED_OUT_FAILURE.to_owned();
                (SupervisorAction::FlushDeferred, FramePoint::Flushing { message })
            },
            _ => {
                if planned {
                    return (SupervisorAction::ExecuteDag, FramePoint::Arming { announce });
                }
                if !second {
                    self.start_turn(b);
                    let prompt = self.contract.replan_prompt();
                    return (
                        SupervisorAction::Prompt(prompt),
                        FramePoint::Planning { announce, second: true },
                    );
                }
                let message = NO_TASKS_FAILURE.to_owned();
                (SupervisorAction::FlushDeferred, FramePoint::Flushing { message })
            },
        }
    }

    /// Takes the backend's reply at `point` and says which call comes next.
    pub fn advance(&mut self, point: FramePoint, reply: BackendReply, b: &BackendView) -> (r: (
        SupervisorAction,
        FramePoint,
    ))
        requires
            reply_fits(point, reply),
        ensures
            (final(self)@, r.0@, r.1@) == old(self)@.advanced(point, reply, b@),
    {
        match (point, reply) {
            (FramePoint::Validating { announce }, BackendReply::Done) => {
                self.start_turn(b);
                let prompt = self.contract.initial_prompt();
                (
                    SupervisorAction::Prompt(prompt),
                    FramePoint::Planning { announce, second: false },
                )
            },
            (FramePoint::Planning { announce, second }, BackendReply::Turn(outcome)) => {
                self.end_turn(announce, second, outcome, b)
            },
            (FramePoint::Planning { .. }, BackendReply::Failed(message)) => {
                self.planning_in_flight = false;
                self.fail(message.as_str(), b);
                Self::dropped()
            },
            (FramePoint::Redacting { announce }, BackendReply::Redacted(shown)) => {
                self.push_activity(WorkflowSupervisorActivityKind::Tool, shown.as_str(), b);
                (SupervisorAction::ExecuteDag, FramePoint::Arming { announce })
            },
            (FramePoint::Noting { kind, absorb }, BackendReply::Redacted(shown)) => {
                self.push_activity(kind, shown.as_str(), b);
                if absorb {
                    self.absorb_event(b)
                } else {
                    Self::done()
                }
            },
            (FramePoint::Arming { announce }, BackendReply::Done) => {
                self.set_status(WorkflowStatus::Running, b);
                self.end_planning(announce, b)
            },
            (FramePoint::Executing, BackendReply::Done) => {
                self.settle_status(b);
                Self::done()
            },
            (FramePoint::Flushing { message }, BackendReply::Done) => {
                self.fail(message.as_str(), b);
                Self::dropped()
            },
            (FramePoint::Pausing, BackendReply::Done) => {
                self.set_status(WorkflowStatus::Paused, b);
                Self::done()
            },
            (FramePoint::Resuming, BackendReply::Done) => {
                let status = status_from_backend(b);
                self.set_status(status, b);
                Self::done()
            },
            (FramePoint::Cancelling, BackendReply::Cancelled(ids)) => {
                self.set_status(WorkflowStatus::Cancelled, b);
                (
                    SupervisorAction::Finish { result: Ok(ids), keep_deferred: true },
                    FramePoint::Finished,
                )
            },
            (FramePoint::Steering, BackendReply::Done) => {
                self.refresh(b);
                Self::done()
            },
            (FramePoint::MarkingDone, _) => {
                (SupervisorAction::Reconcile, FramePoint::Reconciling)
            },
            (FramePoint::Reconciling, _) => {
                let status = status_from_backend(b);
                self.set_status(status, b);
                Self::done()
            },
            (FramePoint::Validating { .. }, BackendReply::Failed(message)) => {
                self.fail(message.as_str(), b);
                Self::dropped()
            },
            (FramePoint::Arming { .. }, BackendReply::Failed(message)) => {
                self.fail(message.as_str(), b);
                Self::dropped()
            },
            (FramePoint::Executing, BackendReply::Failed(message)) => {
                self.fail(message.as_str(), b);
                Self::dropped()
            },
            (_, BackendReply::Failed(message)) => Self::refused(message),
            _ => Self::done(),
        }
    }
}

// ---------------------------------------------------------------------------
// Laws
// ---------------------------------------------------------------------------

/// The bounds that every state keeps: the activity feed is short, its entries
/// are short, and the planning clock runs exactly while planning.
pub open spec fn bounded(s: ActorModel) -> bool {
    &&& s.activity.len() <= SUPERVISOR_ACTIVITY_CAP
    &&& forall|i: int|
        0 <= i < s.activity.len() ==> (#[trigger] s.activity[i]).text.len()
            <= SUPERVISOR_ACTIVITY_TEXT_CAP
    &&& s.planning_started_at_ms is Some <==> s.status == WorkflowStatus::Planning
}

/// Whether a frame may stand at `point` in this state: the calls that move the
/// status are only out while the workflow has not settled.
pub open spec fn coherent(s: ActorModel, point: PointModel) -> bool {
    match point {
        PointModel::Finished => true,
        PointModel::Validating { .. } => true,
        PointModel::Planning { .. } => true,
        PointModel::Flushing { .. } => true,
        _ => !s.status.terminal(),
    }
}

proof fn lemma_activity_bounded(
    s: ActorModel,
    kind: WorkflowSupervisorActivityKind,
    t: Seq<char>,
    b: BackendModel,
)
    requires
        bounded(s),
    ensures
        bounded(s.with_activity(kind, t, b)),
{
    let r = s.with_activity(kind, t, b);
    assert forall|i: int| 0 <= i < r.activity.len() implies (#[trigger] r.activity[i]).text.len()
        <= SUPERVISOR_ACTIVITY_TEXT_CAP by {
        let k = if s.activity.len() + 1 > SUPERVISOR_ACTIVITY_CAP {
            i + s.activity.len() + 1 - SUPERVISOR_ACTIVITY_CAP
        } else {
            i
        };
        if k < s.activity.len() {
            assert(r.activity[i] == s.activity[k]);
        }
    }
}

/// A new supervisor keeps the bounds.
pub proof fn law_fresh_is_bounded(
    contract: WorkflowSupervisorContract,
    status: WorkflowStatus,
    now_ms: u64,
)
    ensures
        bounded(fresh(contract, status, now_ms)),
{
}

/// Every request keeps the bounds and leaves its frame at a coherent point.
pub proof fn law_open_keeps_bounds(s: ActorModel, request: SupervisorRequest, b: BackendModel)
    requires
        bounded(s),
    ensures
        bounded(s.opened(request, b).0),
        coherent(s.opened(request, b).0, s.opened(request, b).2),
{
}

/// Every backend reply keeps the bounds and leaves its frame at a coherent
/// point.
#[verifier::spinoff_prover]
#[verifier::rlimit(40)]
pub proof fn law_advance_keeps_bounds(
    s: ActorModel,
    point: FramePoint,
    reply: BackendReply,
    b: BackendModel,
)
    requires
        bounded(s),
        coherent(s, point@),
        reply_fits(point, reply),
    ensures
        bounded(s.advanced(point, reply, b).0),
        coherent(s.advanced(point, reply, b).0, s.advanced(point, reply, b).2),
{
    match (point, reply) {
        (FramePoint::Redacting { announce }, BackendReply::Redacted(t)) => {
            lemma_activity_bounded(s, WorkflowSupervisorActivityKind::Tool, t@, b);
        },
        (FramePoint::Noting { kind, absorb }, BackendReply::Redacted(t)) => {
            lemma_activity_bounded(s, kind, t@, b);
        },
        _ => {},
    }
}

/// A settled workflow never moves again, whatever is asked of it.
pub proof fn law_terminal_status_survives_requests(
    s: ActorModel,
    request: SupervisorRequest,
    b: BackendModel,
)
    requires
        s.status.terminal(),
    ensures
        s.opened(request, b).0 == s,
        s.opened(request, b).2 == PointModel::Finished,
{
}

/// A settled workflow never moves again, whatever the backend replies: a cancel
/// that interrupts planning is not clobbered by the end of the aborted turn.
pub proof fn law_terminal_status_survives_replies(
    s: ActorModel,
    point: FramePoint,
    reply: BackendReply,
    b: BackendModel,
)
    requires
        s.status.terminal(),
        coherent(s, point@),
        reply_fits(point, reply),
    ensures
        s.advanced(point, reply, b).0.status == s.status,
        s.advanced(point, reply, b).0.failure == s.failure,
{
}

/// A planning phase runs at most two prompts: the second one is never followed
/// by another.
pub proof fn law_at_most_two_prompts(
    s: ActorModel,
    point: FramePoint,
    reply: BackendReply,
    b: BackendModel,
)
    requires
        reply_fits(point, reply),
        s.advanced(point, reply, b).1 is Prompt,
    ensures
        point is Validating || (point@ matches PointModel::Planning { announce, second } && !second),
        point is Planning ==> (s.advanced(point, reply, b).2 matches PointModel::Planning {
            announce,
            second,
        } && second),
{
}

/// A committed plan is never lost to a bound: whenever a prompt ends over a DAG
/// that holds tasks, the DAG is armed next, at most after showing the bound.
pub proof fn law_committed_plan_is_armed(
    s: ActorModel,
    announce: bool,
    second: bool,
    outcome: PlanningTurnOutcome,
    shown: String,
    b: BackendModel,
)
    requires
        !s.status.terminal(),
        todo::has_any_task(b.todo),
    ensures
        s.turn_ended(announce, second, outcome, b).1 is ExecuteDag || s.turn_ended(
            announce,
            second,
            outcome,
            b,
        ).1 is Redact,
        s.advanced(
            FramePoint::Redacting { announce },
            BackendReply::Redacted(shown),
            b,
        ).1 is ExecuteDag,
{
}

/// Arming a plan moves the workflow out of planning.
pub proof fn law_armed_plan_leaves_planning(s: ActorModel, announce: bool, b: BackendModel)
    requires
        !s.status.terminal(),
        todo::has_any_task(b.todo),
    ensures
        s.advanced(FramePoint::Arming { announce }, BackendReply::Done, b).0.status
            != WorkflowStatus::Planning,
{
}

/// Events and activity of another generation change nothing.
pub proof fn law_stale_generation_is_ignored(
    s: ActorModel,
    generation: u64,
    event: ApplicationEvent,
    kind: WorkflowSupervisorActivityKind,
    shown: String,
    observation: WorkflowSupervisorTodoObservation,
    b: BackendModel,
)
    requires
        generation != s.contract.generation,
    ensures
        s.opened(SupervisorRequest::ApplicationEvent { generation, event }, b) == s.done(),
        s.opened(SupervisorRequest::Activity { generation, kind, text: shown }, b) == s.done(),
        s.opened(SupervisorRequest::TodoObservation { generation, observation }, b) == s.done(),
{
}

/// No request puts a text into the activity feed: whatever is to be shown there
/// goes to the redactor first.
pub proof fn law_activity_is_redacted_first(
    s: ActorModel,
    request: SupervisorRequest,
    point: FramePoint,
    reply: BackendReply,
    b: BackendModel,
)
    requires
        reply_fits(point, reply),
    ensures
        s.opened(request, b).0.activity == s.activity,
        s.advanced(point, reply, b).0.activity != s.activity ==> (reply matches BackendReply::Redacted(
            t,
        ) && exists|kind: WorkflowSupervisorActivityKind|
            s.advanced(point, reply, b).0.activity == #[trigger] s.with_activity(
                kind,
                t@,
                b,
            ).activity),
{
    match (point, reply) {
        (FramePoint::Redacting { announce }, BackendReply::Redacted(t)) => {
            assert(s.advanced(point, reply, b).0.activity == s.with_activity(
                WorkflowSupervisorActivityKind::Tool,
                t@,
                b,
            ).activity);
        },
        (FramePoint::Noting { kind, absorb }, BackendReply::Redacted(t)) => {
            assert(s.advanced(point, reply, b).0.activity == s.with_activity(kind, t@, b).activity);
        },
        _ => {},
    }
}

/// The run failure that follows a deliberate abort never fails the workflow,
/// and only the first one is swallowed.
pub proof fn law_own_abort_does_not_fail(s: ActorModel, message: String, b: BackendModel)
    requires
        s.suppress_abort_failure,
    ensures
        s.event_opened(ApplicationEvent::RunFailed { message }, b).0 == (ActorModel {
            suppress_abort_failure: false,
            ..s
        }),
{
}

/// No event of a planning prompt moves the workflow or breaks its bounds, and an
/// abort always comes with the note that swallows the run failure it causes.
pub proof fn law_turn_events_keep_the_workflow(
    s: ActorModel,
    event: TurnEvent,
    message: String,
    b: BackendModel,
)
    requires
        bounded(s),
    ensures
        ({
            let (after, step) = s.turn_stepped(event);
            &&& bounded(after)
            &&& after.status == s.status
            &&& after.failure == s.failure
            &&& step.abort ==> after.event_opened(
                ApplicationEvent::RunFailed { message },
                b,
            ).0.status == s.status
        }),
{
}

/// A prompt is bounded: its deadline and the loss of convergence both abort it
/// and end the turn, and the turn then ends in a running plan or a failure.
pub proof fn law_bounds_end_the_turn(
    s: ActorModel,
    announce: bool,
    second: bool,
    outcome: PlanningTurnOutcome,
    b: BackendModel,
)
    requires
        !s.status.terminal(),
        s.turn_stepped(TurnEvent::Deadline).1.end == Some(turn_end(outcome)) || (
        s.non_progress_tripped && s.turn_stepped(
            TurnEvent::Admitted(Admission::HandleThenCheck),
        ).1.end == Some(turn_end(outcome))),
    ensures
        s.turn_stepped(TurnEvent::Deadline).1.abort,
        s.non_progress_tripped ==> s.turn_stepped(
            TurnEvent::Admitted(Admission::HandleThenCheck),
        ).1.abort,
        s.turn_ended(announce, second, outcome, b).1 is Redact || s.turn_ended(
            announce,
            second,
            outcome,
            b,
        ).1 is FlushDeferred,
{
}

/// A cancel interrupts the prompt at once but waits for its end; everything that
/// is deferred leaves the prompt alone.
pub proof fn law_only_a_cancel_interrupts(s: ActorModel, request: SupervisorRequest)
    requires
        !s.non_progress_tripped,
    ensures
        s.turn_stepped(TurnEvent::Admitted(admission(request))).1.abort <==> request is Cancel,
        s.turn_stepped(TurnEvent::Admitted(admission(request))).1.end is None,
        s.turn_stepped(TurnEvent::Admitted(admission(request))).1.listening,
{
}

/// A call that changed the Todo state never trips non-progress detection and
/// clears what was counted.
pub proof fn law_progress_clears_counters(
    s: ActorModel,
    observation: WorkflowSupervisorTodoObservation,
    b: BackendModel,
)
    requires
        s.last_todo_state_hash != Some(todo::default_hash_of(todo::hashed_todo(b.todo))),
    ensures
        s.progress_noted(observation, b).non_progress_tripped == s.non_progress_tripped,
        s.progress_noted(observation, b).identical_failed_ops == 0,
        s.progress_noted(observation, b).corrections_without_progress == 0,
{
}

/// While a prompt is awaited, a request is deferred exactly when handling it
/// could start another backend call that moves the workflow forward.
pub proof fn law_only_lifecycle_requests_are_deferred(request: SupervisorRequest)
    ensures
        admission(request) == Admission::Defer <==> (request is Start || request is Pause
            || request is Resume || request is RestoreContinue || request is Steer),
{
}

} // verus!
