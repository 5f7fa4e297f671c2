//! The supervisor actor, driven with a backend kept in memory.

use pi_coding::workflow::supervisor::{
    admission_of, project_backend, reply_answers, status_from_backend, workflow_task_ownership,
    Admission, ApplicationEvent, BackendReply, BackendView, FramePoint, PlanningTurnOutcome,
    SupervisorAction, SupervisorActor, SupervisorRequest, TurnEvent, TurnStep,
    WorkflowSupervisorActivityKind, WorkflowSupervisorContract, WorkflowSupervisorEvent, WorkflowSupervisorTodoObservation,
};
use pi_coding::workflow::todo::{
    todo_has_any_task, todo_is_exactly_complete, todo_state_hash, todo_task_count, JobStatus,
    MailboxMessage, TodoDagExecutionStatus, TodoPhase, TodoState, TodoStatus, TodoTask,
    WorkflowJobSnapshot,
};
use pi_coding::workflow::WorkflowStatus;

fn contract() -> WorkflowSupervisorContract {
    WorkflowSupervisorContract {
        workflow_id: "wf".to_owned(),
        generation: 1,
        worktree_label: "worktrees/wf".to_owned(),
        objective: "Ship the release".to_owned(),
        supervisor_agent_id: "supervisor".to_owned(),
        max_concurrency: 2,
    }
}

fn task(id: &str, status: TodoStatus) -> TodoTask {
    TodoTask {
        id: id.to_owned(),
        content: format!("task {id}"),
        status,
        depends_on: Vec::new(),
        blocked_by: Vec::new(),
    }
}

fn todo(tasks: Vec<TodoTask>) -> TodoState {
    if tasks.is_empty() {
        return TodoState { phases: Vec::new() };
    }
    TodoState { phases: vec![TodoPhase { name: "Build".to_owned(), tasks }] }
}

fn backend(tasks: Vec<TodoTask>, dag: TodoDagExecutionStatus) -> BackendView {
    BackendView { now_ms: 500, todo: todo(tasks), dag, jobs: Vec::new(), irc: Vec::new() }
}

fn empty() -> BackendView {
    backend(Vec::new(), TodoDagExecutionStatus::Dormant)
}

fn planned() -> BackendView {
    backend(vec![task("a", TodoStatus::Pending)], TodoDagExecutionStatus::Active)
}

fn queued() -> SupervisorActor {
    match SupervisorActor::spawn(contract(), 100) {
        Ok(actor) => actor,
        Err(message) => panic!("{message}"),
    }
}

fn running() -> SupervisorActor {
    match SupervisorActor::spawn_restored(contract(), WorkflowStatus::Running, 100) {
        Ok(actor) => actor,
        Err(message) => panic!("{message}"),
    }
}

fn finished(action: &SupervisorAction) -> &Result<Vec<String>, String> {
    match action {
        SupervisorAction::Finish { result, .. } => result,
        other => panic!("not finished: {other:?}"),
    }
}

/// Starts planning and goes to the first prompt.
fn prompted(actor: &mut SupervisorActor) -> FramePoint {
    let (action, point) = actor.open(SupervisorRequest::Start, &empty());
    assert_eq!(action, SupervisorAction::ValidateObjective("Ship the release".to_owned()));
    assert_eq!(actor.status, WorkflowStatus::Planning);
    let (action, point) = actor.advance(point, BackendReply::Done, &empty());
    assert_eq!(action, SupervisorAction::Prompt(contract().initial_prompt()));
    assert!(actor.planning_in_flight);
    point
}

fn turn(outcome: PlanningTurnOutcome) -> BackendReply {
    BackendReply::Turn(outcome)
}

fn job(id: &str, status: JobStatus, task_id: Option<&str>) -> WorkflowJobSnapshot {
    WorkflowJobSnapshot {
        id: id.to_owned(),
        agent_id: "agent".to_owned(),
        agent: "task".to_owned(),
        description: None,
        owned_task_id: None,
        todo_task_id: task_id.map(str::to_owned),
        workflow_id: Some("wf".to_owned()),
        workflow_generation: Some(1),
        status,
        created_at: 1,
        started_at: None,
        finished_at: None,
        soft_budget_exhausted: false,
    }
}

fn job_event(job: WorkflowJobSnapshot) -> SupervisorRequest {
    SupervisorRequest::ApplicationEvent {
        generation: 1,
        event: ApplicationEvent::JobUpdated { job },
    }
}

fn failed_call(op: &str) -> WorkflowSupervisorTodoObservation {
    WorkflowSupervisorTodoObservation {
        op: Some(op.to_owned()),
        target_ids: vec!["a".to_owned()],
        is_error: true,
        error_prefix: Some("unknown task".to_owned()),
    }
}

#[test]
fn a_committed_plan_is_armed_and_runs() {
    let mut actor = queued();
    let point = prompted(&mut actor);
    let (action, point) = actor.advance(point, turn(PlanningTurnOutcome::PlanCommitted), &planned());
    assert_eq!(action, SupervisorAction::ExecuteDag);
    let (action, _) = actor.advance(point, BackendReply::Done, &planned());
    assert_eq!(finished(&action), &Ok(Vec::new()));
    assert_eq!(actor.status, WorkflowStatus::Running);
    assert!(!actor.planning_in_flight);
    assert!(actor.take_events().iter().any(|event| matches!(
        event,
        WorkflowSupervisorEvent::Started { workflow_id, generation: 1 } if workflow_id == "wf"
    )));
}

#[test]
fn planning_asks_twice_and_then_fails() {
    let mut actor = queued();
    let point = prompted(&mut actor);
    let (action, point) = actor.advance(point, turn(PlanningTurnOutcome::Completed), &empty());
    assert_eq!(action, SupervisorAction::Prompt(contract().replan_prompt()));
    let (action, point) = actor.advance(point, turn(PlanningTurnOutcome::Completed), &empty());
    assert_eq!(action, SupervisorAction::FlushDeferred);
    let (action, _) = actor.advance(point, BackendReply::Done, &empty());
    assert_eq!(finished(&action), &Ok(Vec::new()));
    assert_eq!(actor.status, WorkflowStatus::Failed);
    assert_eq!(
        actor.failure.as_deref(),
        Some("planning produced no tasks; remove and re-create the workflow to retry")
    );
}

#[test]
fn a_budget_without_a_plan_fails_by_its_reason() {
    let mut actor = queued();
    let point = prompted(&mut actor);
    let reached = PlanningTurnOutcome::PlanBudgetReached { reason: "8 turns".to_owned() };
    let (action, point) = actor.advance(point, turn(reached), &empty());
    assert_eq!(action, SupervisorAction::FlushDeferred);
    actor.advance(point, BackendReply::Done, &empty());
    assert_eq!(
        actor.failure.as_deref(),
        Some(
            "planning stopped without a committed plan: 8 turns; \
             remove and re-create the workflow to retry"
        )
    );
}

#[test]
fn a_timeout_preserves_a_committed_plan() {
    let mut actor = queued();
    let point = prompted(&mut actor);
    let (action, point) = actor.advance(point, turn(PlanningTurnOutcome::TimedOut), &planned());
    let note = "planning exceeded the wall-clock deadline; preserving the committed plan \
                — preserving 1-task DAG";
    assert_eq!(action, SupervisorAction::Redact(note.to_owned()));
    let (action, point) =
        actor.advance(point, BackendReply::Redacted(note.to_owned()), &planned());
    assert_eq!(action, SupervisorAction::ExecuteDag);
    actor.advance(point, BackendReply::Done, &planned());
    assert_eq!(actor.status, WorkflowStatus::Running);
    assert_eq!(actor.activity.last().map(|a| a.text.as_str()), Some(note));
}

#[test]
fn a_timeout_without_a_plan_fails() {
    let mut actor = queued();
    let point = prompted(&mut actor);
    let (_, point) = actor.advance(point, turn(PlanningTurnOutcome::TimedOut), &empty());
    actor.advance(point, BackendReply::Done, &empty());
    assert_eq!(
        actor.failure.as_deref(),
        Some(
            "planning timed out before a plan was committed; \
             remove and re-create the workflow to retry"
        )
    );
}

#[test]
fn an_unknown_agent_fails_before_any_prompt() {
    let mut actor = queued();
    let (_, point) = actor.open(SupervisorRequest::Start, &empty());
    let (action, _) =
        actor.advance(point, BackendReply::Failed("agent x is absent".to_owned()), &empty());
    assert_eq!(finished(&action), &Ok(Vec::new()));
    assert_eq!(actor.status, WorkflowStatus::Failed);
    assert_eq!(actor.failure.as_deref(), Some("agent x is absent"));
}

#[test]
fn a_cancel_during_planning_wins() {
    let mut actor = queued();
    let point = prompted(&mut actor);
    assert_eq!(admission_of(&SupervisorRequest::Cancel), Admission::HandleThenAbort);
    let (action, cancelling) = actor.open(SupervisorRequest::Cancel, &empty());
    assert_eq!(action, SupervisorAction::CancelJobs);
    let ids = vec!["job-1".to_owned()];
    let (action, _) = actor.advance(cancelling, BackendReply::Cancelled(ids.clone()), &empty());
    assert_eq!(finished(&action), &Ok(ids));
    assert_eq!(
        actor.turn_event(TurnEvent::Admitted(Admission::HandleThenAbort)),
        TurnStep::AbortAndListen
    );
    let aborted = SupervisorRequest::ApplicationEvent {
        generation: 1,
        event: ApplicationEvent::RunFailed { message: "aborted".to_owned() },
    };
    actor.open(aborted, &empty());
    let (action, _) = actor.advance(point, BackendReply::Failed("aborted".to_owned()), &empty());
    assert_eq!(finished(&action), &Ok(Vec::new()));
    assert_eq!(actor.status, WorkflowStatus::Cancelled);
    assert!(actor.failure.is_none());
}

#[test]
fn an_aborted_run_fails_the_workflow_only_where_it_was_not_asked_for() {
    let run_failed = || SupervisorRequest::ApplicationEvent {
        generation: 1,
        event: ApplicationEvent::RunFailed { message: "boom".to_owned() },
    };
    let mut actor = running();
    actor.suppress_abort_failure = true;
    actor.open(run_failed(), &planned());
    assert_eq!(actor.status, WorkflowStatus::Running);
    actor.open(run_failed(), &planned());
    assert_eq!(actor.status, WorkflowStatus::Failed);
    assert_eq!(actor.failure.as_deref(), Some("boom"));
    assert!(actor
        .take_events()
        .iter()
        .any(|e| matches!(e, WorkflowSupervisorEvent::Failed { message, .. } if message == "boom")));
}

#[test]
fn a_finished_job_marks_its_task_done_and_reconciles() {
    let mut actor = running();
    let (action, point) =
        actor.open(job_event(job("j", JobStatus::Completed, Some("a"))), &planned());
    assert_eq!(action, SupervisorAction::MarkDone("a".to_owned()));
    let (action, point) = actor.advance(point, BackendReply::Done, &planned());
    assert_eq!(action, SupervisorAction::Reconcile);
    let complete =
        backend(vec![task("a", TodoStatus::Completed)], TodoDagExecutionStatus::Settled);
    let (action, _) = actor.advance(point, BackendReply::Done, &complete);
    assert_eq!(finished(&action), &Ok(Vec::new()));
    assert_eq!(actor.status, WorkflowStatus::Completed);
}

#[test]
fn partial_work_stays_open() {
    let mut actor = running();
    let mut partial = job("j", JobStatus::Completed, Some("a"));
    partial.soft_budget_exhausted = true;
    let (action, _) = actor.open(job_event(partial), &planned());
    assert_eq!(finished(&action), &Ok(Vec::new()));
    assert_eq!(actor.status, WorkflowStatus::Running);
}

#[test]
fn foreign_jobs_and_old_generations_are_ignored() {
    let mut actor = running();
    let mut foreign = job("j", JobStatus::Completed, Some("a"));
    foreign.workflow_id = Some("other".to_owned());
    let (action, _) = actor.open(job_event(foreign), &planned());
    assert_eq!(finished(&action), &Ok(Vec::new()));
    let old = SupervisorRequest::Activity {
        generation: 2,
        kind: WorkflowSupervisorActivityKind::Text,
        text: "stray".to_owned(),
    };
    actor.open(old, &planned());
    assert!(actor.activity.is_empty());
}

#[test]
fn messages_are_announced_and_shown() {
    let mut actor = running();
    let message = MailboxMessage {
        id: "m".to_owned(),
        from: "worker".to_owned(),
        to: "supervisor".to_owned(),
        body: "token=abc".to_owned(),
        timestamp: 7,
        reply_to: None,
    };
    let delivered = SupervisorRequest::ApplicationEvent {
        generation: 1,
        event: ApplicationEvent::MessageDelivered { message },
    };
    let (action, point) = actor.open(delivered, &planned());
    assert_eq!(action, SupervisorAction::Redact("token=abc".to_owned()));
    assert!(actor.activity.is_empty(), "nothing is shown before it was redacted");
    let redacted = BackendReply::Redacted("token=[REDACTED]".to_owned());
    assert!(reply_answers(&point, &redacted));
    let (action, _) = actor.advance(point, redacted, &planned());
    assert_eq!(finished(&action), &Ok(Vec::new()));
    assert_eq!(actor.activity.last().map(|a| a.text.as_str()), Some("token=[REDACTED]"));
    assert!(actor
        .take_events()
        .iter()
        .any(|e| matches!(e, WorkflowSupervisorEvent::IrcDelivered { .. })));
}

#[test]
fn live_activity_is_redacted_before_it_is_shown() {
    let mut actor = running();
    let request = SupervisorRequest::Activity {
        generation: 1,
        kind: WorkflowSupervisorActivityKind::Text,
        text: "api_key=abc".to_owned(),
    };
    let (action, point) = actor.open(request, &planned());
    assert_eq!(action, SupervisorAction::Redact("api_key=abc".to_owned()));
    let redacted = BackendReply::Redacted("api_key=[REDACTED]".to_owned());
    let (action, _) = actor.advance(point, redacted, &planned());
    assert_eq!(finished(&action), &Ok(Vec::new()));
    let shown = actor.activity.last().expect("entry");
    assert_eq!(shown.text, "api_key=[REDACTED]");
    assert_eq!(shown.kind, WorkflowSupervisorActivityKind::Text);
    assert_eq!(actor.status, WorkflowStatus::Running);
}

#[test]
fn the_activity_feed_is_bounded() {
    let mut actor = running();
    for n in 0..20 {
        actor.push_activity(WorkflowSupervisorActivityKind::Tool, &format!("{n}"), &planned());
    }
    let shown: Vec<&str> = actor.activity.iter().map(|a| a.text.as_str()).collect();
    assert_eq!(shown, ["8", "9", "10", "11", "12", "13", "14", "15", "16", "17", "18", "19"]);
    actor.push_activity(WorkflowSupervisorActivityKind::Tool, &"é".repeat(300), &planned());
    let last = actor.activity.last().expect("entry");
    assert_eq!(last.text.chars().count(), 240);
    assert_eq!(last.at_ms, 500);
}

#[test]
fn three_identical_failures_stop_planning() {
    let mut actor = queued();
    prompted(&mut actor);
    let b = planned();
    actor.record_planning_observation(&failed_call("done"), &b);
    let checked = || TurnEvent::Admitted(Admission::HandleThenCheck);
    assert_eq!(actor.turn_event(checked()), TurnStep::Listen, "the first call changes the known state");
    for _ in 0..2 {
        actor.record_planning_observation(&failed_call("done"), &b);
        assert_eq!(actor.turn_event(checked()), TurnStep::Listen);
    }
    assert!(!actor.suppress_abort_failure);
    actor.record_planning_observation(&failed_call("done"), &b);
    let reason = "planning is not converging: 3 identical failed todo operation(s) and \
                  3 todo correction(s) with no Todo-state change";
    assert_eq!(
        actor.turn_event(checked()),
        TurnStep::AbortAndEnd(BackendReply::Turn(PlanningTurnOutcome::PlanBudgetReached {
            reason: reason.to_owned(),
        }))
    );
    assert!(actor.suppress_abort_failure);
    assert_eq!(actor.turn_event(checked()), TurnStep::Listen);
}

#[test]
fn a_tripped_turn_without_a_reason_has_a_plain_one() {
    let mut actor = queued();
    prompted(&mut actor);
    actor.non_progress_tripped = true;
    assert_eq!(
        actor.turn_event(TurnEvent::Admitted(Admission::HandleThenCheck)),
        TurnStep::AbortAndEnd(BackendReply::Turn(PlanningTurnOutcome::PlanBudgetReached {
            reason: "planning is not converging".to_owned(),
        }))
    );
}

#[test]
fn the_deadline_aborts_the_prompt_and_ends_the_turn() {
    let mut actor = queued();
    let point = prompted(&mut actor);
    let step = actor.turn_event(TurnEvent::Deadline);
    assert!(actor.suppress_abort_failure);
    let TurnStep::AbortAndEnd(reply) = step else {
        panic!("the deadline has to abort the prompt: {step:?}");
    };
    assert_eq!(reply, BackendReply::Turn(PlanningTurnOutcome::TimedOut));
    let (action, _) = actor.advance(point, reply, &empty());
    assert_eq!(action, SupervisorAction::FlushDeferred);
}

#[test]
fn a_turn_goes_on_while_nothing_bounds_it() {
    let mut actor = queued();
    prompted(&mut actor);
    for admission in [Admission::Handle, Admission::Defer, Admission::HandleThenCheck] {
        assert_eq!(actor.turn_event(TurnEvent::Admitted(admission)), TurnStep::Listen);
    }
    assert_eq!(actor.turn_event(TurnEvent::Closed), TurnStep::AwaitPrompt);
    assert_eq!(
        actor.turn_event(TurnEvent::Ended(PlanningTurnOutcome::PlanCommitted)),
        TurnStep::Over(BackendReply::Turn(PlanningTurnOutcome::PlanCommitted))
    );
    assert_eq!(
        actor.turn_event(TurnEvent::Failed("offline".to_owned())),
        TurnStep::Over(BackendReply::Failed("offline".to_owned()))
    );
    assert!(!actor.suppress_abort_failure);
}

#[test]
fn six_different_failures_stop_planning_and_progress_resets_the_count() {
    let mut actor = queued();
    prompted(&mut actor);
    let b = planned();
    actor.record_planning_observation(&failed_call("x"), &b);
    for n in 0..5 {
        actor.record_planning_observation(&failed_call(&format!("op{n}")), &b);
    }
    assert!(!actor.non_progress_tripped);
    let changed = backend(
        vec![task("a", TodoStatus::Pending), task("b", TodoStatus::Pending)],
        TodoDagExecutionStatus::Active,
    );
    actor.record_planning_observation(&failed_call("op"), &changed);
    assert_eq!(actor.corrections_without_progress, 0);
    for n in 0..6 {
        actor.record_planning_observation(&failed_call(&format!("op{n}")), &changed);
    }
    assert!(actor.non_progress_tripped);
}

#[test]
fn a_first_successful_init_commits_the_plan() {
    let mut actor = queued();
    prompted(&mut actor);
    let init = WorkflowSupervisorTodoObservation {
        op: Some("init".to_owned()),
        target_ids: Vec::new(),
        is_error: false,
        error_prefix: None,
    };
    let observed = SupervisorRequest::TodoObservation { generation: 1, observation: init };
    assert_eq!(admission_of(&observed), Admission::HandleThenCheck);
    actor.open(observed, &planned());
    assert!(actor.plan_committed);
    assert_eq!(actor.status, WorkflowStatus::Running);
}

#[test]
fn pausing_and_resuming_follow_the_backend() {
    let mut actor = running();
    let (action, point) = actor.open(SupervisorRequest::Pause, &planned());
    assert_eq!(action, SupervisorAction::Pause);
    actor.advance(point, BackendReply::Done, &planned());
    assert_eq!(actor.status, WorkflowStatus::Paused);
    let (action, _) = actor.open(SupervisorRequest::Pause, &planned());
    assert_eq!(finished(&action), &Ok(Vec::new()));
    let (action, point) = actor.open(SupervisorRequest::Resume, &planned());
    assert_eq!(action, SupervisorAction::Resume);
    actor.advance(point, BackendReply::Done, &planned());
    assert_eq!(actor.status, WorkflowStatus::Running);
}

#[test]
fn a_settled_workflow_cannot_be_steered() {
    let mut actor = running();
    let (action, point) = actor.open(SupervisorRequest::Steer("left".to_owned()), &planned());
    assert_eq!(action, SupervisorAction::Steer("left".to_owned()));
    let (action, _) = actor.advance(point, BackendReply::Failed("busy".to_owned()), &planned());
    assert_eq!(finished(&action), &Err("busy".to_owned()));
    let (_, point) = actor.open(SupervisorRequest::Cancel, &planned());
    actor.advance(point, BackendReply::Cancelled(Vec::new()), &planned());
    let (action, _) = actor.open(SupervisorRequest::Steer("right".to_owned()), &planned());
    assert_eq!(
        finished(&action),
        &Err("cannot steer terminal workflow supervisor".to_owned())
    );
}

#[test]
fn other_requests_wait_for_the_prompt() {
    for request in [SupervisorRequest::Start, SupervisorRequest::Pause, SupervisorRequest::Resume] {
        assert_eq!(admission_of(&request), Admission::Defer);
    }
    assert!(!reply_answers(&FramePoint::Finished, &BackendReply::Done));
    assert!(reply_answers(&FramePoint::Pausing, &BackendReply::Done));
    assert!(!reply_answers(&FramePoint::Pausing, &turn(PlanningTurnOutcome::Completed)));
}

#[test]
fn only_live_statuses_are_restored() {
    let refused = SupervisorActor::spawn_restored(contract(), WorkflowStatus::Failed, 0);
    assert!(matches!(
        refused,
        Err(ref m) if m == "workflow supervisor cannot restore lifecycle status failed"
    ));
    let mut blank = contract();
    blank.objective = "  ".to_owned();
    assert_eq!(blank.validate(), Err("workflow objective must not be empty".to_owned()));
    assert!(SupervisorActor::spawn(blank, 0).is_err());
}

#[test]
fn the_backend_shows_the_lifecycle_status() {
    let cases = [
        (planned(), WorkflowStatus::Running),
        (empty(), WorkflowStatus::Planning),
        (
            backend(vec![task("a", TodoStatus::Pending)], TodoDagExecutionStatus::Dormant),
            WorkflowStatus::Running,
        ),
        (
            backend(vec![task("a", TodoStatus::Pending)], TodoDagExecutionStatus::Settled),
            WorkflowStatus::Failed,
        ),
        (
            backend(vec![task("a", TodoStatus::Completed)], TodoDagExecutionStatus::Settled),
            WorkflowStatus::Completed,
        ),
        (
            backend(vec![task("a", TodoStatus::Completed)], TodoDagExecutionStatus::Blocked),
            WorkflowStatus::Failed,
        ),
    ];
    for (b, status) in cases {
        assert_eq!(status_from_backend(&b), status);
    }
    let p = project_backend(
        &contract(),
        &planned(),
        WorkflowStatus::Running,
        &None,
        &Vec::new(),
        Some(3),
    );
    assert_eq!(p.workflow_id, "wf");
    assert_eq!(p.planning_started_at_ms, Some(3));
    assert_eq!(p.todo, planned().todo);
}

#[test]
fn tasks_carry_their_owner() {
    let owned = workflow_task_ownership(&contract(), "t-1");
    assert_eq!(owned.workflow_id, "wf");
    assert_eq!(owned.todo_task_id, "t-1");
    assert_eq!(owned.generation, 1);
}

#[test]
fn the_dag_hash_follows_its_content() {
    let one = || todo(vec![task("a", TodoStatus::Pending)]);
    assert_eq!(todo_state_hash(&one()), todo_state_hash(&one()));
    let done = todo(vec![task("a", TodoStatus::Completed)]);
    assert_ne!(todo_state_hash(&one()), todo_state_hash(&done));
    assert_ne!(todo_state_hash(&one()), todo_state_hash(&todo(Vec::new())));

    assert_eq!(todo_task_count(&one()), 1);
    assert!(todo_has_any_task(&one()) && !todo_has_any_task(&todo(Vec::new())));
    assert!(todo_is_exactly_complete(&done) && !todo_is_exactly_complete(&one()));
    assert!(!todo_is_exactly_complete(&todo(Vec::new())));
}

#[test]
fn the_dag_hash_is_that_of_its_parts() {
    let dag = todo(vec![task("a", TodoStatus::InProgress)]);
    let mut hasher = std::hash::DefaultHasher::new();
    std::hash::Hash::hash("Build", &mut hasher);
    std::hash::Hash::hash("a", &mut hasher);
    std::hash::Hash::hash("task a", &mut hasher);
    std::hash::Hash::hash(&1u8, &mut hasher);
    assert_eq!(todo_state_hash(&dag), std::hash::Hasher::finish(&hasher));
}
