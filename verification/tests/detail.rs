use pi_coding::workflow::detail::{
    clip_text, hide_paths, live_texts, recent_irc, record_texts, safe_actor_name, safe_text,
    safe_todo, Redactions, WorkflowAgentActivityKind, WorkflowRuntimeDetail,
};
use pi_coding::workflow::records::{WorkflowIntegration, WorkflowSnapshot};
use pi_coding::workflow::supervisor::WorkflowSupervisorProjection;
use pi_coding::workflow::todo::{
    AgentSnapshot, AgentStatus, JobStatus, MailboxMessage, TodoPhase, TodoState, TodoStatus, TodoTask,
    WorkflowJobSnapshot,
};
use pi_coding::workflow::{WorkflowId, WorkflowStatus};

fn snapshot(status: WorkflowStatus) -> WorkflowSnapshot {
    WorkflowSnapshot {
        workflow_id: WorkflowId::new("workflow-safe"),
        name: "Safe workflow".to_owned(),
        objective: "work /private/root token=hidden".to_owned(),
        status,
        created_at_ms: 1,
        updated_at_ms: 2,
        generation: 7,
        todo: TodoState { phases: Vec::new() },
        worktree_label: Some("workflow-safe".to_owned()),
        branch: Some("private-branch".to_owned()),
        supervisor_agent_id: Some("private-supervisor-id".to_owned()),
        supervisor_job_id: None,
        failure: None,
        integration: WorkflowIntegration::NotIntegrated,
    }
}

fn projection(status: WorkflowStatus) -> WorkflowSupervisorProjection {
    WorkflowSupervisorProjection {
        workflow_id: "workflow-safe".to_owned(),
        generation: 7,
        status,
        supervisor_agent_id: "supervisor-private-id".to_owned(),
        todo: TodoState { phases: Vec::new() },
        jobs: Vec::new(),
        irc: Vec::new(),
        failure: None,
        activity: Vec::new(),
        planning_started_at_ms: None,
    }
}

fn agent(id: &str, name: &str, status: AgentStatus) -> AgentSnapshot {
    AgentSnapshot { id: id.to_owned(), display_name: name.to_owned(), status }
}

fn job(status: JobStatus) -> WorkflowJobSnapshot {
    WorkflowJobSnapshot {
        id: "private-job-id".to_owned(),
        agent_id: "worker-private-id".to_owned(),
        agent: "task".to_owned(),
        description: Some("edit /private/file api_key=hidden".to_owned()),
        owned_task_id: Some("todo-safe".to_owned()),
        todo_task_id: Some("todo-safe".to_owned()),
        workflow_id: Some("workflow-safe".to_owned()),
        workflow_generation: Some(7),
        status,
        created_at: 3,
        started_at: Some(4),
        finished_at: status.is_settled().then_some(5),
        soft_budget_exhausted: false,
    }
}

fn message(id: &str, from: &str, to: &str, body: &str, timestamp: u64) -> MailboxMessage {
    MailboxMessage {
        id: id.to_owned(),
        from: from.to_owned(),
        to: to.to_owned(),
        body: body.to_owned(),
        timestamp,
        reply_to: None,
    }
}

/// What a redactor makes of the given texts.
fn redactions(texts: &[String]) -> Redactions {
    let mut redacted = Redactions::new();
    for text in texts {
        redacted.add(text, &text.replace("=hidden", "=[REDACTED]"));
    }
    redacted
}

fn from_live(
    snapshot: &WorkflowSnapshot,
    projection: WorkflowSupervisorProjection,
    agents: Vec<AgentSnapshot>,
    jobs: Vec<WorkflowJobSnapshot>,
    irc: Vec<MailboxMessage>,
) -> WorkflowRuntimeDetail {
    let texts = live_texts(snapshot, &projection, &agents, &jobs, &irc);
    let redacted = redactions(&texts);
    WorkflowRuntimeDetail::from_live(snapshot, projection, agents, jobs, irc, &redacted)
}

/// Every text that a detail shows.
fn shown(detail: &WorkflowRuntimeDetail) -> String {
    let mut all = vec![detail.name.clone(), detail.objective.clone()];
    all.push(detail.workflow_id.as_str().to_owned());
    if let Some(s) = &detail.supervisor {
        all.push(s.display_name.clone());
        all.extend(s.task_summary.clone());
        all.extend(s.activity.iter().map(|a| a.text.clone()));
    }
    for s in &detail.subagents {
        all.push(s.display_name.clone());
        all.extend(s.task_summary.clone());
        all.extend(s.activity.iter().map(|a| a.text.clone()));
    }
    for j in &detail.jobs {
        all.push(j.display_name.clone());
        all.extend(j.task_summary.clone());
    }
    for m in &detail.irc {
        all.push(format!("{} {} {}", m.from, m.to, m.body));
    }
    all.join("\n")
}

#[test]
fn live_detail_projects_jobs_todo_ownership_and_deduplicated_irc() {
    let note = message(
        "message-private-id",
        "worker-private-id",
        "supervisor-private-id",
        "done /private/file token=hidden",
        9,
    );
    let detail = from_live(
        &snapshot(WorkflowStatus::Running),
        projection(WorkflowStatus::Running),
        vec![
            agent("supervisor-private-id", "Supervisor", AgentStatus::Running),
            agent("worker-private-id", "Worker", AgentStatus::Running),
        ],
        vec![job(JobStatus::Running), job(JobStatus::Completed)],
        vec![note.clone(), note],
    );
    assert_eq!(detail.jobs.len(), 2);
    assert_eq!(detail.jobs[0].todo_task_id.as_deref(), Some("todo-safe"));
    assert_eq!(
        detail.subagents[0].task_summary.as_deref(),
        Some("edit [path] api_key=[REDACTED]")
    );
    assert_eq!(detail.subagents[0].todo_task_id.as_deref(), Some("todo-safe"));
    assert!(detail.supervisor.as_ref().map_or(true, |s| s.todo_task_id.is_none()));
    assert_eq!(detail.irc.len(), 1);
    assert_eq!(detail.irc[0].from, "Worker");
    assert_eq!(detail.irc[0].body, "done [path] token=[REDACTED]");
    let encoded = shown(&detail);
    for private in [
        "private-job-id",
        "message-private-id",
        "worker-private-id",
        "supervisor-private-id",
        "/private",
        "hidden",
    ] {
        assert!(!encoded.contains(private), "leaked {private}");
    }
}

#[test]
fn live_detail_projects_per_agent_activity_feed() {
    let mut jobs = vec![job(JobStatus::Completed)];
    jobs[0].description = Some("finish the report".to_owned());
    jobs[0].started_at = Some(10);
    jobs[0].finished_at = Some(11);
    let irc = vec![
        message("m-1", "worker-private-id", "supervisor-private-id", "done, see /private/file", 12),
        message("m-2", "worker-private-id", "peer-private-id", "handoff to peer", 13),
    ];
    let detail = from_live(
        &snapshot(WorkflowStatus::Running),
        projection(WorkflowStatus::Running),
        vec![
            agent("supervisor-private-id", "Supervisor", AgentStatus::Running),
            agent("worker-private-id", "Worker", AgentStatus::Running),
            agent("peer-private-id", "Peer", AgentStatus::Parked),
        ],
        jobs,
        irc,
    );
    let worker = &detail.subagents[0];
    assert_eq!(worker.activity.len(), 3);
    assert_eq!(worker.activity[0].kind, WorkflowAgentActivityKind::Task);
    assert_eq!(worker.activity[0].text, "finish the report");
    assert_eq!(worker.activity[1].kind, WorkflowAgentActivityKind::Irc);
    assert!(worker.activity[1].text.contains("Supervisor: done, see [path]"));
    assert_eq!(worker.activity[2].at_ms, 13);
    assert_eq!(worker.activity[2].text, "→ Peer: handoff to peer");
    let peer = detail.subagents.iter().find(|s| s.display_name == "Peer").expect("peer");
    assert_eq!(peer.activity.len(), 1);
    assert_eq!(peer.activity[0].text, "Worker: handoff to peer");
    let supervisor = detail.supervisor.as_ref().expect("supervisor");
    assert_eq!(supervisor.activity.len(), 1);
    assert_eq!(supervisor.activity[0].text, "Worker: done, see [path]");
    let encoded = shown(&detail);
    for private in ["private-job-id", "worker-private-id", "peer-private-id", "/private"] {
        assert!(!encoded.contains(private), "leaked {private}");
    }
}

#[test]
fn live_detail_shows_subagent_to_subagent_irc() {
    let irc = vec![
        message("peer-a", "worker-a-private", "worker-b-private", "results ready", 20),
        message("peer-b", "worker-b-private", "worker-a-private", "acknowledged", 21),
        message("peer-b", "worker-b-private", "worker-a-private", "acknowledged", 21),
    ];
    let detail = from_live(
        &snapshot(WorkflowStatus::Running),
        projection(WorkflowStatus::Running),
        vec![
            agent("supervisor-private-id", "Supervisor", AgentStatus::Running),
            agent("worker-a-private", "WorkerA", AgentStatus::Parked),
            agent("worker-b-private", "WorkerB", AgentStatus::Parked),
        ],
        Vec::new(),
        irc,
    );
    assert_eq!(detail.irc.len(), 2, "duplicate message ids must collapse");
    assert_eq!(detail.irc[0].from, "WorkerA");
    assert_eq!(detail.irc[0].to, "WorkerB");
    assert_eq!(detail.irc[0].body, "results ready");
    assert_eq!(detail.irc[1].from, "WorkerB");
    assert_eq!(detail.irc[1].to, "WorkerA");
    let worker_a = detail.subagents.iter().find(|s| s.display_name == "WorkerA").expect("worker a");
    assert_eq!(worker_a.activity.len(), 2);
    let worker_b = detail.subagents.iter().find(|s| s.display_name == "WorkerB").expect("worker b");
    assert_eq!(worker_b.activity.len(), 2);
}

#[test]
fn planning_detail_reads_supervisor_as_active_with_planning_task() {
    let detail = from_live(
        &snapshot(WorkflowStatus::Planning),
        projection(WorkflowStatus::Planning),
        vec![agent("supervisor-private-id", "Supervisor", AgentStatus::Idle)],
        Vec::new(),
        Vec::new(),
    );
    assert_eq!(detail.status, WorkflowStatus::Planning);
    let supervisor = detail.supervisor.expect("planning supervisor");
    assert_eq!(supervisor.status, AgentStatus::Running);
    assert_eq!(supervisor.display_name, "Supervisor");
    let task = supervisor.task_summary.expect("planning task summary");
    assert!(task.starts_with("Planning: "), "planning task must name the objective: {task}");
    assert!(!task.contains("private"), "planning task must not leak raw objective: {task}");
    assert!(supervisor.todo_task_id.is_none());
    assert!(detail.jobs.is_empty() && detail.todo.phases.is_empty());
}

#[test]
fn terminal_fallback_and_debug_are_redacted() {
    let record = snapshot(WorkflowStatus::Completed);
    let redacted = redactions(&record_texts(&record));
    let detail = WorkflowRuntimeDetail::snapshot_fallback(&record, &redacted);
    assert_eq!(detail.objective, "work [path] token=[REDACTED]");
    assert!(detail.supervisor.is_none() && detail.jobs.is_empty() && detail.irc.is_empty());
    let encoded = shown(&detail);
    let debug = detail.debug_text();
    for private in ["/private", "hidden", "private-branch", "private-supervisor-id"] {
        assert!(!encoded.contains(private));
        assert!(!debug.contains(private));
    }
    assert_eq!(
        debug,
        "WorkflowRuntimeDetail { workflow_id: WorkflowId(\"workflow-safe\"), generation: 7, status: Completed, phase_count: 0, has_supervisor: false, subagent_count: 0, job_count: 0, irc_count: 0, .. }"
    );
}

#[test]
fn terminal_durable_status_wins_over_stale_live_projection() {
    let mut durable = snapshot(WorkflowStatus::Completed);
    durable.integration =
        WorkflowIntegration::Conflicted { conflicts: vec!["private/path".to_owned()] };
    durable.status = WorkflowStatus::Conflicted;
    let detail = from_live(
        &durable,
        projection(WorkflowStatus::Completed),
        vec![agent("supervisor-private-id", "Supervisor", AgentStatus::Idle)],
        Vec::new(),
        Vec::new(),
    );
    assert_eq!(detail.status, WorkflowStatus::Conflicted);
}

#[test]
fn texts_lose_paths_and_length() {
    assert_eq!(hide_paths("see /etc/hosts now"), "see [path] now");
    assert_eq!(clip_text("abcdef", 4), "abc…");
    assert_eq!(clip_text("abcd", 4), "abcd");
    let redacted = redactions(&["at /a/b/c done".to_owned(), "token=hidden".to_owned()]);
    assert_eq!(safe_text("at /a/b/c done", &redacted, 9), "at [path…");
    assert_eq!(safe_text("token=hidden", &redacted, 90), "token=[REDACTED]");
    assert_eq!(safe_text("never redacted", &redacted, 90), "");
}

#[test]
fn unknown_actors_have_plain_names() {
    let agents = vec![agent("a", "Ann", AgentStatus::Idle)];
    assert_eq!(safe_actor_name(&agents, "s", "a"), "Ann");
    assert_eq!(safe_actor_name(&agents, "s", "s"), "Supervisor");
    assert_eq!(safe_actor_name(&agents, "s", "x"), "Agent");
}

#[test]
fn messages_are_shown_in_time_order() {
    let irc = vec![message("2", "a", "b", "late", 5), message("1", "b", "a", "early", 4)];
    let shown = recent_irc(&irc, &vec![], "s");
    assert_eq!(shown[0].body, "early");
    assert_eq!(shown[1].body, "late");
}

#[test]
fn safe_todo_keeps_the_shape_and_hides_the_paths() {
    let todo = TodoState {
        phases: vec![TodoPhase {
            name: "n".repeat(300),
            tasks: vec![TodoTask {
                id: "task-1".to_owned(),
                content: "edit /private/file now".to_owned(),
                status: TodoStatus::Pending,
                depends_on: vec!["task-0".to_owned()],
                blocked_by: vec!["open /private/other".to_owned()],
            }],
        }],
    };
    let mut record = snapshot(WorkflowStatus::Running);
    record.todo = todo;
    let texts = record_texts(&record);
    for shown in ["Safe workflow", "edit /private/file now", "open /private/other"] {
        assert!(texts.iter().any(|t| t == shown), "{shown}");
    }
    assert_eq!(texts.len(), 5);
    let safe = safe_todo(&record.todo, &redactions(&texts));
    assert_eq!(safe.phases.len(), 1);
    assert_eq!(safe.phases[0].name, clip_text(&"n".repeat(300), 160));
    let task = &safe.phases[0].tasks[0];
    assert_eq!(task.id, "task-1");
    assert_eq!(task.content, "edit [path] now");
    assert_eq!(task.depends_on, ["task-0"]);
    assert!(!task.blocked_by[0].contains("/private"), "{:?}", task.blocked_by);
}

#[test]
fn the_task_is_that_of_the_job_behind_the_summary() {
    let mut first = job(JobStatus::Completed);
    first.created_at = 1;
    first.owned_task_id = Some("todo-first".to_owned());
    let mut second = job(JobStatus::Running);
    second.created_at = 2;
    second.description = Some("second".to_owned());
    second.owned_task_id = None;
    second.todo_task_id = None;
    let mut third = job(JobStatus::Running);
    third.created_at = 3;
    third.description = None;
    third.owned_task_id = Some("todo-third".to_owned());
    let rows = |jobs: Vec<WorkflowJobSnapshot>| {
        from_live(
            &snapshot(WorkflowStatus::Running),
            projection(WorkflowStatus::Running),
            vec![agent("worker-private-id", "Worker", AgentStatus::Running)],
            jobs,
            Vec::new(),
        )
        .subagents
    };
    let row = &rows(vec![first, second, third])[0];
    assert_eq!(row.task_summary.as_deref(), Some("second"));
    assert_eq!(row.todo_task_id, None);
    let mut only = job(JobStatus::Running);
    only.description = None;
    let row = &rows(vec![only])[0];
    assert_eq!(row.task_summary, None);
    assert_eq!(row.todo_task_id.as_deref(), Some("todo-safe"));
}

#[test]
fn every_live_text_is_listed_for_redaction() {
    let mut live = projection(WorkflowStatus::Running);
    live.todo.phases.push(TodoPhase {
        name: "phase".to_owned(),
        tasks: vec![TodoTask {
            id: "task-1".to_owned(),
            content: "content".to_owned(),
            status: TodoStatus::Pending,
            depends_on: Vec::new(),
            blocked_by: vec!["blocker".to_owned()],
        }],
    });
    let texts = live_texts(
        &snapshot(WorkflowStatus::Running),
        &live,
        &vec![agent("a", "Ann", AgentStatus::Idle), agent("b", " ", AgentStatus::Idle)],
        &vec![job(JobStatus::Running)],
        &vec![message("m", "a", "b", "body", 1)],
    );
    assert_eq!(
        texts,
        [
            "Safe workflow",
            "work /private/root token=hidden",
            "phase",
            "content",
            "blocker",
            "Ann",
            "Agent",
            "task",
            "edit /private/file api_key=hidden",
            "body",
        ]
    );
}
