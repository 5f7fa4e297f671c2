use pi_coding::json::Json;
use pi_coding::text::{is_blank, trim};
use pi_coding::tools::lsp::{run_capabilities, run_position_query, symbol_params, PositionQuery};
use pi_coding::workflow::detail::{
    WorkflowIrcMessage, WorkflowRuntimeJobDetail, WorkflowSubagentDetail, WorkflowSupervisorDetail,
};
use pi_coding::workflow::supervisor::workflow_supervisor_todo_init_succeeded;
use pi_coding::workflow::todo::{AgentStatus, JobStatus};
use pi_coding::workflow_worktree::{WorkflowWorktreeIdentity, WorkflowWorktreeStatus};

fn object(members: Vec<(&str, Json)>) -> Json {
    Json::Object(members.into_iter().map(|(k, v)| (k.to_owned(), v)).collect())
}

fn words(s: &str) -> Json {
    Json::Text(s.to_owned())
}

#[test]
fn details_are_shown_without_their_texts() {
    let secret = "private-name";
    let supervisor = WorkflowSupervisorDetail {
        display_name: secret.to_owned(),
        status: AgentStatus::Running,
        task_summary: Some(secret.to_owned()),
        todo_task_id: None,
        activity: Vec::new(),
    };
    assert_eq!(
        supervisor.debug_text(),
        "WorkflowSupervisorDetail { status: Running, has_task_summary: true, .. }"
    );
    let agent = WorkflowSubagentDetail {
        display_name: secret.to_owned(),
        status: AgentStatus::Parked,
        task_summary: None,
        todo_task_id: Some(secret.to_owned()),
        activity: Vec::new(),
    };
    assert_eq!(
        agent.debug_text(),
        "WorkflowSubagentDetail { status: Parked, has_task_summary: false, .. }"
    );
    let job = WorkflowRuntimeJobDetail {
        display_name: secret.to_owned(),
        status: JobStatus::Cancelled,
        task_summary: None,
        todo_task_id: Some(secret.to_owned()),
        created_at_ms: 1,
        started_at_ms: None,
        finished_at_ms: None,
    };
    assert_eq!(
        job.debug_text(),
        "WorkflowRuntimeJobDetail { status: Cancelled, has_task_summary: false, has_todo_task_id: true, .. }"
    );
    let message = WorkflowIrcMessage {
        from: secret.to_owned(),
        to: secret.to_owned(),
        body: secret.to_owned(),
        timestamp_ms: 42,
    };
    assert_eq!(message.debug_text(), "WorkflowIrcMessage { timestamp_ms: 42, .. }");
}

#[test]
fn worktree_status_is_shown_without_paths() {
    let identity = WorkflowWorktreeIdentity {
        workflow_id: "wf-1".to_owned(),
        source_root: "/secret/src".to_owned(),
        common_git_dir: "/secret/git".to_owned(),
        worktree_path: "/secret/copy".to_owned(),
        branch: "rpi/workflow/wf-1".to_owned(),
        base_commit: "aaa".to_owned(),
        head_commit: "bbb".to_owned(),
        created_at_ms: 7,
    };
    let status = WorkflowWorktreeStatus {
        identity,
        dirty: true,
        ahead_commits: 3,
        changed_files: vec!["a \"b\".rs".to_owned()],
    };
    assert_eq!(
        status.debug_text(),
        "WorkflowWorktreeStatus { identity: WorkflowWorktreeIdentity { workflow_id: \"wf-1\", branch: \"rpi/workflow/wf-1\", base_commit: \"aaa\", head_commit: \"bbb\", created_at_ms: 7, .. }, dirty: true, ahead_commits: 3, changed_files: [\"a \\\"b\\\".rs\"] }"
    );
}

#[test]
fn only_a_successful_todo_init_commits_a_plan() {
    let init = Some(object(vec![("op", words("init"))]));
    assert!(workflow_supervisor_todo_init_succeeded("todo", false, &init));
    assert!(!workflow_supervisor_todo_init_succeeded("todo", true, &init));
    assert!(!workflow_supervisor_todo_init_succeeded("write", false, &init));
    assert!(!workflow_supervisor_todo_init_succeeded("todo", false, &None));
    let done = Some(object(vec![("op", words("done"))]));
    assert!(!workflow_supervisor_todo_init_succeeded("todo", false, &done));
    let number = Some(object(vec![("op", Json::Bool(true))]));
    assert!(!workflow_supervisor_todo_init_succeeded("todo", false, &number));
}

#[test]
fn position_queries_show_their_own_kind_of_answer() {
    let hover = object(vec![("contents", words("fn main()"))]);
    assert_eq!(run_position_query(PositionQuery::Hover, &hover), "fn main()");
    assert_eq!(
        run_position_query(PositionQuery::Hover, &Json::Null),
        "No hover information at this position."
    );
    let definition = run_position_query(PositionQuery::Definition, &Json::Null);
    let references = run_position_query(PositionQuery::References, &Json::Null);
    assert!(definition.contains("definition"), "{definition}");
    assert!(references.contains("references"), "{references}");
}

#[test]
fn symbol_search_prefers_the_document() {
    let document = symbol_params(&Some("file:///a.rs".to_owned()), "ignored");
    let inner = document.get("textDocument").expect("document");
    assert_eq!(inner.words_at("uri"), Some("file:///a.rs"));
    assert!(document.get("query").is_none());
    let workspace = symbol_params(&None, "Config");
    assert_eq!(workspace.words_at("query"), Some("Config"));
    assert!(workspace.get("textDocument").is_none());
}

#[test]
fn capabilities_name_the_language() {
    assert_eq!(
        run_capabilities("rust", "{}"),
        "LSP server capabilities for language `rust`:\n{}"
    );
}

#[test]
fn blank_texts_trim_to_nothing() {
    for blank in ["", " ", "\t\n", "\u{a0}\u{2003}"] {
        assert!(is_blank(blank));
        assert_eq!(trim(blank), "");
    }
    assert!(!is_blank(" x "));
    assert_eq!(trim(" x "), "x");
}
