//! What the models of values keep.
//!
//! Contracts speak of models. Two values with the same model agree in everything
//! that they hold, so that nothing can be lost where a contract is kept.

use crate::sort;
use crate::text;
use crate::tools::definition;
use crate::tools::definition::{Parameter, ToolDefinition};
use crate::tools::lsp::ServerSpec;
use crate::tools::web_search::SearchResult;
use crate::truncate::TruncationResult;
use crate::trust::{TrustDecisionObservation, TrustResolution};
use crate::workflow::detail;
use crate::workflow::detail::{
    WorkflowIrcMessage, WorkflowRuntimeDetail, WorkflowRuntimeJobDetail, WorkflowSubagentDetail,
    WorkflowSupervisorDetail,
};
use crate::workflow::records;
use crate::workflow::records::{
    WorkflowRuntimeIdentity, WorkflowRuntimeRequest, WorkflowRuntimeUpdate, WorkflowSnapshot,
};
use crate::workflow::supervisor;
use crate::workflow::supervisor::{
    BackendView, SupervisorActor, WorkflowSupervisorActivity, WorkflowSupervisorProjection,
};
use crate::workflow::todo::{AgentSnapshot, MailboxMessage, TodoTask, WorkflowJobSnapshot};
use crate::workflow_worktree::overlay::{OverlayCatalogEntry, OverlayLayers};
use crate::workflow_worktree::{WorkflowWorktreeIdentity, WorkflowWorktreeStatus};
use vstd::prelude::*;
use vstd::string::*;

verus! {

/// Records with the same model agree in every field.
pub proof fn law_records_agree_with_their_model(a: WorkflowSnapshot, b: WorkflowSnapshot)
    requires
        a@ == b@,
    ensures
        a.workflow_id@ == b.workflow_id@,
        a.name@ == b.name@,
        a.objective@ == b.objective@,
        a.status == b.status,
        a.created_at_ms == b.created_at_ms,
        a.updated_at_ms == b.updated_at_ms,
        a.generation == b.generation,
        a.todo@ == b.todo@,
        text::opt_text(a.worktree_label) == text::opt_text(b.worktree_label),
        text::opt_text(a.branch) == text::opt_text(b.branch),
        text::opt_text(a.supervisor_agent_id) == text::opt_text(b.supervisor_agent_id),
        text::opt_text(a.supervisor_job_id) == text::opt_text(b.supervisor_job_id),
        records::failure_text(a.failure) == records::failure_text(b.failure),
        a.integration@ == b.integration@,
{
}

/// Requests with the same model agree in every field.
pub proof fn law_requests_agree_with_their_model(
    a: WorkflowRuntimeRequest,
    b: WorkflowRuntimeRequest,
)
    requires
        a@ == b@,
    ensures
        a.workflow_id@ == b.workflow_id@,
        a.name@ == b.name@,
        a.objective@ == b.objective@,
        a.generation == b.generation,
{
}

/// Runtimes with the same model agree in every field.
pub proof fn law_runtimes_agree_with_their_model(
    a: WorkflowRuntimeIdentity,
    b: WorkflowRuntimeIdentity,
)
    requires
        a@ == b@,
    ensures
        text::opt_text(a.worktree_label) == text::opt_text(b.worktree_label),
        text::opt_text(a.branch) == text::opt_text(b.branch),
        text::opt_text(a.supervisor_agent_id) == text::opt_text(b.supervisor_agent_id),
        text::opt_text(a.supervisor_job_id) == text::opt_text(b.supervisor_job_id),
        a.todo@ == b.todo@,
{
}

/// Updates with the same model agree in every field.
pub proof fn law_updates_agree_with_their_model(a: WorkflowRuntimeUpdate, b: WorkflowRuntimeUpdate)
    requires
        a@ == b@,
    ensures
        a.status == b.status,
        a.todo@ == b.todo@,
        text::opt_text(a.supervisor_agent_id) == text::opt_text(b.supervisor_agent_id),
        text::opt_text(a.supervisor_job_id) == text::opt_text(b.supervisor_job_id),
        records::failure_text(a.failure) == records::failure_text(b.failure),
        a.integration@ == b.integration@,
{
}

/// Tasks with the same model agree in every field.
pub proof fn law_tasks_agree_with_their_model(a: TodoTask, b: TodoTask)
    requires
        a@ == b@,
    ensures
        a.id@ == b.id@,
        a.content@ == b.content@,
        a.status == b.status,
        text::texts(a.depends_on@) == text::texts(b.depends_on@),
        text::texts(a.blocked_by@) == text::texts(b.blocked_by@),
{
}

/// Agents with the same model agree in every field.
pub proof fn law_agents_agree_with_their_model(a: AgentSnapshot, b: AgentSnapshot)
    requires
        a@ == b@,
    ensures
        a.id@ == b.id@,
        a.display_name@ == b.display_name@,
        a.status == b.status,
{
}

/// Jobs with the same model agree in every field.
pub proof fn law_jobs_agree_with_their_model(a: WorkflowJobSnapshot, b: WorkflowJobSnapshot)
    requires
        a@ == b@,
    ensures
        a.id@ == b.id@,
        a.agent_id@ == b.agent_id@,
        a.agent@ == b.agent@,
        text::opt_text(a.description) == text::opt_text(b.description),
        text::opt_text(a.owned_task_id) == text::opt_text(b.owned_task_id),
        text::opt_text(a.todo_task_id) == text::opt_text(b.todo_task_id),
        text::opt_text(a.workflow_id) == text::opt_text(b.workflow_id),
        a.workflow_generation == b.workflow_generation,
        a.status == b.status,
        a.created_at == b.created_at,
        a.started_at == b.started_at,
        a.finished_at == b.finished_at,
        a.soft_budget_exhausted == b.soft_budget_exhausted,
{
}

/// Messages with the same model agree in every field.
pub proof fn law_messages_agree_with_their_model(a: MailboxMessage, b: MailboxMessage)
    requires
        a@ == b@,
    ensures
        a.id@ == b.id@,
        a.from@ == b.from@,
        a.to@ == b.to@,
        a.body@ == b.body@,
        a.timestamp == b.timestamp,
        text::opt_text(a.reply_to) == text::opt_text(b.reply_to),
{
}

/// Activities with the same model agree in every field.
pub proof fn law_activities_agree_with_their_model(
    a: WorkflowSupervisorActivity,
    b: WorkflowSupervisorActivity,
)
    requires
        a@ == b@,
    ensures
        a.at_ms == b.at_ms,
        a.kind == b.kind,
        a.text@ == b.text@,
{
}

/// Backends with the same model agree in every field.
pub proof fn law_backends_agree_with_their_model(a: BackendView, b: BackendView)
    requires
        a@ == b@,
    ensures
        a.now_ms == b.now_ms,
        a.todo@ == b.todo@,
        a.dag == b.dag,
        a.jobs@ == b.jobs@,
        a.irc@ == b.irc@,
{
}

/// Projections with the same model agree in every field.
pub proof fn law_projections_agree_with_their_model(
    a: WorkflowSupervisorProjection,
    b: WorkflowSupervisorProjection,
)
    requires
        a@ == b@,
    ensures
        a.workflow_id@ == b.workflow_id@,
        a.generation == b.generation,
        a.status == b.status,
        a.supervisor_agent_id@ == b.supervisor_agent_id@,
        a.todo@ == b.todo@,
        a.jobs@ == b.jobs@,
        a.irc@ == b.irc@,
        text::opt_text(a.failure) == text::opt_text(b.failure),
        supervisor::feed(a.activity@) == supervisor::feed(b.activity@),
        a.planning_started_at_ms == b.planning_started_at_ms,
{
}

/// Supervisors with the same model agree in every field.
pub proof fn law_supervisors_agree_with_their_model(a: SupervisorActor, b: SupervisorActor)
    requires
        a@ == b@,
    ensures
        a.contract == b.contract,
        a.status == b.status,
        text::opt_text(a.failure) == text::opt_text(b.failure),
        a.planning_in_flight == b.planning_in_flight,
        a.plan_committed == b.plan_committed,
        a.suppress_abort_failure == b.suppress_abort_failure,
        a.non_progress_tripped == b.non_progress_tripped,
        text::opt_text(a.non_progress_reason) == text::opt_text(b.non_progress_reason),
        a.last_todo_state_hash == b.last_todo_state_hash,
        text::opt_text(a.last_failed_fingerprint) == text::opt_text(b.last_failed_fingerprint),
        a.identical_failed_ops == b.identical_failed_ops,
        a.corrections_without_progress == b.corrections_without_progress,
        supervisor::feed(a.activity@) == supervisor::feed(b.activity@),
        a.planning_started_at_ms == b.planning_started_at_ms,
        supervisor::events(a.outbox@) == supervisor::events(b.outbox@),
{
}

/// Supervisor rows with the same model agree in every field.
pub proof fn law_supervisor_rows_agree_with_their_model(
    a: WorkflowSupervisorDetail,
    b: WorkflowSupervisorDetail,
)
    requires
        a@ == b@,
    ensures
        a.display_name@ == b.display_name@,
        a.status == b.status,
        text::opt_text(a.task_summary) == text::opt_text(b.task_summary),
        text::opt_text(a.todo_task_id) == text::opt_text(b.todo_task_id),
        sort::views(a.activity@) == sort::views(b.activity@),
{
}

/// Subagent rows with the same model agree in every field.
pub proof fn law_subagent_rows_agree_with_their_model(
    a: WorkflowSubagentDetail,
    b: WorkflowSubagentDetail,
)
    requires
        a@ == b@,
    ensures
        a.display_name@ == b.display_name@,
        a.status == b.status,
        text::opt_text(a.task_summary) == text::opt_text(b.task_summary),
        text::opt_text(a.todo_task_id) == text::opt_text(b.todo_task_id),
        sort::views(a.activity@) == sort::views(b.activity@),
{
}

/// Job rows with the same model agree in every field.
pub proof fn law_job_rows_agree_with_their_model(
    a: WorkflowRuntimeJobDetail,
    b: WorkflowRuntimeJobDetail,
)
    requires
        a@ == b@,
    ensures
        a.display_name@ == b.display_name@,
        a.status == b.status,
        text::opt_text(a.task_summary) == text::opt_text(b.task_summary),
        text::opt_text(a.todo_task_id) == text::opt_text(b.todo_task_id),
        a.created_at_ms == b.created_at_ms,
        a.started_at_ms == b.started_at_ms,
        a.finished_at_ms == b.finished_at_ms,
{
}

/// Message rows with the same model agree in every field.
pub proof fn law_message_rows_agree_with_their_model(a: WorkflowIrcMessage, b: WorkflowIrcMessage)
    requires
        a@ == b@,
    ensures
        a.from@ == b.from@,
        a.to@ == b.to@,
        a.body@ == b.body@,
        a.timestamp_ms == b.timestamp_ms,
{
}

/// Details with the same model agree in every field.
pub proof fn law_details_agree_with_their_model(a: WorkflowRuntimeDetail, b: WorkflowRuntimeDetail)
    requires
        a@ == b@,
    ensures
        a.workflow_id@ == b.workflow_id@,
        a.generation == b.generation,
        a.name@ == b.name@,
        a.objective@ == b.objective@,
        a.status == b.status,
        a.todo@ == b.todo@,
        detail::supervisor_row(a.supervisor) == detail::supervisor_row(b.supervisor),
        sort::views(a.subagents@) == sort::views(b.subagents@),
        sort::views(a.jobs@) == sort::views(b.jobs@),
        sort::views(a.irc@) == sort::views(b.irc@),
        supervisor::feed(a.supervisor_activity@) == supervisor::feed(b.supervisor_activity@),
        a.planning_started_at_ms == b.planning_started_at_ms,
{
}

/// Worktrees with the same model agree in every field.
pub proof fn law_worktrees_agree_with_their_model(
    a: WorkflowWorktreeIdentity,
    b: WorkflowWorktreeIdentity,
)
    requires
        a@ == b@,
    ensures
        a.workflow_id@ == b.workflow_id@,
        a.source_root@ == b.source_root@,
        a.common_git_dir@ == b.common_git_dir@,
        a.worktree_path@ == b.worktree_path@,
        a.branch@ == b.branch@,
        a.base_commit@ == b.base_commit@,
        a.head_commit@ == b.head_commit@,
        a.created_at_ms == b.created_at_ms,
{
}

/// Worktree statuses with the same model agree in every field.
pub proof fn law_worktree_statuses_agree_with_their_model(
    a: WorkflowWorktreeStatus,
    b: WorkflowWorktreeStatus,
)
    requires
        a@ == b@,
    ensures
        a.identity@ == b.identity@,
        a.dirty == b.dirty,
        a.ahead_commits == b.ahead_commits,
        text::texts(a.changed_files@) == text::texts(b.changed_files@),
{
}

/// Layers with the same model agree in every field.
pub proof fn law_layers_agree_with_their_model(a: OverlayLayers, b: OverlayLayers)
    requires
        a@ == b@,
    ensures
        a.source@ == b.source@,
        a.upper@ == b.upper@,
        a.work@ == b.work@,
        a.merged@ == b.merged@,
{
}

/// Overlay entries with the same model agree in every field.
pub proof fn law_overlay_entries_agree_with_their_model(
    a: OverlayCatalogEntry,
    b: OverlayCatalogEntry,
)
    requires
        a@ == b@,
    ensures
        a.workflow_id@ == b.workflow_id@,
        a.source_root@ == b.source_root@,
        a.common_git_dir@ == b.common_git_dir@,
        a.worktree_path@ == b.worktree_path@,
        a.branch@ == b.branch@,
        a.base_commit@ == b.base_commit@,
        a.head_commit@ == b.head_commit@,
        a.created_at_ms == b.created_at_ms,
        a.backend == b.backend,
{
}

/// Resolutions with the same model agree in every field.
pub proof fn law_resolutions_agree_with_their_model(a: TrustResolution, b: TrustResolution)
    requires
        a@ == b@,
    ensures
        a.decision == b.decision,
        text::opt_text(a.matched_path) == text::opt_text(b.matched_path),
        a.project_path@ == b.project_path@,
{
}

/// Observations with the same model agree in every field.
pub proof fn law_observations_agree_with_their_model(
    a: TrustDecisionObservation,
    b: TrustDecisionObservation,
)
    requires
        a@ == b@,
    ensures
        a.path@ == b.path@,
        a.decision == b.decision,
        a.is_new == b.is_new,
{
}

/// Results with the same model agree in every field.
pub proof fn law_results_agree_with_their_model(a: SearchResult, b: SearchResult)
    requires
        a@ == b@,
    ensures
        a.title@ == b.title@,
        a.url@ == b.url@,
        a.snippet@ == b.snippet@,
{
}

/// Servers with the same model agree in every field.
pub proof fn law_servers_agree_with_their_model(a: ServerSpec, b: ServerSpec)
    requires
        a@ == b@,
    ensures
        a.command@ == b.command@,
        a.stdio == b.stdio,
        a.language_id@ == b.language_id@,
{
}

/// Parameters with the same model agree in every field.
pub proof fn law_parameters_agree_with_their_model(a: Parameter, b: Parameter)
    requires
        a@ == b@,
    ensures
        a.name@ == b.name@,
        a.kind@ == b.kind@,
        a.description@ == b.description@,
{
}

/// Definitions with the same model agree in every field.
pub proof fn law_definitions_agree_with_their_model(a: ToolDefinition, b: ToolDefinition)
    requires
        a@ == b@,
    ensures
        a.name@ == b.name@,
        a.description@ == b.description@,
        definition::parameter_models(a.parameters@) == definition::parameter_models(b.parameters@),
        text::texts(a.required@) == text::texts(b.required@),
        a.capability == b.capability,
        text::texts(a.guidelines@) == text::texts(b.guidelines@),
{
}

/// Truncations with the same model agree in every field.
pub proof fn law_truncations_agree_with_their_model(a: TruncationResult, b: TruncationResult)
    requires
        a@ == b@,
    ensures
        a.content@ == b.content@,
        a.truncated == b.truncated,
        a.truncated_by@ == b.truncated_by@,
        a.total_lines == b.total_lines,
        a.total_bytes == b.total_bytes,
        a.output_lines == b.output_lines,
        a.output_bytes == b.output_bytes,
        a.last_line_partial == b.last_line_partial,
        a.first_line_exceeds_limit == b.first_line_exceeds_limit,
        a.max_lines == b.max_lines,
        a.max_bytes == b.max_bytes,
{
}

} // verus!
