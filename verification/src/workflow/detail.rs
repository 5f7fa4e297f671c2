//! Redacted workflow state for human-facing live detail views.
//!
//! Every text that is shown goes through three hands. The host takes out the
//! credentials: it is told which texts there are, and what it made of each comes
//! in as [`Redactions`]. Here absolute paths are taken out, and what is left is
//! kept short.

use crate::sort;
use crate::sort::{stable_sort, Rank, Ranked};
use crate::text;
use crate::text::{chars_of, clone_opt_text, clone_texts, decimal, is_blank, same_text, take_chars};
use crate::text_map::TextMap;
use crate::workflow::records;
use crate::workflow::records::{status_variant_name, SnapshotModel, WorkflowSnapshot};
use crate::workflow::supervisor;
use crate::workflow::supervisor::{
    clone_feed, ActivityModel, ProjectionModel, WorkflowSupervisorActivity,
    WorkflowSupervisorProjection,
};
use crate::workflow::todo::{
    AgentModel, AgentSnapshot, AgentStatus, JobModel, JobStatus, MailboxMessage, MessageModel,
    PhaseModel, TaskModel, TodoPhase, TodoState, TodoTask, WorkflowJobSnapshot,
};
use crate::workflow::{WorkflowId, WorkflowStatus};
use vstd::prelude::*;
use vstd::string::*;

verus! {

/// Bound on the messages that are shown.
pub const RECENT_IRC_LIMIT: usize = 50;

/// Bound on one agent's live activity feed.
pub const AGENT_ACTIVITY_CAP: usize = 12;

/// What an absolute path looks like, with what stands before it.
pub const ABSOLUTE_PATH_PATTERN: &'static str =
    "(?P<prefix>^|[\\s(\\\"'`])(?:/[^\\s)\\\"'`,;]+|[A-Za-z]:\\\\[^\\s)\\\"'`,;]+)";

/// What stands in place of an absolute path.
pub const PATH_REPLACEMENT: &'static str = "${prefix}[path]";

// ---------------------------------------------------------------------------
// Texts
// ---------------------------------------------------------------------------

/// What `regex::Regex::replace_all` makes of `text` with the given pattern and
/// replacement; nothing where `regex::Regex::new` rejects the pattern.
pub uninterp spec fn regex_replaced_of(
    pattern: Seq<char>,
    text: Seq<char>,
    replacement: Seq<char>,
) -> Option<Seq<char>>;

/// Compiles `pattern` with `regex::Regex::new` and replaces all its matches in
/// `text` with `regex::Regex::replace_all`. The result depends on the three
/// texts alone; which matches a pattern has is left unsaid.
#[verifier::external_body]
pub(crate) fn regex_replace_all(pattern: &str, text: &str, replacement: &str) -> (r: Option<String>)
    ensures
        text::opt_text(r) == regex_replaced_of(pattern@, text@, replacement@),
{
    regex::Regex::new(pattern).ok().map(|p| p.replace_all(text, replacement).into_owned())
}

/// A text with its absolute paths replaced. Where they cannot be found, all of
/// it is withheld.
pub open spec fn path_hidden(s: Seq<char>) -> Seq<char> {
    match regex_replaced_of(ABSOLUTE_PATH_PATTERN@, s, PATH_REPLACEMENT@) {
        Some(t) => t,
        None => Seq::empty(),
    }
}

/// A text of at most `max` characters: a longer one ends in an ellipsis.
pub open spec fn clipped(s: Seq<char>, max: nat) -> Seq<char> {
    if s.len() <= max {
        s
    } else {
        text::first_chars(s, if max > 0 { (max - 1) as nat } else { 0 }).push('\u{2026}')
    }
}

/// A text with its absolute paths replaced.
pub fn hide_paths(s: &str) -> (r: String)
    ensures
        r@ == path_hidden(s@),
{
    match regex_replace_all(ABSOLUTE_PATH_PATTERN, s, PATH_REPLACEMENT) {
        Some(t) => t,
        None => {
            let r = String::new();
            assert(r@ =~= Seq::<char>::empty());
            r
        },
    }
}

/// A text of at most `max_chars` characters: a longer one ends in an ellipsis.
pub fn clip_text(s: &str, max_chars: usize) -> (r: String)
    ensures
        r@ == clipped(s@, max_chars as nat),
{
    let chars = chars_of(s);
    if chars.len() <= max_chars {
        return s.to_owned();
    }
    let keep: usize = if max_chars > 0 {
        max_chars - 1
    } else {
        0
    };
    let mut output = take_chars(s, keep);
    output.push('\u{2026}');
    output
}

/// What the host's redactor made of texts: each text without its credentials.
pub struct Redactions {
    texts: TextMap<String>,
}

impl View for Redactions {
    type V = Map<Seq<char>, Seq<char>>;

    closed spec fn view(&self) -> Map<Seq<char>, Seq<char>> {
        self.texts@.map_values(|s: String| s@)
    }
}

/// A text without its credentials. One that was not redacted is withheld.
pub open spec fn cleared(redacted: Map<Seq<char>, Seq<char>>, s: Seq<char>) -> Seq<char> {
    if redacted.contains_key(s) {
        redacted[s]
    } else {
        Seq::empty()
    }
}

/// A text without its credentials and without absolute paths.
pub open spec fn shown_text(redacted: Map<Seq<char>, Seq<char>>, s: Seq<char>) -> Seq<char> {
    path_hidden(cleared(redacted, s))
}

impl Redactions {
    pub fn new() -> (r: Self)
        ensures
            r@ == Map::<Seq<char>, Seq<char>>::empty(),
    {
        let r = Redactions { texts: TextMap::new() };
        assert(r@ =~= Map::<Seq<char>, Seq<char>>::empty());
        r
    }

    /// Takes note of what the redactor made of a text.
    pub fn add(&mut self, text: &str, redacted: &str)
        ensures
            final(self)@ == old(self)@.insert(text@, redacted@),
    {
        self.texts.insert(text.to_owned(), redacted.to_owned());
        assert(self@ =~= old(self)@.insert(text@, redacted@));
    }

    /// The text without its credentials and without absolute paths. One that
    /// was not redacted is withheld.
    pub fn show(&self, text: &str) -> (r: String)
        ensures
            r@ == shown_text(self@, text@),
    {
        match self.texts.get(text) {
            Some(redacted) => hide_paths(redacted.as_str()),
            None => {
                let nothing = String::new();
                assert(nothing@ =~= Seq::<char>::empty());
                hide_paths(nothing.as_str())
            },
        }
    }
}

/// A text without its credentials and without absolute paths, of at most
/// `max_chars` characters.
pub fn safe_text(s: &str, redacted: &Redactions, max_chars: usize) -> (r: String)
    ensures
        r@ == clipped(shown_text(redacted@, s@), max_chars as nat),
{
    clip_text(redacted.show(s).as_str(), max_chars)
}

/// What is shown of a text comes from its redacted form alone, whatever the text
/// itself holds.
pub proof fn law_only_the_redacted_form_is_shown(
    redacted: Map<Seq<char>, Seq<char>>,
    a: Seq<char>,
    b: Seq<char>,
)
    requires
        redacted.contains_key(a),
        redacted.contains_key(b),
        redacted[a] == redacted[b],
    ensures
        shown_text(redacted, a) == shown_text(redacted, b),
{
}

/// A clipped text is never longer than its bound, unless that is nothing.
pub proof fn law_clipped_is_bounded(s: Seq<char>, max: nat)
    requires
        max > 0,
    ensures
        clipped(s, max).len() <= max,
{
}

fn hide_opt(o: &Option<String>, redacted: &Redactions) -> (r: Option<String>)
    ensures
        text::opt_text(r) == hidden_opt(redacted@, text::opt_text(*o)),
{
    match o {
        Some(s) => Some(redacted.show(s.as_str())),
        None => None,
    }
}

/// An optional text without credentials and absolute paths.
pub open spec fn hidden_opt(
    redacted: Map<Seq<char>, Seq<char>>,
    o: Option<Seq<char>>,
) -> Option<Seq<char>> {
    match o {
        Some(s) => Some(shown_text(redacted, s)),
        None => None,
    }
}

/// An optional text of at most `max` characters.
pub open spec fn clipped_opt(o: Option<Seq<char>>, max: nat) -> Option<Seq<char>> {
    match o {
        Some(s) => Some(clipped(s, max)),
        None => None,
    }
}

// ---------------------------------------------------------------------------
// The Todo DAG
// ---------------------------------------------------------------------------

/// A DAG with every text that is shown passed through `f`.
pub open spec fn todo_with_texts(
    todo: Seq<PhaseModel>,
    name: spec_fn(Seq<char>) -> Seq<char>,
    content: spec_fn(Seq<char>) -> Seq<char>,
) -> Seq<PhaseModel> {
    todo.map_values(
        |p: PhaseModel|
            PhaseModel {
                name: name(p.name),
                tasks: p.tasks.map_values(
                    |t: TaskModel|
                        TaskModel {
                            content: content(t.content),
                            blocked_by: t.blocked_by.map_values(content),
                            ..t
                        },
                ),
            },
    )
}

/// A DAG without credentials and absolute paths.
pub open spec fn hidden_todo(
    redacted: Map<Seq<char>, Seq<char>>,
    todo: Seq<PhaseModel>,
) -> Seq<PhaseModel> {
    todo_with_texts(
        todo,
        |s: Seq<char>| shown_text(redacted, s),
        |s: Seq<char>| shown_text(redacted, s),
    )
}

/// A DAG with short texts.
pub open spec fn clipped_todo(todo: Seq<PhaseModel>) -> Seq<PhaseModel> {
    todo_with_texts(todo, |s: Seq<char>| clipped(s, 160), |s: Seq<char>| clipped(s, 600))
}

/// A DAG with redactions applied, or clipped where there are none to apply.
spec fn reworked_todo(todo: Seq<PhaseModel>, redacted: Option<&Redactions>) -> Seq<PhaseModel> {
    match redacted {
        Some(redacted) => hidden_todo(redacted@, todo),
        None => clipped_todo(todo),
    }
}

/// A text with redactions applied, or clipped where there are none to apply.
spec fn reworked(s: Seq<char>, redacted: Option<&Redactions>, max: nat) -> Seq<char> {
    match redacted {
        Some(redacted) => shown_text(redacted@, s),
        None => clipped(s, max),
    }
}

fn rework_text(s: &str, redacted: Option<&Redactions>, max: usize) -> (r: String)
    ensures
        r@ == reworked(s@, redacted, max as nat),
{
    match redacted {
        Some(redacted) => redacted.show(s),
        None => clip_text(s, max),
    }
}

fn rework_todo(todo: &TodoState, redacted: Option<&Redactions>) -> (r: TodoState)
    ensures
        r@ == reworked_todo(todo@, redacted),
{
    let ghost result = reworked_todo(todo@, redacted);
    let mut phases: Vec<TodoPhase> = Vec::new();
    let mut i: usize = 0;
    while i < todo.phases.len()
        invariant
            i <= todo.phases@.len(),
            phases@.len() == i,
            result == reworked_todo(todo@, redacted),
            forall|k: int| 0 <= k < i ==> (#[trigger] phases@[k])@ == result[k],
        decreases todo.phases@.len() - i,
    {
        let phase = &todo.phases[i];
        let ghost wanted = result[i as int];
        assert(todo@[i as int] == phase@);
        let mut tasks: Vec<TodoTask> = Vec::new();
        let mut j: usize = 0;
        while j < phase.tasks.len()
            invariant
                i < todo.phases@.len(),
                *phase == todo.phases@[i as int],
                todo@[i as int] == phase@,
                result == reworked_todo(todo@, redacted),
                wanted == result[i as int],
                j <= phase.tasks@.len(),
                tasks@.len() == j,
                forall|k: int| 0 <= k < j ==> (#[trigger] tasks@[k])@ == wanted.tasks[k],
            decreases phase.tasks@.len() - j,
        {
            let task = &phase.tasks[j];
            assert(phase@.tasks[j as int] == task@);
            let mut blocked: Vec<String> = Vec::new();
            let mut b: usize = 0;
            while b < task.blocked_by.len()
                invariant
                    b <= task.blocked_by@.len(),
                    blocked@.len() == b,
                    forall|k: int|
                        0 <= k < b ==> (#[trigger] blocked@[k])@ == reworked(
                            task@.blocked_by[k],
                            redacted,
                            600,
                        ),
                decreases task.blocked_by@.len() - b,
            {
                let item = rework_text(task.blocked_by[b].as_str(), redacted, 600);
                blocked.push(item);
                b += 1;
            }
            let item = TodoTask {
                id: task.id.clone(),
                content: rework_text(task.content.as_str(), redacted, 600),
                status: task.status,
                depends_on: clone_texts(&task.depends_on),
                blocked_by: blocked,
            };
            assert(item@.blocked_by =~= wanted.tasks[j as int].blocked_by);
            assert(item@ =~= wanted.tasks[j as int]);
            tasks.push(item);
            j += 1;
        }
        let item = TodoPhase { name: rework_text(phase.name.as_str(), redacted, 160), tasks };
        assert(item@.tasks =~= wanted.tasks);
        assert(item@ =~= wanted);
        phases.push(item);
        i += 1;
    }
    let r = TodoState { phases };
    assert(r@ =~= result);
    r
}

/// A DAG without credentials and absolute paths.
pub fn hide_todo(todo: &TodoState, redacted: &Redactions) -> (r: TodoState)
    ensures
        r@ == hidden_todo(redacted@, todo@),
{
    rework_todo(todo, Some(redacted))
}

/// A DAG with short texts.
pub fn clip_todo(todo: &TodoState) -> (r: TodoState)
    ensures
        r@ == clipped_todo(todo@),
{
    rework_todo(todo, None)
}

/// A DAG without credentials and absolute paths, and with short texts.
pub fn safe_todo(todo: &TodoState, redacted: &Redactions) -> (r: TodoState)
    ensures
        r@ == clipped_todo(hidden_todo(redacted@, todo@)),
{
    clip_todo(&hide_todo(todo, redacted))
}

// ---------------------------------------------------------------------------
// What is shown
// ---------------------------------------------------------------------------

/// What an entry of an agent's feed tells of.
#[derive(Clone, Copy, Debug, PartialEq, Eq, Structural)]
pub enum WorkflowAgentActivityKind {
    /// A delegated task (job) lifecycle entry.
    Task,
    /// A delivered message that involves the agent.
    Irc,
}

/// One bounded entry of an agent's live activity feed.
#[derive(Debug, PartialEq, Eq)]
pub struct WorkflowAgentActivity {
    /// Epoch millis when the activity was observed.
    pub at_ms: u64,
    pub kind: WorkflowAgentActivityKind,
    /// Bounded, credential-redacted display text.
    pub text: String,
}

/// The model of a feed entry.
#[verifier::ext_equal]
pub struct AgentActivityModel {
    pub at_ms: u64,
    pub kind: WorkflowAgentActivityKind,
    pub text: Seq<char>,
}

impl View for WorkflowAgentActivity {
    type V = AgentActivityModel;

    open spec fn view(&self) -> AgentActivityModel {
        AgentActivityModel { at_ms: self.at_ms, kind: self.kind, text: self.text@ }
    }
}

impl Rank for AgentActivityModel {
    open spec fn before(self, other: Self) -> bool {
        self.at_ms < other.at_ms
    }

    proof fn weak_order(a: Self, b: Self, c: Self) {
    }
}

impl Rank for WorkflowAgentActivity {
    open spec fn before(self, other: Self) -> bool {
        self.at_ms < other.at_ms
    }

    proof fn weak_order(a: Self, b: Self, c: Self) {
    }
}

impl Ranked for WorkflowAgentActivity {
    fn is_before(&self, other: &Self) -> (r: bool) {
        self.at_ms < other.at_ms
    }
}

/// The model of a supervisor or subagent row.
#[verifier::ext_equal]
pub struct AgentDetailModel {
    pub display_name: Seq<char>,
    pub status: AgentStatus,
    pub task_summary: Option<Seq<char>>,
    pub todo_task_id: Option<Seq<char>>,
    pub activity: Seq<AgentActivityModel>,
}

/// The supervisor of a workflow.
#[derive(PartialEq, Eq)]
pub struct WorkflowSupervisorDetail {
    pub display_name: String,
    pub status: AgentStatus,
    pub task_summary: Option<String>,
    /// The Todo task of the job behind the summary.
    pub todo_task_id: Option<String>,
    /// Bounded live activity feed, newest last.
    pub activity: Vec<WorkflowAgentActivity>,
}

impl View for WorkflowSupervisorDetail {
    type V = AgentDetailModel;

    open spec fn view(&self) -> AgentDetailModel {
        AgentDetailModel {
            display_name: self.display_name@,
            status: self.status,
            task_summary: text::opt_text(self.task_summary),
            todo_task_id: text::opt_text(self.todo_task_id),
            activity: sort::views(self.activity@),
        }
    }
}

/// Any other agent of a workflow.
#[derive(PartialEq, Eq)]
pub struct WorkflowSubagentDetail {
    pub display_name: String,
    pub status: AgentStatus,
    pub task_summary: Option<String>,
    /// The Todo task of the job behind the summary.
    pub todo_task_id: Option<String>,
    /// Bounded live activity feed, newest last.
    pub activity: Vec<WorkflowAgentActivity>,
}

impl View for WorkflowSubagentDetail {
    type V = AgentDetailModel;

    open spec fn view(&self) -> AgentDetailModel {
        AgentDetailModel {
            display_name: self.display_name@,
            status: self.status,
            task_summary: text::opt_text(self.task_summary),
            todo_task_id: text::opt_text(self.todo_task_id),
            activity: sort::views(self.activity@),
        }
    }
}

/// One delegated job.
#[derive(PartialEq, Eq)]
pub struct WorkflowRuntimeJobDetail {
    pub display_name: String,
    pub status: JobStatus,
    pub task_summary: Option<String>,
    pub todo_task_id: Option<String>,
    pub created_at_ms: u64,
    pub started_at_ms: Option<u64>,
    pub finished_at_ms: Option<u64>,
}

/// The model of a job row.
#[verifier::ext_equal]
pub struct JobDetailModel {
    pub display_name: Seq<char>,
    pub status: JobStatus,
    pub task_summary: Option<Seq<char>>,
    pub todo_task_id: Option<Seq<char>>,
    pub created_at_ms: u64,
    pub started_at_ms: Option<u64>,
    pub finished_at_ms: Option<u64>,
}

impl View for WorkflowRuntimeJobDetail {
    type V = JobDetailModel;

    open spec fn view(&self) -> JobDetailModel {
        JobDetailModel {
            display_name: self.display_name@,
            status: self.status,
            task_summary: text::opt_text(self.task_summary),
            todo_task_id: text::opt_text(self.todo_task_id),
            created_at_ms: self.created_at_ms,
            started_at_ms: self.started_at_ms,
            finished_at_ms: self.finished_at_ms,
        }
    }
}

/// One message between agents, by display names.
#[derive(PartialEq, Eq)]
pub struct WorkflowIrcMessage {
    pub from: String,
    pub to: String,
    pub body: String,
    pub timestamp_ms: u64,
}

/// The model of a shown message.
#[verifier::ext_equal]
pub struct IrcModel {
    pub from: Seq<char>,
    pub to: Seq<char>,
    pub body: Seq<char>,
    pub timestamp_ms: u64,
}

impl View for WorkflowIrcMessage {
    type V = IrcModel;

    open spec fn view(&self) -> IrcModel {
        IrcModel {
            from: self.from@,
            to: self.to@,
            body: self.body@,
            timestamp_ms: self.timestamp_ms,
        }
    }
}

/// Redacted workflow state for human-facing live detail views.
#[derive(PartialEq, Eq)]
pub struct WorkflowRuntimeDetail {
    pub workflow_id: WorkflowId,
    pub generation: u64,
    pub name: String,
    pub objective: String,
    pub status: WorkflowStatus,
    pub todo: TodoState,
    pub supervisor: Option<WorkflowSupervisorDetail>,
    pub subagents: Vec<WorkflowSubagentDetail>,
    pub jobs: Vec<WorkflowRuntimeJobDetail>,
    pub irc: Vec<WorkflowIrcMessage>,
    /// Bounded live activity feed of the supervisor's own turn.
    pub supervisor_activity: Vec<WorkflowSupervisorActivity>,
    /// Epoch millis when the current planning phase started.
    pub planning_started_at_ms: Option<u64>,
}

/// The model of a detail view.
#[verifier::ext_equal]
pub struct DetailModel {
    pub workflow_id: Seq<char>,
    pub generation: u64,
    pub name: Seq<char>,
    pub objective: Seq<char>,
    pub status: WorkflowStatus,
    pub todo: Seq<PhaseModel>,
    pub supervisor: Option<AgentDetailModel>,
    pub subagents: Seq<AgentDetailModel>,
    pub jobs: Seq<JobDetailModel>,
    pub irc: Seq<IrcModel>,
    pub supervisor_activity: Seq<ActivityModel>,
    pub planning_started_at_ms: Option<u64>,
}

/// The model of an optional supervisor row.
pub open spec fn supervisor_row(d: Option<WorkflowSupervisorDetail>) -> Option<AgentDetailModel> {
    match d {
        Some(d) => Some(d@),
        None => None,
    }
}

impl View for WorkflowRuntimeDetail {
    type V = DetailModel;

    open spec fn view(&self) -> DetailModel {
        DetailModel {
            workflow_id: self.workflow_id@,
            generation: self.generation,
            name: self.name@,
            objective: self.objective@,
            status: self.status,
            todo: self.todo@,
            supervisor: supervisor_row(self.supervisor),
            subagents: sort::views(self.subagents@),
            jobs: sort::views(self.jobs@),
            irc: sort::views(self.irc@),
            supervisor_activity: supervisor::feed(self.supervisor_activity@),
            planning_started_at_ms: self.planning_started_at_ms,
        }
    }
}

// ---------------------------------------------------------------------------
// How it is put together
// ---------------------------------------------------------------------------

/// The last `n` elements, or all where there are fewer.
pub open spec fn last_of<T>(s: Seq<T>, n: nat) -> Seq<T> {
    if s.len() > n {
        s.skip(s.len() - n)
    } else {
        s
    }
}

/// The display name of an agent. The last of several agents with one id counts.
pub open spec fn agent_name(agents: Seq<AgentModel>, id: Seq<char>) -> Option<Seq<char>>
    decreases agents.len(),
{
    if agents.len() == 0 {
        None
    } else if agents.last().id == id {
        Some(clipped(agents.last().display_name, 160))
    } else {
        agent_name(agents.drop_last(), id)
    }
}

/// What an agent or former agent is called.
pub open spec fn actor_name(
    agents: Seq<AgentModel>,
    supervisor_id: Seq<char>,
    id: Seq<char>,
) -> Seq<char> {
    match agent_name(agents, id) {
        Some(name) => name,
        None => if id == supervisor_id {
            "Supervisor"@
        } else {
            "Agent"@
        },
    }
}

/// The Todo task of a job: that of the ownership record before that of the job.
pub open spec fn job_task(job: JobModel) -> Option<Seq<char>> {
    match job.owned_task_id {
        Some(id) => Some(id),
        None => job.todo_task_id,
    }
}

/// The last described job of an agent: the one that gives its summary.
pub open spec fn summary_job(jobs: Seq<JobModel>, agent_id: Seq<char>) -> Option<JobModel>
    decreases jobs.len(),
{
    if jobs.len() == 0 {
        None
    } else if jobs.last().agent_id == agent_id && jobs.last().description is Some {
        Some(jobs.last())
    } else {
        summary_job(jobs.drop_last(), agent_id)
    }
}

/// The Todo task of the last job of an agent that has one.
pub open spec fn latest_task(jobs: Seq<JobModel>, agent_id: Seq<char>) -> Option<Seq<char>>
    decreases jobs.len(),
{
    if jobs.len() == 0 {
        None
    } else if jobs.last().agent_id == agent_id && job_task(jobs.last()) is Some {
        job_task(jobs.last())
    } else {
        latest_task(jobs.drop_last(), agent_id)
    }
}

/// The Todo task that is shown for an agent: that of the job behind its summary.
/// A summary that no job gave has no task, and without any summary the latest
/// task counts.
pub open spec fn shown_task(
    jobs: Seq<JobModel>,
    agent_id: Seq<char>,
    has_fallback: bool,
) -> Option<Seq<char>> {
    match summary_job(jobs, agent_id) {
        Some(job) => job_task(job),
        None => if has_fallback {
            None
        } else {
            latest_task(jobs, agent_id)
        },
    }
}

/// What is shown of a job without a description.
pub open spec fn job_label(status: JobStatus) -> Seq<char> {
    match status {
        JobStatus::Queued => "task queued"@,
        JobStatus::Running => "task running"@,
        JobStatus::Completed => "task completed"@,
        JobStatus::Failed => "task failed"@,
        JobStatus::Cancelled => "task cancelled"@,
    }
}

/// The feed entry of a job: at the latest of its known times.
pub open spec fn job_entry(job: JobModel) -> AgentActivityModel {
    AgentActivityModel {
        at_ms: match (job.finished_at, job.started_at) {
            (Some(at), _) => at,
            (None, Some(at)) => at,
            (None, None) => job.created_at,
        },
        kind: WorkflowAgentActivityKind::Task,
        text: match job.description {
            Some(description) => clipped(description, 240),
            None => job_label(job.status),
        },
    }
}

/// The feed entries of the jobs that an agent owns.
pub open spec fn job_entries(jobs: Seq<JobModel>, agent_id: Seq<char>) -> Seq<AgentActivityModel>
    decreases jobs.len(),
{
    if jobs.len() == 0 {
        Seq::empty()
    } else {
        let before = job_entries(jobs.drop_last(), agent_id);
        if jobs.last().agent_id == agent_id {
            before.push(job_entry(jobs.last()))
        } else {
            before
        }
    }
}

/// Whether no message among the first `n` has the given id.
pub open spec fn unseen(irc: Seq<MessageModel>, n: int, id: Seq<char>) -> bool {
    forall|k: int| 0 <= k < n ==> (#[trigger] irc[k]).id != id
}

/// The first `n` messages without those whose id came before.
pub open spec fn distinct_messages(irc: Seq<MessageModel>, n: nat) -> Seq<MessageModel>
    decreases n,
{
    if n == 0 {
        Seq::empty()
    } else {
        let before = distinct_messages(irc, (n - 1) as nat);
        if unseen(irc, n - 1, irc[n - 1].id) {
            before.push(irc[n - 1])
        } else {
            before
        }
    }
}

/// Whether an agent sent or received a message.
pub open spec fn involves(m: MessageModel, agent_id: Seq<char>) -> bool {
    m.from == agent_id || m.to == agent_id
}

/// The feed entry of a message, which names the other party.
pub open spec fn message_entry(
    m: MessageModel,
    agent_id: Seq<char>,
    agents: Seq<AgentModel>,
    supervisor_id: Seq<char>,
) -> AgentActivityModel {
    AgentActivityModel {
        at_ms: m.timestamp,
        kind: WorkflowAgentActivityKind::Irc,
        text: if m.from == agent_id {
            "\u{2192} "@ + actor_name(agents, supervisor_id, m.to) + ": "@ + clipped(m.body, 240)
        } else {
            actor_name(agents, supervisor_id, m.from) + ": "@ + clipped(m.body, 240)
        },
    }
}

/// The feed entries of the messages that an agent sent or received, among the
/// first `n`; repeated messages count once.
pub open spec fn message_entries(
    irc: Seq<MessageModel>,
    n: nat,
    agent_id: Seq<char>,
    agents: Seq<AgentModel>,
    supervisor_id: Seq<char>,
) -> Seq<AgentActivityModel>
    decreases n,
{
    if n == 0 {
        Seq::empty()
    } else {
        let before = message_entries(irc, (n - 1) as nat, agent_id, agents, supervisor_id);
        if unseen(irc, n - 1, irc[n - 1].id) && involves(irc[n - 1], agent_id) {
            before.push(message_entry(irc[n - 1], agent_id, agents, supervisor_id))
        } else {
            before
        }
    }
}

/// The feed of an agent: jobs and messages by time, the newest last.
pub open spec fn agent_feed(
    agent_id: Seq<char>,
    jobs: Seq<JobModel>,
    irc: Seq<MessageModel>,
    agents: Seq<AgentModel>,
    supervisor_id: Seq<char>,
) -> Seq<AgentActivityModel> {
    last_of(
        sort::stable_sorted(
            job_entries(jobs, agent_id) + message_entries(
                irc,
                irc.len(),
                agent_id,
                agents,
                supervisor_id,
            ),
        ),
        AGENT_ACTIVITY_CAP as nat,
    )
}

/// How a message is shown.
pub open spec fn shown_message(
    m: MessageModel,
    agents: Seq<AgentModel>,
    supervisor_id: Seq<char>,
) -> IrcModel {
    IrcModel {
        from: actor_name(agents, supervisor_id, m.from),
        to: actor_name(agents, supervisor_id, m.to),
        body: clipped(m.body, 600),
        timestamp_ms: m.timestamp,
    }
}

/// The newest messages, by time, each once.
pub open spec fn recent_messages(
    irc: Seq<MessageModel>,
    agents: Seq<AgentModel>,
    supervisor_id: Seq<char>,
) -> Seq<IrcModel> {
    let ordered = sort::stable_sorted(irc);
    last_of(distinct_messages(ordered, ordered.len()), RECENT_IRC_LIMIT as nat).map_values(
        |m: MessageModel| shown_message(m, agents, supervisor_id),
    )
}

/// How an agent row reads.
pub open spec fn agent_row(
    agent: AgentModel,
    status: AgentStatus,
    fallback_name: Seq<char>,
    fallback_summary: Option<Seq<char>>,
    agents: Seq<AgentModel>,
    jobs: Seq<JobModel>,
    irc: Seq<MessageModel>,
    supervisor_id: Seq<char>,
) -> AgentDetailModel {
    AgentDetailModel {
        display_name: match agent_name(agents, agent.id) {
            Some(name) => name,
            None => fallback_name,
        },
        status,
        task_summary: match summary_job(jobs, agent.id) {
            Some(job) => Some(clipped(job.description->0, 240)),
            None => fallback_summary,
        },
        todo_task_id: shown_task(jobs, agent.id, fallback_summary is Some),
        activity: agent_feed(agent.id, jobs, irc, agents, supervisor_id),
    }
}

/// The status of the supervisor row. The supervisor's own entry stays idle
/// while its planning turn runs, so that planning reads as running.
pub open spec fn supervisor_status(workflow: WorkflowStatus, agent: AgentStatus) -> AgentStatus {
    if agent != AgentStatus::Idle {
        agent
    } else if workflow == WorkflowStatus::Planning {
        AgentStatus::Running
    } else if workflow == WorkflowStatus::Queued {
        AgentStatus::Queued
    } else {
        agent
    }
}

/// The first agent with the given id.
pub open spec fn first_agent(agents: Seq<AgentModel>, id: Seq<char>) -> Option<AgentModel>
    decreases agents.len(),
{
    if agents.len() == 0 {
        None
    } else {
        match first_agent(agents.drop_last(), id) {
            Some(agent) => Some(agent),
            None => if agents.last().id == id {
                Some(agents.last())
            } else {
                None
            },
        }
    }
}

/// The rows of the agents, among the first `n`, that are not the supervisor.
pub open spec fn subagent_rows(
    agents: Seq<AgentModel>,
    n: nat,
    jobs: Seq<JobModel>,
    irc: Seq<MessageModel>,
    supervisor_id: Seq<char>,
) -> Seq<AgentDetailModel>
    decreases n,
{
    if n == 0 {
        Seq::empty()
    } else {
        let before = subagent_rows(agents, (n - 1) as nat, jobs, irc, supervisor_id);
        let agent = agents[n - 1];
        if agent.id != supervisor_id {
            before.push(
                agent_row(
                    agent,
                    agent.status,
                    "Agent"@,
                    None,
                    agents,
                    jobs,
                    irc,
                    supervisor_id,
                ),
            )
        } else {
            before
        }
    }
}

/// How a job row reads.
pub open spec fn job_row(job: JobModel, agents: Seq<AgentModel>) -> JobDetailModel {
    JobDetailModel {
        display_name: match agent_name(agents, job.agent_id) {
            Some(name) => name,
            None => clipped(job.agent, 160),
        },
        status: job.status,
        task_summary: clipped_opt(job.description, 240),
        todo_task_id: job_task(job),
        created_at_ms: job.created_at,
        started_at_ms: job.started_at,
        finished_at_ms: job.finished_at,
    }
}

/// The status that is shown: a terminal record wins over a live view that has
/// not caught up.
pub open spec fn shown_status(durable: WorkflowStatus, live: WorkflowStatus) -> WorkflowStatus {
    if durable.terminal() {
        durable
    } else {
        live
    }
}

/// The detail view of a workflow, from texts without credentials and absolute
/// paths.
pub open spec fn assembled(
    snapshot: SnapshotModel,
    p: ProjectionModel,
    agents: Seq<AgentModel>,
    jobs: Seq<JobModel>,
    irc: Seq<MessageModel>,
) -> DetailModel {
    let ordered = sort::stable_sorted(jobs);
    let supervisor_id = p.supervisor_agent_id;
    DetailModel {
        workflow_id: snapshot.workflow_id,
        generation: snapshot.generation,
        name: clipped(snapshot.name, 160),
        objective: clipped(snapshot.objective, 600),
        status: shown_status(snapshot.status, p.status),
        todo: clipped_todo(p.todo),
        supervisor: match first_agent(agents, supervisor_id) {
            None => None,
            Some(agent) => Some(
                agent_row(
                    agent,
                    supervisor_status(p.status, agent.status),
                    "Supervisor"@,
                    if p.status == WorkflowStatus::Planning {
                        Some("Planning: "@ + clipped(snapshot.objective, 240))
                    } else {
                        None
                    },
                    agents,
                    ordered,
                    irc,
                    supervisor_id,
                ),
            ),
        },
        subagents: subagent_rows(agents, agents.len(), ordered, irc, supervisor_id),
        jobs: ordered.map_values(|j: JobModel| job_row(j, agents)),
        irc: recent_messages(irc, agents, supervisor_id),
        supervisor_activity: p.activity,
        planning_started_at_ms: p.planning_started_at_ms,
    }
}

/// The detail view of a record alone, from texts without credentials and absolute
/// paths.
pub open spec fn fallback(snapshot: SnapshotModel) -> DetailModel {
    DetailModel {
        workflow_id: snapshot.workflow_id,
        generation: snapshot.generation,
        name: clipped(snapshot.name, 160),
        objective: clipped(snapshot.objective, 600),
        status: snapshot.status,
        todo: clipped_todo(snapshot.todo),
        supervisor: None,
        subagents: Seq::empty(),
        jobs: Seq::empty(),
        irc: Seq::empty(),
        supervisor_activity: Seq::empty(),
        planning_started_at_ms: None,
    }
}

/// A record without credentials and absolute paths in what is shown of it.
pub open spec fn hidden_snapshot(redacted: Map<Seq<char>, Seq<char>>, s: SnapshotModel) -> SnapshotModel {
    SnapshotModel {
        name: shown_text(redacted, s.name),
        objective: shown_text(redacted, s.objective),
        todo: hidden_todo(redacted, s.todo),
        ..s
    }
}

/// A projection without credentials and absolute paths in what is shown of it.
pub open spec fn hidden_projection(redacted: Map<Seq<char>, Seq<char>>, p: ProjectionModel) -> ProjectionModel {
    ProjectionModel { todo: hidden_todo(redacted, p.todo), ..p }
}

/// An agent with a display name, without credentials and absolute paths in it.
pub open spec fn hidden_agent(redacted: Map<Seq<char>, Seq<char>>, a: AgentModel) -> AgentModel {
    AgentModel {
        display_name: shown_text(redacted, agent_label(a)),
        ..a
    }
}

/// A job without credentials and absolute paths in what is shown of it.
pub open spec fn hidden_job(redacted: Map<Seq<char>, Seq<char>>, j: JobModel) -> JobModel {
    JobModel { agent: shown_text(redacted, j.agent), description: hidden_opt(redacted, j.description), ..j }
}

/// A message without credentials and absolute paths in its body.
pub open spec fn hidden_message(redacted: Map<Seq<char>, Seq<char>>, m: MessageModel) -> MessageModel {
    MessageModel { body: shown_text(redacted, m.body), ..m }
}

/// The detail view of a workflow with a live runtime: every text is shown as its
/// redaction has it, without absolute paths.
pub open spec fn live_detail(
    redacted: Map<Seq<char>, Seq<char>>,
    snapshot: SnapshotModel,
    p: ProjectionModel,
    agents: Seq<AgentModel>,
    jobs: Seq<JobModel>,
    irc: Seq<MessageModel>,
) -> DetailModel {
    assembled(
        hidden_snapshot(redacted, snapshot),
        hidden_projection(redacted, p),
        agents.map_values(|a: AgentModel| hidden_agent(redacted, a)),
        jobs.map_values(|j: JobModel| hidden_job(redacted, j)),
        irc.map_values(|m: MessageModel| hidden_message(redacted, m)),
    )
}

// ---------------------------------------------------------------------------
// Which texts are shown
// ---------------------------------------------------------------------------

/// Whether a text is among the first `n`.
pub open spec fn among(v: Seq<Seq<char>>, n: nat, s: Seq<char>) -> bool
    decreases n,
{
    n > 0 && (among(v, (n - 1) as nat, s) || v[n - 1] == s)
}

/// Whether the first `n` tasks hold a text that is shown.
pub open spec fn tasks_show(tasks: Seq<TaskModel>, n: nat, s: Seq<char>) -> bool
    decreases n,
{
    n > 0 && (tasks_show(tasks, (n - 1) as nat, s) || tasks[n - 1].content == s || among(
        tasks[n - 1].blocked_by,
        tasks[n - 1].blocked_by.len(),
        s,
    ))
}

/// Whether the first `n` phases hold a text that is shown.
pub open spec fn phases_show(todo: Seq<PhaseModel>, n: nat, s: Seq<char>) -> bool
    decreases n,
{
    n > 0 && (phases_show(todo, (n - 1) as nat, s) || todo[n - 1].name == s || tasks_show(
        todo[n - 1].tasks,
        todo[n - 1].tasks.len(),
        s,
    ))
}

/// The name under which an agent is shown.
pub open spec fn agent_label(a: AgentModel) -> Seq<char> {
    if text::blank(a.display_name) {
        "Agent"@
    } else {
        a.display_name
    }
}

/// Whether the first `n` agents hold a text that is shown.
pub open spec fn agents_show(agents: Seq<AgentModel>, n: nat, s: Seq<char>) -> bool
    decreases n,
{
    n > 0 && (agents_show(agents, (n - 1) as nat, s) || agent_label(agents[n - 1]) == s)
}

/// Whether the first `n` jobs hold a text that is shown.
pub open spec fn jobs_show(jobs: Seq<JobModel>, n: nat, s: Seq<char>) -> bool
    decreases n,
{
    n > 0 && (jobs_show(jobs, (n - 1) as nat, s) || jobs[n - 1].agent == s
        || jobs[n - 1].description == Some(s))
}

/// Whether the first `n` messages hold a text that is shown.
pub open spec fn messages_show(irc: Seq<MessageModel>, n: nat, s: Seq<char>) -> bool
    decreases n,
{
    n > 0 && (messages_show(irc, (n - 1) as nat, s) || irc[n - 1].body == s)
}

/// Whether a record holds a text that its detail view shows.
pub open spec fn record_shows(snapshot: SnapshotModel, s: Seq<char>) -> bool {
    s == snapshot.name || s == snapshot.objective || phases_show(
        snapshot.todo,
        snapshot.todo.len(),
        s,
    )
}

/// Whether a workflow with a live runtime holds a text that its detail view
/// shows.
pub open spec fn live_shows(
    snapshot: SnapshotModel,
    p: ProjectionModel,
    agents: Seq<AgentModel>,
    jobs: Seq<JobModel>,
    irc: Seq<MessageModel>,
    s: Seq<char>,
) -> bool {
    ||| s == snapshot.name
    ||| s == snapshot.objective
    ||| phases_show(p.todo, p.todo.len(), s)
    ||| agents_show(agents, agents.len(), s)
    ||| jobs_show(jobs, jobs.len(), s)
    ||| messages_show(irc, irc.len(), s)
}

/// Whether a list holds a text.
pub open spec fn lists(v: Seq<String>, s: Seq<char>) -> bool {
    text::texts(v).contains(s)
}

fn note(all: &mut Vec<String>, t: &str)
    ensures
        forall|s: Seq<char>| #[trigger] lists(final(all)@, s) <==> lists(old(all)@, s) || s == t@,
{
    let ghost before = text::texts(all@);
    text::push_text(all, t);
    let ghost after = text::texts(all@);
    assert(after =~= before.push(t@));
    assert forall|s: Seq<char>| #[trigger] lists(all@, s) <==> lists(old(all)@, s) || s == t@ by {
        if after.contains(s) {
            let k = choose|k: int| 0 <= k < after.len() && after[k] == s;
            if k < before.len() {
                assert(before[k] == s);
            }
        }
        if before.contains(s) {
            let k = choose|k: int| 0 <= k < before.len() && before[k] == s;
            assert(after[k] == s);
        }
        assert(after[before.len() as int] == t@);
    }
}

fn note_todo(all: &mut Vec<String>, todo: &TodoState)
    ensures
        forall|s: Seq<char>| #[trigger]
            lists(final(all)@, s) <==> lists(old(all)@, s) || phases_show(
                todo@,
                todo@.len(),
                s,
            ),
{
    let ghost start = all@;
    let mut i: usize = 0;
    while i < todo.phases.len()
        invariant
            i <= todo.phases@.len(),
            forall|s: Seq<char>| #[trigger]
                lists(all@, s) <==> lists(start, s) || phases_show(todo@, i as nat, s),
        decreases todo.phases@.len() - i,
    {
        let phase = &todo.phases[i];
        assert(todo@[i as int] == phase@);
        note(all, phase.name.as_str());
        let ghost base = all@;
        let mut j: usize = 0;
        while j < phase.tasks.len()
            invariant
                j <= phase.tasks@.len(),
                forall|s: Seq<char>| #[trigger]
                    lists(all@, s) <==> lists(base, s) || tasks_show(phase@.tasks, j as nat, s),
            decreases phase.tasks@.len() - j,
        {
            let task = &phase.tasks[j];
            assert(phase@.tasks[j as int] == task@);
            note(all, task.content.as_str());
            let ghost inner = all@;
            let mut b: usize = 0;
            while b < task.blocked_by.len()
                invariant
                    b <= task.blocked_by@.len(),
                    forall|s: Seq<char>| #[trigger]
                        lists(all@, s) <==> lists(inner, s) || among(
                            task@.blocked_by,
                            b as nat,
                            s,
                        ),
                decreases task.blocked_by@.len() - b,
            {
                assert(task@.blocked_by[b as int] == task.blocked_by@[b as int]@);
                note(all, task.blocked_by[b].as_str());
                b += 1;
            }
            j += 1;
        }
        i += 1;
    }
}

/// The texts that the detail view of a record shows.
pub fn record_texts(snapshot: &WorkflowSnapshot) -> (r: Vec<String>)
    ensures
        forall|s: Seq<char>| #[trigger] lists(r@, s) <==> record_shows(snapshot@, s),
{
    let mut all: Vec<String> = Vec::new();
    assert(forall|s: Seq<char>| !#[trigger] lists(all@, s));
    note(&mut all, snapshot.name.as_str());
    note(&mut all, snapshot.objective.as_str());
    note_todo(&mut all, &snapshot.todo);
    all
}

/// The texts that the detail view of a workflow with a live runtime shows.
pub fn live_texts(
    snapshot: &WorkflowSnapshot,
    projection: &WorkflowSupervisorProjection,
    agents: &Vec<AgentSnapshot>,
    jobs: &Vec<WorkflowJobSnapshot>,
    irc: &Vec<MailboxMessage>,
) -> (r: Vec<String>)
    ensures
        forall|s: Seq<char>| #[trigger]
            lists(r@, s) <==> live_shows(
                snapshot@,
                projection@,
                sort::views(agents@),
                sort::views(jobs@),
                sort::views(irc@),
                s,
            ),
{
    let mut all: Vec<String> = Vec::new();
    assert(forall|s: Seq<char>| !#[trigger] lists(all@, s));
    note(&mut all, snapshot.name.as_str());
    note(&mut all, snapshot.objective.as_str());
    note_todo(&mut all, &projection.todo);
    let ghost base = all@;
    let ghost rows = sort::views(agents@);
    let mut i: usize = 0;
    while i < agents.len()
        invariant
            i <= agents@.len(),
            rows == sort::views(agents@),
            forall|s: Seq<char>| #[trigger]
                lists(all@, s) <==> lists(base, s) || agents_show(rows, i as nat, s),
        decreases agents@.len() - i,
    {
        assert(rows[i as int] == agents@[i as int]@);
        if is_blank(agents[i].display_name.as_str()) {
            note(&mut all, "Agent");
        } else {
            note(&mut all, agents[i].display_name.as_str());
        }
        i += 1;
    }
    let ghost base = all@;
    let ghost rows = sort::views(jobs@);
    let mut i: usize = 0;
    while i < jobs.len()
        invariant
            i <= jobs@.len(),
            rows == sort::views(jobs@),
            forall|s: Seq<char>| #[trigger]
                lists(all@, s) <==> lists(base, s) || jobs_show(rows, i as nat, s),
        decreases jobs@.len() - i,
    {
        assert(rows[i as int] == jobs@[i as int]@);
        note(&mut all, jobs[i].agent.as_str());
        if let Some(description) = &jobs[i].description {
            note(&mut all, description.as_str());
        }
        i += 1;
    }
    let ghost base = all@;
    let ghost rows = sort::views(irc@);
    let mut i: usize = 0;
    while i < irc.len()
        invariant
            i <= irc@.len(),
            rows == sort::views(irc@),
            forall|s: Seq<char>| #[trigger]
                lists(all@, s) <==> lists(base, s) || messages_show(rows, i as nat, s),
        decreases irc@.len() - i,
    {
        assert(rows[i as int] == irc@[i as int]@);
        note(&mut all, irc[i].body.as_str());
        i += 1;
    }
    all
}

// ---------------------------------------------------------------------------
// Putting it together
// ---------------------------------------------------------------------------

fn find_name(agents: &Vec<AgentSnapshot>, id: &str) -> (r: Option<String>)
    ensures
        text::opt_text(r) == agent_name(sort::views(agents@), id@),
{
    let ghost all = sort::views(agents@);
    let mut n: usize = agents.len();
    assert(all.take(n as int) =~= all);
    while n > 0
        invariant
            n <= agents@.len(),
            all == sort::views(agents@),
            agent_name(all, id@) == agent_name(all.take(n as int), id@),
        decreases n,
    {
        let agent = &agents[n - 1];
        assert(all.take(n as int).last() == agent@);
        assert(all.take(n as int).drop_last() =~= all.take(n - 1));
        if same_text(agent.id.as_str(), id) {
            return Some(clip_text(agent.display_name.as_str(), 160));
        }
        n -= 1;
    }
    None
}

/// What an agent or former agent is called, from names without credentials and
/// absolute paths.
pub fn safe_actor_name(agents: &Vec<AgentSnapshot>, supervisor_id: &str, id: &str) -> (r: String)
    ensures
        r@ == actor_name(sort::views(agents@), supervisor_id@, id@),
{
    match find_name(agents, id) {
        Some(name) => name,
        None => if same_text(id, supervisor_id) {
            "Supervisor".to_owned()
        } else {
            "Agent".to_owned()
        },
    }
}

fn task_id_of(job: &WorkflowJobSnapshot) -> (r: Option<String>)
    ensures
        text::opt_text(r) == job_task(job@),
{
    match &job.owned_task_id {
        Some(id) => Some(id.clone()),
        None => clone_opt_text(&job.todo_task_id),
    }
}

fn find_summary_job<'a>(jobs: &'a Vec<WorkflowJobSnapshot>, agent_id: &str) -> (r: Option<
    &'a WorkflowJobSnapshot,
>)
    ensures
        match r {
            Some(job) => summary_job(sort::views(jobs@), agent_id@) == Some(job@)
                && job.description is Some,
            None => summary_job(sort::views(jobs@), agent_id@) is None,
        },
{
    let ghost all = sort::views(jobs@);
    let mut n: usize = jobs.len();
    assert(all.take(n as int) =~= all);
    while n > 0
        invariant
            n <= jobs@.len(),
            all == sort::views(jobs@),
            summary_job(all, agent_id@) == summary_job(all.take(n as int), agent_id@),
        decreases n,
    {
        let job = &jobs[n - 1];
        assert(all.take(n as int).last() == job@);
        assert(all.take(n as int).drop_last() =~= all.take(n - 1));
        if same_text(job.agent_id.as_str(), agent_id) && job.description.is_some() {
            return Some(job);
        }
        n -= 1;
    }
    None
}

/// The summary and the Todo task of an agent, with the summary to show where no
/// job gives one.
fn summary_and_task(
    jobs: &Vec<WorkflowJobSnapshot>,
    agent_id: &str,
    fallback: Option<String>,
) -> (r: (Option<String>, Option<String>))
    ensures
        text::opt_text(r.0) == (match summary_job(sort::views(jobs@), agent_id@) {
            Some(job) => Some(clipped(job.description->0, 240)),
            None => text::opt_text(fallback),
        }),
        text::opt_text(r.1) == shown_task(sort::views(jobs@), agent_id@, fallback is Some),
{
    match find_summary_job(jobs, agent_id) {
        Some(job) => (clip_opt(&job.description, 240), task_id_of(job)),
        None => if fallback.is_some() {
            (fallback, None)
        } else {
            (None, find_task(jobs, agent_id))
        },
    }
}

fn find_task(jobs: &Vec<WorkflowJobSnapshot>, agent_id: &str) -> (r: Option<String>)
    ensures
        text::opt_text(r) == latest_task(sort::views(jobs@), agent_id@),
{
    let ghost all = sort::views(jobs@);
    let mut n: usize = jobs.len();
    assert(all.take(n as int) =~= all);
    while n > 0
        invariant
            n <= jobs@.len(),
            all == sort::views(jobs@),
            latest_task(all, agent_id@) == latest_task(all.take(n as int), agent_id@),
        decreases n,
    {
        let job = &jobs[n - 1];
        assert(all.take(n as int).last() == job@);
        assert(all.take(n as int).drop_last() =~= all.take(n - 1));
        if same_text(job.agent_id.as_str(), agent_id) {
            if let Some(id) = task_id_of(job) {
                return Some(id);
            }
        }
        n -= 1;
    }
    None
}

fn label_of(status: JobStatus) -> (r: String)
    ensures
        r@ == job_label(status),
{
    match status {
        JobStatus::Queued => "task queued".to_owned(),
        JobStatus::Running => "task running".to_owned(),
        JobStatus::Completed => "task completed".to_owned(),
        JobStatus::Failed => "task failed".to_owned(),
        JobStatus::Cancelled => "task cancelled".to_owned(),
    }
}

fn entry_of_job(job: &WorkflowJobSnapshot) -> (r: WorkflowAgentActivity)
    ensures
        r@ == job_entry(job@),
{
    let at_ms: u64 = match job.finished_at {
        Some(at) => at,
        None => match job.started_at {
            Some(at) => at,
            None => job.created_at,
        },
    };
    let text = match &job.description {
        Some(description) => clip_text(description.as_str(), 240),
        None => label_of(job.status),
    };
    WorkflowAgentActivity { at_ms, kind: WorkflowAgentActivityKind::Task, text }
}

fn seen_before(irc: &Vec<MailboxMessage>, n: usize, id: &str) -> (r: bool)
    requires
        n <= irc@.len(),
    ensures
        r == !unseen(sort::views(irc@), n as int, id@),
{
    let ghost all = sort::views(irc@);
    let mut k: usize = 0;
    while k < n
        invariant
            k <= n <= irc@.len(),
            all == sort::views(irc@),
            forall|j: int| 0 <= j < k ==> (#[trigger] all[j]).id != id@,
        decreases n - k,
    {
        assert(all[k as int] == irc@[k as int]@);
        if same_text(irc[k].id.as_str(), id) {
            return true;
        }
        k += 1;
    }
    false
}

fn keep_last<T>(v: Vec<T>, n: usize) -> (r: Vec<T>)
    ensures
        r@ == last_of(v@, n as nat),
{
    let mut head = v;
    if head.len() > n {
        let at: usize = head.len() - n;
        let tail = head.split_off(at);
        assert(tail@ =~= last_of(v@, n as nat));
        tail
    } else {
        head
    }
}

/// Builds the feed of an agent: an entry for each job that the agent owns and
/// for each message that it sent or received, the newest last. The texts that
/// come in are without credentials and absolute paths.
pub fn agent_activity(
    agent_id: &str,
    jobs: &Vec<WorkflowJobSnapshot>,
    irc: &Vec<MailboxMessage>,
    agents: &Vec<AgentSnapshot>,
    supervisor_id: &str,
) -> (r: Vec<WorkflowAgentActivity>)
    ensures
        sort::views(r@) == agent_feed(
            agent_id@,
            sort::views(jobs@),
            sort::views(irc@),
            sort::views(agents@),
            supervisor_id@,
        ),
{
    let ghost all_jobs = sort::views(jobs@);
    let ghost all_irc = sort::views(irc@);
    let ghost all_agents = sort::views(agents@);
    let mut entries: Vec<WorkflowAgentActivity> = Vec::new();
    let mut i: usize = 0;
    assert(sort::views(entries@) =~= Seq::<AgentActivityModel>::empty());
    assert(all_jobs.take(0) =~= Seq::<JobModel>::empty());
    while i < jobs.len()
        invariant
            i <= jobs@.len(),
            all_jobs == sort::views(jobs@),
            sort::views(entries@) == job_entries(all_jobs.take(i as int), agent_id@),
        decreases jobs@.len() - i,
    {
        let job = &jobs[i];
        assert(all_jobs.take(i + 1).last() == job@);
        assert(all_jobs.take(i + 1).drop_last() =~= all_jobs.take(i as int));
        if same_text(job.agent_id.as_str(), agent_id) {
            let ghost before = entries@;
            let entry = entry_of_job(job);
            entries.push(entry);
            assert(sort::views(entries@) =~= sort::views(before).push(entry@));
        }
        i += 1;
    }
    assert(all_jobs.take(jobs@.len() as int) =~= all_jobs);
    let ghost tasks = sort::views(entries@);
    let mut j: usize = 0;
    assert(tasks + Seq::<AgentActivityModel>::empty() =~= tasks);
    while j < irc.len()
        invariant
            j <= irc@.len(),
            all_irc == sort::views(irc@),
            all_agents == sort::views(agents@),
            sort::views(entries@) == tasks + message_entries(
                all_irc,
                j as nat,
                agent_id@,
                all_agents,
                supervisor_id@,
            ),
        decreases irc@.len() - j,
    {
        let message = &irc[j];
        assert(all_irc[j as int] == message@);
        if !seen_before(irc, j, message.id.as_str()) {
            let sent = same_text(message.from.as_str(), agent_id);
            if sent || same_text(message.to.as_str(), agent_id) {
                let body = clip_text(message.body.as_str(), 240);
                let text = if sent {
                    "\u{2192} ".to_owned().concat(
                        safe_actor_name(agents, supervisor_id, message.to.as_str()).as_str(),
                    ).concat(": ").concat(body.as_str())
                } else {
                    safe_actor_name(agents, supervisor_id, message.from.as_str()).concat(
                        ": ",
                    ).concat(body.as_str())
                };
                let entry = WorkflowAgentActivity {
                    at_ms: message.timestamp,
                    kind: WorkflowAgentActivityKind::Irc,
                    text,
                };
                let ghost before = entries@;
                entries.push(entry);
                assert(sort::views(entries@) =~= sort::views(before).push(entry@));
                assert(sort::views(entries@) =~= tasks + message_entries(
                    all_irc,
                    (j + 1) as nat,
                    agent_id@,
                    all_agents,
                    supervisor_id@,
                ));
            }
        }
        j += 1;
    }
    let ghost unsorted = entries@;
    stable_sort(&mut entries);
    proof {
        sort::lemma_sorted_views(unsorted);
    }
    let ghost sorted = entries@;
    let r = keep_last(entries, AGENT_ACTIVITY_CAP);
    assert(sort::views(last_of(sorted, 12)) =~= last_of(sort::views(sorted), 12));
    r
}

/// The newest messages, by time, each once, from texts without credentials and
/// absolute paths.
pub fn recent_irc(irc: &Vec<MailboxMessage>, agents: &Vec<AgentSnapshot>, supervisor_id: &str) -> (r:
    Vec<WorkflowIrcMessage>)
    ensures
        sort::views(r@) == recent_messages(
            sort::views(irc@),
            sort::views(agents@),
            supervisor_id@,
        ),
{
    let ghost all_agents = sort::views(agents@);
    let mut ordered = crate::workflow::todo::clone_messages(irc);
    stable_sort(&mut ordered);
    proof {
        sort::lemma_sorted_views(irc@);
    }
    let ghost model = sort::views(ordered@);
    let mut kept: Vec<MailboxMessage> = Vec::new();
    let mut i: usize = 0;
    assert(sort::views(kept@) =~= Seq::<MessageModel>::empty());
    while i < ordered.len()
        invariant
            i <= ordered@.len(),
            model == sort::views(ordered@),
            sort::views(kept@) == distinct_messages(model, i as nat),
        decreases ordered@.len() - i,
    {
        let message = &ordered[i];
        assert(model[i as int] == message@);
        if !seen_before(&ordered, i, message.id.as_str()) {
            let ghost before = kept@;
            let copy = message.clone();
            kept.push(copy);
            assert(sort::views(kept@) =~= sort::views(before).push(message@));
        }
        i += 1;
    }
    let ghost distinct = kept@;
    let kept = keep_last(kept, RECENT_IRC_LIMIT);
    assert(sort::views(kept@) =~= last_of(sort::views(distinct), 50));
    let ghost wanted = recent_messages(sort::views(irc@), all_agents, supervisor_id@);
    let mut shown: Vec<WorkflowIrcMessage> = Vec::new();
    let mut j: usize = 0;
    while j < kept.len()
        invariant
            j <= kept@.len(),
            all_agents == sort::views(agents@),
            wanted == sort::views(kept@).map_values(
                |m: MessageModel| shown_message(m, all_agents, supervisor_id@),
            ),
            shown@.len() == j,
            forall|k: int| 0 <= k < j ==> (#[trigger] shown@[k])@ == wanted[k],
        decreases kept@.len() - j,
    {
        let message = &kept[j];
        let item = WorkflowIrcMessage {
            from: safe_actor_name(agents, supervisor_id, message.from.as_str()),
            to: safe_actor_name(agents, supervisor_id, message.to.as_str()),
            body: clip_text(message.body.as_str(), 600),
            timestamp_ms: message.timestamp,
        };
        assert(item@ == wanted[j as int]);
        shown.push(item);
        j += 1;
    }
    assert(sort::views(shown@) =~= wanted);
    shown
}

fn clip_opt(o: &Option<String>, max: usize) -> (r: Option<String>)
    ensures
        text::opt_text(r) == clipped_opt(text::opt_text(*o), max as nat),
{
    match o {
        Some(s) => Some(clip_text(s.as_str(), max)),
        None => None,
    }
}

fn supervisor_detail(
    objective: &str,
    workflow: WorkflowStatus,
    agents: &Vec<AgentSnapshot>,
    jobs: &Vec<WorkflowJobSnapshot>,
    irc: &Vec<MailboxMessage>,
    supervisor_id: &str,
) -> (r: Option<WorkflowSupervisorDetail>)
    ensures
        supervisor_row(r) == (match first_agent(sort::views(agents@), supervisor_id@) {
            None => None,
            Some(agent) => Some(
                agent_row(
                    agent,
                    supervisor_status(workflow, agent.status),
                    "Supervisor"@,
                    if workflow == WorkflowStatus::Planning {
                        Some("Planning: "@ + clipped(objective@, 240))
                    } else {
                        None
                    },
                    sort::views(agents@),
                    sort::views(jobs@),
                    sort::views(irc@),
                    supervisor_id@,
                ),
            ),
        }),
{
    let ghost all = sort::views(agents@);
    let mut i: usize = 0;
    assert(all.take(0) =~= Seq::<AgentModel>::empty());
    while i < agents.len()
        invariant
            i <= agents@.len(),
            all == sort::views(agents@),
            first_agent(all.take(i as int), supervisor_id@) is None,
        decreases agents@.len() - i,
    {
        let agent = &agents[i];
        assert(all.take(i + 1).last() == agent@);
        assert(all.take(i + 1).drop_last() =~= all.take(i as int));
        if same_text(agent.id.as_str(), supervisor_id) {
            proof {
                lemma_first_agent(all, i + 1, supervisor_id@);
            }
            let status = match (workflow, agent.status) {
                (WorkflowStatus::Planning, AgentStatus::Idle) => AgentStatus::Running,
                (WorkflowStatus::Queued, AgentStatus::Idle) => AgentStatus::Queued,
                _ => agent.status,
            };
            let fallback = if workflow == WorkflowStatus::Planning {
                Some("Planning: ".to_owned().concat(clip_text(objective, 240).as_str()))
            } else {
                None
            };
            let (task_summary, todo_task_id) = summary_and_task(jobs, agent.id.as_str(), fallback);
            let display_name = match find_name(agents, agent.id.as_str()) {
                Some(name) => name,
                None => "Supervisor".to_owned(),
            };
            return Some(
                WorkflowSupervisorDetail {
                    display_name,
                    status,
                    task_summary,
                    todo_task_id,
                    activity: agent_activity(agent.id.as_str(), jobs, irc, agents, supervisor_id),
                },
            );
        }
        i += 1;
    }
    assert(all.take(agents@.len() as int) =~= all);
    None
}

proof fn lemma_first_agent(agents: Seq<AgentModel>, n: int, id: Seq<char>)
    requires
        0 <= n <= agents.len(),
        first_agent(agents.take(n), id) is Some,
    ensures
        first_agent(agents, id) == first_agent(agents.take(n), id),
    decreases agents.len() - n,
{
    if n < agents.len() {
        assert(agents.take(n + 1).drop_last() =~= agents.take(n));
        lemma_first_agent(agents, n + 1, id);
    } else {
        assert(agents.take(n) =~= agents);
    }
}

fn subagent_details(
    agents: &Vec<AgentSnapshot>,
    jobs: &Vec<WorkflowJobSnapshot>,
    irc: &Vec<MailboxMessage>,
    supervisor_id: &str,
) -> (r: Vec<WorkflowSubagentDetail>)
    ensures
        sort::views(r@) == subagent_rows(
            sort::views(agents@),
            agents@.len(),
            sort::views(jobs@),
            sort::views(irc@),
            supervisor_id@,
        ),
{
    let ghost all = sort::views(agents@);
    let mut rows: Vec<WorkflowSubagentDetail> = Vec::new();
    let mut i: usize = 0;
    assert(sort::views(rows@) =~= Seq::<AgentDetailModel>::empty());
    while i < agents.len()
        invariant
            i <= agents@.len(),
            all == sort::views(agents@),
            sort::views(rows@) == subagent_rows(
                all,
                i as nat,
                sort::views(jobs@),
                sort::views(irc@),
                supervisor_id@,
            ),
        decreases agents@.len() - i,
    {
        let agent = &agents[i];
        assert(all[i as int] == agent@);
        if !same_text(agent.id.as_str(), supervisor_id) {
            let display_name = match find_name(agents, agent.id.as_str()) {
                Some(name) => name,
                None => "Agent".to_owned(),
            };
            let (task_summary, todo_task_id) = summary_and_task(jobs, agent.id.as_str(), None);
            let row = WorkflowSubagentDetail {
                display_name,
                status: agent.status,
                task_summary,
                todo_task_id,
                activity: agent_activity(agent.id.as_str(), jobs, irc, agents, supervisor_id),
            };
            let ghost before = rows@;
            rows.push(row);
            assert(sort::views(rows@) =~= sort::views(before).push(row@));
        }
        i += 1;
    }
    rows
}

fn job_details(jobs: &Vec<WorkflowJobSnapshot>, agents: &Vec<AgentSnapshot>) -> (r: Vec<
    WorkflowRuntimeJobDetail,
>)
    ensures
        sort::views(r@) == sort::views(jobs@).map_values(
            |j: JobModel| job_row(j, sort::views(agents@)),
        ),
{
    let ghost all = sort::views(agents@);
    let ghost wanted = sort::views(jobs@).map_values(|j: JobModel| job_row(j, all));
    let mut rows: Vec<WorkflowRuntimeJobDetail> = Vec::new();
    let mut i: usize = 0;
    while i < jobs.len()
        invariant
            i <= jobs@.len(),
            all == sort::views(agents@),
            wanted == sort::views(jobs@).map_values(|j: JobModel| job_row(j, all)),
            rows@.len() == i,
            forall|k: int| 0 <= k < i ==> (#[trigger] rows@[k])@ == wanted[k],
        decreases jobs@.len() - i,
    {
        let job = &jobs[i];
        let display_name = match find_name(agents, job.agent_id.as_str()) {
            Some(name) => name,
            None => clip_text(job.agent.as_str(), 160),
        };
        let row = WorkflowRuntimeJobDetail {
            display_name,
            status: job.status,
            task_summary: clip_opt(&job.description, 240),
            todo_task_id: task_id_of(job),
            created_at_ms: job.created_at,
            started_at_ms: job.started_at,
            finished_at_ms: job.finished_at,
        };
        assert(row@ == wanted[i as int]);
        rows.push(row);
        i += 1;
    }
    assert(sort::views(rows@) =~= wanted);
    rows
}

fn hide_agents(agents: &Vec<AgentSnapshot>, redacted: &Redactions) -> (r: Vec<AgentSnapshot>)
    ensures
        sort::views(r@) == sort::views(agents@).map_values(|a: AgentModel| hidden_agent(redacted@, a)),
{
    let ghost wanted = sort::views(agents@).map_values(|a: AgentModel| hidden_agent(redacted@, a));
    let mut r: Vec<AgentSnapshot> = Vec::new();
    let mut i: usize = 0;
    while i < agents.len()
        invariant
            i <= agents@.len(),
            wanted == sort::views(agents@).map_values(|a: AgentModel| hidden_agent(redacted@, a)),
            r@.len() == i,
            forall|k: int| 0 <= k < i ==> (#[trigger] r@[k])@ == wanted[k],
        decreases agents@.len() - i,
    {
        let agent = &agents[i];
        let display_name = if is_blank(agent.display_name.as_str()) {
            redacted.show("Agent")
        } else {
            redacted.show(agent.display_name.as_str())
        };
        let item = AgentSnapshot { id: agent.id.clone(), display_name, status: agent.status };
        assert(item@ == wanted[i as int]);
        r.push(item);
        i += 1;
    }
    assert(sort::views(r@) =~= wanted);
    r
}

fn hide_jobs(jobs: &Vec<WorkflowJobSnapshot>, redacted: &Redactions) -> (r: Vec<WorkflowJobSnapshot>)
    ensures
        sort::views(r@) == sort::views(jobs@).map_values(|j: JobModel| hidden_job(redacted@, j)),
{
    let ghost wanted = sort::views(jobs@).map_values(|j: JobModel| hidden_job(redacted@, j));
    let mut r: Vec<WorkflowJobSnapshot> = Vec::new();
    let mut i: usize = 0;
    while i < jobs.len()
        invariant
            i <= jobs@.len(),
            wanted == sort::views(jobs@).map_values(|j: JobModel| hidden_job(redacted@, j)),
            r@.len() == i,
            forall|k: int| 0 <= k < i ==> (#[trigger] r@[k])@ == wanted[k],
        decreases jobs@.len() - i,
    {
        let mut item = jobs[i].clone();
        item.agent = redacted.show(jobs[i].agent.as_str());
        item.description = hide_opt(&jobs[i].description, redacted);
        assert(item@ =~= wanted[i as int]);
        r.push(item);
        i += 1;
    }
    assert(sort::views(r@) =~= wanted);
    r
}

fn hide_messages(irc: &Vec<MailboxMessage>, redacted: &Redactions) -> (r: Vec<MailboxMessage>)
    ensures
        sort::views(r@) == sort::views(irc@).map_values(|m: MessageModel| hidden_message(redacted@, m)),
{
    let ghost wanted = sort::views(irc@).map_values(|m: MessageModel| hidden_message(redacted@, m));
    let mut r: Vec<MailboxMessage> = Vec::new();
    let mut i: usize = 0;
    while i < irc.len()
        invariant
            i <= irc@.len(),
            wanted == sort::views(irc@).map_values(|m: MessageModel| hidden_message(redacted@, m)),
            r@.len() == i,
            forall|k: int| 0 <= k < i ==> (#[trigger] r@[k])@ == wanted[k],
        decreases irc@.len() - i,
    {
        let mut item = irc[i].clone();
        item.body = redacted.show(irc[i].body.as_str());
        assert(item@ =~= wanted[i as int]);
        r.push(item);
        i += 1;
    }
    assert(sort::views(r@) =~= wanted);
    r
}

impl WorkflowRuntimeDetail {
    /// The detail view of a workflow, from texts without credentials and
    /// absolute paths.
    pub fn assemble(
        snapshot: &WorkflowSnapshot,
        projection: &WorkflowSupervisorProjection,
        agents: &Vec<AgentSnapshot>,
        jobs: &Vec<WorkflowJobSnapshot>,
        irc: &Vec<MailboxMessage>,
    ) -> (r: Self)
        ensures
            r@ == assembled(
                snapshot@,
                projection@,
                sort::views(agents@),
                sort::views(jobs@),
                sort::views(irc@),
            ),
    {
        let mut ordered = crate::workflow::todo::clone_jobs(jobs);
        stable_sort(&mut ordered);
        proof {
            sort::lemma_sorted_views(jobs@);
        }
        let supervisor_id = projection.supervisor_agent_id.as_str();
        let status = if snapshot.status.is_terminal() && snapshot.status != projection.status {
            snapshot.status
        } else {
            projection.status
        };
        WorkflowRuntimeDetail {
            workflow_id: snapshot.workflow_id.clone(),
            generation: snapshot.generation,
            name: clip_text(snapshot.name.as_str(), 160),
            objective: clip_text(snapshot.objective.as_str(), 600),
            status,
            todo: clip_todo(&projection.todo),
            supervisor: supervisor_detail(
                snapshot.objective.as_str(),
                projection.status,
                agents,
                &ordered,
                irc,
                supervisor_id,
            ),
            subagents: subagent_details(agents, &ordered, irc, supervisor_id),
            jobs: job_details(&ordered, agents),
            irc: recent_irc(irc, agents, supervisor_id),
            supervisor_activity: clone_feed(&projection.activity),
            planning_started_at_ms: projection.planning_started_at_ms,
        }
    }

    /// The detail view of a workflow with a live runtime. Its texts are shown as
    /// the redactions of [`live_texts`] have them.
    pub fn from_live(
        snapshot: &WorkflowSnapshot,
        projection: WorkflowSupervisorProjection,
        agents: Vec<AgentSnapshot>,
        jobs: Vec<WorkflowJobSnapshot>,
        irc: Vec<MailboxMessage>,
        redacted: &Redactions,
    ) -> (r: Self)
        ensures
            r@ == live_detail(
                redacted@,
                snapshot@,
                projection@,
                sort::views(agents@),
                sort::views(jobs@),
                sort::views(irc@),
            ),
    {
        let shown = hide_snapshot(snapshot, redacted);
        let ghost before = projection@;
        let mut live = projection;
        live.todo = hide_todo(&live.todo, redacted);
        assert(live@ =~= hidden_projection(redacted@, before));
        Self::assemble(
            &shown,
            &live,
            &hide_agents(&agents, redacted),
            &hide_jobs(&jobs, redacted),
            &hide_messages(&irc, redacted),
        )
    }

    /// The detail view of a record, from texts without credentials and absolute
    /// paths.
    pub fn assemble_fallback(snapshot: &WorkflowSnapshot) -> (r: Self)
        ensures
            r@ == fallback(snapshot@),
    {
        let r = WorkflowRuntimeDetail {
            workflow_id: snapshot.workflow_id.clone(),
            generation: snapshot.generation,
            name: clip_text(snapshot.name.as_str(), 160),
            objective: clip_text(snapshot.objective.as_str(), 600),
            status: snapshot.status,
            todo: clip_todo(&snapshot.todo),
            supervisor: None,
            subagents: Vec::new(),
            jobs: Vec::new(),
            irc: Vec::new(),
            supervisor_activity: Vec::new(),
            planning_started_at_ms: None,
        };
        assert(r@ =~= fallback(snapshot@));
        r
    }

    /// The detail view of a workflow without a live runtime. Its texts are shown
    /// as the redactions of [`record_texts`] have them.
    pub fn snapshot_fallback(snapshot: &WorkflowSnapshot, redacted: &Redactions) -> (r: Self)
        ensures
            r@ == fallback(hidden_snapshot(redacted@, snapshot@)),
    {
        Self::assemble_fallback(&hide_snapshot(snapshot, redacted))
    }

    /// The view without names, texts and messages.
    pub fn debug_text(&self) -> (r: String)
        ensures
            r@ == "WorkflowRuntimeDetail { workflow_id: WorkflowId("@
                + crate::render::debug_text_of(self@.workflow_id) + "), generation: "@
                + text::numeral(self.generation as nat) + ", status: "@ + records::status_variant(
                self.status,
            ) + ", phase_count: "@ + text::numeral(self@.todo.len()) + ", has_supervisor: "@
                + records::flag(self.supervisor is Some) + ", subagent_count: "@ + text::numeral(
                self@.subagents.len(),
            ) + ", job_count: "@ + text::numeral(self@.jobs.len()) + ", irc_count: "@
                + text::numeral(self@.irc.len()) + ", .. }"@,
    {
        "WorkflowRuntimeDetail { workflow_id: WorkflowId(".to_owned().concat(
            crate::render::debug_text(self.workflow_id.as_str()).as_str(),
        ).concat("), generation: ").concat(decimal(self.generation).as_str()).concat(
            ", status: ",
        ).concat(status_variant_name(self.status)).concat(", phase_count: ").concat(
            decimal(self.todo.phases.len() as u64).as_str(),
        ).concat(", has_supervisor: ").concat(records::flag_text(self.supervisor.is_some())).concat(
            ", subagent_count: ",
        ).concat(decimal(self.subagents.len() as u64).as_str()).concat(", job_count: ").concat(
            decimal(self.jobs.len() as u64).as_str(),
        ).concat(", irc_count: ").concat(decimal(self.irc.len() as u64).as_str()).concat(", .. }")
    }
}

/// What is shown of an agent: no name and no text.
pub open spec fn shown_agent(kind: Seq<char>, status: AgentStatus, summary: bool) -> Seq<char> {
    kind + " { status: "@ + status.variant() + ", has_task_summary: "@ + records::flag(summary)
        + ", .. }"@
}

impl WorkflowSupervisorDetail {
    /// The supervisor without its name and texts.
    pub fn debug_text(&self) -> (r: String)
        ensures
            r@ == shown_agent(
                "WorkflowSupervisorDetail"@,
                self.status,
                self.task_summary is Some,
            ),
    {
        "WorkflowSupervisorDetail".to_owned().concat(" { status: ").concat(
            self.status.variant_name(),
        ).concat(", has_task_summary: ").concat(
            records::flag_text(self.task_summary.is_some()),
        ).concat(", .. }")
    }
}

impl WorkflowSubagentDetail {
    /// The agent without its name and texts.
    pub fn debug_text(&self) -> (r: String)
        ensures
            r@ == shown_agent("WorkflowSubagentDetail"@, self.status, self.task_summary is Some),
    {
        "WorkflowSubagentDetail".to_owned().concat(" { status: ").concat(
            self.status.variant_name(),
        ).concat(", has_task_summary: ").concat(
            records::flag_text(self.task_summary.is_some()),
        ).concat(", .. }")
    }
}

impl WorkflowRuntimeJobDetail {
    /// The job without its name and texts.
    pub fn debug_text(&self) -> (r: String)
        ensures
            r@ == "WorkflowRuntimeJobDetail { status: "@ + self.status.variant()
                + ", has_task_summary: "@ + records::flag(self.task_summary is Some)
                + ", has_todo_task_id: "@ + records::flag(self.todo_task_id is Some) + ", .. }"@,
    {
        "WorkflowRuntimeJobDetail { status: ".to_owned().concat(self.status.variant_name()).concat(
            ", has_task_summary: ",
        ).concat(records::flag_text(self.task_summary.is_some())).concat(
            ", has_todo_task_id: ",
        ).concat(records::flag_text(self.todo_task_id.is_some())).concat(", .. }")
    }
}

impl WorkflowIrcMessage {
    /// The message without its parties and its body.
    pub fn debug_text(&self) -> (r: String)
        ensures
            r@ == "WorkflowIrcMessage { timestamp_ms: "@ + text::numeral(self.timestamp_ms as nat)
                + ", .. }"@,
    {
        "WorkflowIrcMessage { timestamp_ms: ".to_owned().concat(
            decimal(self.timestamp_ms).as_str(),
        ).concat(", .. }")
    }
}

fn hide_snapshot(snapshot: &WorkflowSnapshot, redacted: &Redactions) -> (r: WorkflowSnapshot)
    ensures
        r@ == hidden_snapshot(redacted@, snapshot@),
{
    let mut r = snapshot.clone();
    r.name = redacted.show(snapshot.name.as_str());
    r.objective = redacted.show(snapshot.objective.as_str());
    r.todo = hide_todo(&snapshot.todo, redacted);
    assert(r@ =~= hidden_snapshot(redacted@, snapshot@));
    r
}

// ---------------------------------------------------------------------------
// What holds of every detail view
// ---------------------------------------------------------------------------

proof fn lemma_distinct(irc: Seq<MessageModel>, n: nat)
    requires
        n <= irc.len(),
    ensures
        forall|a: int, b: int|
            0 <= a < b < distinct_messages(irc, n).len() ==> (#[trigger] distinct_messages(
                irc,
                n,
            )[a]).id != (#[trigger] distinct_messages(irc, n)[b]).id,
        forall|a: int|
            0 <= a < distinct_messages(irc, n).len() ==> exists|k: int|
                0 <= k < n && irc[k] == #[trigger] distinct_messages(irc, n)[a],
    decreases n,
{
    if n > 0 {
        lemma_distinct(irc, (n - 1) as nat);
        let before = distinct_messages(irc, (n - 1) as nat);
        let now = distinct_messages(irc, n);
        assert forall|a: int| 0 <= a < now.len() implies exists|k: int|
            0 <= k < n && irc[k] == #[trigger] now[a] by {
            if a < before.len() {
                assert(now[a] == before[a]);
                let k = choose|k: int| 0 <= k < n - 1 && irc[k] == before[a];
                assert(irc[k] == now[a]);
            } else {
                assert(irc[n - 1] == now[a]);
            }
        }
        assert forall|a: int, b: int| 0 <= a < b < now.len() implies (#[trigger] now[a]).id != (
        #[trigger] now[b]).id by {
            assert(now[a] == before[a]);
            let k = choose|k: int| 0 <= k < n - 1 && irc[k] == before[a];
            if b < before.len() {
                assert(now[b] == before[b]);
            } else {
                assert(irc[k].id != irc[n - 1].id);
            }
        }
    }
}

proof fn lemma_among(v: Seq<Seq<char>>, n: nat, k: int)
    requires
        0 <= k < n,
    ensures
        among(v, n, v[k]),
    decreases n,
{
    if k < n - 1 {
        lemma_among(v, (n - 1) as nat, k);
    }
}

proof fn lemma_tasks_show(tasks: Seq<TaskModel>, n: nat, k: int, s: Seq<char>)
    requires
        0 <= k < n,
        tasks[k].content == s || among(tasks[k].blocked_by, tasks[k].blocked_by.len(), s),
    ensures
        tasks_show(tasks, n, s),
    decreases n,
{
    if k < n - 1 {
        lemma_tasks_show(tasks, (n - 1) as nat, k, s);
    }
}

proof fn lemma_phases_show(todo: Seq<PhaseModel>, n: nat, k: int, s: Seq<char>)
    requires
        0 <= k < n,
        todo[k].name == s || tasks_show(todo[k].tasks, todo[k].tasks.len(), s),
    ensures
        phases_show(todo, n, s),
    decreases n,
{
    if k < n - 1 {
        lemma_phases_show(todo, (n - 1) as nat, k, s);
    }
}

proof fn lemma_agents_show(agents: Seq<AgentModel>, n: nat, k: int)
    requires
        0 <= k < n,
    ensures
        agents_show(agents, n, agent_label(agents[k])),
    decreases n,
{
    if k < n - 1 {
        lemma_agents_show(agents, (n - 1) as nat, k);
    }
}

proof fn lemma_jobs_show(jobs: Seq<JobModel>, n: nat, k: int, s: Seq<char>)
    requires
        0 <= k < n,
        jobs[k].agent == s || jobs[k].description == Some(s),
    ensures
        jobs_show(jobs, n, s),
    decreases n,
{
    if k < n - 1 {
        lemma_jobs_show(jobs, (n - 1) as nat, k, s);
    }
}

proof fn lemma_messages_show(irc: Seq<MessageModel>, n: nat, k: int)
    requires
        0 <= k < n,
    ensures
        messages_show(irc, n, irc[k].body),
    decreases n,
{
    if k < n - 1 {
        lemma_messages_show(irc, (n - 1) as nat, k);
    }
}

proof fn lemma_todo_agrees(
    a: Map<Seq<char>, Seq<char>>,
    b: Map<Seq<char>, Seq<char>>,
    todo: Seq<PhaseModel>,
)
    requires
        forall|s: Seq<char>|
            phases_show(todo, todo.len(), s) ==> #[trigger] cleared(a, s) == cleared(b, s),
    ensures
        hidden_todo(a, todo) == hidden_todo(b, todo),
{
    let x = hidden_todo(a, todo);
    let y = hidden_todo(b, todo);
    assert forall|i: int| 0 <= i < todo.len() implies x[i] == y[i] by {
        let tasks = todo[i].tasks;
        lemma_phases_show(todo, todo.len(), i, todo[i].name);
        assert(cleared(a, todo[i].name) == cleared(b, todo[i].name));
        assert forall|j: int| 0 <= j < tasks.len() implies x[i].tasks[j] == y[i].tasks[j] by {
            let t = tasks[j];
            lemma_tasks_show(tasks, tasks.len(), j, t.content);
            lemma_phases_show(todo, todo.len(), i, t.content);
            assert(cleared(a, t.content) == cleared(b, t.content));
            assert forall|k: int| 0 <= k < t.blocked_by.len() implies x[i].tasks[j].blocked_by[k]
                == y[i].tasks[j].blocked_by[k] by {
                lemma_among(t.blocked_by, t.blocked_by.len(), k);
                lemma_tasks_show(tasks, tasks.len(), j, t.blocked_by[k]);
                lemma_phases_show(todo, todo.len(), i, t.blocked_by[k]);
                assert(cleared(a, t.blocked_by[k]) == cleared(b, t.blocked_by[k]));
            }
            assert(x[i].tasks[j].blocked_by =~= y[i].tasks[j].blocked_by);
        }
        assert(x[i].tasks =~= y[i].tasks);
    }
    assert(x =~= y);
}

/// The texts that are listed are all that a record's detail view rests on: what
/// the redactor makes of any other text does not matter.
pub proof fn law_fallback_rests_on_its_texts(
    snapshot: SnapshotModel,
    a: Map<Seq<char>, Seq<char>>,
    b: Map<Seq<char>, Seq<char>>,
)
    requires
        forall|s: Seq<char>|
            record_shows(snapshot, s) ==> #[trigger] cleared(a, s) == cleared(b, s),
    ensures
        fallback(hidden_snapshot(a, snapshot)) == fallback(hidden_snapshot(b, snapshot)),
{
    lemma_todo_agrees(a, b, snapshot.todo);
    assert(cleared(a, snapshot.name) == cleared(b, snapshot.name));
    assert(cleared(a, snapshot.objective) == cleared(b, snapshot.objective));
}

/// The texts that are listed are all that a live detail view rests on: what the
/// redactor makes of any other text does not matter.
pub proof fn law_detail_rests_on_its_texts(
    snapshot: SnapshotModel,
    p: ProjectionModel,
    agents: Seq<AgentModel>,
    jobs: Seq<JobModel>,
    irc: Seq<MessageModel>,
    a: Map<Seq<char>, Seq<char>>,
    b: Map<Seq<char>, Seq<char>>,
)
    requires
        forall|s: Seq<char>|
            live_shows(snapshot, p, agents, jobs, irc, s) ==> #[trigger] cleared(a, s) == cleared(
                b,
                s,
            ),
    ensures
        live_detail(a, snapshot, p, agents, jobs, irc) == live_detail(
            b,
            snapshot,
            p,
            agents,
            jobs,
            irc,
        ),
{
    lemma_todo_agrees(a, b, p.todo);
    assert(cleared(a, snapshot.name) == cleared(b, snapshot.name));
    assert(cleared(a, snapshot.objective) == cleared(b, snapshot.objective));
    let agents_a = agents.map_values(|x: AgentModel| hidden_agent(a, x));
    let agents_b = agents.map_values(|x: AgentModel| hidden_agent(b, x));
    assert forall|k: int| 0 <= k < agents.len() implies agents_a[k] == agents_b[k] by {
        lemma_agents_show(agents, agents.len(), k);
        assert(cleared(a, agent_label(agents[k])) == cleared(b, agent_label(agents[k])));
    }
    assert(agents_a =~= agents_b);
    let jobs_a = jobs.map_values(|x: JobModel| hidden_job(a, x));
    let jobs_b = jobs.map_values(|x: JobModel| hidden_job(b, x));
    assert forall|k: int| 0 <= k < jobs.len() implies jobs_a[k] == jobs_b[k] by {
        lemma_jobs_show(jobs, jobs.len(), k, jobs[k].agent);
        assert(cleared(a, jobs[k].agent) == cleared(b, jobs[k].agent));
        match jobs[k].description {
            Some(d) => {
                lemma_jobs_show(jobs, jobs.len(), k, d);
                assert(cleared(a, d) == cleared(b, d));
            },
            None => {},
        }
    }
    assert(jobs_a =~= jobs_b);
    let irc_a = irc.map_values(|x: MessageModel| hidden_message(a, x));
    let irc_b = irc.map_values(|x: MessageModel| hidden_message(b, x));
    assert forall|k: int| 0 <= k < irc.len() implies irc_a[k] == irc_b[k] by {
        lemma_messages_show(irc, irc.len(), k);
        assert(cleared(a, irc[k].body) == cleared(b, irc[k].body));
    }
    assert(irc_a =~= irc_b);
}

/// A message that is kept comes up once, however often it was delivered.
pub proof fn law_messages_are_distinct(irc: Seq<MessageModel>, a: int, b: int)
    requires
        0 <= a < b < distinct_messages(irc, irc.len()).len(),
    ensures
        distinct_messages(irc, irc.len())[a].id != distinct_messages(irc, irc.len())[b].id,
{
    lemma_distinct(irc, irc.len());
}

/// The lists of a detail view stay within their bounds.
pub proof fn law_detail_is_bounded(
    snapshot: SnapshotModel,
    p: ProjectionModel,
    agents: Seq<AgentModel>,
    jobs: Seq<JobModel>,
    irc: Seq<MessageModel>,
    agent_id: Seq<char>,
)
    ensures
        assembled(snapshot, p, agents, jobs, irc).irc.len() <= RECENT_IRC_LIMIT,
        agent_feed(agent_id, jobs, irc, agents, p.supervisor_agent_id).len() <= AGENT_ACTIVITY_CAP,
        assembled(snapshot, p, agents, jobs, irc).name.len() <= 160,
        assembled(snapshot, p, agents, jobs, irc).objective.len() <= 600,
{
}

/// The durable record wins: a terminal status is shown whatever the live view
/// says.
pub proof fn law_terminal_record_wins(
    snapshot: SnapshotModel,
    p: ProjectionModel,
    agents: Seq<AgentModel>,
    jobs: Seq<JobModel>,
    irc: Seq<MessageModel>,
)
    requires
        snapshot.status.terminal(),
    ensures
        assembled(snapshot, p, agents, jobs, irc).status == snapshot.status,
{
}

/// While a workflow is planned, an idle supervisor reads as running and shows
/// what it plans.
pub proof fn law_planning_reads_as_running(
    snapshot: SnapshotModel,
    p: ProjectionModel,
    agents: Seq<AgentModel>,
    jobs: Seq<JobModel>,
    irc: Seq<MessageModel>,
)
    requires
        p.status == WorkflowStatus::Planning,
        first_agent(agents, p.supervisor_agent_id) is Some,
        first_agent(agents, p.supervisor_agent_id)->0.status == AgentStatus::Idle,
    ensures
        assembled(snapshot, p, agents, jobs, irc).supervisor is Some,
        assembled(snapshot, p, agents, jobs, irc).supervisor->0.status == AgentStatus::Running,
        assembled(snapshot, p, agents, jobs, irc).supervisor->0.task_summary is Some,
{
}

proof fn lemma_summary_job(jobs: Seq<JobModel>, agent_id: Seq<char>) -> (k: int)
    requires
        summary_job(jobs, agent_id) is Some,
    ensures
        0 <= k < jobs.len(),
        summary_job(jobs, agent_id) == Some(jobs[k]),
        jobs[k].agent_id == agent_id,
        jobs[k].description is Some,
    decreases jobs.len(),
{
    if jobs.last().agent_id == agent_id && jobs.last().description is Some {
        jobs.len() - 1
    } else {
        let k = lemma_summary_job(jobs.drop_last(), agent_id);
        assert(jobs.drop_last()[k] == jobs[k]);
        k
    }
}

/// Whether a row shows a job of an agent: its description and its task.
pub open spec fn row_shows(row: AgentDetailModel, job: JobModel, agent_id: Seq<char>) -> bool {
    job.agent_id == agent_id && job.description is Some && row.task_summary == Some(
        clipped(job.description->0, 240),
    ) && row.todo_task_id == job_task(job)
}

/// The Todo task beside a summary is the task of the very job that gave the
/// summary.
pub proof fn law_task_is_behind_the_summary(
    agent: AgentModel,
    status: AgentStatus,
    fallback_name: Seq<char>,
    fallback_summary: Option<Seq<char>>,
    agents: Seq<AgentModel>,
    jobs: Seq<JobModel>,
    irc: Seq<MessageModel>,
    supervisor_id: Seq<char>,
)
    ensures
        ({
            let row = agent_row(
                agent,
                status,
                fallback_name,
                fallback_summary,
                agents,
                jobs,
                irc,
                supervisor_id,
            );
            row.task_summary is Some && row.todo_task_id is Some ==> exists|k: int|
                0 <= k < jobs.len() && row_shows(row, #[trigger] jobs[k], agent.id)
        }),
{
    if summary_job(jobs, agent.id) is Some {
        let k = lemma_summary_job(jobs, agent.id);
        assert(row_shows(
            agent_row(
                agent,
                status,
                fallback_name,
                fallback_summary,
                agents,
                jobs,
                irc,
                supervisor_id,
            ),
            jobs[k],
            agent.id,
        ));
    }
}

/// The feed of an agent is ordered by time.
pub proof fn law_feed_is_ordered(
    agent_id: Seq<char>,
    jobs: Seq<JobModel>,
    irc: Seq<MessageModel>,
    agents: Seq<AgentModel>,
    supervisor_id: Seq<char>,
    a: int,
    b: int,
)
    requires
        0 <= a < b < agent_feed(agent_id, jobs, irc, agents, supervisor_id).len(),
    ensures
        agent_feed(agent_id, jobs, irc, agents, supervisor_id)[a].at_ms <= agent_feed(
            agent_id,
            jobs,
            irc,
            agents,
            supervisor_id,
        )[b].at_ms,
{
    let all = job_entries(jobs, agent_id) + message_entries(
        irc,
        irc.len(),
        agent_id,
        agents,
        supervisor_id,
    );
    let sorted = sort::stable_sorted(all);
    sort::lemma_stable_sorted(all);
    let shift = if sorted.len() > 12 {
        sorted.len() - 12
    } else {
        0
    };
    assert(!sorted[b + shift].before(sorted[a + shift]));
}

} // verus!
