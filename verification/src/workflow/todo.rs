//! The orchestration state that workflow logic reads: the Todo DAG, delegated
//! jobs, agents and mailbox messages.

use crate::sort;
use crate::sort::{text_is_before, Rank, Ranked};
use crate::text;
use crate::text::{clone_opt_text, clone_texts};
use vstd::prelude::*;
use vstd::string::*;
use vstd::utf8::*;

verus! {

/// Lifecycle state of one Todo task.
#[derive(Clone, Copy, Debug, PartialEq, Eq, Structural)]
pub enum TodoStatus {
    Pending,
    InProgress,
    Completed,
    Abandoned,
}

/// One task of the Todo DAG.
#[derive(Debug, PartialEq, Eq)]
pub struct TodoTask {
    pub id: String,
    pub content: String,
    pub status: TodoStatus,
    pub depends_on: Vec<String>,
    /// Titles of the open tasks that it waits for.
    pub blocked_by: Vec<String>,
}

/// One named phase of the Todo DAG.
#[derive(Debug, PartialEq, Eq)]
pub struct TodoPhase {
    pub name: String,
    pub tasks: Vec<TodoTask>,
}

/// The canonical Todo DAG.
#[derive(Debug, PartialEq, Eq)]
pub struct TodoState {
    pub phases: Vec<TodoPhase>,
}

/// The model of a task.
#[verifier::ext_equal]
pub struct TaskModel {
    pub id: Seq<char>,
    pub content: Seq<char>,
    pub status: TodoStatus,
    pub depends_on: Seq<Seq<char>>,
    pub blocked_by: Seq<Seq<char>>,
}

/// The model of a phase.
#[verifier::ext_equal]
pub struct PhaseModel {
    pub name: Seq<char>,
    pub tasks: Seq<TaskModel>,
}

impl View for TodoTask {
    type V = TaskModel;

    open spec fn view(&self) -> TaskModel {
        TaskModel {
            id: self.id@,
            content: self.content@,
            status: self.status,
            depends_on: text::texts(self.depends_on@),
            blocked_by: text::texts(self.blocked_by@),
        }
    }
}

impl View for TodoPhase {
    type V = PhaseModel;

    open spec fn view(&self) -> PhaseModel {
        PhaseModel { name: self.name@, tasks: self.tasks@.map_values(|t: TodoTask| t@) }
    }
}

impl View for TodoState {
    type V = Seq<PhaseModel>;

    open spec fn view(&self) -> Seq<PhaseModel> {
        self.phases@.map_values(|p: TodoPhase| p@)
    }
}

impl Clone for TodoTask {
    fn clone(&self) -> (r: Self)
        ensures
            r@ == self@,
    {
        TodoTask {
            id: self.id.clone(),
            content: self.content.clone(),
            status: self.status,
            depends_on: clone_texts(&self.depends_on),
            blocked_by: clone_texts(&self.blocked_by),
        }
    }
}

impl Clone for TodoPhase {
    fn clone(&self) -> (r: Self)
        ensures
            r@ == self@,
    {
        let mut tasks: Vec<TodoTask> = Vec::new();
        let mut i: usize = 0;
        while i < self.tasks.len()
            invariant
                i <= self.tasks@.len(),
                tasks@.len() == i,
                forall|j: int| 0 <= j < i ==> (#[trigger] tasks@[j])@ == self.tasks@[j]@,
            decreases self.tasks@.len() - i,
        {
            tasks.push(self.tasks[i].clone());
            i += 1;
        }
        let r = TodoPhase { name: self.name.clone(), tasks };
        assert(r@.tasks =~= self@.tasks);
        r
    }
}

impl Clone for TodoState {
    fn clone(&self) -> (r: Self)
        ensures
            r@ == self@,
    {
        let mut phases: Vec<TodoPhase> = Vec::new();
        let mut i: usize = 0;
        while i < self.phases.len()
            invariant
                i <= self.phases@.len(),
                phases@.len() == i,
                forall|j: int| 0 <= j < i ==> (#[trigger] phases@[j])@ == self.phases@[j]@,
            decreases self.phases@.len() - i,
        {
            phases.push(self.phases[i].clone());
            i += 1;
        }
        let r = TodoState { phases };
        assert(r@ =~= self@);
        r
    }
}

/// Whether any phase of the DAG holds a task.
pub open spec fn has_any_task(todo: Seq<PhaseModel>) -> bool {
    exists|i: int| 0 <= i < todo.len() && (#[trigger] todo[i]).tasks.len() > 0
}

/// Whether a task needs no more work.
pub open spec fn task_closed(task: TaskModel) -> bool {
    task.status == TodoStatus::Completed || task.status == TodoStatus::Abandoned
}

/// Whether every task of the DAG is closed.
pub open spec fn all_closed(todo: Seq<PhaseModel>) -> bool {
    forall|i: int, j: int|
        0 <= i < todo.len() && 0 <= j < todo[i].tasks.len() ==> task_closed(
            #[trigger] todo[i].tasks[j],
        )
}

/// Whether the DAG holds a task and every task is closed.
pub open spec fn exactly_complete(todo: Seq<PhaseModel>) -> bool {
    has_any_task(todo) && all_closed(todo)
}

/// Number of tasks in all phases together.
pub open spec fn task_total(todo: Seq<PhaseModel>) -> nat
    decreases todo.len(),
{
    if todo.len() == 0 {
        0
    } else {
        task_total(todo.drop_last()) + todo.last().tasks.len()
    }
}

/// Whether any phase of the DAG holds a task.
pub fn todo_has_any_task(todo: &TodoState) -> (r: bool)
    ensures
        r == has_any_task(todo@),
{
    let mut i: usize = 0;
    while i < todo.phases.len()
        invariant
            i <= todo.phases@.len(),
            forall|k: int| 0 <= k < i ==> (#[trigger] todo@[k]).tasks.len() == 0,
        decreases todo.phases@.len() - i,
    {
        assert(todo@[i as int].tasks.len() == todo.phases@[i as int].tasks@.len());
        if todo.phases[i].tasks.len() > 0 {
            return true;
        }
        i += 1;
    }
    false
}

/// Whether the DAG holds a task and every task is completed or abandoned.
pub fn todo_is_exactly_complete(todo: &TodoState) -> (r: bool)
    ensures
        r == exactly_complete(todo@),
{
    let mut saw_task = false;
    let mut i: usize = 0;
    while i < todo.phases.len()
        invariant
            i <= todo.phases@.len(),
            saw_task == (exists|k: int| 0 <= k < i && (#[trigger] todo@[k]).tasks.len() > 0),
            forall|k: int, j: int|
                0 <= k < i && 0 <= j < todo@[k].tasks.len() ==> task_closed(
                    #[trigger] todo@[k].tasks[j],
                ),
        decreases todo.phases@.len() - i,
    {
        let phase = &todo.phases[i];
        let ghost model = todo@[i as int];
        assert(model == phase@);
        let mut j: usize = 0;
        while j < phase.tasks.len()
            invariant
                i < todo.phases@.len(),
                j <= phase.tasks@.len(),
                *phase == todo.phases@[i as int],
                model == phase@,
                model == todo@[i as int],
                forall|k: int| 0 <= k < j ==> task_closed(#[trigger] model.tasks[k]),
            decreases phase.tasks@.len() - j,
        {
            let status = phase.tasks[j].status;
            assert(model.tasks[j as int].status == status);
            if !(status == TodoStatus::Completed || status == TodoStatus::Abandoned) {
                assert(!task_closed(todo@[i as int].tasks[j as int]));
                return false;
            }
            j += 1;
        }
        if phase.tasks.len() > 0 {
            saw_task = true;
            assert(todo@[i as int].tasks.len() > 0);
        }
        i += 1;
    }
    saw_task
}

/// Number of tasks in all phases together; `usize::MAX` where there are more.
pub fn todo_task_count(todo: &TodoState) -> (n: usize)
    ensures
        task_total(todo@) <= usize::MAX ==> n == task_total(todo@),
        task_total(todo@) > usize::MAX ==> n == usize::MAX,
{
    let mut n: usize = 0;
    let mut i: usize = 0;
    assert(todo@.take(0) =~= Seq::<PhaseModel>::empty());
    while i < todo.phases.len()
        invariant
            i <= todo.phases@.len(),
            task_total(todo@.take(i as int)) <= usize::MAX ==> n == task_total(todo@.take(i as int)),
            task_total(todo@.take(i as int)) > usize::MAX ==> n == usize::MAX,
        decreases todo.phases@.len() - i,
    {
        assert(todo@.take(i + 1).drop_last() =~= todo@.take(i as int));
        assert(todo@.take(i + 1).last() == todo.phases@[i as int]@);
        n = n.saturating_add(todo.phases[i].tasks.len());
        i += 1;
    }
    assert(todo@.take(todo.phases@.len() as int) =~= todo@);
    n
}

// ---------------------------------------------------------------------------
// Content hash
// ---------------------------------------------------------------------------

/// The bytes by which one text enters the content hash: its encoding and a
/// terminator that no encoding holds.
pub open spec fn hashed_text(s: Seq<char>) -> Seq<u8> {
    encode_utf8(s).push(0xff)
}

/// The bytes by which a list of texts enters the content hash.
pub open spec fn hashed_texts(v: Seq<Seq<char>>) -> Seq<u8>
    decreases v.len(),
{
    if v.len() == 0 {
        Seq::empty()
    } else {
        hashed_texts(v.drop_last()) + hashed_text(v.last())
    }
}

/// The byte that stands for a task status in the content hash.
pub open spec fn status_code(status: TodoStatus) -> u8 {
    match status {
        TodoStatus::Pending => 0,
        TodoStatus::InProgress => 1,
        TodoStatus::Completed => 2,
        TodoStatus::Abandoned => 3,
    }
}

/// The bytes by which one task enters the content hash.
pub open spec fn hashed_task(task: TaskModel) -> Seq<u8> {
    (hashed_text(task.id) + hashed_text(task.content)).push(status_code(task.status)) + hashed_texts(
        task.depends_on,
    )
}

/// The bytes by which a list of tasks enters the content hash.
pub open spec fn hashed_tasks(tasks: Seq<TaskModel>) -> Seq<u8>
    decreases tasks.len(),
{
    if tasks.len() == 0 {
        Seq::empty()
    } else {
        hashed_tasks(tasks.drop_last()) + hashed_task(tasks.last())
    }
}

/// The bytes of the whole DAG that the content hash is taken of.
pub open spec fn hashed_todo(todo: Seq<PhaseModel>) -> Seq<u8>
    decreases todo.len(),
{
    if todo.len() == 0 {
        Seq::empty()
    } else {
        hashed_todo(todo.drop_last()) + hashed_text(todo.last().name) + hashed_tasks(
            todo.last().tasks,
        )
    }
}

/// What `std::hash::DefaultHasher::new` hashes the given bytes to.
pub uninterp spec fn default_hash_of(bytes: Seq<u8>) -> u64;

/// Feeds `bytes` to a fresh `std::hash::DefaultHasher` and finishes it. All
/// hashers made by `DefaultHasher::new` agree, so the result depends on the
/// bytes alone.
#[verifier::external_body]
fn default_hash(bytes: &[u8]) -> (h: u64)
    ensures
        h == default_hash_of(bytes@),
{
    let mut hasher = std::hash::DefaultHasher::new();
    std::hash::Hasher::write(&mut hasher, bytes);
    std::hash::Hasher::finish(&hasher)
}

fn push_bytes(out: &mut Vec<u8>, bytes: &[u8])
    ensures
        final(out)@ == old(out)@ + bytes@,
{
    let ghost before = out@;
    let mut i: usize = 0;
    assert(before + bytes@.take(0) =~= before);
    while i < bytes.len()
        invariant
            i <= bytes@.len(),
            out@ == before + bytes@.take(i as int),
        decreases bytes@.len() - i,
    {
        out.push(bytes[i]);
        assert(before + bytes@.take(i + 1) =~= (before + bytes@.take(i as int)).push(
            bytes@[i as int],
        ));
        i += 1;
    }
    assert(bytes@.take(bytes@.len() as int) =~= bytes@);
}

fn push_text(out: &mut Vec<u8>, s: &str)
    ensures
        final(out)@ == old(out)@ + hashed_text(s@),
{
    let ghost before = out@;
    push_bytes(out, s.as_bytes());
    out.push(0xff);
    assert(out@ =~= before + hashed_text(s@));
}

fn push_task(out: &mut Vec<u8>, task: &TodoTask)
    ensures
        final(out)@ == old(out)@ + hashed_task(task@),
{
    let ghost before = out@;
    push_text(out, task.id.as_str());
    push_text(out, task.content.as_str());
    let code: u8 = match task.status {
        TodoStatus::Pending => 0,
        TodoStatus::InProgress => 1,
        TodoStatus::Completed => 2,
        TodoStatus::Abandoned => 3,
    };
    out.push(code);
    let ghost head = (hashed_text(task@.id) + hashed_text(task@.content)).push(
        status_code(task@.status),
    );
    assert(out@ =~= before + head);
    let mut i: usize = 0;
    assert(task@.depends_on.take(0) =~= Seq::<Seq<char>>::empty());
    assert(out@ =~= before + head + hashed_texts(task@.depends_on.take(0)));
    while i < task.depends_on.len()
        invariant
            i <= task.depends_on@.len(),
            out@ == before + head + hashed_texts(task@.depends_on.take(i as int)),
        decreases task.depends_on@.len() - i,
    {
        push_text(out, task.depends_on[i].as_str());
        assert(task@.depends_on.take(i + 1).drop_last() =~= task@.depends_on.take(i as int));
        assert(task@.depends_on.take(i + 1).last() == task.depends_on@[i as int]@);
        assert(out@ =~= before + head + hashed_texts(task@.depends_on.take(i + 1)));
        i += 1;
    }
    assert(task@.depends_on.take(task.depends_on@.len() as int) =~= task@.depends_on);
    assert(out@ =~= before + hashed_task(task@));
}

/// The bytes of the whole DAG that the content hash is taken of.
pub fn todo_bytes(todo: &TodoState) -> (out: Vec<u8>)
    ensures
        out@ == hashed_todo(todo@),
{
    let mut out: Vec<u8> = Vec::new();
    let mut i: usize = 0;
    assert(todo@.take(0) =~= Seq::<PhaseModel>::empty());
    while i < todo.phases.len()
        invariant
            i <= todo.phases@.len(),
            out@ == hashed_todo(todo@.take(i as int)),
        decreases todo.phases@.len() - i,
    {
        let phase = &todo.phases[i];
        let ghost model = phase@;
        let ghost before = out@;
        push_text(&mut out, phase.name.as_str());
        let ghost named = before + hashed_text(model.name);
        let mut j: usize = 0;
        assert(model.tasks.take(0) =~= Seq::<TaskModel>::empty());
        assert(out@ =~= named + hashed_tasks(model.tasks.take(0)));
        while j < phase.tasks.len()
            invariant
                j <= phase.tasks@.len(),
                model == phase@,
                out@ == named + hashed_tasks(model.tasks.take(j as int)),
            decreases phase.tasks@.len() - j,
        {
            push_task(&mut out, &phase.tasks[j]);
            assert(model.tasks.take(j + 1).drop_last() =~= model.tasks.take(j as int));
            assert(model.tasks.take(j + 1).last() == phase.tasks@[j as int]@);
            assert(out@ =~= named + hashed_tasks(model.tasks.take(j + 1)));
            j += 1;
        }
        assert(model.tasks.take(phase.tasks@.len() as int) =~= model.tasks);
        assert(todo@.take(i + 1).drop_last() =~= todo@.take(i as int));
        assert(todo@.take(i + 1).last() == model);
        i += 1;
    }
    assert(todo@.take(todo.phases@.len() as int) =~= todo@);
    out
}

/// Content hash of the DAG. Equal DAGs have equal hashes, so a changed hash
/// shows that the DAG changed.
pub fn todo_state_hash(todo: &TodoState) -> (h: u64)
    ensures
        h == default_hash_of(hashed_todo(todo@)),
{
    let bytes = todo_bytes(todo);
    default_hash(bytes.as_slice())
}

// ---------------------------------------------------------------------------
// Jobs, agents and messages
// ---------------------------------------------------------------------------

/// What the Todo DAG executor is doing.
#[derive(Clone, Copy, Debug, PartialEq, Eq, Structural)]
pub enum TodoDagExecutionStatus {
    Dormant,
    Active,
    Settled,
    Blocked,
}

/// Lifecycle state of a delegated job.
#[derive(Clone, Copy, Debug, PartialEq, Eq, Structural)]
pub enum JobStatus {
    Queued,
    Running,
    Completed,
    Failed,
    Cancelled,
}

impl JobStatus {
    /// Whether the job has ended.
    pub open spec fn settled(self) -> bool {
        self == JobStatus::Completed || self == JobStatus::Failed || self == JobStatus::Cancelled
    }

    /// Whether the job has ended.
    pub fn is_settled(self) -> (r: bool)
        ensures
            r == self.settled(),
    {
        matches!(self, JobStatus::Completed | JobStatus::Failed | JobStatus::Cancelled)
    }
}

/// Lifecycle state of an agent.
#[derive(Clone, Copy, Debug, PartialEq, Eq, Structural)]
pub enum AgentStatus {
    Idle,
    Queued,
    Running,
    Parked,
}

impl AgentStatus {
    /// The variant's own name.
    pub open spec fn variant(self) -> Seq<char> {
        match self {
            AgentStatus::Idle => "Idle"@,
            AgentStatus::Queued => "Queued"@,
            AgentStatus::Running => "Running"@,
            AgentStatus::Parked => "Parked"@,
        }
    }

    /// The variant's own name.
    pub fn variant_name(self) -> (r: &'static str)
        ensures
            r@ == self.variant(),
    {
        match self {
            AgentStatus::Idle => "Idle",
            AgentStatus::Queued => "Queued",
            AgentStatus::Running => "Running",
            AgentStatus::Parked => "Parked",
        }
    }
}

impl JobStatus {
    /// The variant's own name.
    pub open spec fn variant(self) -> Seq<char> {
        match self {
            JobStatus::Queued => "Queued"@,
            JobStatus::Running => "Running"@,
            JobStatus::Completed => "Completed"@,
            JobStatus::Failed => "Failed"@,
            JobStatus::Cancelled => "Cancelled"@,
        }
    }

    /// The variant's own name.
    pub fn variant_name(self) -> (r: &'static str)
        ensures
            r@ == self.variant(),
    {
        match self {
            JobStatus::Queued => "Queued",
            JobStatus::Running => "Running",
            JobStatus::Completed => "Completed",
            JobStatus::Failed => "Failed",
            JobStatus::Cancelled => "Cancelled",
        }
    }
}

/// One delegated job, with the workflow that owns it.
#[derive(Debug, PartialEq, Eq)]
pub struct WorkflowJobSnapshot {
    pub id: String,
    pub agent_id: String,
    pub agent: String,
    pub description: Option<String>,
    /// The Todo task that the workflow ownership record names.
    pub owned_task_id: Option<String>,
    /// The Todo task that the job itself names.
    pub todo_task_id: Option<String>,
    pub workflow_id: Option<String>,
    pub workflow_generation: Option<u64>,
    pub status: JobStatus,
    pub created_at: u64,
    pub started_at: Option<u64>,
    pub finished_at: Option<u64>,
    pub soft_budget_exhausted: bool,
}

impl Clone for WorkflowJobSnapshot {
    fn clone(&self) -> (r: Self)
        ensures
            r == *self,
    {
        WorkflowJobSnapshot {
            id: self.id.clone(),
            agent_id: self.agent_id.clone(),
            agent: self.agent.clone(),
            description: clone_opt_text(&self.description),
            owned_task_id: clone_opt_text(&self.owned_task_id),
            todo_task_id: clone_opt_text(&self.todo_task_id),
            workflow_id: clone_opt_text(&self.workflow_id),
            workflow_generation: self.workflow_generation,
            status: self.status,
            created_at: self.created_at,
            started_at: self.started_at,
            finished_at: self.finished_at,
            soft_budget_exhausted: self.soft_budget_exhausted,
        }
    }
}

/// One message delivered between agents.
#[derive(Debug, PartialEq, Eq)]
pub struct MailboxMessage {
    pub id: String,
    pub from: String,
    pub to: String,
    pub body: String,
    pub timestamp: u64,
    pub reply_to: Option<String>,
}

impl Clone for MailboxMessage {
    fn clone(&self) -> (r: Self)
        ensures
            r == *self,
    {
        MailboxMessage {
            id: self.id.clone(),
            from: self.from.clone(),
            to: self.to.clone(),
            body: self.body.clone(),
            timestamp: self.timestamp,
            reply_to: clone_opt_text(&self.reply_to),
        }
    }
}

/// A copy of a list of jobs.
pub fn clone_jobs(v: &Vec<WorkflowJobSnapshot>) -> (r: Vec<WorkflowJobSnapshot>)
    ensures
        r@ == v@,
{
    let mut r: Vec<WorkflowJobSnapshot> = Vec::new();
    let mut i: usize = 0;
    while i < v.len()
        invariant
            i <= v@.len(),
            r@ == v@.take(i as int),
        decreases v@.len() - i,
    {
        r.push(v[i].clone());
        assert(v@.take(i as int).push(v@[i as int]) =~= v@.take(i + 1));
        i += 1;
    }
    assert(v@.take(v@.len() as int) =~= v@);
    r
}

/// A copy of a list of messages.
pub fn clone_messages(v: &Vec<MailboxMessage>) -> (r: Vec<MailboxMessage>)
    ensures
        r@ == v@,
{
    let mut r: Vec<MailboxMessage> = Vec::new();
    let mut i: usize = 0;
    while i < v.len()
        invariant
            i <= v@.len(),
            r@ == v@.take(i as int),
        decreases v@.len() - i,
    {
        r.push(v[i].clone());
        assert(v@.take(i as int).push(v@[i as int]) =~= v@.take(i + 1));
        i += 1;
    }
    assert(v@.take(v@.len() as int) =~= v@);
    r
}

/// One agent of a workflow.
#[derive(Debug, PartialEq, Eq)]
pub struct AgentSnapshot {
    pub id: String,
    pub display_name: String,
    pub status: AgentStatus,
}

/// The model of an agent.
#[verifier::ext_equal]
pub struct AgentModel {
    pub id: Seq<char>,
    pub display_name: Seq<char>,
    pub status: AgentStatus,
}

impl View for AgentSnapshot {
    type V = AgentModel;

    open spec fn view(&self) -> AgentModel {
        AgentModel { id: self.id@, display_name: self.display_name@, status: self.status }
    }
}

/// The model of a job.
#[verifier::ext_equal]
pub struct JobModel {
    pub id: Seq<char>,
    pub agent_id: Seq<char>,
    pub agent: Seq<char>,
    pub description: Option<Seq<char>>,
    pub owned_task_id: Option<Seq<char>>,
    pub todo_task_id: Option<Seq<char>>,
    pub workflow_id: Option<Seq<char>>,
    pub workflow_generation: Option<u64>,
    pub status: JobStatus,
    pub created_at: u64,
    pub started_at: Option<u64>,
    pub finished_at: Option<u64>,
    pub soft_budget_exhausted: bool,
}

impl View for WorkflowJobSnapshot {
    type V = JobModel;

    open spec fn view(&self) -> JobModel {
        JobModel {
            id: self.id@,
            agent_id: self.agent_id@,
            agent: self.agent@,
            description: text::opt_text(self.description),
            owned_task_id: text::opt_text(self.owned_task_id),
            todo_task_id: text::opt_text(self.todo_task_id),
            workflow_id: text::opt_text(self.workflow_id),
            workflow_generation: self.workflow_generation,
            status: self.status,
            created_at: self.created_at,
            started_at: self.started_at,
            finished_at: self.finished_at,
            soft_budget_exhausted: self.soft_budget_exhausted,
        }
    }
}

/// Earlier jobs rank first, then jobs with smaller ids.
pub open spec fn job_before(a: JobModel, b: JobModel) -> bool {
    a.created_at < b.created_at || (a.created_at == b.created_at && sort::text_before(a.id, b.id))
}

impl Rank for JobModel {
    open spec fn before(self, other: Self) -> bool {
        job_before(self, other)
    }

    proof fn weak_order(a: Self, b: Self, c: Self) {
        sort::lemma_text_order(a.id, b.id, c.id);
    }
}

impl Rank for WorkflowJobSnapshot {
    open spec fn before(self, other: Self) -> bool {
        job_before(self@, other@)
    }

    proof fn weak_order(a: Self, b: Self, c: Self) {
        sort::lemma_text_order(a.id@, b.id@, c.id@);
    }
}

impl Ranked for WorkflowJobSnapshot {
    fn is_before(&self, other: &Self) -> (r: bool) {
        self.created_at < other.created_at || (self.created_at == other.created_at
            && text_is_before(self.id.as_str(), other.id.as_str()))
    }
}

/// The model of a message.
#[verifier::ext_equal]
pub struct MessageModel {
    pub id: Seq<char>,
    pub from: Seq<char>,
    pub to: Seq<char>,
    pub body: Seq<char>,
    pub timestamp: u64,
    pub reply_to: Option<Seq<char>>,
}

impl View for MailboxMessage {
    type V = MessageModel;

    open spec fn view(&self) -> MessageModel {
        MessageModel {
            id: self.id@,
            from: self.from@,
            to: self.to@,
            body: self.body@,
            timestamp: self.timestamp,
            reply_to: text::opt_text(self.reply_to),
        }
    }
}

/// Earlier messages rank first, then messages with smaller ids.
pub open spec fn message_before(a: MessageModel, b: MessageModel) -> bool {
    a.timestamp < b.timestamp || (a.timestamp == b.timestamp && sort::text_before(a.id, b.id))
}

impl Rank for MessageModel {
    open spec fn before(self, other: Self) -> bool {
        message_before(self, other)
    }

    proof fn weak_order(a: Self, b: Self, c: Self) {
        sort::lemma_text_order(a.id, b.id, c.id);
    }
}

impl Rank for MailboxMessage {
    open spec fn before(self, other: Self) -> bool {
        message_before(self@, other@)
    }

    proof fn weak_order(a: Self, b: Self, c: Self) {
        sort::lemma_text_order(a.id@, b.id@, c.id@);
    }
}

impl Ranked for MailboxMessage {
    fn is_before(&self, other: &Self) -> (r: bool) {
        self.timestamp < other.timestamp || (self.timestamp == other.timestamp && text_is_before(
            self.id.as_str(),
            other.id.as_str(),
        ))
    }
}

} // verus!
