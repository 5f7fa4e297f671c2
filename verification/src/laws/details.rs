//! What the detail view of a workflow promises.

use crate::sort;
use crate::text;
use crate::workflow::detail;
use crate::workflow::detail::{
    AgentActivityModel, AgentDetailModel, DetailModel, IrcModel, JobDetailModel,
    WorkflowAgentActivityKind,
};
use crate::workflow::records::SnapshotModel;
use crate::workflow::supervisor::ProjectionModel;
use crate::workflow::todo::{
    AgentModel, AgentStatus, JobModel, JobStatus, MessageModel, PhaseModel, TaskModel,
};
use crate::workflow::WorkflowStatus;
use vstd::prelude::*;
use vstd::string::*;

verus! {

// ---------------------------------------------------------------------------
// Texts
// ---------------------------------------------------------------------------

/// A text that fits is shown whole; of a longer one, as much as fits with the
/// mark that it goes on.
pub proof fn law_long_texts_are_cut(s: Seq<char>, max: nat)
    ensures
        s.len() <= max ==> detail::clipped(s, max) == s,
        s.len() > max && max > 0 ==> detail::clipped(s, max).len() == max && detail::clipped(
            s,
            max,
        ).take(max - 1) == s.take(max - 1) && detail::clipped(s, max).last() == '\u{2026}',
{
    if s.len() > max && max > 0 {
        assert(detail::clipped(s, max).take(max - 1) =~= s.take(max - 1));
    }
}

/// A text is shown as its redacted form with paths hidden, and one without a
/// redacted form as nothing but that.
pub proof fn law_texts_are_shown_redacted(
    redacted: Map<Seq<char>, Seq<char>>,
    s: Seq<char>,
    form: Seq<char>,
)
    ensures
        detail::shown_text(redacted.insert(s, form), s) == detail::path_hidden(form),
        !redacted.contains_key(s) ==> detail::shown_text(redacted, s) == detail::path_hidden(
            Seq::empty(),
        ),
{
}

/// What is shown of a todo list has its phases and tasks, in their order, with
/// their ids, states and dependencies; only its texts are cut: names of phases
/// at 160 characters, contents of tasks and titles of what they wait for at 600.
pub proof fn law_shown_todos_keep_their_shape(todo: Seq<PhaseModel>, i: int, j: int)
    requires
        0 <= i < todo.len(),
        0 <= j < todo[i].tasks.len(),
    ensures
        ({
            let shown = detail::clipped_todo(todo);
            let task = todo[i].tasks[j];
            &&& shown.len() == todo.len()
            &&& shown[i].name == detail::clipped(todo[i].name, 160)
            &&& shown[i].tasks.len() == todo[i].tasks.len()
            &&& shown[i].tasks[j].id == task.id
            &&& shown[i].tasks[j].status == task.status
            &&& shown[i].tasks[j].depends_on == task.depends_on
            &&& shown[i].tasks[j].content == detail::clipped(task.content, 600)
            &&& shown[i].tasks[j].blocked_by.len() == task.blocked_by.len()
            &&& forall|k: int|
                0 <= k < task.blocked_by.len() ==> #[trigger] shown[i].tasks[j].blocked_by[k]
                    == detail::clipped(task.blocked_by[k], 600)
        }),
{
}

/// Hiding replaces the texts of a todo list by what is shown of them, and
/// nothing else of it.
pub proof fn law_hidden_todos_keep_their_shape(
    redacted: Map<Seq<char>, Seq<char>>,
    todo: Seq<PhaseModel>,
    i: int,
    j: int,
)
    requires
        0 <= i < todo.len(),
        0 <= j < todo[i].tasks.len(),
    ensures
        ({
            let shown = detail::hidden_todo(redacted, todo);
            let task = todo[i].tasks[j];
            &&& shown.len() == todo.len()
            &&& shown[i].name == detail::shown_text(redacted, todo[i].name)
            &&& shown[i].tasks.len() == todo[i].tasks.len()
            &&& shown[i].tasks[j].id == task.id
            &&& shown[i].tasks[j].status == task.status
            &&& shown[i].tasks[j].depends_on == task.depends_on
            &&& shown[i].tasks[j].content == detail::shown_text(redacted, task.content)
            &&& forall|k: int|
                0 <= k < task.blocked_by.len() ==> #[trigger] shown[i].tasks[j].blocked_by[k]
                    == detail::shown_text(redacted, task.blocked_by[k])
        }),
{
}

/// Before anything is shown, every free text of records, agents, jobs and
/// messages is replaced by what is shown of it, and everything else stays. An
/// agent without a name is called an agent.
pub proof fn law_free_texts_are_hidden(
    redacted: Map<Seq<char>, Seq<char>>,
    s: SnapshotModel,
    a: AgentModel,
    j: JobModel,
    m: MessageModel,
    p: ProjectionModel,
)
    ensures
        ({
            let h = detail::hidden_snapshot(redacted, s);
            &&& h.name == detail::shown_text(redacted, s.name)
            &&& h.objective == detail::shown_text(redacted, s.objective)
            &&& h.todo == detail::hidden_todo(redacted, s.todo)
            &&& h.workflow_id == s.workflow_id
            &&& h.generation == s.generation
            &&& h.status == s.status
        }),
        ({
            let h = detail::hidden_agent(redacted, a);
            &&& h.id == a.id
            &&& h.status == a.status
            &&& text::blank(a.display_name) ==> h.display_name == detail::shown_text(
                redacted,
                "Agent"@,
            )
            &&& !text::blank(a.display_name) ==> h.display_name == detail::shown_text(
                redacted,
                a.display_name,
            )
        }),
        ({
            let h = detail::hidden_job(redacted, j);
            &&& h.agent == detail::shown_text(redacted, j.agent)
            &&& j.description matches Some(d) ==> h.description == Some(
                detail::shown_text(redacted, d),
            )
            &&& j.description is None ==> h.description is None
            &&& h.id == j.id
            &&& h.agent_id == j.agent_id
            &&& h.owned_task_id == j.owned_task_id
            &&& h.todo_task_id == j.todo_task_id
            &&& h.status == j.status
            &&& h.created_at == j.created_at
            &&& h.started_at == j.started_at
            &&& h.finished_at == j.finished_at
        }),
        ({
            let h = detail::hidden_message(redacted, m);
            &&& h.body == detail::shown_text(redacted, m.body)
            &&& h.id == m.id
            &&& h.from == m.from
            &&& h.to == m.to
            &&& h.timestamp == m.timestamp
        }),
        ({
            let h = detail::hidden_projection(redacted, p);
            &&& h.todo == detail::hidden_todo(redacted, p.todo)
            &&& h.status == p.status
            &&& h.supervisor_agent_id == p.supervisor_agent_id
            &&& h.activity == p.activity
            &&& h.planning_started_at_ms == p.planning_started_at_ms
        }),
{
}

// ---------------------------------------------------------------------------
// Who and what
// ---------------------------------------------------------------------------

/// An actor is called by the name of the last agent with its id, cut at 160
/// characters; the supervisor without one is the supervisor, anyone else an
/// agent.
pub proof fn law_actors_are_called_by_name(
    front: Seq<AgentModel>,
    agent: AgentModel,
    back: Seq<AgentModel>,
    supervisor_id: Seq<char>,
)
    requires
        forall|i: int| 0 <= i < back.len() ==> (#[trigger] back[i]).id != agent.id,
    ensures
        detail::actor_name(front.push(agent) + back, supervisor_id, agent.id) == detail::clipped(
            agent.display_name,
            160,
        ),
        detail::actor_name(back, agent.id, agent.id) == "Supervisor"@,
        supervisor_id != agent.id ==> detail::actor_name(back, supervisor_id, agent.id)
            == "Agent"@,
    decreases back.len(),
{
    let all = front.push(agent) + back;
    if back.len() > 0 {
        let shorter = back.drop_last();
        assert forall|i: int| 0 <= i < shorter.len() implies (#[trigger] shorter[i]).id
            != agent.id by {
            assert(shorter[i] == back[i]);
        }
        law_actors_are_called_by_name(front, agent, shorter, supervisor_id);
        assert(all.drop_last() =~= front.push(agent) + shorter);
        assert(all.last() == back[back.len() - 1]);
        assert(back.last() == back[back.len() - 1]);
        assert(detail::agent_name(shorter, agent.id) is None) by {
            lemma_unnamed(shorter, agent.id);
        }
    } else {
        assert(all =~= front.push(agent));
        assert(all.last() == agent);
    }
    lemma_unnamed(back, agent.id);
}

proof fn lemma_unnamed(agents: Seq<AgentModel>, id: Seq<char>)
    requires
        forall|i: int| 0 <= i < agents.len() ==> (#[trigger] agents[i]).id != id,
    ensures
        detail::agent_name(agents, id) is None,
    decreases agents.len(),
{
    if agents.len() > 0 {
        assert(agents.last() == agents[agents.len() - 1]);
        let shorter = agents.drop_last();
        assert forall|i: int| 0 <= i < shorter.len() implies (#[trigger] shorter[i]).id != id by {
            assert(shorter[i] == agents[i]);
        }
        lemma_unnamed(shorter, id);
    }
}

/// The task of a job is the one that the workflow says it owns, and where it
/// says none, the one that the job names.
pub proof fn law_owned_tasks_come_first(job: JobModel)
    ensures
        job.owned_task_id is Some ==> detail::job_task(job) == job.owned_task_id,
        job.owned_task_id is None ==> detail::job_task(job) == job.todo_task_id,
{
}

/// The job behind the summary of an agent is its latest one with a description;
/// the task shown is that of this job, without such a job that of the latest job
/// with a task, unless something else stands for the summary.
pub proof fn law_summaries_are_of_the_latest_job(
    front: Seq<JobModel>,
    job: JobModel,
    back: Seq<JobModel>,
    has_fallback: bool,
)
    requires
        job.description is Some,
        forall|i: int|
            0 <= i < back.len() ==> (#[trigger] back[i]).agent_id != job.agent_id
                || back[i].description is None,
    ensures
        detail::summary_job(front.push(job) + back, job.agent_id) == Some(job),
        detail::shown_task(front.push(job) + back, job.agent_id, has_fallback) == detail::job_task(
            job,
        ),
        detail::summary_job(back, job.agent_id) is None,
        detail::shown_task(back, job.agent_id, true) is None,
        detail::shown_task(back, job.agent_id, false) == detail::latest_task(back, job.agent_id),
    decreases back.len(),
{
    let all = front.push(job) + back;
    if back.len() > 0 {
        let shorter = back.drop_last();
        assert forall|i: int| 0 <= i < shorter.len() implies (#[trigger] shorter[i]).agent_id
            != job.agent_id || shorter[i].description is None by {
            assert(shorter[i] == back[i]);
        }
        law_summaries_are_of_the_latest_job(front, job, shorter, has_fallback);
        assert(all.drop_last() =~= front.push(job) + shorter);
        assert(all.last() == back[back.len() - 1]);
        assert(back.last() == back[back.len() - 1]);
    } else {
        assert(all =~= front.push(job));
        assert(all.last() == job);
    }
}

/// The latest task of an agent is that of its latest job that has one.
pub proof fn law_latest_tasks_are_of_the_latest_job(
    front: Seq<JobModel>,
    job: JobModel,
    back: Seq<JobModel>,
)
    requires
        detail::job_task(job) is Some,
        forall|i: int|
            0 <= i < back.len() ==> (#[trigger] back[i]).agent_id != job.agent_id
                || detail::job_task(back[i]) is None,
    ensures
        detail::latest_task(front.push(job) + back, job.agent_id) == detail::job_task(job),
        detail::latest_task(back, job.agent_id) is None,
    decreases back.len(),
{
    let all = front.push(job) + back;
    if back.len() > 0 {
        let shorter = back.drop_last();
        assert forall|i: int| 0 <= i < shorter.len() implies (#[trigger] shorter[i]).agent_id
            != job.agent_id || detail::job_task(shorter[i]) is None by {
            assert(shorter[i] == back[i]);
        }
        law_latest_tasks_are_of_the_latest_job(front, job, shorter);
        assert(all.drop_last() =~= front.push(job) + shorter);
        assert(all.last() == back[back.len() - 1]);
        assert(back.last() == back[back.len() - 1]);
    } else {
        assert(all =~= front.push(job));
        assert(all.last() == job);
    }
}

// ---------------------------------------------------------------------------
// Feeds
// ---------------------------------------------------------------------------

/// A job shows in a feed at the latest time known of it, with what it is about,
/// or how it stands where it does not say.
pub proof fn law_jobs_show_when_and_what(job: JobModel)
    ensures
        ({
            let entry = detail::job_entry(job);
            &&& entry.kind == WorkflowAgentActivityKind::Task
            &&& job.finished_at matches Some(at) ==> entry.at_ms == at
            &&& job.finished_at is None ==> (job.started_at matches Some(at) ==> entry.at_ms == at)
            &&& job.finished_at is None && job.started_at is None ==> entry.at_ms == job.created_at
            &&& job.description matches Some(d) ==> entry.text == detail::clipped(d, 240)
            &&& job.description is None ==> entry.text == (match job.status {
                JobStatus::Queued => "task queued"@,
                JobStatus::Running => "task running"@,
                JobStatus::Completed => "task completed"@,
                JobStatus::Failed => "task failed"@,
                JobStatus::Cancelled => "task cancelled"@,
            })
        }),
{
}

/// The jobs of a feed are those of its agent, in their order.
pub proof fn law_feeds_hold_the_jobs_of_the_agent(jobs: Seq<JobModel>, agent_id: Seq<char>)
    ensures
        detail::job_entries(jobs, agent_id) == jobs.filter(
            |j: JobModel| j.agent_id == agent_id,
        ).map_values(|j: JobModel| detail::job_entry(j)),
    decreases jobs.len(),
{
    broadcast use Seq::lemma_filter_push;

    let p = |j: JobModel| j.agent_id == agent_id;
    let f = |j: JobModel| detail::job_entry(j);
    if jobs.len() > 0 {
        law_feeds_hold_the_jobs_of_the_agent(jobs.drop_last(), agent_id);
        assert(jobs =~= jobs.drop_last().push(jobs.last()));
        assert(detail::job_entries(jobs, agent_id) =~= jobs.filter(p).map_values(f));
    } else {
        reveal(Seq::filter);
        assert(detail::job_entries(jobs, agent_id) =~= jobs.filter(p).map_values(f));
    }
}

/// A message that an agent sent shows whom it went to, one that it got shows
/// whom it came from, each with its body and time.
pub proof fn law_messages_show_the_other_side(
    m: MessageModel,
    agent_id: Seq<char>,
    agents: Seq<AgentModel>,
    supervisor_id: Seq<char>,
)
    ensures
        ({
            let entry = detail::message_entry(m, agent_id, agents, supervisor_id);
            &&& entry.kind == WorkflowAgentActivityKind::Irc
            &&& entry.at_ms == m.timestamp
            &&& m.from == agent_id ==> entry.text == "\u{2192} "@ + detail::actor_name(
                agents,
                supervisor_id,
                m.to,
            ) + ": "@ + detail::clipped(m.body, 240)
            &&& m.from != agent_id ==> entry.text == detail::actor_name(
                agents,
                supervisor_id,
                m.from,
            ) + ": "@ + detail::clipped(m.body, 240)
        }),
{
}

/// A message is in the feed of an agent if and only if the agent sent or got it
/// and no earlier message has its id; what came before stays in front.
pub proof fn law_feeds_hold_the_messages_of_the_agent(
    irc: Seq<MessageModel>,
    n: nat,
    agent_id: Seq<char>,
    agents: Seq<AgentModel>,
    supervisor_id: Seq<char>,
)
    requires
        n < irc.len(),
    ensures
        ({
            let before = detail::message_entries(irc, n, agent_id, agents, supervisor_id);
            let after = detail::message_entries(irc, n + 1, agent_id, agents, supervisor_id);
            let m = irc[n as int];
            let first = forall|k: int| 0 <= k < n ==> (#[trigger] irc[k]).id != m.id;
            &&& first && (m.from == agent_id || m.to == agent_id) ==> after == before.push(
                detail::message_entry(m, agent_id, agents, supervisor_id),
            )
            &&& !(first && (m.from == agent_id || m.to == agent_id)) ==> after == before
            &&& detail::message_entries(irc, 0, agent_id, agents, supervisor_id).len() == 0
        }),
{
}

/// Of messages with one id the first is kept, and every id that occurs stays.
pub proof fn law_first_messages_are_kept(irc: Seq<MessageModel>, n: nat)
    requires
        n < irc.len(),
    ensures
        ({
            let before = detail::distinct_messages(irc, n);
            let after = detail::distinct_messages(irc, n + 1);
            let first = forall|k: int| 0 <= k < n ==> (#[trigger] irc[k]).id != irc[n as int].id;
            &&& first ==> after == before.push(irc[n as int])
            &&& !first ==> after == before
            &&& detail::distinct_messages(irc, 0).len() == 0
        }),
{
}

/// The last so many of a list are its end, all of it where it is no longer.
pub proof fn law_the_latest_are_the_end<T>(s: Seq<T>, n: nat)
    ensures
        detail::last_of(s, n).is_suffix_of(s),
        s.len() <= n ==> detail::last_of(s, n) == s,
        s.len() > n ==> detail::last_of(s, n).len() == n,
{
}

/// A feed is the latest twelve of the jobs and messages of its agent, the newest
/// last.
pub proof fn law_feeds_hold_the_latest(
    agent_id: Seq<char>,
    jobs: Seq<JobModel>,
    irc: Seq<MessageModel>,
    agents: Seq<AgentModel>,
    supervisor_id: Seq<char>,
)
    ensures
        ({
            let feed = detail::agent_feed(agent_id, jobs, irc, agents, supervisor_id);
            let all = detail::job_entries(jobs, agent_id) + detail::message_entries(
                irc,
                irc.len(),
                agent_id,
                agents,
                supervisor_id,
            );
            &&& feed.len() == (if all.len() < 12 {
                all.len()
            } else {
                12
            })
            &&& all.len() <= 12 ==> feed.to_multiset() == all.to_multiset()
            &&& exists|ordered: Seq<AgentActivityModel>| #[trigger]
                ordered.to_multiset() == all.to_multiset() && feed.is_suffix_of(ordered)
                    && forall|i: int, j: int|
                    0 <= i < j < ordered.len() ==> (#[trigger] ordered[i]).at_ms <= (
                    #[trigger] ordered[j]).at_ms
        }),
{
    let all = detail::job_entries(jobs, agent_id) + detail::message_entries(
        irc,
        irc.len(),
        agent_id,
        agents,
        supervisor_id,
    );
    sort::lemma_stable_sorted(all);
    let ordered = sort::stable_sorted(all);
    assert(ordered.to_multiset() == all.to_multiset());
    assert forall|i: int, j: int| 0 <= i < j < ordered.len() implies (#[trigger] ordered[i]).at_ms
        <= (#[trigger] ordered[j]).at_ms by {
        assert(!sort::Rank::before(ordered[j], ordered[i]));
    }
}

// ---------------------------------------------------------------------------
// Rows
// ---------------------------------------------------------------------------

/// A message is shown with both names, its body and its time.
pub proof fn law_messages_are_shown(
    m: MessageModel,
    agents: Seq<AgentModel>,
    supervisor_id: Seq<char>,
)
    ensures
        ({
            let shown = detail::shown_message(m, agents, supervisor_id);
            &&& shown.from == detail::actor_name(agents, supervisor_id, m.from)
            &&& shown.to == detail::actor_name(agents, supervisor_id, m.to)
            &&& shown.body == detail::clipped(m.body, 600)
            &&& shown.timestamp_ms == m.timestamp
        }),
{
}

/// The messages shown are the latest fifty distinct ones, in the order of their
/// time.
pub proof fn law_the_latest_messages_are_shown(
    irc: Seq<MessageModel>,
    agents: Seq<AgentModel>,
    supervisor_id: Seq<char>,
)
    ensures
        ({
            let ordered = sort::stable_sorted(irc);
            let distinct = detail::distinct_messages(ordered, ordered.len());
            let shown = detail::recent_messages(irc, agents, supervisor_id);
            let skipped = if distinct.len() > 50 {
                distinct.len() - 50
            } else {
                0
            };
            &&& shown.len() == distinct.len() - skipped
            &&& forall|i: int|
                0 <= i < shown.len() ==> #[trigger] shown[i] == detail::shown_message(
                    distinct[skipped + i],
                    agents,
                    supervisor_id,
                )
        }),
{
}

/// A row of an agent has its name, its status, the description of its latest job
/// that has one as its summary, the task that belongs to it, and its own feed.
pub proof fn law_rows_are_of_their_agent(
    agent: AgentModel,
    status: AgentStatus,
    fallback_name: Seq<char>,
    fallback_summary: Option<Seq<char>>,
    agents: Seq<AgentModel>,
    jobs: Seq<JobModel>,
    irc: Seq<MessageModel>,
    supervisor_id: Seq<char>,
)
    ensures
        ({
            let row = detail::agent_row(
                agent,
                status,
                fallback_name,
                fallback_summary,
                agents,
                jobs,
                irc,
                supervisor_id,
            );
            &&& row.status == status
            &&& detail::agent_name(agents, agent.id) matches Some(name) ==> row.display_name == name
            &&& detail::agent_name(agents, agent.id) is None ==> row.display_name == fallback_name
            &&& detail::summary_job(jobs, agent.id) matches Some(job) ==> row.task_summary == Some(
                detail::clipped(job.description->0, 240),
            )
            &&& detail::summary_job(jobs, agent.id) is None ==> row.task_summary
                == fallback_summary
            &&& row.todo_task_id == detail::shown_task(jobs, agent.id, fallback_summary is Some)
            &&& row.activity == detail::agent_feed(agent.id, jobs, irc, agents, supervisor_id)
        }),
{
}

/// The supervisor shows its own status; where it idles while its workflow plans
/// or waits, it shows as running or queued.
pub proof fn law_supervisors_show_as_busy(workflow: WorkflowStatus, agent: AgentStatus)
    ensures
        ({
            let shown = detail::supervisor_status(workflow, agent);
            &&& agent != AgentStatus::Idle ==> shown == agent
            &&& agent == AgentStatus::Idle && workflow == WorkflowStatus::Planning ==> shown
                == AgentStatus::Running
            &&& agent == AgentStatus::Idle && workflow == WorkflowStatus::Queued ==> shown
                == AgentStatus::Queued
            &&& agent == AgentStatus::Idle && workflow != WorkflowStatus::Planning && workflow
                != WorkflowStatus::Queued ==> shown == AgentStatus::Idle
        }),
{
}

/// The supervisor is the first agent with its id.
pub proof fn law_the_supervisor_is_found(
    front: Seq<AgentModel>,
    agent: AgentModel,
    back: Seq<AgentModel>,
)
    requires
        forall|i: int| 0 <= i < front.len() ==> (#[trigger] front[i]).id != agent.id,
    ensures
        detail::first_agent(front.push(agent) + back, agent.id) == Some(agent),
        detail::first_agent(front, agent.id) is None,
    decreases front.len() + back.len(),
{
    let all = front.push(agent) + back;
    if front.len() > 0 {
        let shorter = front.drop_last();
        assert forall|i: int| 0 <= i < shorter.len() implies (#[trigger] shorter[i]).id
            != agent.id by {
            assert(shorter[i] == front[i]);
        }
        law_the_supervisor_is_found(shorter, agent, Seq::empty());
        assert(front.last() == front[front.len() - 1]);
    }
    if back.len() > 0 {
        law_the_supervisor_is_found(front, agent, back.drop_last());
        assert(all.drop_last() =~= front.push(agent) + back.drop_last());
    } else {
        assert(all =~= front.push(agent));
        assert(all.drop_last() =~= front);
        assert(all.last() == agent);
    }
}

/// Every agent but the supervisor has a row of its own, in order, with its own
/// status and no summary but that of its jobs.
pub proof fn law_other_agents_have_rows(
    agents: Seq<AgentModel>,
    n: nat,
    jobs: Seq<JobModel>,
    irc: Seq<MessageModel>,
    supervisor_id: Seq<char>,
)
    requires
        n < agents.len(),
    ensures
        ({
            let before = detail::subagent_rows(agents, n, jobs, irc, supervisor_id);
            let after = detail::subagent_rows(agents, n + 1, jobs, irc, supervisor_id);
            let agent = agents[n as int];
            &&& agent.id == supervisor_id ==> after == before
            &&& agent.id != supervisor_id ==> after.len() == before.len() + 1 && after.drop_last()
                == before && after.last().status == agent.status && after.last().activity
                == detail::agent_feed(agent.id, jobs, irc, agents, supervisor_id) && (
            detail::summary_job(jobs, agent.id) is None ==> after.last().task_summary is None) && (
            detail::summary_job(jobs, agent.id) matches Some(job) ==> after.last().task_summary
                == Some(detail::clipped(job.description->0, 240)))
            &&& detail::subagent_rows(agents, 0, jobs, irc, supervisor_id).len() == 0
        }),
{
    let before = detail::subagent_rows(agents, n, jobs, irc, supervisor_id);
    let after = detail::subagent_rows(agents, n + 1, jobs, irc, supervisor_id);
    if agents[n as int].id != supervisor_id {
        assert(after.drop_last() =~= before);
    }
}

/// A row of a job has who does it, how it stands, what it is about, its task and
/// its times.
pub proof fn law_job_rows_are_of_their_job(job: JobModel, agents: Seq<AgentModel>)
    ensures
        ({
            let row = detail::job_row(job, agents);
            &&& detail::agent_name(agents, job.agent_id) matches Some(name) ==> row.display_name
                == name
            &&& detail::agent_name(agents, job.agent_id) is None ==> row.display_name
                == detail::clipped(job.agent, 160)
            &&& row.status == job.status
            &&& job.description matches Some(d) ==> row.task_summary == Some(detail::clipped(d, 240))
            &&& job.description is None ==> row.task_summary is None
            &&& job.owned_task_id is Some ==> row.todo_task_id == job.owned_task_id
            &&& job.owned_task_id is None ==> row.todo_task_id == job.todo_task_id
            &&& row.created_at_ms == job.created_at
            &&& row.started_at_ms == job.started_at
            &&& row.finished_at_ms == job.finished_at
        }),
{
}

// ---------------------------------------------------------------------------
// The view
// ---------------------------------------------------------------------------

/// The live view shows the id, generation, name and objective of the record; the
/// status of the record once it has settled and the live one before; the live
/// todo; the supervisor where it is among the agents; every job in the order of
/// their age; and what the supervisor did.
pub proof fn law_live_views_show_the_workflow(
    s: SnapshotModel,
    p: ProjectionModel,
    agents: Seq<AgentModel>,
    jobs: Seq<JobModel>,
    irc: Seq<MessageModel>,
)
    ensures
        ({
            let d = detail::assembled(s, p, agents, jobs, irc);
            let settled = s.status == WorkflowStatus::Completed || s.status
                == WorkflowStatus::Failed || s.status == WorkflowStatus::Cancelled || s.status
                == WorkflowStatus::Conflicted;
            let ordered = sort::stable_sorted(jobs);
            &&& d.workflow_id == s.workflow_id
            &&& d.generation == s.generation
            &&& d.name == detail::clipped(s.name, 160)
            &&& d.objective == detail::clipped(s.objective, 600)
            &&& settled ==> d.status == s.status
            &&& !settled ==> d.status == p.status
            &&& d.todo == detail::clipped_todo(p.todo)
            &&& d.supervisor is Some <==> detail::first_agent(agents, p.supervisor_agent_id) is Some
            &&& d.subagents == detail::subagent_rows(
                agents,
                agents.len(),
                ordered,
                irc,
                p.supervisor_agent_id,
            )
            &&& d.jobs.len() == jobs.len()
            &&& forall|i: int|
                0 <= i < d.jobs.len() ==> #[trigger] d.jobs[i] == detail::job_row(
                    ordered[i],
                    agents,
                )
            &&& d.irc == detail::recent_messages(irc, agents, p.supervisor_agent_id)
            &&& d.supervisor_activity == p.activity
            &&& d.planning_started_at_ms == p.planning_started_at_ms
        }),
{
    sort::lemma_stable_sorted(jobs);
}

/// The row of the supervisor is that of the agent with its id; while the
/// workflow plans and no job says more, it says what is planned.
pub proof fn law_the_supervisor_shows_what_is_planned(
    s: SnapshotModel,
    p: ProjectionModel,
    agents: Seq<AgentModel>,
    jobs: Seq<JobModel>,
    irc: Seq<MessageModel>,
)
    requires
        detail::first_agent(agents, p.supervisor_agent_id) is Some,
    ensures
        ({
            let agent = detail::first_agent(agents, p.supervisor_agent_id)->0;
            let ordered = sort::stable_sorted(jobs);
            &&& detail::assembled(s, p, agents, jobs, irc).supervisor matches Some(row) && {
                &&& row.status == detail::supervisor_status(p.status, agent.status)
                &&& detail::summary_job(ordered, agent.id) is None && p.status
                    == WorkflowStatus::Planning ==> row.task_summary == Some(
                    "Planning: "@ + detail::clipped(s.objective, 240),
                )
                &&& detail::summary_job(ordered, agent.id) is None && p.status
                    != WorkflowStatus::Planning ==> row.task_summary is None
                &&& detail::summary_job(ordered, agent.id) matches Some(job) ==> row.task_summary
                    == Some(detail::clipped(job.description->0, 240))
                &&& row.activity == detail::agent_feed(
                    agent.id,
                    ordered,
                    irc,
                    agents,
                    p.supervisor_agent_id,
                )
            }
        }),
{
}

/// Without a runtime the view shows what the record says, and nothing live.
pub proof fn law_stored_views_show_the_record(s: SnapshotModel)
    ensures
        ({
            let d = detail::fallback(s);
            &&& d.workflow_id == s.workflow_id
            &&& d.generation == s.generation
            &&& d.name == detail::clipped(s.name, 160)
            &&& d.objective == detail::clipped(s.objective, 600)
            &&& d.status == s.status
            &&& d.todo == detail::clipped_todo(s.todo)
            &&& d.supervisor is None
            &&& d.subagents.len() == 0
            &&& d.jobs.len() == 0
            &&& d.irc.len() == 0
            &&& d.supervisor_activity.len() == 0
            &&& d.planning_started_at_ms is None
        }),
{
}

/// The live view is put together from hidden texts alone.
pub proof fn law_live_views_are_hidden(
    redacted: Map<Seq<char>, Seq<char>>,
    s: SnapshotModel,
    p: ProjectionModel,
    agents: Seq<AgentModel>,
    jobs: Seq<JobModel>,
    irc: Seq<MessageModel>,
)
    ensures
        ({
            let d = detail::live_detail(redacted, s, p, agents, jobs, irc);
            &&& d.workflow_id == s.workflow_id
            &&& d.generation == s.generation
            &&& d.name == detail::clipped(detail::shown_text(redacted, s.name), 160)
            &&& d.objective == detail::clipped(detail::shown_text(redacted, s.objective), 600)
            &&& d.todo == detail::clipped_todo(detail::hidden_todo(redacted, p.todo))
            &&& d.jobs.len() == jobs.len()
            &&& d.supervisor_activity == p.activity
            &&& d.planning_started_at_ms == p.planning_started_at_ms
        }),
{
    let hidden = jobs.map_values(|j: JobModel| detail::hidden_job(redacted, j));
    sort::lemma_stable_sorted(hidden);
}

/// The texts that a view of a record shows: its name, its objective, and of its
/// todo the names of the phases, the contents of the tasks and the titles of
/// what they wait for.
pub proof fn law_records_show_their_texts(s: SnapshotModel, i: int, j: int, k: int)
    requires
        0 <= i < s.todo.len(),
        0 <= j < s.todo[i].tasks.len(),
        0 <= k < s.todo[i].tasks[j].blocked_by.len(),
    ensures
        detail::record_shows(s, s.name),
        detail::record_shows(s, s.objective),
        detail::record_shows(s, s.todo[i].name),
        detail::record_shows(s, s.todo[i].tasks[j].content),
        detail::record_shows(s, s.todo[i].tasks[j].blocked_by[k]),
{
    let task = s.todo[i].tasks[j];
    lemma_among(task.blocked_by, task.blocked_by.len(), k);
    lemma_tasks_show(s.todo[i].tasks, s.todo[i].tasks.len(), j, task.content);
    lemma_tasks_show(s.todo[i].tasks, s.todo[i].tasks.len(), j, task.blocked_by[k]);
    lemma_phases_show(s.todo, s.todo.len(), i, s.todo[i].name);
    lemma_phases_show(s.todo, s.todo.len(), i, task.content);
    lemma_phases_show(s.todo, s.todo.len(), i, task.blocked_by[k]);
}

proof fn lemma_among(v: Seq<Seq<char>>, n: nat, k: int)
    requires
        0 <= k < n <= v.len(),
    ensures
        detail::among(v, n, v[k]),
    decreases n,
{
    if k < n - 1 {
        lemma_among(v, (n - 1) as nat, k);
    }
}

proof fn lemma_tasks_show(tasks: Seq<TaskModel>, n: nat, j: int, s: Seq<char>)
    requires
        0 <= j < n <= tasks.len(),
        tasks[j].content == s || detail::among(tasks[j].blocked_by, tasks[j].blocked_by.len(), s),
    ensures
        detail::tasks_show(tasks, n, s),
    decreases n,
{
    if j < n - 1 {
        lemma_tasks_show(tasks, (n - 1) as nat, j, s);
    }
}

proof fn lemma_phases_show(todo: Seq<PhaseModel>, n: nat, i: int, s: Seq<char>)
    requires
        0 <= i < n <= todo.len(),
        todo[i].name == s || detail::tasks_show(todo[i].tasks, todo[i].tasks.len(), s),
    ensures
        detail::phases_show(todo, n, s),
    decreases n,
{
    if i < n - 1 {
        lemma_phases_show(todo, (n - 1) as nat, i, s);
    }
}

} // verus!
