//! What stored records, and what is shown of them, promise.

use crate::sort;
use crate::text;
use crate::workflow::records;
use crate::workflow::records::{EventModel, IntegrationModel, SnapshotModel};
use crate::workflow::store;
use crate::workflow::store::{
    ComponentKind, DiagnosticModel, EntryKind, PlanModel, RecordEntry, SelectionModel,
    SelectionProbe, StoreDiagnosticKind, StoreError,
};
use crate::workflow::todo;
use crate::workflow::todo::{
    AgentStatus, JobModel, JobStatus, MessageModel, PhaseModel, TaskModel, TodoStatus,
};
use crate::workflow::{WorkflowId, WorkflowStatus};
use vstd::prelude::*;
use vstd::string::*;

verus! {

// ---------------------------------------------------------------------------
// Names
// ---------------------------------------------------------------------------

/// Whether a character may stand in a workflow id.
pub open spec fn plain_char(c: char) -> bool {
    c == '-' || c == '_' || c == '.' || ('0' <= c && c <= '9') || ('A' <= c && c <= 'Z') || ('a'
        <= c && c <= 'z')
}

/// A workflow id is safe to store if and only if it has at most 128 characters,
/// starts with a letter or digit, holds letters, digits, hyphens, underscores
/// and dots alone, and neither two dots in a row, nor a dot or `.lock` at its
/// end.
pub proof fn law_ids_are_safe_names(s: Seq<char>)
    ensures
        store::valid_id(s) <==> {
            &&& 1 <= s.len() <= 128
            &&& s[0] != '-' && s[0] != '_' && s[0] != '.'
            &&& forall|i: int| 0 <= i < s.len() ==> plain_char(#[trigger] s[i])
            &&& forall|i: int| 0 <= i < s.len() - 1 ==> !(#[trigger] s[i] == '.' && s[i + 1] == '.')
            &&& s.last() != '.'
            &&& !".lock"@.is_suffix_of(s)
        },
{
    reveal_strlit("..");
    reveal_strlit(".");
    if s.len() > 0 {
        assert(s.subrange(s.len() - 1, s.len() as int) =~= seq![s.last()]);
        assert("."@ =~= seq!['.']);
        assert("."@.is_suffix_of(s) <==> s.last() == '.') by {
            assert(seq![s.last()][0] == s.last());
            assert("."@[0] == '.');
        }
    }
    text::lemma_first_at(s, ".."@, 0);
    assert(".."@ =~= seq!['.', '.']);
    if store::valid_id(s) {
        assert forall|i: int| 0 <= i < s.len() - 1 implies !(#[trigger] s[i] == '.' && s[i + 1]
            == '.') by {
            if s[i] == '.' && s[i + 1] == '.' {
                assert(s.subrange(i, i + 2) =~= ".."@);
                assert(text::occurs_at(s, ".."@, i));
            }
        }
        assert(store::id_char(s[0]));
        assert forall|i: int| 0 <= i < s.len() implies plain_char(#[trigger] s[i]) by {
            assert(store::id_char(s[i]));
        }
    }
    if 1 <= s.len() <= 128 && s[0] != '-' && s[0] != '_' && s[0] != '.' && (forall|i: int|
        0 <= i < s.len() ==> plain_char(#[trigger] s[i])) && (forall|i: int|
        0 <= i < s.len() - 1 ==> !(#[trigger] s[i] == '.' && s[i + 1] == '.')) && s.last() != '.'
        && !".lock"@.is_suffix_of(s) {
        assert(plain_char(s[0]));
        assert forall|i: int| 0 <= i < s.len() implies store::id_char(#[trigger] s[i]) by {
            assert(plain_char(s[i]));
        }
        if text::holds(s, ".."@) {
            let at = choose|at: int| text::occurs_at(s, ".."@, at);
            assert(s.subrange(at, at + 2)[0] == s[at] && s.subrange(at, at + 2)[1] == s[at + 1]);
            assert(".."@[0] == '.' && ".."@[1] == '.');
            assert(s[at] == '.');
        }
    }
}

/// A file holds the record of a workflow if and only if its name is the safe id
/// of the workflow with `.json` behind it.
pub proof fn law_files_are_named_by_id(name: Seq<char>, id: Seq<char>)
    ensures
        store::id_of_file(name) == Some(id) <==> store::valid_id(id) && name == id + ".json"@,
{
    let k = name.len() - ".json"@.len();
    if store::id_of_file(name) == Some(id) {
        assert(name =~= id + ".json"@) by {
            assert(".json"@ == name.subrange(k, name.len() as int));
            assert(name.take(k) == id);
        }
    }
    if store::valid_id(id) && name == id + ".json"@ {
        assert(name.take(k) =~= id);
        assert(name.subrange(k, name.len() as int) =~= ".json"@);
    }
}

/// Temporary files of the store are those that begin and end as it names them.
pub proof fn law_temporary_files_are_named(name: Seq<char>)
    ensures
        store::temporary_name(name) <==> ".workflow-"@.is_prefix_of(name)
            && ".tmp"@.is_suffix_of(name),
        store::record_name(name) == name + ".json"@,
{
}

/// A path is joined with one separator between base and segment, whether the
/// base ends in one or not; an empty base gives the segment.
pub proof fn law_paths_are_joined_by_one_separator(base: Seq<char>, segment: Seq<char>)
    ensures
        store::joined(Seq::empty(), segment) == segment,
        base.len() > 0 && base.last() != '/' ==> store::joined(base, segment) == base + seq!['/']
            + segment,
        base.len() > 0 && base.last() == '/' ==> store::joined(base, segment) == base + segment,
{
    if base.len() > 0 && base.last() != '/' {
        assert(store::joined(base, segment) =~= base + seq!['/'] + segment);
    }
}

// ---------------------------------------------------------------------------
// Loading
// ---------------------------------------------------------------------------

/// An entry is read if and only if it is a regular file with the name of a
/// record, of at most one mebibyte, and all that was read stays within eight.
pub proof fn law_entries_are_read_within_the_limits(entry: RecordEntry, used: nat)
    ensures
        store::entry_plan(entry, used) is Read <==> {
            &&& entry.name matches Some(name) && !store::temporary_name(name@)
                && store::id_of_file(name@) is Some
            &&& entry.kind is File
            &&& entry.length matches Ok(length) && length <= 1_048_576 && used + length
                <= 8_388_608
        },
        store::entry_plan(entry, used) matches PlanModel::Read(id) ==> entry.name is Some
            && store::id_of_file(entry.name->0@) == Some(id),
        store::entry_plan(entry, used) is Skip <==> (entry.name matches Some(name) && (
        store::temporary_name(name@) || !".json"@.is_suffix_of(name@))),
{
}

/// An entry that is ignored is reported with its id, where its name gives one,
/// and with the kind of what is wrong: a bad name, what is no regular file, what
/// is too large, and what cannot be inspected.
pub proof fn law_ignored_entries_are_reported(entry: RecordEntry, used: nat)
    ensures
        store::entry_plan(entry, used) matches PlanModel::Report(d) ==> {
            let id = match entry.name {
                Some(name) => store::id_of_file(name@),
                None => None,
            };
            &&& d.record_id == id
            &&& d.kind == StoreDiagnosticKind::InvalidRecordName <==> id is None
            &&& id is Some ==> {
                &&& d.kind == StoreDiagnosticKind::UnsafeRecord <==> entry.kind is Symlink
                    || entry.kind is Other
                &&& d.kind == StoreDiagnosticKind::RecordLimitExceeded <==> entry.kind is File
                    && entry.length is Ok
                &&& d.kind == StoreDiagnosticKind::CorruptRecord <==> entry.kind is Unreadable || (
                entry.kind is File && entry.length is Err)
            }
        },
{
}

/// The bytes read so far are the sizes of the entries that are read, and every
/// entry is judged by what was read before it.
pub proof fn law_read_bytes_add_up(entries: Seq<RecordEntry>, entry: RecordEntry)
    ensures
        ({
            let used = store::read_bytes(entries);
            let plan = store::entry_plan(entry, used);
            &&& store::load_plan(entries.push(entry)) == store::load_plan(entries).push(plan)
            &&& plan is Read ==> store::read_bytes(entries.push(entry)) == used
                + entry.length->Ok_0
            &&& !(plan is Read) ==> store::read_bytes(entries.push(entry)) == used
            &&& store::read_bytes(Seq::empty()) == 0
            &&& store::load_plan(Seq::empty()).len() == 0
        }),
{
    assert(entries.push(entry).drop_last() =~= entries);
}

/// Entries are loaded in the order of the bytes of their names.
pub proof fn law_entries_are_loaded_by_name(entries: Seq<RecordEntry>)
    ensures
        ({
            let order = sort::stable_sorted(entries);
            &&& order.to_multiset() == entries.to_multiset()
            &&& forall|i: int, j: int|
                0 <= i < j < order.len() ==> !store::bytes_before(
                    (#[trigger] order[j]).raw_name@,
                    (#[trigger] order[i]).raw_name@,
                )
        }),
{
    sort::lemma_stable_sorted(entries);
    let order = sort::stable_sorted(entries);
    assert forall|i: int, j: int| 0 <= i < j < order.len() implies !store::bytes_before(
        (#[trigger] order[j]).raw_name@,
        (#[trigger] order[i]).raw_name@,
    ) by {
        assert(!sort::Rank::before(order[j], order[i]));
    }
}

/// Names are ordered by their first byte that differs, and a name before every
/// longer one that it begins.
pub proof fn law_names_are_ordered_by_byte(front: Seq<u8>, a: Seq<u8>, b: Seq<u8>)
    ensures
        a.len() > 0 && b.len() > 0 && a[0] != b[0] ==> (store::bytes_before(front + a, front + b)
            <==> a[0] < b[0]),
        b.len() > 0 ==> store::bytes_before(front, front + b),
        !store::bytes_before(front + a, front),
    decreases front.len(),
{
    if front.len() > 0 {
        law_names_are_ordered_by_byte(front.drop_first(), a, b);
        assert((front + a).drop_first() =~= front.drop_first() + a);
        assert((front + b).drop_first() =~= front.drop_first() + b);
    } else {
        assert(front + a =~= a);
        assert(front + b =~= b);
    }
}

/// A record fits if and only if it and every other record together stay within
/// eight mebibytes; the record that it replaces, temporary files and files that
/// are no records do not count.
pub proof fn law_capacity_counts_the_other_records(
    entries: Seq<RecordEntry>,
    entry: RecordEntry,
    replacing: Seq<char>,
    bytes: nat,
    length: u64,
)
    requires
        entry.name is Some,
        entry.kind is File,
        entry.length == Ok::<u64, String>(length),
    ensures
        store::capacity_verdict(Seq::empty(), replacing, bytes) == Ok::<nat, Seq<char>>(bytes),
        store::capacity_verdict(entries, replacing, bytes) matches Ok(sum) ==> {
            let after = store::capacity_verdict(entries.push(entry), replacing, bytes);
            let name = entry.name->0@;
            let other = ".json"@.is_suffix_of(name) && !store::temporary_name(name) && name
                != replacing + ".json"@;
            &&& !other ==> after == Ok::<nat, Seq<char>>(sum)
            &&& other && sum + length <= 8_388_608 ==> after == Ok::<nat, Seq<char>>(
                (sum + length) as nat,
            )
            &&& other && sum + length > 8_388_608 ==> after == Err::<nat, Seq<char>>(
                "workflow records exceed the 8 MiB aggregate limit"@,
            )
        },
        store::capacity_verdict(entries, replacing, bytes) is Err ==> store::capacity_verdict(
            entries.push(entry),
            replacing,
            bytes,
        ) == store::capacity_verdict(entries, replacing, bytes),
{
    assert(entries.push(entry).drop_last() =~= entries);
}

/// A link among the records stops a write.
pub proof fn law_links_among_records_stop_a_write(
    entries: Seq<RecordEntry>,
    entry: RecordEntry,
    replacing: Seq<char>,
    bytes: nat,
)
    requires
        store::capacity_verdict(entries, replacing, bytes) is Ok,
        entry.name matches Some(name) && ".json"@.is_suffix_of(name@) && !store::temporary_name(
            name@,
        ) && name@ != replacing + ".json"@,
        entry.kind is Symlink,
    ensures
        store::capacity_verdict(entries.push(entry), replacing, bytes) == Err::<nat, Seq<char>>(
            "workflow storage path contains a symbolic link"@,
        ),
{
    assert(entries.push(entry).drop_last() =~= entries);
}

/// Whether the first `n` components of a path are there and no links.
pub open spec fn clear_to(kinds: Seq<ComponentKind>, n: int) -> bool {
    0 <= n <= kinds.len() && forall|i: int|
        0 <= i < n ==> (#[trigger] kinds[i] is Directory || kinds[i] is Other)
}

/// A path is refused if and only if one of its components, before the first that
/// is missing, is a link or cannot be read; the first such one is told.
pub proof fn law_links_in_a_path_are_refused(kinds: Seq<ComponentKind>)
    ensures
        match store::links_verdict(kinds) {
            None => exists|n: int| #[trigger]
                clear_to(kinds, n) && (n < kinds.len() ==> kinds[n] is Missing),
            Some(kind) => (kind is Symlink || kind is Unreadable) && exists|n: int| #[trigger]
                clear_to(kinds, n) && n < kinds.len() && kinds[n] == kind,
        },
    decreases kinds.len(),
{
    assert(clear_to(kinds, 0));
    if kinds.len() > 0 && (kinds[0] is Directory || kinds[0] is Other) {
        let rest = kinds.drop_first();
        law_links_in_a_path_are_refused(rest);
        let n = match store::links_verdict(rest) {
            None => choose|n: int| #[trigger]
                clear_to(rest, n) && (n < rest.len() ==> rest[n] is Missing),
            Some(kind) => choose|n: int| #[trigger]
                clear_to(rest, n) && n < rest.len() && rest[n] == kind,
        };
        assert forall|i: int| 0 <= i < n + 1 implies (#[trigger] kinds[i] is Directory
            || kinds[i] is Other) by {
            if i > 0 {
                assert(rest[i - 1] == kinds[i]);
            }
        }
        assert(clear_to(kinds, n + 1));
        if n < rest.len() {
            assert(rest[n] == kinds[n + 1]);
        }
    }
}

/// A selection is taken if and only if it is stored in the first version and is
/// none or a safe id, and then exactly as it is stored; a missing file selects
/// nothing. Any other one is ignored, with the kind of what is wrong.
pub proof fn law_selections_are_taken_as_stored(probe: SelectionProbe)
    ensures
        ({
            let r = store::selection_verdict(probe);
            &&& probe is Missing ==> r == SelectionModel::Selected(None)
            &&& probe is Unreadable <==> r is Failed
            &&& probe matches SelectionProbe::File(n) ==> (r is Read <==> n <= 16_384)
            &&& r is Read ==> probe is File
            &&& probe matches SelectionProbe::Decoded { version, selected } ==> {
                let safe = match selected {
                    Some(id) => store::valid_id(id@),
                    None => true,
                };
                &&& version == 1 && safe <==> r is Selected
                &&& version == 1 && safe ==> r == SelectionModel::Selected(
                    match selected {
                        Some(id) => Some(id@),
                        None => None,
                    },
                )
                &&& version != 1 ==> (r matches SelectionModel::Ignored(d) && d.kind
                    == StoreDiagnosticKind::UnsupportedSelectionVersion)
                &&& version == 1 && !safe ==> (r matches SelectionModel::Ignored(d) && d.kind
                    == StoreDiagnosticKind::CorruptSelection)
            }
            &&& probe is NotAFile ==> (r matches SelectionModel::Ignored(d) && d.kind
                == StoreDiagnosticKind::UnsafeSelection)
            &&& probe is ReadFailed || probe is DecodeFailed ==> (r matches
                SelectionModel::Ignored(d) && d.kind == StoreDiagnosticKind::CorruptSelection)
            &&& r matches SelectionModel::Ignored(d) ==> d.record_id is None
        }),
{
}

// ---------------------------------------------------------------------------
// Todo lists
// ---------------------------------------------------------------------------

/// A todo list is complete if and only if it has a task and every task of it is
/// completed or abandoned; one task that is open keeps it open.
pub proof fn law_open_tasks_keep_a_list_open(todo: Seq<PhaseModel>, i: int, j: int)
    requires
        0 <= i < todo.len(),
        0 <= j < todo[i].tasks.len(),
    ensures
        todo[i].tasks[j].status == TodoStatus::Pending || todo[i].tasks[j].status
            == TodoStatus::InProgress ==> !todo::exactly_complete(todo),
        (forall|a: int, b: int|
            0 <= a < todo.len() && 0 <= b < todo[a].tasks.len() ==> (
            #[trigger] todo[a].tasks[b]).status == TodoStatus::Completed || todo[a].tasks[b].status
                == TodoStatus::Abandoned) ==> todo::exactly_complete(todo),
        !todo::exactly_complete(Seq::empty()),
{
    if todo::exactly_complete(todo) {
        assert(todo::task_closed(todo[i].tasks[j]));
    }
    assert(todo[i].tasks.len() > 0);
}

/// The number of tasks is the sum over the phases.
pub proof fn law_tasks_are_counted_by_phase(a: Seq<PhaseModel>, b: Seq<PhaseModel>, p: PhaseModel)
    ensures
        todo::task_total(a + b) == todo::task_total(a) + todo::task_total(b),
        todo::task_total(seq![p]) == p.tasks.len(),
    decreases b.len(),
{
    assert(seq![p].drop_last() =~= Seq::<PhaseModel>::empty());
    assert(todo::task_total(seq![p].drop_last()) == 0);
    if b.len() > 0 {
        law_tasks_are_counted_by_phase(a, b.drop_last(), p);
        assert((a + b).drop_last() =~= a + b.drop_last());
        assert((a + b).last() == b.last());
    } else {
        assert(a + b =~= a);
    }
}

/// What is hashed of a todo list is that of its phases one behind the other, and
/// of a phase its name and its tasks.
pub proof fn law_hashed_lists_are_put_together(
    a: Seq<PhaseModel>,
    p: PhaseModel,
    tasks: Seq<TaskModel>,
    t: TaskModel,
)
    ensures
        todo::hashed_todo(Seq::empty()).len() == 0,
        todo::hashed_todo(a.push(p)) == todo::hashed_todo(a) + (todo::hashed_text(p.name)
            + todo::hashed_tasks(p.tasks)),
        todo::hashed_tasks(tasks.push(t)) == todo::hashed_tasks(tasks) + todo::hashed_task(t),
        todo::hashed_tasks(Seq::empty()).len() == 0,
{
    assert(a.push(p).drop_last() =~= a);
    assert(tasks.push(t).drop_last() =~= tasks);
    assert(todo::hashed_todo(a.push(p)) =~= todo::hashed_todo(a) + (todo::hashed_text(p.name)
        + todo::hashed_tasks(p.tasks)));
}

/// A task that changes its status, or gains a dependency, hashes differently;
/// what it waits for does not count.
pub proof fn law_hashed_tasks_tell_progress(
    t: TaskModel,
    status: TodoStatus,
    dependency: Seq<char>,
    blocked_by: Seq<Seq<char>>,
)
    requires
        status != t.status,
    ensures
        todo::hashed_task(TaskModel { status, ..t }) != todo::hashed_task(t),
        todo::hashed_task(TaskModel { depends_on: t.depends_on.push(dependency), ..t })
            != todo::hashed_task(t),
        todo::hashed_task(TaskModel { blocked_by, ..t }) == todo::hashed_task(t),
{
    let k = (todo::hashed_text(t.id) + todo::hashed_text(t.content)).len() as int;
    assert(todo::hashed_task(t)[k] == todo::status_code(t.status));
    assert(todo::hashed_task(TaskModel { status, ..t })[k] == todo::status_code(status));
    assert(t.depends_on.push(dependency).drop_last() =~= t.depends_on);
    assert(todo::hashed_text(dependency).len() > 0);
    assert(todo::hashed_task(TaskModel { depends_on: t.depends_on.push(dependency), ..t }).len()
        > todo::hashed_task(t).len());
}

/// A job has settled if and only if it is neither queued nor running.
pub proof fn law_jobs_settle(status: JobStatus)
    ensures
        status.settled() <==> status != JobStatus::Queued && status != JobStatus::Running,
{
}

/// Jobs are listed by when they were created, then by id; messages by when they
/// were sent, then by id.
pub proof fn law_jobs_and_messages_are_listed_by_time(jobs: Seq<JobModel>, m: Seq<MessageModel>)
    ensures
        ({
            let order = sort::stable_sorted(jobs);
            &&& order.to_multiset() == jobs.to_multiset()
            &&& forall|i: int, j: int|
                0 <= i < j < order.len() ==> {
                    let a = #[trigger] order[i];
                    let b = #[trigger] order[j];
                    a.created_at < b.created_at || (a.created_at == b.created_at
                        && !sort::text_before(b.id, a.id))
                }
        }),
        ({
            let order = sort::stable_sorted(m);
            &&& order.to_multiset() == m.to_multiset()
            &&& forall|i: int, j: int|
                0 <= i < j < order.len() ==> {
                    let a = #[trigger] order[i];
                    let b = #[trigger] order[j];
                    a.timestamp < b.timestamp || (a.timestamp == b.timestamp && !sort::text_before(
                        b.id,
                        a.id,
                    ))
                }
        }),
{
    sort::lemma_stable_sorted(jobs);
    sort::lemma_stable_sorted(m);
}

// ---------------------------------------------------------------------------
// What is shown
// ---------------------------------------------------------------------------

/// A status is shown by the name that it is stored under, with a capital.
pub proof fn law_variants_are_capitalised_names(status: WorkflowStatus)
    ensures
        ({
            let name = status.name();
            let variant = records::status_variant(status);
            &&& variant.len() == name.len()
            &&& text::ascii_lower(variant) == name
            &&& variant[0] != name[0]
        }),
{
    reveal_strlit("queued");
    reveal_strlit("Queued");
    reveal_strlit("planning");
    reveal_strlit("Planning");
    reveal_strlit("running");
    reveal_strlit("Running");
    reveal_strlit("paused");
    reveal_strlit("Paused");
    reveal_strlit("integrating");
    reveal_strlit("Integrating");
    reveal_strlit("completed");
    reveal_strlit("Completed");
    reveal_strlit("failed");
    reveal_strlit("Failed");
    reveal_strlit("cancelled");
    reveal_strlit("Cancelled");
    reveal_strlit("conflicted");
    reveal_strlit("Conflicted");
    assert(text::ascii_lower(records::status_variant(status)) =~= status.name());
}

/// What is shown of a record is the same for records with the same status,
/// generation and number of phases, and nothing else of it can be told.
pub proof fn law_shown_records_tell_no_contents(a: SnapshotModel, b: SnapshotModel)
    requires
        a.status == b.status,
        a.generation == b.generation,
        a.todo.len() == b.todo.len(),
    ensures
        records::shown_snapshot(a) == records::shown_snapshot(b),
        records::shown_event(EventModel::Created { snapshot: a }) == records::shown_event(
            EventModel::Created { snapshot: b },
        ),
        records::shown_event(EventModel::Updated { snapshot: a }) == records::shown_event(
            EventModel::Updated { snapshot: b },
        ),
        records::shown_event(
            EventModel::StatusChanged {
                workflow_id: a.workflow_id,
                generation: a.generation,
                status: a.status,
            },
        ) == records::shown_event(
            EventModel::StatusChanged {
                workflow_id: b.workflow_id,
                generation: b.generation,
                status: b.status,
            },
        ),
{
}

/// What is shown of an integration is how many conflicts it has, and no more.
pub proof fn law_shown_integrations_tell_no_contents(
    commit: Seq<char>,
    other: Seq<char>,
    conflicts: Seq<Seq<char>>,
    others: Seq<Seq<char>>,
)
    ensures
        records::shown_integration(IntegrationModel::Applied { result_commit: commit })
            == records::shown_integration(IntegrationModel::Applied { result_commit: other }),
        conflicts.len() == others.len() ==> records::shown_integration(
            IntegrationModel::Conflicted { conflicts },
        ) == records::shown_integration(IntegrationModel::Conflicted { conflicts: others }),
{
}

} // verus!
