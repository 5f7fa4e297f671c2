//! What the checks and the smaller readings promise.

use crate::json;
use crate::json::{Json, JsonModel};
use crate::lexical_path;
use crate::text;
use crate::tools::lsp;
use crate::tools::lsp_format;
use crate::tools::mutation_queue;
use crate::tools::mutation_queue::RealPathError;
use crate::tools::notebook;
use crate::tools::notebook_run;
use crate::tools::notebook_run::{EndModel, OpeningModel, RunModel};
use crate::tools::web_search;
use crate::trust;
use crate::workflow::detail;
use crate::workflow::manager;
use crate::workflow::manager::{ManagerModel, ManagerPoint, ManagerReply};
use crate::workflow::records::{SnapshotModel, WorkflowStoreDiagnostic};
use crate::workflow::store;
use crate::workflow::store::StoreDiagnosticKind;
use crate::workflow::supervisor;
use crate::workflow::supervisor::WorkflowSupervisorContract;
use crate::workflow::todo::{AgentStatus, JobStatus};
use crate::workflow::WorkflowTaskOwnership;
use crate::workflow_worktree::catalog;
use crate::workflow_worktree::catalog::{ProcessLockStep, SignalReply};
use vstd::prelude::*;
use vstd::string::*;
use vstd::utf8::*;

verus! {

// ---------------------------------------------------------------------------
// Language servers
// ---------------------------------------------------------------------------

/// A position argument stands for itself where it can be a position, for the
/// nearest position where it cannot, and for the default where it is left out.
pub proof fn law_positions_are_the_nearest(value: i64, default: u32, other: u32)
    ensures
        lsp::position_value(None, default) == default,
        0 <= value <= 4294967295 ==> lsp::position_value(Some(value), default) == value,
        value < 0 ==> lsp::position_value(Some(value), default) == 0,
        value > 4294967295 ==> lsp::position_value(Some(value), default) == 4294967295,
        lsp::position_value(Some(value), default) == lsp::position_value(Some(value), other),
{
}

/// A search looks for its query. Without one it looks for the symbol.
pub proof fn law_a_query_comes_before_a_symbol(query: Seq<char>, symbol: Seq<char>)
    ensures
        query.len() > 0 ==> lsp::sought(query, symbol) == query,
        lsp::sought(Seq::empty(), symbol) == symbol,
{
}

/// A search collects the files of its language in the order in which it comes
/// upon them, whatever the case of their extensions, and no more than twenty.
pub proof fn law_source_files_are_collected(
    files: Seq<Seq<char>>,
    ext: Seq<char>,
    path: Seq<char>,
)
    ensures
        lsp::offered(files, ext, path, false) == files,
        files.len() >= 20 ==> lsp::offered(files, ext, path, true) == files,
        lsp::extension_of(path) is None ==> lsp::offered(files, ext, path, true) == files,
        lsp::extension_of(path) matches Some(e) ==> (text::ascii_lower(e) != text::ascii_lower(ext)
            ==> lsp::offered(files, ext, path, true) == files),
        lsp::extension_of(path) matches Some(e) ==> (text::ascii_lower(e) == text::ascii_lower(ext)
            && files.len() < 20 ==> lsp::offered(files, ext, path, true) == files.push(path)),
{
}

proof fn lemma_middle(front: Seq<char>, a: Seq<char>, b: Seq<char>, back: Seq<char>)
    requires
        front + a + back == front + b + back,
    ensures
        a == b,
{
    let x = front + a + back;
    let y = front + b + back;
    assert(a =~= x.subrange(front.len() as int, x.len() - back.len()));
    assert(b =~= y.subrange(front.len() as int, y.len() - back.len()));
}

/// The message for a call whose language cannot be told names the target.
pub proof fn law_an_unknown_language_names_the_target(a: Seq<char>, b: Seq<char>)
    ensures
        lsp::no_language(a) == lsp::no_language(b) ==> a == b,
        ("cannot determine language for `"@ + a).is_prefix_of(lsp::no_language(a)),
{
    let back =
        "` (no `lang` argument and the path extension is not one of: rs, ts, tsx, mts, cts, js, jsx, mjs, cjs, go, py)"@;
    if lsp::no_language(a) == lsp::no_language(b) {
        lemma_middle("cannot determine language for `"@, a, b, back);
    }
    assert(("cannot determine language for `"@ + a) =~= lsp::no_language(a).subrange(
        0,
        ("cannot determine language for `"@ + a).len() as int,
    ));
}

/// A language without a server is told apart from one whose server is not
/// installed, and the latter names the program and the language.
pub proof fn law_missing_servers_are_named(lang: Seq<char>)
    ensures
        lsp::server_of(lang) is None ==> lsp::missing_server(lang) == "unsupported lsp language `"@
            + lang + "`"@,
        lsp::server_of(lang) matches Some(s) ==> lsp::missing_server(lang)
            == "LSP server binary `"@ + s.command + "` not found in PATH (required for language `"@
            + lang + "`); install it or pass a different lang"@,
        lsp::missing_server("rust"@) == "LSP server binary `"@ + "rust-analyzer"@
            + "` not found in PATH (required for language `"@ + "rust"@
            + "`); install it or pass a different lang"@,
{
}

/// The status of one language is the header and its line. The status of all
/// languages has a line for each, and a hint.
pub proof fn law_the_status_has_a_line_for_each_language(
    cwd: Seq<char>,
    lang: Seq<char>,
    at: Option<Seq<char>>,
    locations: Seq<Option<Seq<char>>>,
)
    requires
        locations.len() == 5,
    ensures
        ({
            let head = "lsp tool status (cwd: "@ + cwd + ")"@ + "\n"@
                + "  lifecycle: one server per call — spawned on demand, shutdown handshake on return"@;
            &&& lsp::status_text(cwd, Some(lang), seq![at]) == head + "\n"@ + lsp::status_line(
                lang,
                at,
            )
            &&& lsp::status_text(cwd, None, locations) == head + "\n"@ + lsp::status_line(
                "rust"@,
                locations[0],
            ) + "\n"@ + lsp::status_line("typescript"@, locations[1]) + "\n"@ + lsp::status_line(
                "javascript"@,
                locations[2],
            ) + "\n"@ + lsp::status_line("go"@, locations[3]) + "\n"@ + lsp::status_line(
                "python"@,
                locations[4],
            ) + "\n"@ + "  (pass path or lang to narrow status to one language)"@
        }),
{
    let a = "lsp tool status (cwd: "@ + cwd + ")"@;
    let b = "  lifecycle: one server per call — spawned on demand, shutdown handshake on return"@;
    let r = lsp::status_line("rust"@, locations[0]);
    let t = lsp::status_line("typescript"@, locations[1]);
    let j = lsp::status_line("javascript"@, locations[2]);
    let g = lsp::status_line("go"@, locations[3]);
    let p = lsp::status_line("python"@, locations[4]);
    let h = "  (pass path or lang to narrow status to one language)"@;
    let one = lsp::status_line(lang, at);
    let sep = "\n"@;
    assert(seq![a, b, one].drop_last() =~= seq![a, b]);
    assert(seq![a, b].drop_last() =~= seq![a]);
    assert(text::join(seq![a], sep) == a);
    assert(text::join(seq![a, b], sep) == a + sep + b);
    assert(text::join(seq![a, b, one], sep) == a + sep + b + sep + one);
    assert(seq![a, b] + Seq::new(
        lsp::covered(Some(lang)).len(),
        |i: int| lsp::status_line(lsp::covered(Some(lang))[i], seq![at][i]),
    ) =~= seq![a, b, one]);
    assert(seq![a, b] + Seq::new(
        lsp::covered(None).len(),
        |i: int| lsp::status_line(lsp::covered(None)[i], locations[i]),
    ) =~= seq![a, b, r, t, j, g, p]);
    assert(seq![a, b, r, t, j, g, p].push(h) =~= seq![a, b, r, t, j, g, p, h]);
    assert(seq![a, b, r].drop_last() =~= seq![a, b]);
    assert(seq![a, b, r, t].drop_last() =~= seq![a, b, r]);
    assert(seq![a, b, r, t, j].drop_last() =~= seq![a, b, r, t]);
    assert(seq![a, b, r, t, j, g].drop_last() =~= seq![a, b, r, t, j]);
    assert(seq![a, b, r, t, j, g, p].drop_last() =~= seq![a, b, r, t, j, g]);
    assert(seq![a, b, r, t, j, g, p, h].drop_last() =~= seq![a, b, r, t, j, g, p]);
    let x3 = text::join(seq![a, b, r], sep);
    assert(x3 == a + sep + b + sep + r);
    let x4 = text::join(seq![a, b, r, t], sep);
    assert(x4 == x3 + sep + t);
    let x5 = text::join(seq![a, b, r, t, j], sep);
    assert(x5 == x4 + sep + j);
    let x6 = text::join(seq![a, b, r, t, j, g], sep);
    assert(x6 == x5 + sep + g);
    let x7 = text::join(seq![a, b, r, t, j, g, p], sep);
    assert(x7 == x6 + sep + p);
    assert(text::join(seq![a, b, r, t, j, g, p, h], sep) == x7 + sep + h);
}

/// No answer and an empty one both say that there are no code actions. Anything
/// else that is no list is unexpected.
pub proof fn law_code_actions_may_be_missing(answer: JsonModel)
    ensures
        answer == JsonModel::Null || answer == JsonModel::List(Seq::empty())
            ==> lsp_format::actions_text(answer)
            == "code_actions: none available at this position"@,
        answer !is Null && answer !is List ==> lsp_format::actions_text(answer)
            == "code_actions: unexpected server response"@,
{
}

/// A single code action is shown in a row of its own.
pub proof fn law_a_code_action_is_shown(action: JsonModel)
    ensures
        lsp_format::actions_text(JsonModel::List(seq![action])) == "code_actions ("@
            + text::numeral(1) + " shown):"@ + "\n"@ + lsp_format::action_row(action) + "\n"@
            + "  (actions are listed only; apply is deferred in this build)"@,
{
    let a = "code_actions ("@ + text::numeral(1) + " shown):"@;
    let b = lsp_format::action_row(action);
    let c = "  (actions are listed only; apply is deferred in this build)"@;
    let sep = "\n"@;
    assert(Seq::new(1, |i: int| lsp_format::action_row(seq![action][i])) =~= seq![b]);
    assert((seq![a] + seq![b]).push(c) =~= seq![a, b, c]);
    assert(seq![a, b, c].drop_last() =~= seq![a, b]);
    assert(seq![a, b].drop_last() =~= seq![a]);
    assert(text::join(seq![a], sep) == a);
    assert(text::join(seq![a, b], sep) == a + sep + b);
    assert(text::join(seq![a, b, c], sep) == a + sep + b + sep + c);
}

// ---------------------------------------------------------------------------
// Notebooks
// ---------------------------------------------------------------------------

/// An absolute path stays as it is. Any other one lies below the working
/// directory, behind exactly one separator.
pub proof fn law_notebooks_lie_below_the_working_directory(cwd: Seq<char>, path: Seq<char>)
    ensures
        lexical_path::absolute(path) ==> notebook::placed(cwd, path) == path,
        !lexical_path::absolute(path) && cwd.len() > 0 && cwd.last() != '/' ==> notebook::placed(
            cwd,
            path,
        ) == cwd + seq!['/'] + path,
        !lexical_path::absolute(path) && cwd.len() > 0 && cwd.last() == '/' ==> notebook::placed(
            cwd,
            path,
        ) == cwd + path,
{
    assert(cwd.push('/') =~= cwd + seq!['/']);
}

/// A notebook of eight mebibytes can be read, and a larger one is refused with
/// its path and its size.
pub proof fn law_large_notebooks_are_refused(path: Seq<char>, bytes: u64)
    ensures
        bytes <= 8 * 1024 * 1024 <==> notebook::size_fault(path, bytes) is None,
        notebook::size_fault(path, bytes) matches Some(e) ==> e == "notebook "@ + path + " is "@
            + text::numeral(bytes as nat) + " bytes, exceeding the 8 MiB bound"@,
{
}

/// Metadata is shown as it is written, unless that is too long or cannot be
/// written.
pub proof fn law_metadata_is_shown_as_written(s: Seq<char>)
    ensures
        text::byte_len(s) <= notebook::METADATA_MAX_BYTES ==> notebook::compact(Some(s)) == s,
        text::byte_len(s) > notebook::METADATA_MAX_BYTES ==> notebook::compact(Some(s))
            == notebook::compact(None),
        notebook::compact(None) == "[truncated metadata]"@,
{
}

/// A listing starts with the path, the format and the number of the cells. The
/// metadata follows where there is any, then a block for each cell, in order.
pub proof fn law_listings_show_every_cell(
    path: Seq<char>,
    doc: JsonModel,
    cells: Seq<JsonModel>,
    metadata: Option<Seq<char>>,
)
    ensures
        ({
            let major = json::unsigned_under(doc, "nbformat"@);
            let minor = json::unsigned_under(doc, "nbformat_minor"@);
            let head = "notebook: "@ + path + " — nbformat "@ + text::numeral(
                if major is Some {
                    major->0 as nat
                } else {
                    4
                },
            ) + "."@ + text::numeral(
                if minor is Some {
                    minor->0 as nat
                } else {
                    0
                },
            ) + ", "@ + text::numeral(cells.len()) + " cells\n"@;
            let shown_metadata = match json::at(doc, "metadata"@) {
                Some(JsonModel::Object(members)) => if members.len() > 0 {
                    "metadata: "@ + notebook::compact(metadata) + "\n"@
                } else {
                    ""@
                },
                _ => ""@,
            };
            &&& cells.len() <= notebook::MAX_RENDER_CELLS ==> notebook::listing(
                path,
                doc,
                cells,
                metadata,
            ) == head + shown_metadata + notebook::cell_blocks(cells, cells.len()) + ""@
            &&& cells.len() > notebook::MAX_RENDER_CELLS ==> notebook::listing(
                path,
                doc,
                cells,
                metadata,
            ) == head + shown_metadata + notebook::cell_blocks(
                cells,
                notebook::MAX_RENDER_CELLS as nat,
            ) + ("... "@ + text::numeral((cells.len() - notebook::MAX_RENDER_CELLS) as nat)
                + " more cells omitted\n"@)
        }),
{
}

/// A notebook without cells cannot be run, nor can a cell that it does not have.
/// One that has no code is said to have none. Otherwise the run starts at its
/// first cell, with nothing reported and the document as it was.
pub proof fn law_runs_start_at_the_first_cell(
    path: Seq<char>,
    doc: JsonModel,
    cell: Option<i64>,
    write: bool,
)
    ensures
        ({
            let start = notebook_run::opening(path, doc, cell, write);
            match notebook::cells_of(doc) {
                None => start == OpeningModel::Refused("notebook has no cells"@),
                Some(cells) => {
                    &&& start is Refused <==> cell is Some && (cell->0 < 0 || cell->0
                        >= cells.len())
                    &&& cell is Some && 0 <= cell->0 < cells.len() ==> start is Run
                    &&& start is Nothing <==> cell is None && notebook_run::code_cells(
                        cells,
                        cells.len(),
                    ).len() == 0
                    &&& start matches OpeningModel::Run(run) ==> {
                        &&& run.path == path && run.doc == doc && run.write == write
                        &&& run.at == 0 && run.written == 0 && run.report.len() == 0
                        &&& run.end is Running
                        &&& cell is Some ==> run.indices == seq![cell->0 as nat]
                        &&& cell is None ==> run.indices == notebook_run::code_cells(
                            cells,
                            cells.len(),
                        )
                    }
                },
            }
        }),
{
}

/// A failure is all that a failed run comes to. Any other run comes to its text,
/// and to its document exactly where cells were written. The kernel goes on
/// living unless the run timed out.
pub proof fn law_runs_come_to_their_report(m: RunModel, e: Seq<char>)
    ensures
        m.end == EndModel::Failed(e) ==> m.outcome() == Err::<
            notebook_run::ReportModel,
            Seq<char>,
        >(e),
        m.end !is Failed ==> {
            &&& m.outcome() is Ok
            &&& m.outcome()->Ok_0.text == m.text()
            &&& m.written > 0 ==> m.outcome()->Ok_0.document == Some(m.doc)
            &&& m.written == 0 ==> m.outcome()->Ok_0.document is None
            &&& m.outcome()->Ok_0.keep_kernel <==> m.end !is TimedOut
        },
{
}

// ---------------------------------------------------------------------------
// Searches and queues
// ---------------------------------------------------------------------------

/// Nothing is searched for offline, nor without words. Any other query is asked
/// for, escaped.
pub proof fn law_searches_need_words_and_a_network(offline: bool, query: Seq<char>)
    ensures
        web_search::search_fault(true, query)
            == Some("web_search is disabled while PI_OFFLINE is set"@),
        web_search::search_fault(offline, query) is None <==> !offline && exists|i: int|
            0 <= i < query.len() && !text::is_space(#[trigger] query[i]),
        text::blank(query) ==> web_search::search_fault(false, query)
            == Some("query must not be empty"@),
        web_search::request_url(query) == "https://api.duckduckgo.com/?q="@
            + web_search::escaped(encode_utf8(query))
            + "&format=json&no_html=1&skip_disambig=1&t=rpi"@,
{
}

/// A file is queued under its real path, and one that does not exist yet under
/// its absolute path. Both kinds of separators count as the same.
pub proof fn law_files_queue_under_their_real_path(
    absolute: Seq<char>,
    found: String,
    i: int,
)
    ensures
        ({
            let key = mutation_queue::queue_key(absolute, Ok(found));
            &&& key is Ok && key->Ok_0.len() == found@.len()
            &&& 0 <= i < found@.len() ==> key->Ok_0[i] == (if found@[i] == '\\' {
                '/'
            } else {
                found@[i]
            })
        }),
        ({
            let key = mutation_queue::queue_key(absolute, Err(RealPathError::Missing));
            &&& key is Ok && key->Ok_0.len() == absolute.len()
            &&& 0 <= i < absolute.len() ==> key->Ok_0[i] == (if absolute[i] == '\\' {
                '/'
            } else {
                absolute[i]
            })
        }),
        mutation_queue::queue_key(absolute, Err(RealPathError::Other(found))) == Err::<
            Seq<char>,
            Seq<char>,
        >(found@),
{
}

// ---------------------------------------------------------------------------
// Stored documents
// ---------------------------------------------------------------------------

/// Exactly the first version of the trust store is supported, and any other one
/// is named with the file.
pub proof fn law_only_the_first_trust_store_version_is_read(version: u32, path: Seq<char>)
    ensures
        version == 1 <==> trust::version_fault(version, path) is None,
        trust::version_fault(version, path) matches Some(e) ==> e
            == "unsupported trust store version "@ + text::numeral(version as nat) + " in "@ + path
            + " (expected 1)"@,
{
}

/// A document is versioned exactly where its version is a number.
pub proof fn law_versions_are_numbers(value: Json)
    ensures
        json::field(value, "version"@) is None ==> !trust::versioned(value),
        json::field(value, "version"@) matches Some(v) ==> (trust::versioned(value)
            <==> v is Number),
{
}

/// A record is used where it has the supported version and the id of its file.
/// The version is looked at first, and what is told names the file's id.
pub proof fn law_records_belong_to_their_file(file_id: Seq<char>, version: u32, id: Seq<char>)
    ensures
        store::record_fault(file_id, version, id) is None <==> version == 1 && id == file_id,
        store::record_fault(file_id, version, id) matches Some(d) ==> {
            &&& d.record_id == Some(file_id)
            &&& d.kind == StoreDiagnosticKind::UnsupportedRecordVersion <==> version != 1
            &&& d.kind == StoreDiagnosticKind::RecordIdentityMismatch <==> version == 1
        },
{
}

/// What is read can be used where it comes from a regular file and is no longer
/// than the limit, and so is what was announced. A larger limit refuses no more.
pub proof fn law_reads_are_bounded(announced: u64, actual: u64, limit: u64, larger: u64)
    ensures
        !store::usable_read(false, announced, actual, limit),
        announced > limit ==> !store::usable_read(true, announced, actual, limit),
        actual > limit ==> !store::usable_read(true, announced, actual, limit),
        announced <= limit && actual <= limit ==> store::usable_read(
            true,
            announced,
            actual,
            limit,
        ),
        store::usable_read(true, announced, actual, limit) && larger >= limit
            ==> store::usable_read(true, announced, actual, larger),
{
}

/// What is told of something that loading ignored differs from kind to kind.
pub proof fn law_each_kind_of_diagnostic_is_told_apart(
    a: StoreDiagnosticKind,
    b: StoreDiagnosticKind,
)
    ensures
        a == b <==> manager::diagnostic_message(a) == manager::diagnostic_message(b),
        manager::diagnostic_message(a).len() > 8,
{
    reveal_strlit("ignored a corrupt workflow record");
    reveal_strlit("ignored a workflow record with an invalid name");
    reveal_strlit("ignored a workflow record with an unsupported version");
    reveal_strlit("ignored a workflow record with inconsistent identity");
    reveal_strlit("ignored a workflow record exceeding storage limits");
    reveal_strlit("ignored an unsafe workflow record");
    reveal_strlit("ignored corrupt workflow selection");
    reveal_strlit("ignored workflow selection with an unsupported version");
    reveal_strlit("ignored unsafe workflow selection");
    let x = manager::diagnostic_message(a);
    let y = manager::diagnostic_message(b);
    if x == y {
        assert(x.len() == y.len());
        assert(x[8] == y[8] && x[9] == y[9] && x[10] == y[10]);
    }
}

// ---------------------------------------------------------------------------
// The catalog of worktrees
// ---------------------------------------------------------------------------

/// An override says where the catalog lies. Without one it lies below the common
/// git directory, wherever a checkout of the repository is.
pub proof fn law_a_catalog_lies_where_the_override_says(path: Seq<char>, dir: Seq<char>)
    ensures
        catalog::catalog_location(Some(path), dir) == path,
        dir.len() > 0 && dir.last() != '/' ==> catalog::catalog_location(None, dir) == dir
            + seq!['/'] + "pi-workflow"@ + seq!['/'] + "worktrees.json"@,
        dir.len() > 0 && dir.last() == '/' ==> catalog::catalog_location(None, dir) == dir
            + "pi-workflow"@ + seq!['/'] + "worktrees.json"@,
{
    reveal_strlit("pi-workflow");
    assert("pi-workflow"@.last() == 'w');
    if dir.len() > 0 && dir.last() != '/' {
        let inner = dir.push('/') + "pi-workflow"@;
        assert(inner.last() == 'w');
        assert(inner.push('/') + "worktrees.json"@ =~= dir + seq!['/'] + "pi-workflow"@ + seq!['/']
            + "worktrees.json"@);
    }
    if dir.len() > 0 && dir.last() == '/' {
        let inner = dir + "pi-workflow"@;
        assert(inner.last() == 'w');
        assert(inner.push('/') + "worktrees.json"@ =~= dir + "pi-workflow"@ + seq!['/']
            + "worktrees.json"@);
    }
}

/// Only a process that is known not to exist counts as dead.
pub proof fn law_processes_live_until_known_dead(pid: u32, reply: SignalReply)
    ensures
        reply != SignalReply::NoSuchProcess ==> catalog::counts_as_alive(pid, reply),
        pid <= 2147483647 ==> !catalog::counts_as_alive(pid, SignalReply::NoSuchProcess),
        pid > 2147483647 ==> catalog::counts_as_alive(pid, reply),
{
}

/// A free lock is taken at once, and then nobody else gets it. A held one is
/// waited for, for what is left of the time, and given up after that. Locks of
/// other keys stay as they are.
pub proof fn law_locks_have_one_holder(
    held: Set<Seq<char>>,
    key: Seq<char>,
    other: Seq<char>,
    waited: u64,
    step: ProcessLockStep,
    after: Set<Seq<char>>,
)
    requires
        catalog::process_lock_taken(held, key, waited, step, after),
    ensures
        ({
            let slot = lexical_path::respelled(key);
            &&& step is Acquired <==> !held.contains(slot)
            &&& after.contains(slot)
            &&& other != slot ==> (held.contains(other) <==> after.contains(other))
            &&& step matches ProcessLockStep::Wait(left) ==> left > 0 && left + waited
                == catalog::REPO_LOCK_TIMEOUT_MS
            &&& step is TimedOut ==> waited >= catalog::REPO_LOCK_TIMEOUT_MS
            &&& held.contains(slot) && waited < catalog::REPO_LOCK_TIMEOUT_MS ==> step is Wait
        }),
{
}

// ---------------------------------------------------------------------------
// Workflows
// ---------------------------------------------------------------------------

/// A manager starts with the last record of each id, and with the selection
/// where that workflow is among them. Nothing is in the making yet, and nobody
/// has to be told anything.
pub proof fn law_managers_start_from_the_records(
    records: Seq<SnapshotModel>,
    id: Seq<char>,
    diagnostics: Seq<WorkflowStoreDiagnostic>,
)
    ensures
        ({
            let m = ManagerModel::opened(records, Some(id), diagnostics);
            &&& m.workflows == manager::by_id(records)
            &&& m.selected is Some ==> m.selected == Some(id)
            &&& m.selected is Some <==> m.workflows.contains_key(id)
            &&& m.names.is_empty() && m.creating.dom().is_empty() && m.events.len() == 0
            &&& m.diagnostics == diagnostics
        }),
        ManagerModel::opened(records, None, diagnostics).selected is None,
        ManagerModel::opened(records, None, diagnostics).workflows == manager::by_id(records),
{
}

/// A workflow is found under its id, and the selected one under the selection.
pub proof fn law_records_are_found_by_id(m: ManagerModel, id: Seq<char>, s: SnapshotModel)
    ensures
        m.record(id) is Some <==> m.workflows.contains_key(id),
        (ManagerModel { workflows: m.workflows.insert(id, s), ..m }).record(id) == Some(s),
        m.selected is None ==> m.selected_record() is None,
        m.selected == Some(id) ==> m.selected_record() == m.record(id),
{
}

/// Telling observers everything leaves nothing to tell, and changes nothing else.
pub proof fn law_events_are_told_once(m: ManagerModel)
    ensures
        m.told().events.len() == 0,
        m.told().told() == m.told(),
        m.told().workflows == m.workflows && m.told().selected == m.selected,
        m.told().names == m.names && m.told().creating == m.creating && m.told().diagnostics
            == m.diagnostics,
{
}

/// A name finds a record that bears it, and only where no other one does.
pub proof fn law_names_find_one_record(
    front: Seq<SnapshotModel>,
    s: SnapshotModel,
    back: Seq<SnapshotModel>,
    name: Seq<char>,
)
    requires
        s.name == name,
    ensures
        ({
            let all = front + seq![s] + back;
            let apart = (forall|i: int|
                0 <= i < front.len() ==> (#[trigger] front[i]).name != name) && (forall|i: int|
                0 <= i < back.len() ==> (#[trigger] back[i]).name != name);
            &&& apart ==> manager::named(all, name) == Ok::<SnapshotModel, Seq<char>>(s)
            &&& !apart ==> manager::named(all, name) == Err::<SnapshotModel, Seq<char>>(
                manager::AMBIGUOUS@,
            )
        }),
{
    let p = |x: SnapshotModel| x.name == name;
    let all = front + seq![s] + back;
    lemma_filter_apart(front, p);
    lemma_filter_apart(back, p);
    Seq::filter_distributes_over_add(front, seq![s], p);
    Seq::filter_distributes_over_add(front + seq![s], back, p);
    assert(seq![s].filter(p) =~= seq![s]) by {
        reveal(Seq::filter);
        assert(seq![s].drop_last() =~= Seq::empty());
    }
    assert(all.filter(p) == front.filter(p) + seq![s] + back.filter(p));
    let apart = (forall|i: int| 0 <= i < front.len() ==> (#[trigger] front[i]).name != name) && (
    forall|i: int| 0 <= i < back.len() ==> (#[trigger] back[i]).name != name);
    if apart {
        assert(front.filter(p).len() == 0) by {
            assert forall|i: int| 0 <= i < front.len() implies !p(#[trigger] front[i]) by {
            }
        }
        assert(back.filter(p).len() == 0) by {
            assert forall|i: int| 0 <= i < back.len() implies !p(#[trigger] back[i]) by {
            }
        }
        assert(all.filter(p) =~= seq![s]);
    } else {
        if exists|i: int| 0 <= i < front.len() && (#[trigger] front[i]).name == name {
            let i = choose|i: int| 0 <= i < front.len() && (#[trigger] front[i]).name == name;
            assert(p(front[i]));
        } else {
            let i = choose|i: int| 0 <= i < back.len() && (#[trigger] back[i]).name == name;
            assert(p(back[i]));
        }
        assert(all.filter(p).len() >= 2);
    }
}

proof fn lemma_filter_apart(s: Seq<SnapshotModel>, p: spec_fn(SnapshotModel) -> bool)
    ensures
        s.filter(p).len() == 0 <==> forall|i: int| 0 <= i < s.len() ==> !p(#[trigger] s[i]),
    decreases s.len(),
{
    reveal(Seq::filter);
    if s.len() > 0 {
        let t = s.drop_last();
        lemma_filter_apart(t, p);
        if s.filter(p).len() == 0 {
            assert forall|i: int| 0 <= i < s.len() implies !p(#[trigger] s[i]) by {
                if i < t.len() {
                    assert(t[i] == s[i]);
                }
            }
        }
        if forall|i: int| 0 <= i < s.len() ==> !p(#[trigger] s[i]) {
            assert forall|i: int| 0 <= i < t.len() implies !p(#[trigger] t[i]) by {
                assert(t[i] == s[i]);
            }
            assert(!p(s.last()));
        }
    }
}

/// A name that no record bears finds none.
pub proof fn law_unknown_names_find_nothing(all: Seq<SnapshotModel>, name: Seq<char>)
    requires
        forall|i: int| 0 <= i < all.len() ==> (#[trigger] all[i]).name != name,
    ensures
        manager::named(all, name) == Err::<SnapshotModel, Seq<char>>(manager::NOT_FOUND@),
{
    let p = |x: SnapshotModel| x.name == name;
    lemma_filter_apart(all, p);
    assert forall|i: int| 0 <= i < all.len() implies !p(#[trigger] all[i]) by {
    }
}

/// Where an operation is over no reply fits. Otherwise exactly one kind of reply
/// does.
pub proof fn law_one_kind_of_reply_fits(point: ManagerPoint, a: ManagerReply, b: ManagerReply)
    ensures
        point is Over ==> !manager::reply_fits(point, a),
        manager::reply_fits(point, a) && a is Identity ==> point is Creating || point is Restoring
            || point is Reviving,
        manager::reply_fits(point, a) && a is Update ==> point is Moving,
        manager::reply_fits(point, a) && manager::reply_fits(point, b) ==> (a is Identity
            <==> b is Identity) && (a is Update <==> b is Update) && (a is Worked <==> b is Worked),
        a is Identity && (point is Creating || point is Restoring || point is Reviving)
            ==> manager::reply_fits(point, a),
        a is Update && point is Moving ==> manager::reply_fits(point, a),
        a is Worked && point !is Over && point !is Creating && point !is Restoring
            && point !is Reviving && point !is Moving ==> manager::reply_fits(point, a),
{
}

/// A delegated task is owned by the workflow of the contract, in its generation,
/// under the task's own id.
pub proof fn law_delegated_tasks_belong_to_the_contract(
    contract: WorkflowSupervisorContract,
    task: Seq<char>,
    owner: WorkflowTaskOwnership,
    again: WorkflowTaskOwnership,
    other: Seq<char>,
)
    requires
        supervisor::owned_under(contract, task, owner),
        supervisor::owned_under(contract, other, again),
    ensures
        owner.workflow_id@ == contract.workflow_id@ && owner.generation == contract.generation,
        owner.workflow_id@ == again.workflow_id@ && owner.generation == again.generation,
        owner.todo_task_id@ == task,
        owner.todo_task_id@ == again.todo_task_id@ <==> task == other,
{
}

/// A plan is committed by a call of the todo tool that starts a list and works.
/// An error, another tool or another operation commits nothing.
pub proof fn law_plans_are_committed_by_starting_a_list(
    tool: Seq<char>,
    is_error: bool,
    details: JsonModel,
)
    ensures
        !supervisor::commits_plan(tool, true, Some(details)),
        !supervisor::commits_plan(tool, is_error, None),
        tool != "todo"@ ==> !supervisor::commits_plan(tool, is_error, Some(details)),
        json::text_under(details, "op"@) != Some("init"@) ==> !supervisor::commits_plan(
            tool,
            is_error,
            Some(details),
        ),
        json::text_under(details, "op"@) == Some("init"@) ==> supervisor::commits_plan(
            "todo"@,
            false,
            Some(details),
        ),
{
}

/// Statuses are told apart by name.
pub proof fn law_statuses_are_told_apart(a: AgentStatus, b: AgentStatus, x: JobStatus, y: JobStatus)
    ensures
        a.variant() == b.variant() <==> a == b,
        x.variant() == y.variant() <==> x == y,
        AgentStatus::Running.variant() == JobStatus::Running.variant(),
        AgentStatus::Queued.variant() == JobStatus::Queued.variant(),
        JobStatus::Completed.variant() == "Completed"@,
        JobStatus::Failed.variant() == "Failed"@,
        JobStatus::Cancelled.variant() == "Cancelled"@,
        JobStatus::Running.variant() == "Running"@,
        AgentStatus::Idle.variant() == "Idle"@,
        AgentStatus::Parked.variant() == "Parked"@,
        JobStatus::Queued.variant() == "Queued"@,
{
    reveal_strlit("Idle");
    reveal_strlit("Queued");
    reveal_strlit("Running");
    reveal_strlit("Parked");
    reveal_strlit("Completed");
    reveal_strlit("Failed");
    reveal_strlit("Cancelled");
    if a.variant() == b.variant() {
        assert(a.variant().len() == b.variant().len() && a.variant()[0] == b.variant()[0]);
    }
    if x.variant() == y.variant() {
        assert(x.variant().len() == y.variant().len() && x.variant()[0] == y.variant()[0]
            && x.variant()[1] == y.variant()[1]);
    }
}

/// What is shown of an agent depends on its status and on whether it has a task,
/// and tells both.
pub proof fn law_agents_show_their_status_alone(kind: Seq<char>, a: AgentStatus, summary: bool)
    ensures
        detail::shown_agent(kind, a, true) == kind + " { status: "@ + a.variant()
            + ", has_task_summary: "@ + "true"@ + ", .. }"@,
        detail::shown_agent(kind, a, false) == kind + " { status: "@ + a.variant()
            + ", has_task_summary: "@ + "false"@ + ", .. }"@,
{
}

/// Ids have the shape of a UUID, and every such id is a valid one.
pub proof fn law_uuids_are_hexadecimal_groups(s: Seq<char>, i: int)
    requires
        manager::uuid_text(s),
        0 <= i < s.len(),
    ensures
        s.len() == 8 + 1 + 4 + 1 + 4 + 1 + 4 + 1 + 12,
        s[i] == '-' <==> i == 8 || i == 13 || i == 18 || i == 23,
        s[i] != '-' ==> ('0' <= s[i] <= '9') || ('a' <= s[i] <= 'f'),
{
}

} // verus!
