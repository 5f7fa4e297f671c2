//! What the notebook tool promises.

use crate::json;
use crate::json::JsonModel;
use crate::text;
use crate::tools::notebook;
use crate::tools::notebook::{CellError, CellResult, EvalErrorKind, NotebookAction, ToolCapability};
use crate::tools::notebook_edit;
use crate::tools::notebook_run;
use crate::tools::notebook_run::{EndModel, RunModel};
use vstd::prelude::*;
use vstd::string::*;

verus! {

// ---------------------------------------------------------------------------
// Calls
// ---------------------------------------------------------------------------

/// A call goes ahead if and only if it names a path and an action, in any case
/// and with any space around it, and the capability of that action is granted:
/// reading to read, writing to edit, running to execute.
pub proof fn law_calls_need_a_path_an_action_and_a_capability(
    action: Seq<char>,
    path: Seq<char>,
    granted: Seq<ToolCapability>,
)
    ensures
        ({
            let asked = text::ascii_lower(text::trimmed(action));
            notebook::refusal(action, path, granted) is None <==> !text::blank(path) && {
                ||| asked == "read"@ && granted.contains(ToolCapability::Read)
                ||| asked == "execute"@ && granted.contains(ToolCapability::Exec)
                ||| asked == "edit"@ && granted.contains(ToolCapability::Write)
            }
        }),
        notebook::action_named("read"@) == Some(NotebookAction::Read),
        notebook::action_named("execute"@) == Some(NotebookAction::Execute),
        notebook::action_named("edit"@) == Some(NotebookAction::Edit),
{
    reveal_strlit("read");
    reveal_strlit("execute");
    reveal_strlit("edit");
    assert("execute"@.len() == 7 && "read"@.len() == 4 && "edit"@.len() == 4);
    assert("read"@[0] == 'r' && "edit"@[0] == 'e');
    let asked = text::ascii_lower(text::trimmed(action));
    assert(asked == "read"@ ==> notebook::needed(asked) == Some(ToolCapability::Read));
    assert(asked == "execute"@ ==> notebook::needed(asked) == Some(ToolCapability::Exec));
    assert(asked == "edit"@ ==> notebook::needed(asked) == Some(ToolCapability::Write));
}

/// A refusal tells the first thing that is wrong: a missing path, then a missing
/// or unknown action, then a capability that is not granted.
pub proof fn law_refusals_tell_what_is_wrong(
    action: Seq<char>,
    path: Seq<char>,
    granted: Seq<ToolCapability>,
)
    ensures
        ({
            let asked = text::ascii_lower(text::trimmed(action));
            let told = notebook::refusal(action, path, granted);
            let known = asked == "read"@ || asked == "execute"@ || asked == "edit"@;
            &&& text::blank(path) ==> told == Some("notebook requires a `path` (.ipynb file)"@)
            &&& !text::blank(path) && asked.len() == 0 && !known ==> told == Some(
                "notebook action is required (one of: "@ + "read, execute, edit"@ + ")"@,
            )
            &&& !text::blank(path) && asked.len() > 0 && !known ==> told == Some(
                "unknown notebook action `"@ + asked + "` (one of: "@ + "read, execute, edit"@
                    + ")"@,
            )
            &&& !text::blank(path) && known && told is Some ==> told == Some(
                "notebook `"@ + asked + "` requires the "@ + (if asked == "read"@ {
                    "read"@
                } else if asked == "edit"@ {
                    "write"@
                } else {
                    "exec"@
                }) + " capability, which is not granted to this session"@,
            )
        }),
{
    reveal_strlit("read");
    reveal_strlit("execute");
    reveal_strlit("edit");
    assert("execute"@.len() == 7 && "read"@.len() == 4 && "edit"@.len() == 4);
    assert("read"@[0] == 'r' && "edit"@[0] == 'e');
}

// ---------------------------------------------------------------------------
// Outputs
// ---------------------------------------------------------------------------

/// Whether an output is a stream of the given name that holds the given text.
pub open spec fn is_stream(output: JsonModel, name: Seq<char>, stream: Seq<char>) -> bool {
    &&& json::text_under(output, "output_type"@) == Some("stream"@)
    &&& json::text_under(output, "name"@) == Some(name)
    &&& json::text_under(output, "text"@) == Some(stream)
}

/// Whether an output is a result that reads as the given text.
pub open spec fn is_result(output: JsonModel, result: Seq<char>) -> bool {
    &&& json::text_under(output, "output_type"@) == Some("execute_result"@)
    &&& json::at(output, "execution_count"@) == Some(JsonModel::Null)
    &&& json::at(output, "metadata"@) == Some(JsonModel::Object(Seq::empty()))
    &&& json::at(output, "data"@) matches Some(data) && json::text_under(data, "text/plain"@)
        == Some(result)
}

/// Whether an output is an error of the given name and text.
pub open spec fn is_error(output: JsonModel, name: Seq<char>, message: Seq<char>) -> bool {
    &&& json::text_under(output, "output_type"@) == Some("error"@)
    &&& json::text_under(output, "ename"@) == Some(name)
    &&& json::text_under(output, "evalue"@) == Some(message)
    &&& json::list_under(output, "traceback"@) == Some(seq![JsonModel::Text(message)])
}

proof fn lemma_at(members: Seq<(Seq<char>, JsonModel)>, key: Seq<char>, i: int)
    requires
        json::first_key(members, key, i),
        i < members.len(),
    ensures
        json::at(JsonModel::Object(members), key) == Some(members[i].1),
{
    json::lemma_first_key(members, key, JsonModel::Null, i);
}

proof fn lemma_stream(name: Seq<char>, stream: Seq<char>)
    ensures
        is_stream(notebook::stream_output(name, stream), name, stream),
{
    reveal_strlit("output_type");
    reveal_strlit("name");
    reveal_strlit("text");
    assert("output_type"@.len() == 11 && "name"@.len() == 4 && "text"@.len() == 4);
    assert("name"@[0] == 'n' && "text"@[0] == 't');
    let members = notebook::stream_output(name, stream)->Object_0;
    lemma_at(members, "output_type"@, 0);
    lemma_at(members, "name"@, 1);
    lemma_at(members, "text"@, 2);
}

proof fn lemma_result(result: Seq<char>)
    ensures
        is_result(notebook::result_output(result), result),
{
    reveal_strlit("output_type");
    reveal_strlit("execution_count");
    reveal_strlit("metadata");
    reveal_strlit("data");
    assert("output_type"@.len() == 11 && "execution_count"@.len() == 15 && "metadata"@.len() == 8
        && "data"@.len() == 4);
    let members = notebook::result_output(result)->Object_0;
    lemma_at(members, "output_type"@, 0);
    lemma_at(members, "execution_count"@, 1);
    lemma_at(members, "metadata"@, 2);
    lemma_at(members, "data"@, 3);
    lemma_at(members[3].1->Object_0, "text/plain"@, 0);
}

proof fn lemma_error(e: CellError)
    ensures
        is_error(notebook::error_entry(e), notebook::error_name(e.kind), e.text@),
{
    reveal_strlit("output_type");
    reveal_strlit("ename");
    reveal_strlit("evalue");
    reveal_strlit("traceback");
    assert("output_type"@.len() == 11 && "ename"@.len() == 5 && "evalue"@.len() == 6
        && "traceback"@.len() == 9);
    let members = notebook::error_entry(e)->Object_0;
    lemma_at(members, "output_type"@, 0);
    lemma_at(members, "ename"@, 1);
    lemma_at(members, "evalue"@, 2);
    lemma_at(members, "traceback"@, 3);
}

/// The written outputs are the streams of a cell that are not empty, its result
/// and its error, in this order and nothing else: each stream under its own name
/// with exactly its text, the result with its text, the error with its name and
/// message.
pub proof fn law_outputs_hold_what_the_cell_gave(cell: CellResult)
    ensures
        ({
            let outputs = notebook::outputs_of(cell);
            let a: int = if cell.stdout@.len() > 0 {
                1
            } else {
                0
            };
            let b: int = if cell.stderr@.len() > 0 {
                a + 1
            } else {
                a
            };
            let c: int = if cell.result is Some {
                b + 1
            } else {
                b
            };
            let d: int = if cell.error is Some {
                c + 1
            } else {
                c
            };
            &&& outputs.len() == d
            &&& cell.stdout@.len() > 0 ==> is_stream(outputs[0], "stdout"@, cell.stdout@)
            &&& cell.stderr@.len() > 0 ==> is_stream(outputs[a], "stderr"@, cell.stderr@)
            &&& cell.result matches Some(s) ==> is_result(outputs[b], s@)
            &&& cell.error matches Some(e) ==> is_error(
                outputs[c],
                match e.kind {
                    EvalErrorKind::Syntax => "SyntaxError"@,
                    EvalErrorKind::Runtime => "RuntimeError"@,
                    EvalErrorKind::Timeout => "TimeoutError"@,
                },
                e.text@,
            )
        }),
{
    lemma_stream("stdout"@, cell.stdout@);
    lemma_stream("stderr"@, cell.stderr@);
    if let Some(s) = cell.result {
        lemma_result(s@);
    }
    if let Some(e) = cell.error {
        lemma_error(e);
    }
}

/// What is reported of a cell begins with how it ended, and then has each stream
/// that is not empty under its own label, the result and the error, in this
/// order.
pub proof fn law_reports_hold_what_the_cell_gave(cell: CellResult)
    ensures
        ({
            let told = notebook::reported(cell);
            let head = match cell.error {
                None => "ok"@,
                Some(e) => if e.kind == EvalErrorKind::Syntax {
                    "syntax error"@
                } else if e.kind == EvalErrorKind::Runtime {
                    "runtime error"@
                } else {
                    "timeout"@
                },
            };
            let out = if cell.stdout@.len() > 0 {
                "\nstdout: "@ + text::trim_end_of(cell.stdout@)
            } else {
                Seq::empty()
            };
            let err = if cell.stderr@.len() > 0 {
                "\nstderr: "@ + text::trim_end_of(cell.stderr@)
            } else {
                Seq::empty()
            };
            let result = match cell.result {
                Some(s) => "\nresult: "@ + s@,
                None => Seq::empty(),
            };
            let error = match cell.error {
                Some(e) => "\nerror:\n"@ + text::trim_end_of(e.text@),
                None => Seq::empty(),
            };
            let a = head.len() as int;
            let b = a + out.len();
            let c = b + err.len();
            let d = c + result.len();
            &&& told.len() == d + error.len()
            &&& told.subrange(0, a) == head
            &&& told.subrange(a, b) == out
            &&& told.subrange(b, c) == err
            &&& told.subrange(c, d) == result
            &&& told.skip(d) == error
        }),
{
    let told = notebook::reported(cell);
    let head = notebook::headline(cell);
    let out = notebook::stream_part("\nstdout: "@, cell.stdout@);
    let err = notebook::stream_part("\nstderr: "@, cell.stderr@);
    let result = match cell.result {
        Some(s) => "\nresult: "@ + s@,
        None => Seq::empty(),
    };
    let a = head.len() as int;
    let b = a + out.len();
    let c = b + err.len();
    let d = c + result.len();
    assert(told.subrange(0, a) =~= head);
    assert(told.subrange(a, b) =~= out);
    assert(told.subrange(b, c) =~= err);
    assert(told.subrange(c, d) =~= result);
}

/// A cell ran out of time if and only if its error says so.
pub proof fn law_timeouts_are_errors(cell: CellResult)
    ensures
        cell.timed_out() <==> cell.error is Some && cell.error->0.kind == EvalErrorKind::Timeout,
{
}

// ---------------------------------------------------------------------------
// Reading
// ---------------------------------------------------------------------------

/// The source of a cell is its text, or the texts of its list one behind the
/// other; anything else has none.
pub proof fn law_sources_are_put_together(
    text: Seq<char>,
    lines: Seq<JsonModel>,
    more: Seq<JsonModel>,
)
    ensures
        notebook::source_text(Some(JsonModel::Text(text))) == text,
        notebook::source_text(None).len() == 0,
        notebook::source_text(Some(JsonModel::List(seq![JsonModel::Text(text)]))) == text,
        notebook::source_text(Some(JsonModel::List(lines + more))) == notebook::source_text(
            Some(JsonModel::List(lines)),
        ) + notebook::source_text(Some(JsonModel::List(more))),
{
    lemma_all_text(lines, more);
    let one = seq![JsonModel::Text(text)];
    assert(one.drop_last() =~= Seq::<JsonModel>::empty());
    assert(notebook::all_text(one.drop_last()) =~= Seq::<char>::empty());
    assert(notebook::all_text(one) =~= text);
}

proof fn lemma_all_text(a: Seq<JsonModel>, b: Seq<JsonModel>)
    ensures
        notebook::all_text(a + b) == notebook::all_text(a) + notebook::all_text(b),
    decreases b.len(),
{
    if b.len() > 0 {
        lemma_all_text(a, b.drop_last());
        assert((a + b).drop_last() =~= a + b.drop_last());
        assert((a + b).last() == b.last());
        let last = match b.last() {
            JsonModel::Text(s) => s,
            _ => Seq::empty(),
        };
        assert(notebook::all_text(a) + notebook::all_text(b.drop_last()) + last
            =~= notebook::all_text(a) + (notebook::all_text(b.drop_last()) + last));
    } else {
        assert(a + b =~= a);
        assert(notebook::all_text(a) + notebook::all_text(b) =~= notebook::all_text(a));
    }
}

/// The type of a cell is what it says, and `code` where it says none.
pub proof fn law_cells_are_code_unless_they_say_otherwise(cell: JsonModel)
    ensures
        json::at(cell, "cell_type"@) matches Some(JsonModel::Text(kind)) ==> notebook::cell_kind(
            cell,
        ) == kind,
        !(json::at(cell, "cell_type"@) matches Some(JsonModel::Text(_))) ==> notebook::cell_kind(
            cell,
        ) == "code"@,
{
}

/// A short source is shown whole; of a long one the first two hundred characters
/// are, with a mark that it goes on.
pub proof fn law_previews_show_the_start(source: Seq<char>)
    ensures
        source.len() <= 200 ==> notebook::preview(source) == source,
        source.len() > 200 ==> notebook::preview(source).len() == 203 && notebook::preview(
            source,
        ).take(200) == source.take(200) && notebook::preview(source).skip(200) == "..."@,
{
    reveal_strlit("...");
    assert("..."@.len() == 3);
    if source.len() > 200 {
        assert(notebook::preview(source).take(200) =~= source.take(200));
        assert(notebook::preview(source).skip(200) =~= "..."@);
    }
}

/// An output is an error if and only if its type says so, and a list includes an
/// error if and only if one of its outputs is one.
pub proof fn law_errors_are_found(outputs: Seq<JsonModel>)
    ensures
        notebook::any_error(outputs) <==> exists|i: int|
            0 <= i < outputs.len() && json::text_under(#[trigger] outputs[i], "output_type"@)
                == Some("error"@),
{
    if notebook::any_error(outputs) {
        let i = choose|i: int|
            0 <= i < outputs.len() && notebook::error_output(#[trigger] outputs[i]);
        assert(json::text_under(outputs[i], "output_type"@) == Some("error"@));
    }
    if exists|i: int|
        0 <= i < outputs.len() && json::text_under(#[trigger] outputs[i], "output_type"@) == Some(
            "error"@,
        ) {
        let i = choose|i: int|
            0 <= i < outputs.len() && json::text_under(#[trigger] outputs[i], "output_type"@)
                == Some("error"@);
        assert(notebook::error_output(outputs[i]));
    }
}

/// The line of a cell begins with its index and type; only code has a count of
/// outputs, and a mark where one of them is an error.
pub proof fn law_cells_are_introduced(index: nat, cell: JsonModel, outputs: Seq<JsonModel>)
    requires
        json::list_under(cell, "outputs"@) == Some(outputs),
    ensures
        ({
            let line = notebook::cell_line(index, cell);
            let kind = notebook::cell_kind(cell);
            let front = "["@ + text::numeral(index) + "] "@ + kind;
            let count = " ("@ + text::numeral(outputs.len()) + " outputs"@;
            &&& kind != "code"@ ==> line == front + "\n"@
            &&& kind == "code"@ && !notebook::any_error(outputs) ==> line == front + (count + ")\n"@)
            &&& kind == "code"@ && notebook::any_error(outputs) ==> line == front + (count
                + ", includes error)\n"@)
        }),
{
    reveal_strlit("");
    reveal_strlit(")");
    reveal_strlit("\n");
    reveal_strlit(")\n");
    reveal_strlit(", includes error");
    reveal_strlit(", includes error)\n");
    let line = notebook::cell_line(index, cell);
    let kind = notebook::cell_kind(cell);
    let front = "["@ + text::numeral(index) + "] "@ + kind;
    let count = " ("@ + text::numeral(outputs.len()) + " outputs"@;
    assert(")"@ + "\n"@ =~= ")\n"@);
    assert(", includes error"@ + (")"@ + "\n"@) =~= ", includes error)\n"@);
    if kind != "code"@ {
        assert(line =~= front + "\n"@);
    } else if notebook::any_error(outputs) {
        assert(line =~= front + (count + (", includes error"@ + (")"@ + "\n"@))));
    } else {
        assert(line =~= front + (count + (")"@ + "\n"@)));
    }
}

/// A listing shows the cells in their order, each under its own index: what is
/// shown of the first cells is the start of what is shown of more, and the next
/// cell comes right behind.
pub proof fn law_cells_are_listed_in_order(cells: Seq<JsonModel>, n: nat)
    requires
        n < cells.len(),
    ensures
        notebook::cell_blocks(cells, n + 1) == notebook::cell_blocks(cells, n)
            + notebook::cell_block(n, cells[n as int]),
        notebook::cell_blocks(cells, 0).len() == 0,
{
}

// ---------------------------------------------------------------------------
// Running
// ---------------------------------------------------------------------------

/// Without a cell to run, exactly the code cells run, in their order; with one,
/// that one does.
pub proof fn law_code_cells_run(cells: Seq<JsonModel>, i: int)
    ensures
        forall|k: int|
            0 <= k < cells.len() && notebook::cell_kind(#[trigger] cells[k]) == "code"@
                ==> notebook_run::selected(cells, None).contains(k as nat),
        forall|j: int|
            0 <= j < notebook_run::selected(cells, None).len() ==> {
                let k = #[trigger] notebook_run::selected(cells, None)[j];
                k < cells.len() && notebook::cell_kind(cells[k as int]) == "code"@
            },
        forall|j: int, k: int|
            0 <= j < k < notebook_run::selected(cells, None).len()
                ==> #[trigger] notebook_run::selected(cells, None)[j]
                < #[trigger] notebook_run::selected(cells, None)[k],
        forall|c: i64|
            c >= 0 ==> #[trigger] notebook_run::selected(cells, Some(c)) == seq![c as nat],
{
    lemma_code_cells(cells, cells.len());
}

proof fn lemma_code_cells(cells: Seq<JsonModel>, n: nat)
    requires
        n <= cells.len(),
    ensures
        forall|k: int|
            0 <= k < n && notebook::cell_kind(#[trigger] cells[k]) == "code"@
                ==> notebook_run::code_cells(cells, n).contains(k as nat),
        forall|j: int|
            0 <= j < notebook_run::code_cells(cells, n).len() ==> {
                let k = #[trigger] notebook_run::code_cells(cells, n)[j];
                k < n && notebook::cell_kind(cells[k as int]) == "code"@
            },
        forall|j: int, k: int|
            0 <= j < k < notebook_run::code_cells(cells, n).len()
                ==> #[trigger] notebook_run::code_cells(cells, n)[j]
                < #[trigger] notebook_run::code_cells(cells, n)[k],
    decreases n,
{
    if n > 0 {
        let m = (n - 1) as nat;
        lemma_code_cells(cells, m);
        let before = notebook_run::code_cells(cells, m);
        let all = notebook_run::code_cells(cells, n);
        assert forall|k: int|
            0 <= k < n && notebook::cell_kind(#[trigger] cells[k]) == "code"@ implies all.contains(
            k as nat,
        ) by {
            if k < m {
                assert(before.contains(k as nat));
                let j = choose|j: int| 0 <= j < before.len() && before[j] == k as nat;
                assert(all[j] == k as nat);
            } else {
                assert(all[all.len() - 1] == k as nat);
            }
        }
    }
}

/// The next cell to run is the first one that is left whose source is not blank;
/// blank ones are passed over and reported, and nothing else changes.
pub proof fn law_blank_cells_are_passed_over(m: RunModel)
    requires
        m.at <= m.indices.len(),
    ensures
        ({
            let after = m.skipped();
            &&& after.doc == m.doc
            &&& after.written == m.written
            &&& after.end == m.end
            &&& after.indices == m.indices
            &&& after.path == m.path
            &&& after.write == m.write
            &&& m.at <= after.at
            &&& m.report.is_prefix_of(after.report)
            &&& after.pending() matches Some(code) ==> !text::blank(code)
            &&& m.pending() matches Some(code) ==> (!text::blank(code) ==> after == m)
            &&& after.pending() is None && m.end is Running ==> after.at >= m.indices.len()
        }),
    decreases m.indices.len() - m.at,
{
    if let Some(code) = m.pending() {
        if text::blank(code) {
            let next = RunModel {
                at: m.at + 1,
                report: m.report + "["@ + text::numeral(m.indices[m.at as int])
                    + "] code cell is empty — skipped\n"@,
                ..m
            };
            law_blank_cells_are_passed_over(next);
            assert(m.report.is_prefix_of(next.report));
        }
    }
}

/// What the next cell gave is reported behind what was reported before, under
/// its own index, and the run goes on with the next cell. Only where outputs are
/// written does the document change, and only that cell counts as written.
pub proof fn law_cells_are_reported_under_their_index(m: RunModel, cell: CellResult)
    requires
        m.wf(),
        m.pending() is Some,
        !cell.timed_out(),
    ensures
        ({
            let after = m.accepted(Ok(cell));
            let index = m.indices[m.at as int];
            &&& after.report == m.report + ("["@ + text::numeral(index) + "] "@
                + notebook::reported(cell) + "\n"@)
            &&& after.at == m.at + 1
            &&& after.end is Running
            &&& m.write ==> after.written == m.written + 1
            &&& !m.write ==> after.doc == m.doc && after.written == m.written
        }),
{
    let after = m.accepted(Ok(cell));
    let index = text::numeral(m.indices[m.at as int]);
    assert(after.report =~= m.report + ("["@ + index + "] "@ + notebook::reported(cell) + "\n"@));
}

/// Where outputs are written, the cell that ran has exactly what it gave as its
/// outputs, and the number of the cells written so far as its execution count.
pub proof fn law_written_cells_hold_their_outputs(m: RunModel, cell: CellResult)
    requires
        m.wf(),
        m.pending() is Some,
        m.current() is Object,
        m.doc is Object,
        m.write,
        !cell.timed_out(),
        m.written < 0xffff_ffff,
    ensures
        ({
            let after = m.accepted(Ok(cell));
            let index = m.indices[m.at as int] as int;
            &&& notebook::cells_of(after.doc) matches Some(cells) && {
                &&& cells.len() == notebook::cells_of(m.doc)->0.len()
                &&& json::list_under(cells[index], "outputs"@) == Some(notebook::outputs_of(cell))
                &&& json::unsigned_under(cells[index], "execution_count"@) == Some(
                    (m.written + 1) as u64,
                )
                &&& forall|k: int|
                    0 <= k < cells.len() && k != index ==> #[trigger] cells[k]
                        == notebook::cells_of(m.doc)->0[k]
            }
        }),
{
    reveal_strlit("outputs");
    reveal_strlit("execution_count");
    assert("outputs"@.len() == 7 && "execution_count"@.len() == 15);
    let outputs = JsonModel::List(notebook::outputs_of(cell));
    let count = json::whole((m.written + 1) as u64);
    let first = json::with_field(m.current(), "outputs"@, outputs);
    json::law_set_is_read_back(m.current(), "outputs"@, outputs, "execution_count"@);
    json::law_set_is_read_back(first, "execution_count"@, count, "outputs"@);
    let value = json::with_field(first, "execution_count"@, count);
    let index = m.indices[m.at as int] as int;
    let cells = notebook::cells_of(m.doc)->0.update(index, value);
    json::law_set_is_read_back(m.doc, "cells"@, JsonModel::List(cells), "outputs"@);
}

/// A kernel that fails ends the run and says in which cell and why; a cell that
/// runs out of time ends it too, is reported, and has nothing written.
pub proof fn law_failures_end_the_run(m: RunModel, e: String, cell: CellResult)
    requires
        m.wf(),
        m.pending() is Some,
        cell.timed_out(),
    ensures
        m.accepted(Err(e)).end == EndModel::Failed(
            "notebook execute failed in cell "@ + text::numeral(m.indices[m.at as int]) + ": "@
                + e@,
        ),
        m.accepted(Err(e)).doc == m.doc,
        m.accepted(Err(e)).pending() is None,
        m.accepted(Ok(cell)).end is TimedOut,
        m.accepted(Ok(cell)).pending() is None,
        m.accepted(Ok(cell)).doc == m.doc,
        m.accepted(Ok(cell)).written == m.written,
        (m.report + "["@ + text::numeral(m.indices[m.at as int]) + "] "@ + notebook::reported(
            cell,
        )).is_prefix_of(m.accepted(Ok(cell)).report),
{
}

/// A run tells where it wrote if and only if it wrote something.
pub proof fn law_writing_is_told(m: RunModel)
    ensures
        m.written == 0 ==> m.text() == m.report,
        m.written > 0 ==> m.text() == m.report + ("wrote outputs to "@ + m.path + "\n"@),
{
    if m.written > 0 {
        assert(m.text() =~= m.report + ("wrote outputs to "@ + m.path + "\n"@));
    }
}

// ---------------------------------------------------------------------------
// Editing
// ---------------------------------------------------------------------------

/// A cell can be added if and only if it is markdown, code or raw, markdown where
/// nothing is said, and its source is not blank.
pub proof fn law_cells_need_a_known_type_and_a_source(cell_type: Seq<char>, source: Seq<char>)
    ensures
        ({
            let kind = text::ascii_lower(cell_type);
            notebook_edit::edit_refusal(cell_type, source) is None <==> !text::blank(source) && (
            cell_type.len() == 0 || kind == "markdown"@ || kind == "code"@ || kind == "raw"@)
        }),
        cell_type.len() == 0 ==> notebook_edit::asked_type(cell_type) == "markdown"@,
        cell_type.len() > 0 ==> notebook_edit::asked_type(cell_type) == text::ascii_lower(
            cell_type,
        ),
{
}

/// A source is kept line by line: every line but the last ends in a line break,
/// and a line break stands nowhere else.
pub proof fn law_sources_are_kept_by_line(source: Seq<char>)
    ensures
        ({
            let lines = notebook_edit::source_lines(source);
            &&& lines.len() > 0
            &&& forall|i: int|
                0 <= i < lines.len() - 1 ==> (#[trigger] lines[i]).len() > 0 && lines[i].last()
                    == '\n'
            &&& forall|i: int, j: int|
                0 <= i < lines.len() && 0 <= j < lines[i].len() - 1 ==> #[trigger] lines[i][j]
                    != '\n'
        }),
{
    text::lemma_split_nonempty(source, '\n');
    text::lemma_split_pieces(source, '\n');
    let pieces = text::split_on(source, '\n');
    let lines = notebook_edit::source_lines(source);
    assert forall|i: int, j: int|
        0 <= i < lines.len() && 0 <= j < lines[i].len() - 1 implies #[trigger] lines[i][j]
        != '\n' by {
        assert(!pieces[i].contains('\n'));
        assert(lines[i][j] == pieces[i][j]);
    }
}

/// A new cell has its type, no metadata and its source; code has no outputs and
/// no count yet, and nothing else has either.
pub proof fn law_new_cells_are_plain(cell_type: Seq<char>, source: Seq<char>)
    ensures
        ({
            let cell = notebook_edit::cell_model(cell_type, source);
            &&& json::text_under(cell, "cell_type"@) == Some(cell_type)
            &&& json::at(cell, "metadata"@) == Some(JsonModel::Object(Seq::empty()))
            &&& notebook::source_of(cell) == source
            &&& cell_type == "code"@ ==> json::list_under(cell, "outputs"@) == Some(
                Seq::<JsonModel>::empty(),
            ) && json::at(cell, "execution_count"@) == Some(JsonModel::Null)
            &&& cell_type != "code"@ ==> json::at(cell, "outputs"@) is None && json::at(
                cell,
                "execution_count"@,
            ) is None
        }),
{
    reveal_strlit("cell_type");
    reveal_strlit("metadata");
    reveal_strlit("source");
    reveal_strlit("outputs");
    reveal_strlit("execution_count");
    assert("cell_type"@.len() == 9 && "metadata"@.len() == 8 && "source"@.len() == 6
        && "outputs"@.len() == 7 && "execution_count"@.len() == 15);
    let members = notebook_edit::cell_model(cell_type, source)->Object_0;
    notebook_edit::law_source_is_read_back(source);
    lemma_at(members, "cell_type"@, 0);
    lemma_at(members, "metadata"@, 1);
    lemma_at(members, "source"@, 2);
    if cell_type == "code"@ {
        lemma_at(members, "outputs"@, 3);
        lemma_at(members, "execution_count"@, 4);
    } else {
        json::lemma_first_key(members, "outputs"@, JsonModel::Null, 3);
        json::lemma_first_key(members, "execution_count"@, JsonModel::Null, 3);
    }
}

/// A cell is shown by its line, and by the start of its source, indented, where
/// there is any.
pub proof fn law_cells_show_their_source(index: nat, cell: JsonModel)
    ensures
        ({
            let shown = notebook::preview(notebook::source_of(cell));
            let line = notebook::cell_line(index, cell);
            &&& shown.len() == 0 ==> notebook::cell_block(index, cell) == line
            &&& shown.len() > 0 ==> notebook::cell_block(index, cell) == line + ("    "@
                + notebook::indented(shown) + "\n"@)
        }),
{
    reveal_strlit("");
    let line = notebook::cell_line(index, cell);
    assert(line + ""@ =~= line);
}

} // verus!
