//! Jupyter notebooks: which cells run, what is reported and what is written back.
//!
//! A notebook is a JSON document. Reading it, running a cell in a kernel and
//! writing the document back are up to the caller; everything between is here.

use crate::json;
use crate::json::{push_item, push_member, text_json, Json, JsonModel};
use crate::lexical_path;
use crate::lexical_path::is_absolute;
use crate::text;
use crate::text::{
    byte_count, chars_of, decimal, is_blank, same_text, split, take_chars, to_ascii_lower, trim,
    trim_end,
};
use crate::truncate;
use crate::truncate::truncate_tail;
use crate::workflow::store;
use crate::workflow::store::join_path;
use vstd::prelude::*;
use vstd::string::*;

verus! {

/// Files larger than this are refused, before any of them is read.
pub const MAX_NOTEBOOK_BYTES: u64 = 8388608;

/// Cap on a rendered result.
pub const OUTPUT_MAX_BYTES: usize = 32768;

/// Cap on the lines of a rendered result.
pub const OUTPUT_MAX_LINES: usize = 500;

/// Cap on the cells that are shown.
pub const MAX_RENDER_CELLS: usize = 200;

/// Cap on the source that is shown of a cell.
pub const CELL_PREVIEW_CHARS: usize = 200;

/// Cap on the metadata that is shown.
pub const METADATA_MAX_BYTES: usize = 400;

pub const ACTIONS: &'static str = "read, execute, edit";

// ---------------------------------------------------------------------------
// Actions and capabilities
// ---------------------------------------------------------------------------

/// What a tool may do.
#[derive(Clone, Copy, Debug, PartialEq, Eq, Structural)]
pub enum ToolCapability {
    Read,
    Write,
    Exec,
}

impl ToolCapability {
    pub open spec fn name(self) -> Seq<char> {
        match self {
            ToolCapability::Read => "read"@,
            ToolCapability::Write => "write"@,
            ToolCapability::Exec => "exec"@,
        }
    }
}

/// What a call of the tool asks for.
#[derive(Clone, Copy, Debug, PartialEq, Eq, Structural)]
pub enum NotebookAction {
    Read,
    Execute,
    Edit,
}

impl NotebookAction {
    /// The capability that the action needs.
    pub open spec fn needs(self) -> ToolCapability {
        match self {
            NotebookAction::Read => ToolCapability::Read,
            NotebookAction::Execute => ToolCapability::Exec,
            NotebookAction::Edit => ToolCapability::Write,
        }
    }
}

/// The action with the given name.
pub open spec fn action_named(action: Seq<char>) -> Option<NotebookAction> {
    if action == "read"@ {
        Some(NotebookAction::Read)
    } else if action == "execute"@ {
        Some(NotebookAction::Execute)
    } else if action == "edit"@ {
        Some(NotebookAction::Edit)
    } else {
        None
    }
}

/// The capability that the action with the given name needs.
pub open spec fn needed(action: Seq<char>) -> Option<ToolCapability> {
    match action_named(action) {
        Some(a) => Some(a.needs()),
        None => None,
    }
}

fn action_of(action: &str) -> (r: Option<NotebookAction>)
    ensures
        r == action_named(action@),
{
    if same_text(action, "read") {
        Some(NotebookAction::Read)
    } else if same_text(action, "execute") {
        Some(NotebookAction::Execute)
    } else if same_text(action, "edit") {
        Some(NotebookAction::Edit)
    } else {
        None
    }
}

/// The capability that an action needs: reading a file, running code or
/// rewriting a file.
pub fn action_capability(action: &str) -> (r: Option<ToolCapability>)
    ensures
        r == needed(action@),
{
    match action_of(action) {
        Some(NotebookAction::Read) => Some(ToolCapability::Read),
        Some(NotebookAction::Execute) => Some(ToolCapability::Exec),
        Some(NotebookAction::Edit) => Some(ToolCapability::Write),
        None => None,
    }
}

/// The name of a capability.
pub fn capability_name(capability: ToolCapability) -> (r: &'static str)
    ensures
        r@ == capability.name(),
{
    match capability {
        ToolCapability::Read => "read",
        ToolCapability::Write => "write",
        ToolCapability::Exec => "exec",
    }
}

/// Every capability.
pub fn all_capabilities() -> (r: Vec<ToolCapability>)
    ensures
        r@ == seq![ToolCapability::Read, ToolCapability::Write, ToolCapability::Exec],
{
    let mut r: Vec<ToolCapability> = Vec::new();
    r.push(ToolCapability::Read);
    r.push(ToolCapability::Write);
    r.push(ToolCapability::Exec);
    r
}

fn is_granted(granted: &Vec<ToolCapability>, capability: ToolCapability) -> (r: bool)
    ensures
        r == granted@.contains(capability),
{
    let mut i: usize = 0;
    while i < granted.len()
        invariant
            i <= granted@.len(),
            forall|j: int| 0 <= j < i ==> granted@[j] != capability,
        decreases granted@.len() - i,
    {
        if granted[i] == capability {
            return true;
        }
        i += 1;
    }
    false
}

/// Why a call is refused before anything is read, in the order of the checks.
pub open spec fn refusal(
    action: Seq<char>,
    path: Seq<char>,
    granted: Seq<ToolCapability>,
) -> Option<Seq<char>> {
    let action = text::ascii_lower(text::trimmed(action));
    if text::blank(path) {
        Some("notebook requires a `path` (.ipynb file)"@)
    } else {
        match needed(action) {
            None => if action.len() == 0 {
                Some("notebook action is required (one of: "@ + ACTIONS@ + ")"@)
            } else {
                Some("unknown notebook action `"@ + action + "` (one of: "@ + ACTIONS@ + ")"@)
            },
            Some(capability) => if granted.contains(capability) {
                None
            } else {
                Some(
                    "notebook `"@ + action + "` requires the "@ + capability.name()
                        + " capability, which is not granted to this session"@,
                )
            },
        }
    }
}

/// Checks a call before anything is read: the path, the action, and whether the
/// capability that it needs is granted.
pub fn run_notebook(action: &str, path: &str, granted: &Vec<ToolCapability>) -> (r: Result<
    NotebookAction,
    String,
>)
    ensures
        match r {
            Ok(a) => refusal(action@, path@, granted@) is None && action_named(
                text::ascii_lower(text::trimmed(action@)),
            ) == Some(a),
            Err(e) => refusal(action@, path@, granted@) == Some(e@),
        },
{
    let action = to_ascii_lower(trim(action).as_str());
    if is_blank(path) {
        return Err("notebook requires a `path` (.ipynb file)".to_owned());
    }
    match (action_of(action.as_str()), action_capability(action.as_str())) {
        (Some(a), Some(capability)) => {
            if is_granted(granted, capability) {
                Ok(a)
            } else {
                Err(
                    "notebook `".to_owned().concat(action.as_str()).concat(
                        "` requires the ",
                    ).concat(capability_name(capability)).concat(
                        " capability, which is not granted to this session",
                    ),
                )
            }
        },
        _ => {
            if action.as_str().is_empty() {
                Err("notebook action is required (one of: ".to_owned().concat(ACTIONS).concat(")"))
            } else {
                Err(
                    "unknown notebook action `".to_owned().concat(action.as_str()).concat(
                        "` (one of: ",
                    ).concat(ACTIONS).concat(")"),
                )
            }
        },
    }
}

/// A call goes ahead only where the capability that its action needs is granted:
/// reading does not give editing or running, and running gives neither reading
/// nor editing.
pub proof fn law_actions_need_their_capability(
    action: Seq<char>,
    path: Seq<char>,
    granted: Seq<ToolCapability>,
)
    requires
        refusal(action, path, granted) is None,
    ensures
        action_named(text::ascii_lower(text::trimmed(action))) matches Some(a) && granted.contains(
            a.needs(),
        ),
{
}

// ---------------------------------------------------------------------------
// The document
// ---------------------------------------------------------------------------

/// Where a notebook lies.
pub open spec fn placed(cwd: Seq<char>, path: Seq<char>) -> Seq<char> {
    if lexical_path::absolute(path) {
        path
    } else {
        store::joined(cwd, path)
    }
}

/// Resolves a path against the working directory.
pub fn resolve_path(cwd: &str, path: &str) -> (r: String)
    ensures
        r@ == placed(cwd@, path@),
{
    if is_absolute(path) {
        path.to_owned()
    } else {
        join_path(cwd, path)
    }
}

/// Why a file is too large to read, if it is.
pub open spec fn size_fault(path: Seq<char>, bytes: u64) -> Option<Seq<char>> {
    if bytes <= MAX_NOTEBOOK_BYTES {
        None
    } else {
        Some(
            "notebook "@ + path + " is "@ + text::numeral(bytes as nat)
                + " bytes, exceeding the 8 MiB bound"@,
        )
    }
}

/// Refuses a file that is too large to read.
pub fn check_size(path: &str, bytes: u64) -> (r: Result<(), String>)
    ensures
        r is Ok <==> size_fault(path@, bytes) is None,
        r matches Err(e) ==> size_fault(path@, bytes) == Some(e@),
        r is Ok <==> bytes <= MAX_NOTEBOOK_BYTES,
        r matches Err(e) ==> e@ == "notebook "@ + path@ + " is "@ + text::numeral(bytes as nat)
            + " bytes, exceeding the 8 MiB bound"@,
{
    if bytes > MAX_NOTEBOOK_BYTES {
        Err(
            "notebook ".to_owned().concat(path).concat(" is ").concat(
                decimal(bytes).as_str(),
            ).concat(" bytes, exceeding the 8 MiB bound"),
        )
    } else {
        Ok(())
    }
}

/// The cells of a notebook.
pub open spec fn cells_of(doc: JsonModel) -> Option<Seq<JsonModel>> {
    json::list_under(doc, "cells"@)
}

/// Refuses a document that is no notebook.
pub fn check_cells(path: &str, doc: &Json) -> (r: Result<(), String>)
    ensures
        r is Ok <==> cells_of(doc@) is Some,
        r matches Err(e) ==> e@ == path@ + " is not a Jupyter notebook: missing `cells` array"@,
{
    match doc.list_at("cells") {
        Some(_) => Ok(()),
        None => Err(
            path.to_owned().concat(" is not a Jupyter notebook: missing `cells` array"),
        ),
    }
}

/// The type of a cell; `code` where it says none.
pub open spec fn cell_kind(cell: JsonModel) -> Seq<char> {
    match json::text_under(cell, "cell_type"@) {
        Some(s) => s,
        None => "code"@,
    }
}

pub(crate) fn cell_type_of(cell: &Json) -> (r: &str)
    ensures
        r@ == cell_kind(cell@),
{
    match cell.words_at("cell_type") {
        Some(s) => s,
        None => "code",
    }
}

/// The texts of a list, one behind the other.
pub open spec fn all_text(items: Seq<JsonModel>) -> Seq<char>
    decreases items.len(),
{
    if items.len() == 0 {
        Seq::empty()
    } else {
        all_text(items.drop_last()) + match items.last() {
            JsonModel::Text(s) => s,
            _ => Seq::empty(),
        }
    }
}

/// A source: one text, or a list of lines.
pub open spec fn source_text(source: Option<JsonModel>) -> Seq<char> {
    match source {
        Some(JsonModel::Text(s)) => s,
        Some(JsonModel::List(lines)) => all_text(lines),
        _ => Seq::empty(),
    }
}

/// The source of a cell.
pub open spec fn source_of(cell: JsonModel) -> Seq<char> {
    source_text(json::at(cell, "source"@))
}

pub(crate) fn read_source(source: Option<&Json>) -> (r: String)
    ensures
        r@ == source_text(
            match source {
                Some(v) => Some(v@),
                None => None,
            },
        ),
{
    match source {
        Some(Json::Text(s)) => s.clone(),
        Some(Json::List(lines)) => {
            proof {
                json::lemma_list_view(*lines);
            }
            let mut r = String::new();
            let mut i: usize = 0;
            let ghost items = json::models(lines@);
            assert(items.take(0) =~= Seq::<JsonModel>::empty());
            assert(r@ =~= all_text(items.take(0)));
            while i < lines.len()
                invariant
                    i <= lines@.len(),
                    items == json::models(lines@),
                    r@ == all_text(items.take(i as int)),
                decreases lines@.len() - i,
            {
                assert(items.take(i + 1).drop_last() =~= items.take(i as int));
                let ghost before = r@;
                if let Json::Text(s) = &lines[i] {
                    r = r.concat(s.as_str());
                }
                assert(r@ =~= all_text(items.take(i + 1)));
                i += 1;
            }
            assert(items.take(lines@.len() as int) =~= items);
            r
        },
        _ => {
            let r = String::new();
            assert(r@ =~= Seq::<char>::empty());
            r
        },
    }
}

pub(crate) fn cell_source(cell: &Json) -> (r: String)
    ensures
        r@ == source_of(cell@),
{
    read_source(cell.value_at("source"))
}

// ---------------------------------------------------------------------------
// read
// ---------------------------------------------------------------------------

/// What is shown of a source.
pub open spec fn preview(source: Seq<char>) -> Seq<char> {
    if source.len() > CELL_PREVIEW_CHARS {
        source.take(CELL_PREVIEW_CHARS as int) + "..."@
    } else {
        source
    }
}

/// The first characters of a source.
pub fn preview_source(source: &str) -> (r: String)
    ensures
        r@ == preview(source@),
{
    let shown = take_chars(source, CELL_PREVIEW_CHARS);
    if chars_of(source).len() > CELL_PREVIEW_CHARS {
        shown.concat("...")
    } else {
        shown
    }
}

/// A text with the lines behind its first one indented.
pub open spec fn indented(s: Seq<char>) -> Seq<char> {
    text::join(text::split_on(s, '\n'), "\n    "@)
}

/// Whether an output is an error.
pub open spec fn error_output(output: JsonModel) -> bool {
    json::text_under(output, "output_type"@) == Some("error"@)
}

/// Whether an error is among the outputs.
pub open spec fn any_error(outputs: Seq<JsonModel>) -> bool {
    exists|i: int| 0 <= i < outputs.len() && error_output(#[trigger] outputs[i])
}

/// The line that introduces a cell.
pub open spec fn cell_line(index: nat, cell: JsonModel) -> Seq<char> {
    let kind = cell_kind(cell);
    let outputs = match json::list_under(cell, "outputs"@) {
        Some(outputs) => outputs,
        None => Seq::empty(),
    };
    "["@ + text::numeral(index) + "] "@ + kind + (if kind == "code"@ {
        " ("@ + text::numeral(outputs.len()) + " outputs"@ + (if any_error(outputs) {
            ", includes error"@
        } else {
            ""@
        }) + ")"@
    } else {
        ""@
    }) + "\n"@
}

/// What is shown of a cell.
pub open spec fn cell_block(index: nat, cell: JsonModel) -> Seq<char> {
    let shown = preview(source_of(cell));
    cell_line(index, cell) + (if shown.len() == 0 {
        ""@
    } else {
        "    "@ + indented(shown) + "\n"@
    })
}

/// What is shown of the first `n` cells.
pub open spec fn cell_blocks(cells: Seq<JsonModel>, n: nat) -> Seq<char>
    decreases n,
{
    if n == 0 {
        Seq::empty()
    } else {
        cell_blocks(cells, (n - 1) as nat) + cell_block((n - 1) as nat, cells[n - 1])
    }
}

/// The metadata in one line, from how it is written as JSON.
pub open spec fn compact(metadata: Option<Seq<char>>) -> Seq<char> {
    match metadata {
        Some(s) => if text::byte_len(s) <= METADATA_MAX_BYTES {
            s
        } else {
            "[truncated metadata]"@
        },
        None => "[truncated metadata]"@,
    }
}

/// The metadata in one line, from how it is written as JSON.
pub fn compact_json(metadata: Option<&str>) -> (r: String)
    ensures
        r@ == compact(
            match metadata {
                Some(s) => Some(s@),
                None => None,
            },
        ),
{
    match metadata {
        Some(s) => {
            if byte_count(s) <= METADATA_MAX_BYTES {
                s.to_owned()
            } else {
                "[truncated metadata]".to_owned()
            }
        },
        None => "[truncated metadata]".to_owned(),
    }
}

/// Whether there is metadata to show.
pub open spec fn has_metadata(doc: JsonModel) -> bool {
    json::at(doc, "metadata"@) matches Some(JsonModel::Object(members)) && members.len() > 0
}

pub open spec fn number_or(n: Option<u64>, default: u64) -> u64 {
    match n {
        Some(n) => n,
        None => default,
    }
}

/// The listing of a notebook.
pub open spec fn listing(
    path: Seq<char>,
    doc: JsonModel,
    cells: Seq<JsonModel>,
    metadata: Option<Seq<char>>,
) -> Seq<char> {
    let shown = if cells.len() < MAX_RENDER_CELLS {
        cells.len()
    } else {
        MAX_RENDER_CELLS as nat
    };
    "notebook: "@ + path + " — nbformat "@ + text::numeral(
        number_or(json::unsigned_under(doc, "nbformat"@), 4) as nat,
    ) + "."@ + text::numeral(
        number_or(json::unsigned_under(doc, "nbformat_minor"@), 0) as nat,
    ) + ", "@ + text::numeral(cells.len()) + " cells\n"@ + (if has_metadata(doc) {
        "metadata: "@ + compact(metadata) + "\n"@
    } else {
        ""@
    }) + cell_blocks(cells, shown) + (if cells.len() > shown {
        "... "@ + text::numeral((cells.len() - shown) as nat) + " more cells omitted\n"@
    } else {
        ""@
    })
}

fn indent(s: &str) -> (r: String)
    ensures
        r@ == indented(s@),
{
    let lines = split(s, '\n');
    text::join_texts(&lines, "\n    ")
}

fn includes_error(outputs: &Vec<Json>) -> (r: bool)
    ensures
        r == any_error(json::models(outputs@)),
{
    let mut i: usize = 0;
    let ghost items = json::models(outputs@);
    while i < outputs.len()
        invariant
            i <= outputs@.len(),
            items == json::models(outputs@),
            forall|j: int| 0 <= j < i ==> !error_output(#[trigger] items[j]),
        decreases outputs@.len() - i,
    {
        assert(items[i as int] == outputs@[i as int]@);
        if let Some(kind) = outputs[i].words_at("output_type") {
            if same_text(kind, "error") {
                assert(error_output(items[i as int]));
                return true;
            }
        }
        i += 1;
    }
    false
}

fn render_cell(index: usize, cell: &Json) -> (r: String)
    ensures
        r@ == cell_block(index as nat, cell@),
{
    let kind = cell_type_of(cell);
    let mut r = "[".to_owned().concat(decimal(index as u64).as_str()).concat("] ").concat(kind);
    proof {
        reveal_strlit("");
        assert(""@ =~= Seq::<char>::empty());
    }
    if same_text(kind, "code") {
        let mut count: usize = 0;
        let mut errors: bool = false;
        if let Some(outputs) = cell.list_at("outputs") {
            count = outputs.len();
            errors = includes_error(outputs);
        }
        let ghost listed = match json::list_under(cell@, "outputs"@) {
            Some(outputs) => outputs,
            None => Seq::empty(),
        };
        assert(count == listed.len());
        assert(errors == any_error(listed));
        let flag = if errors {
            ", includes error"
        } else {
            ""
        };
        r = r.concat(
            " (".to_owned().concat(decimal(count as u64).as_str()).concat(" outputs").concat(
                flag,
            ).concat(")").as_str(),
        );
    } else {
        r = r.concat("");
    }
    r = r.concat("\n");
    assert(r@ == cell_line(index as nat, cell@));
    let shown = preview_source(cell_source(cell).as_str());
    if shown.as_str().is_empty() {
        r.concat("")
    } else {
        r.concat("    ".to_owned().concat(indent(shown.as_str()).as_str()).concat("\n").as_str())
    }
}

/// Lists the cells of a notebook: type, outputs and the start of the source of
/// each, up to a cap. `metadata` is the metadata as it is written as JSON.
pub fn run_notebook_read(path: &str, doc: &Json, metadata: Option<&str>) -> (r: Result<
    String,
    String,
>)
    ensures
        match (cells_of(doc@), r) {
            (Some(cells), Ok(s)) => s@ == listing(
                path@,
                doc@,
                cells,
                match metadata {
                    Some(m) => Some(m@),
                    None => None,
                },
            ),
            (None, Err(e)) => e@ == "notebook has no cells"@,
            _ => false,
        },
{
    let cells = match doc.list_at("cells") {
        Some(cells) => cells,
        None => {
            return Err("notebook has no cells".to_owned());
        },
    };
    proof {
        reveal_strlit("");
        assert(""@ =~= Seq::<char>::empty());
    }
    let format: u64 = match doc.whole_at("nbformat") {
        Some(n) => n,
        None => 4,
    };
    let minor: u64 = match doc.whole_at("nbformat_minor") {
        Some(n) => n,
        None => 0,
    };
    let mut r = "notebook: ".to_owned().concat(path).concat(" — nbformat ").concat(
        decimal(format).as_str(),
    ).concat(".").concat(decimal(minor).as_str()).concat(", ").concat(
        decimal(cells.len() as u64).as_str(),
    ).concat(" cells\n");
    let mut with_metadata: bool = false;
    if let Some(Json::Object(members)) = doc.value_at("metadata") {
        proof {
            json::lemma_object_view(*members);
        }
        with_metadata = members.len() > 0;
    }
    assert(with_metadata == has_metadata(doc@));
    if with_metadata {
        r = r.concat(
            "metadata: ".to_owned().concat(compact_json(metadata).as_str()).concat("\n").as_str(),
        );
    } else {
        r = r.concat("");
    }
    let shown: usize = if cells.len() < MAX_RENDER_CELLS {
        cells.len()
    } else {
        MAX_RENDER_CELLS
    };
    let ghost items = json::models(cells@);
    let ghost head = r@;
    let mut i: usize = 0;
    assert(head + cell_blocks(items, 0) =~= head);
    while i < shown
        invariant
            i <= shown <= cells@.len(),
            items == json::models(cells@),
            r@ == head + cell_blocks(items, i as nat),
        decreases shown - i,
    {
        assert(items[i as int] == cells@[i as int]@);
        r = r.concat(render_cell(i, &cells[i]).as_str());
        i += 1;
        assert(r@ =~= head + cell_blocks(items, i as nat));
    }
    if cells.len() > shown {
        r = r.concat(
            "... ".to_owned().concat(decimal((cells.len() - shown) as u64).as_str()).concat(
                " more cells omitted\n",
            ).as_str(),
        );
    } else {
        r = r.concat("");
    }
    Ok(r)
}

/// A rendered result within its bounds; its end is kept.
pub fn bounded(s: &str) -> (r: String)
    ensures
        r@ == truncate::tail(s@, OUTPUT_MAX_LINES as nat, OUTPUT_MAX_BYTES as nat).content,
{
    truncate_tail(s, OUTPUT_MAX_LINES, OUTPUT_MAX_BYTES).content
}

// ---------------------------------------------------------------------------
// What a cell gave
// ---------------------------------------------------------------------------

#[derive(Clone, Copy, Debug, PartialEq, Eq, Structural)]
pub enum EvalErrorKind {
    Syntax,
    Runtime,
    Timeout,
}

#[derive(Debug, PartialEq, Eq)]
pub struct CellError {
    pub kind: EvalErrorKind,
    pub text: String,
}

/// What running a cell gave.
#[derive(Debug, PartialEq, Eq)]
pub struct CellResult {
    pub stdout: String,
    pub stderr: String,
    pub result: Option<String>,
    pub error: Option<CellError>,
}

impl CellResult {
    pub open spec fn timed_out(self) -> bool {
        self.error matches Some(e) && e.kind == EvalErrorKind::Timeout
    }

    /// Whether the cell ran out of time.
    pub fn is_timeout(&self) -> (r: bool)
        ensures
            r == self.timed_out(),
    {
        match &self.error {
            Some(e) => e.kind == EvalErrorKind::Timeout,
            None => false,
        }
    }
}

pub open spec fn headline(cell: CellResult) -> Seq<char> {
    match cell.error {
        None => "ok"@,
        Some(e) => match e.kind {
            EvalErrorKind::Syntax => "syntax error"@,
            EvalErrorKind::Runtime => "runtime error"@,
            EvalErrorKind::Timeout => "timeout"@,
        },
    }
}

/// A stream of a cell, where it is not empty.
pub open spec fn stream_part(label: Seq<char>, stream: Seq<char>) -> Seq<char> {
    if stream.len() == 0 {
        Seq::empty()
    } else {
        label + text::trim_end_of(stream)
    }
}

/// What is reported of a cell.
pub open spec fn reported(cell: CellResult) -> Seq<char> {
    headline(cell) + stream_part("\nstdout: "@, cell.stdout@) + stream_part(
        "\nstderr: "@,
        cell.stderr@,
    ) + match cell.result {
        Some(s) => "\nresult: "@ + s@,
        None => Seq::empty(),
    } + match cell.error {
        Some(e) => "\nerror:\n"@ + text::trim_end_of(e.text@),
        None => Seq::empty(),
    }
}

fn add_stream(r: String, label: &str, stream: &str) -> (s: String)
    ensures
        s@ == r@ + stream_part(label@, stream@),
{
    if stream.is_empty() {
        assert(r@ + stream_part(label@, stream@) =~= r@);
        r
    } else {
        let s = r.concat(label).concat(trim_end(stream).as_str());
        assert(s@ =~= r@ + (label@ + text::trim_end_of(stream@)));
        s
    }
}

/// What is reported of a cell: how it ended, its streams, its result and its
/// error.
pub fn render_notebook_cell(cell: &CellResult) -> (r: String)
    ensures
        r@ == reported(*cell),
{
    let head = match &cell.error {
        None => "ok".to_owned(),
        Some(e) => match e.kind {
            EvalErrorKind::Syntax => "syntax error".to_owned(),
            EvalErrorKind::Runtime => "runtime error".to_owned(),
            EvalErrorKind::Timeout => "timeout".to_owned(),
        },
    };
    let r = add_stream(head, "\nstdout: ", cell.stdout.as_str());
    let r = add_stream(r, "\nstderr: ", cell.stderr.as_str());
    let ghost streams = r@;
    let r = match &cell.result {
        Some(s) => r.concat("\nresult: ").concat(s.as_str()),
        None => r,
    };
    assert(r@ =~= streams + match cell.result {
        Some(s) => "\nresult: "@ + s@,
        None => Seq::empty(),
    });
    let ghost front = r@;
    let r = match &cell.error {
        Some(e) => r.concat("\nerror:\n").concat(trim_end(e.text.as_str()).as_str()),
        None => r,
    };
    assert(r@ =~= front + match cell.error {
        Some(e) => "\nerror:\n"@ + text::trim_end_of(e.text@),
        None => Seq::empty(),
    });
    r
}

pub open spec fn stream_output(name: Seq<char>, stream: Seq<char>) -> JsonModel {
    JsonModel::Object(
        seq![
            ("output_type"@, JsonModel::Text("stream"@)),
            ("name"@, JsonModel::Text(name)),
            ("text"@, JsonModel::Text(stream)),
        ],
    )
}

pub open spec fn result_output(result: Seq<char>) -> JsonModel {
    JsonModel::Object(
        seq![
            ("output_type"@, JsonModel::Text("execute_result"@)),
            ("execution_count"@, JsonModel::Null),
            ("metadata"@, JsonModel::Object(Seq::empty())),
            ("data"@, JsonModel::Object(seq![("text/plain"@, JsonModel::Text(result))])),
        ],
    )
}

pub open spec fn error_name(kind: EvalErrorKind) -> Seq<char> {
    match kind {
        EvalErrorKind::Syntax => "SyntaxError"@,
        EvalErrorKind::Runtime => "RuntimeError"@,
        EvalErrorKind::Timeout => "TimeoutError"@,
    }
}

pub open spec fn error_entry(e: CellError) -> JsonModel {
    JsonModel::Object(
        seq![
            ("output_type"@, JsonModel::Text("error"@)),
            ("ename"@, JsonModel::Text(error_name(e.kind))),
            ("evalue"@, JsonModel::Text(e.text@)),
            ("traceback"@, JsonModel::List(seq![JsonModel::Text(e.text@)])),
        ],
    )
}

/// The outputs that are written into a cell: its streams, its result and its
/// error, in this order, as far as it has them.
pub open spec fn outputs_of(cell: CellResult) -> Seq<JsonModel> {
    let a = if cell.stdout@.len() > 0 {
        seq![stream_output("stdout"@, cell.stdout@)]
    } else {
        Seq::empty()
    };
    let b = if cell.stderr@.len() > 0 {
        a.push(stream_output("stderr"@, cell.stderr@))
    } else {
        a
    };
    let c = match cell.result {
        Some(s) => b.push(result_output(s@)),
        None => b,
    };
    match cell.error {
        Some(e) => c.push(error_entry(e)),
        None => c,
    }
}

fn stream_json(name: &str, stream: &str) -> (r: Json)
    ensures
        r@ == stream_output(name@, stream@),
{
    let mut members: Vec<(String, Json)> = Vec::new();
    assert(json::member_models(members@) =~= Seq::<(Seq<char>, JsonModel)>::empty());
    push_member(&mut members, "output_type", text_json("stream"));
    push_member(&mut members, "name", text_json(name));
    push_member(&mut members, "text", text_json(stream));
    proof {
        json::lemma_object_view(members);
        assert(json::member_models(members@) =~= stream_output(name@, stream@)->Object_0);
    }
    Json::Object(members)
}

pub(crate) fn empty_object() -> (r: Json)
    ensures
        r@ == JsonModel::Object(Seq::<(Seq<char>, JsonModel)>::empty()),
{
    let members: Vec<(String, Json)> = Vec::new();
    proof {
        json::lemma_object_view(members);
        assert(json::member_models(members@) =~= Seq::<(Seq<char>, JsonModel)>::empty());
    }
    Json::Object(members)
}

pub(crate) fn empty_list() -> (r: Json)
    ensures
        r@ == JsonModel::List(Seq::<JsonModel>::empty()),
{
    let items: Vec<Json> = Vec::new();
    proof {
        json::lemma_list_view(items);
        assert(json::models(items@) =~= Seq::<JsonModel>::empty());
    }
    Json::List(items)
}

fn result_json(result: &str) -> (r: Json)
    ensures
        r@ == result_output(result@),
{
    let mut data: Vec<(String, Json)> = Vec::new();
    assert(json::member_models(data@) =~= Seq::<(Seq<char>, JsonModel)>::empty());
    push_member(&mut data, "text/plain", text_json(result));
    proof {
        json::lemma_object_view(data);
        assert(json::member_models(data@) =~= seq![
            ("text/plain"@, JsonModel::Text(result@)),
        ]);
    }
    let mut members: Vec<(String, Json)> = Vec::new();
    assert(json::member_models(members@) =~= Seq::<(Seq<char>, JsonModel)>::empty());
    push_member(&mut members, "output_type", text_json("execute_result"));
    push_member(&mut members, "execution_count", Json::Null);
    push_member(&mut members, "metadata", empty_object());
    push_member(&mut members, "data", Json::Object(data));
    proof {
        json::lemma_object_view(members);
        assert(json::member_models(members@) =~= result_output(result@)->Object_0);
    }
    Json::Object(members)
}

fn error_json(e: &CellError) -> (r: Json)
    ensures
        r@ == error_entry(*e),
{
    let name = match e.kind {
        EvalErrorKind::Syntax => "SyntaxError",
        EvalErrorKind::Runtime => "RuntimeError",
        EvalErrorKind::Timeout => "TimeoutError",
    };
    let mut lines: Vec<Json> = Vec::new();
    assert(json::models(lines@) =~= Seq::<JsonModel>::empty());
    push_item(&mut lines, text_json(e.text.as_str()));
    proof {
        json::lemma_list_view(lines);
        assert(json::models(lines@) =~= seq![JsonModel::Text(e.text@)]);
    }
    let mut members: Vec<(String, Json)> = Vec::new();
    assert(json::member_models(members@) =~= Seq::<(Seq<char>, JsonModel)>::empty());
    push_member(&mut members, "output_type", text_json("error"));
    push_member(&mut members, "ename", text_json(name));
    push_member(&mut members, "evalue", text_json(e.text.as_str()));
    push_member(&mut members, "traceback", Json::List(lines));
    proof {
        json::lemma_object_view(members);
        assert(json::member_models(members@) =~= error_entry(*e)->Object_0);
    }
    Json::Object(members)
}

/// The outputs that are written into a cell.
pub fn ipynb_outputs(cell: &CellResult) -> (r: Json)
    ensures
        r@ == JsonModel::List(outputs_of(*cell)),
{
    let mut outputs: Vec<Json> = Vec::new();
    assert(json::models(outputs@) =~= Seq::<JsonModel>::empty());
    if !cell.stdout.as_str().is_empty() {
        push_item(&mut outputs, stream_json("stdout", cell.stdout.as_str()));
        assert(json::models(outputs@) =~= seq![stream_output("stdout"@, cell.stdout@)]);
    }
    if !cell.stderr.as_str().is_empty() {
        push_item(&mut outputs, stream_json("stderr", cell.stderr.as_str()));
    }
    if let Some(result) = &cell.result {
        push_item(&mut outputs, result_json(result.as_str()));
    }
    if let Some(e) = &cell.error {
        push_item(&mut outputs, error_json(e));
    }
    proof {
        json::lemma_list_view(outputs);
    }
    Json::List(outputs)
}

} // verus!
