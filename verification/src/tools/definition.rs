//! What an agent is told of a tool: its name, its parameters and how to use it.

use crate::text;
use crate::text::{decimal, push_text};
use crate::tools::notebook::ToolCapability;
use crate::tools::{lsp, notebook, web_search};
use vstd::prelude::*;
use vstd::string::*;

verus! {

/// What values a parameter takes.
#[derive(Debug, PartialEq, Eq)]
pub enum ParameterKind {
    Text,
    Number,
    Boolean,
    /// A text, or an array of its lines; what each of the two is said to be.
    TextOrLines { text: String, line: String, lines: String },
}

/// A parameter of a tool.
#[derive(Debug, PartialEq, Eq)]
pub struct Parameter {
    pub name: String,
    pub kind: ParameterKind,
    pub description: String,
}

/// What an agent is told of a tool.
#[derive(Debug, PartialEq, Eq)]
pub struct ToolDefinition {
    pub name: String,
    pub description: String,
    pub parameters: Vec<Parameter>,
    pub required: Vec<String>,
    /// What the tool as a whole counts as.
    pub capability: ToolCapability,
    pub guidelines: Vec<String>,
}

// ---------------------------------------------------------------------------
// Models
// ---------------------------------------------------------------------------

/// The model of a parameter's kind.
#[verifier::ext_equal]
pub enum KindModel {
    Text,
    Number,
    Boolean,
    TextOrLines(Seq<char>, Seq<char>, Seq<char>),
}

/// The model of a parameter.
#[verifier::ext_equal]
pub struct ParameterModel {
    pub name: Seq<char>,
    pub kind: KindModel,
    pub description: Seq<char>,
}

/// The model of a definition.
#[verifier::ext_equal]
pub struct DefinitionModel {
    pub name: Seq<char>,
    pub description: Seq<char>,
    pub parameters: Seq<ParameterModel>,
    pub required: Seq<Seq<char>>,
    pub capability: ToolCapability,
    pub guidelines: Seq<Seq<char>>,
}

impl View for ParameterKind {
    type V = KindModel;

    open spec fn view(&self) -> KindModel {
        match self {
            ParameterKind::Text => KindModel::Text,
            ParameterKind::Number => KindModel::Number,
            ParameterKind::Boolean => KindModel::Boolean,
            ParameterKind::TextOrLines { text, line, lines } => KindModel::TextOrLines(
                text@,
                line@,
                lines@,
            ),
        }
    }
}

impl View for Parameter {
    type V = ParameterModel;

    open spec fn view(&self) -> ParameterModel {
        ParameterModel { name: self.name@, kind: self.kind@, description: self.description@ }
    }
}

/// The models of parameters.
pub open spec fn parameter_models(parameters: Seq<Parameter>) -> Seq<ParameterModel> {
    parameters.map_values(|p: Parameter| p@)
}

impl View for ToolDefinition {
    type V = DefinitionModel;

    open spec fn view(&self) -> DefinitionModel {
        DefinitionModel {
            name: self.name@,
            description: self.description@,
            parameters: parameter_models(self.parameters@),
            required: text::texts(self.required@),
            capability: self.capability,
            guidelines: text::texts(self.guidelines@),
        }
    }
}

/// A text parameter.
pub open spec fn text_parameter(name: Seq<char>, description: Seq<char>) -> ParameterModel {
    ParameterModel { name, kind: KindModel::Text, description }
}

/// A number parameter.
pub open spec fn number_parameter(name: Seq<char>, description: Seq<char>) -> ParameterModel {
    ParameterModel { name, kind: KindModel::Number, description }
}

/// A definition asks only for parameters that it has.
pub open spec fn asks_for_its_own(d: DefinitionModel) -> bool {
    forall|i: int|
        0 <= i < d.required.len() ==> exists|j: int|
            0 <= j < d.parameters.len() && (#[trigger] d.parameters[j]).name
                == #[trigger] d.required[i]
}

// ---------------------------------------------------------------------------
// Building
// ---------------------------------------------------------------------------

fn add_parameter(list: &mut Vec<Parameter>, name: &str, kind: ParameterKind, description: &str)
    ensures
        parameter_models(final(list)@) == parameter_models(old(list)@).push(
            ParameterModel { name: name@, kind: kind@, description: description@ },
        ),
{
    let parameter = Parameter { name: name.to_owned(), kind, description: description.to_owned() };
    list.push(parameter);
    assert(parameter_models(list@) =~= parameter_models(old(list)@).push(
        ParameterModel { name: name@, kind: kind@, description: description@ },
    ));
}

// ---------------------------------------------------------------------------
// Web search
// ---------------------------------------------------------------------------

/// What an agent is told of the web search.
pub open spec fn web_search_definition() -> DefinitionModel {
    DefinitionModel {
        name: "web_search"@,
        description: "Search the web via the DuckDuckGo Instant Answer API and return plain-text result blocks (title / url / snippet). Output is bounded to "@
            + text::numeral((web_search::OUTPUT_MAX_BYTES / 1024) as nat)
            + "KB. Disabled while PI_OFFLINE is set."@,
        parameters: seq![
            text_parameter("query"@, "Search query (plain text)"@),
            number_parameter(
                "max_results"@,
                "Maximum results to return (default "@ + text::numeral(
                    web_search::DEFAULT_MAX_RESULTS as nat,
                ) + ", max "@ + text::numeral(web_search::MAX_RESULTS_CAP as nat) + ")"@,
            ),
        ],
        required: seq!["query"@],
        capability: ToolCapability::Read,
        guidelines: seq![],
    }
}

/// The definition of the web search.
pub fn web_search_tool() -> (r: ToolDefinition)
    ensures
        r@ == web_search_definition(),
        asks_for_its_own(r@),
{
    let mut parameters: Vec<Parameter> = Vec::new();
    assert(parameter_models(parameters@) =~= Seq::<ParameterModel>::empty());
    add_parameter(&mut parameters, "query", ParameterKind::Text, "Search query (plain text)");
    let bounds = "Maximum results to return (default ".to_owned().concat(
        decimal(web_search::DEFAULT_MAX_RESULTS as u64).as_str(),
    ).concat(", max ").concat(decimal(web_search::MAX_RESULTS_CAP as u64).as_str()).concat(")");
    add_parameter(&mut parameters, "max_results", ParameterKind::Number, bounds.as_str());
    let mut required: Vec<String> = Vec::new();
    assert(text::texts(required@) =~= Seq::<Seq<char>>::empty());
    push_text(&mut required, "query");
    let guidelines: Vec<String> = Vec::new();
    assert(text::texts(guidelines@) =~= Seq::<Seq<char>>::empty());
    let description =
        "Search the web via the DuckDuckGo Instant Answer API and return plain-text result blocks (title / url / snippet). Output is bounded to ".to_owned().concat(
        decimal((web_search::OUTPUT_MAX_BYTES / 1024) as u64).as_str(),
    ).concat("KB. Disabled while PI_OFFLINE is set.");
    proof {
        let d = web_search_definition();
        assert(description@ =~= d.description);
        assert(parameter_models(parameters@) =~= d.parameters);
        assert(text::texts(required@) =~= d.required);
        assert(text::texts(guidelines@) =~= d.guidelines);
        assert(d.parameters[0].name == d.required[0]);
    }
    ToolDefinition {
        name: "web_search".to_owned(),
        description,
        parameters,
        required,
        capability: ToolCapability::Read,
        guidelines,
    }
}

// ---------------------------------------------------------------------------
// Language servers
// ---------------------------------------------------------------------------

/// What an agent is told of the language server tool.
pub open spec fn lsp_definition() -> DefinitionModel {
    DefinitionModel {
        name: "lsp"@,
        description: "Query a per-language LSP server (rust-analyzer, typescript-language-server, gopls, pyright-langserver) over stdio JSON-RPC and return code-intelligence results as text. Actions: "@
            + lsp::ACTIONS@
            + ". (rename_file, implementation, type_definition, request are deferred in this build.) Positions in line/character are 0-based UTF-16 code units. One server is spawned per call and shut down afterward. `rename` applies the server's workspace edit directly to files on disk: every edit target is confined to the configured workspace roots and checked against the configured path permission rules before anything is written."@,
        parameters: seq![
            text_parameter(
                "action"@,
                "LSP action to run. One of: "@ + lsp::ACTIONS@
                    + " (deferred: rename_file, implementation, type_definition, request)"@,
            ),
            text_parameter(
                "path"@,
                "File or directory path (relative to cwd, absolute, or file://). Required by most actions; for diagnostics it may be a directory (bounded scan) or omitted for the whole workspace"@,
            ),
            text_parameter(
                "query"@,
                "Search query for workspace-wide symbol search (symbols action)"@,
            ),
            text_parameter(
                "symbol"@,
                "Symbol name for workspace-wide symbol search (symbols action); alias for query"@,
            ),
            number_parameter(
                "line"@,
                "0-based line for position-based actions (hover, definition, references, rename, code_actions); default 0"@,
            ),
            number_parameter(
                "character"@,
                "0-based character column (UTF-16 units) for position-based actions; default 0"@,
            ),
            number_parameter(
                "end_line"@,
                "0-based end line for the code_actions range; defaults to line"@,
            ),
            number_parameter(
                "end_character"@,
                "0-based end character for the code_actions range; defaults to character"@,
            ),
            text_parameter(
                "new_name"@,
                "New symbol name for the rename action (required there)"@,
            ),
            text_parameter(
                "lang"@,
                "Force the language/server instead of detecting from the path extension: rust, typescript, javascript, go, python"@,
            ),
        ],
        required: seq!["action"@],
        capability: ToolCapability::Write,
        guidelines: seq![
            "Prefer lsp for symbol navigation: hover, definition, references, and diagnostics over blind grepping."@,
            "lsp spawns a fresh language server per call; expect a brief startup delay for heavy servers like rust-analyzer."@,
            "rename applies the server's workspace edit directly to files on disk — every target must stay inside the workspace; review the reported changes."@,
        ],
    }
}

fn lsp_parameters() -> (r: Vec<Parameter>)
    ensures
        parameter_models(r@) == lsp_definition().parameters,
{
    let mut list: Vec<Parameter> = Vec::new();
    assert(parameter_models(list@) =~= Seq::<ParameterModel>::empty());
    let action = "LSP action to run. One of: ".to_owned().concat(lsp::ACTIONS).concat(
        " (deferred: rename_file, implementation, type_definition, request)",
    );
    add_parameter(&mut list, "action", ParameterKind::Text, action.as_str());
    add_parameter(
        &mut list,
        "path",
        ParameterKind::Text,
        "File or directory path (relative to cwd, absolute, or file://). Required by most actions; for diagnostics it may be a directory (bounded scan) or omitted for the whole workspace",
    );
    add_parameter(
        &mut list,
        "query",
        ParameterKind::Text,
        "Search query for workspace-wide symbol search (symbols action)",
    );
    add_parameter(
        &mut list,
        "symbol",
        ParameterKind::Text,
        "Symbol name for workspace-wide symbol search (symbols action); alias for query",
    );
    add_parameter(
        &mut list,
        "line",
        ParameterKind::Number,
        "0-based line for position-based actions (hover, definition, references, rename, code_actions); default 0",
    );
    add_parameter(
        &mut list,
        "character",
        ParameterKind::Number,
        "0-based character column (UTF-16 units) for position-based actions; default 0",
    );
    add_parameter(
        &mut list,
        "end_line",
        ParameterKind::Number,
        "0-based end line for the code_actions range; defaults to line",
    );
    add_parameter(
        &mut list,
        "end_character",
        ParameterKind::Number,
        "0-based end character for the code_actions range; defaults to character",
    );
    add_parameter(
        &mut list,
        "new_name",
        ParameterKind::Text,
        "New symbol name for the rename action (required there)",
    );
    add_parameter(
        &mut list,
        "lang",
        ParameterKind::Text,
        "Force the language/server instead of detecting from the path extension: rust, typescript, javascript, go, python",
    );
    list
}

/// The definition of the language server tool. It counts as one that writes,
/// as its strongest action does.
pub fn lsp_tool() -> (r: ToolDefinition)
    ensures
        r@ == lsp_definition(),
        asks_for_its_own(r@),
{
    let parameters = lsp_parameters();
    let mut required: Vec<String> = Vec::new();
    assert(text::texts(required@) =~= Seq::<Seq<char>>::empty());
    push_text(&mut required, "action");
    let mut guidelines: Vec<String> = Vec::new();
    assert(text::texts(guidelines@) =~= Seq::<Seq<char>>::empty());
    push_text(
        &mut guidelines,
        "Prefer lsp for symbol navigation: hover, definition, references, and diagnostics over blind grepping.",
    );
    push_text(
        &mut guidelines,
        "lsp spawns a fresh language server per call; expect a brief startup delay for heavy servers like rust-analyzer.",
    );
    push_text(
        &mut guidelines,
        "rename applies the server's workspace edit directly to files on disk — every target must stay inside the workspace; review the reported changes.",
    );
    let description =
        "Query a per-language LSP server (rust-analyzer, typescript-language-server, gopls, pyright-langserver) over stdio JSON-RPC and return code-intelligence results as text. Actions: ".to_owned().concat(
        lsp::ACTIONS,
    ).concat(
        ". (rename_file, implementation, type_definition, request are deferred in this build.) Positions in line/character are 0-based UTF-16 code units. One server is spawned per call and shut down afterward. `rename` applies the server's workspace edit directly to files on disk: every edit target is confined to the configured workspace roots and checked against the configured path permission rules before anything is written.",
    );
    proof {
        let d = lsp_definition();
        assert(description@ =~= d.description);
        assert(parameter_models(parameters@) =~= d.parameters);
        assert(text::texts(required@) =~= d.required);
        assert(text::texts(guidelines@) =~= d.guidelines);
        assert(d.parameters[0].name == d.required[0]);
    }
    ToolDefinition {
        name: "lsp".to_owned(),
        description,
        parameters,
        required,
        capability: ToolCapability::Write,
        guidelines,
    }
}

// ---------------------------------------------------------------------------
// Notebooks
// ---------------------------------------------------------------------------

/// What an agent is told of the notebook tool.
pub open spec fn notebook_definition() -> DefinitionModel {
    DefinitionModel {
        name: "notebook"@,
        description: "Read, execute, and edit Jupyter notebooks (.ipynb). Actions: "@
            + notebook::ACTIONS@
            + ". `read path=...` lists the notebook's cells (index, type, output summary, bounded source preview; files larger than 8 MiB are refused). `execute path=... [cell=N | all] [write=true]` runs code cells through a session-scoped Python kernel and reports per-cell stdout/stderr/result/errors (outputs are written back into the .ipynb only when `write` is true; a cell timeout kills the kernel and skips the remaining cells). `edit path=... cell_type=markdown|code|raw source=...` appends a cell, preserving unknown notebook fields. `timeout` bounds each cell (default 30s)."@,
        parameters: seq![
            text_parameter(
                "action"@,
                "Notebook action to run. One of: "@ + notebook::ACTIONS@,
            ),
            text_parameter(
                "path"@,
                "Path to the .ipynb notebook (resolved against the session cwd)"@,
            ),
            number_parameter(
                "cell"@,
                "0-based cell index for execute (default: all code cells)"@,
            ),
            ParameterModel {
                name: "write"@,
                kind: KindModel::Boolean,
                description: "Persist cell outputs back into the .ipynb (execute; default false)"@,
            },
            text_parameter("cell_type"@, "Cell type for edit: markdown, code, or raw (default markdown)"@),
            ParameterModel {
                name: "source"@,
                kind: KindModel::TextOrLines(
                    "Cell source text"@,
                    "Source line"@,
                    "Cell source as an array of lines"@,
                ),
                description: "Cell source text (string or array of lines)"@,
            },
            number_parameter(
                "timeout"@,
                "Per-cell timeout in seconds (execute; default 30, min 1, max 300)"@,
            ),
        ],
        required: seq!["action"@, "path"@],
        capability: ToolCapability::Exec,
        guidelines: seq![
            "Notebook cells share one Python kernel per session: state set by an earlier cell is visible to later cells; a timeout kills the kernel and the rest of the run is skipped."@,
            "Execute does not modify the .ipynb unless write=true — pass write=true when the run must persist outputs back into the notebook."@,
            "Edits append a cell and preserve every other field of the notebook document (metadata, nbformat, other cells)."@,
        ],
    }
}

fn notebook_parameters() -> (r: Vec<Parameter>)
    ensures
        parameter_models(r@) == notebook_definition().parameters,
{
    let mut list: Vec<Parameter> = Vec::new();
    assert(parameter_models(list@) =~= Seq::<ParameterModel>::empty());
    let action = "Notebook action to run. One of: ".to_owned().concat(notebook::ACTIONS);
    add_parameter(&mut list, "action", ParameterKind::Text, action.as_str());
    add_parameter(
        &mut list,
        "path",
        ParameterKind::Text,
        "Path to the .ipynb notebook (resolved against the session cwd)",
    );
    add_parameter(
        &mut list,
        "cell",
        ParameterKind::Number,
        "0-based cell index for execute (default: all code cells)",
    );
    add_parameter(
        &mut list,
        "write",
        ParameterKind::Boolean,
        "Persist cell outputs back into the .ipynb (execute; default false)",
    );
    add_parameter(
        &mut list,
        "cell_type",
        ParameterKind::Text,
        "Cell type for edit: markdown, code, or raw (default markdown)",
    );
    let source = ParameterKind::TextOrLines {
        text: "Cell source text".to_owned(),
        line: "Source line".to_owned(),
        lines: "Cell source as an array of lines".to_owned(),
    };
    add_parameter(&mut list, "source", source, "Cell source text (string or array of lines)");
    add_parameter(
        &mut list,
        "timeout",
        ParameterKind::Number,
        "Per-cell timeout in seconds (execute; default 30, min 1, max 300)",
    );
    list
}

/// The definition of the notebook tool. It counts as one that runs code, as
/// its dominant action does.
pub fn notebook_tool() -> (r: ToolDefinition)
    ensures
        r@ == notebook_definition(),
        asks_for_its_own(r@),
{
    let parameters = notebook_parameters();
    let mut required: Vec<String> = Vec::new();
    assert(text::texts(required@) =~= Seq::<Seq<char>>::empty());
    push_text(&mut required, "action");
    push_text(&mut required, "path");
    let mut guidelines: Vec<String> = Vec::new();
    assert(text::texts(guidelines@) =~= Seq::<Seq<char>>::empty());
    push_text(
        &mut guidelines,
        "Notebook cells share one Python kernel per session: state set by an earlier cell is visible to later cells; a timeout kills the kernel and the rest of the run is skipped.",
    );
    push_text(
        &mut guidelines,
        "Execute does not modify the .ipynb unless write=true — pass write=true when the run must persist outputs back into the notebook.",
    );
    push_text(
        &mut guidelines,
        "Edits append a cell and preserve every other field of the notebook document (metadata, nbformat, other cells).",
    );
    let description = "Read, execute, and edit Jupyter notebooks (.ipynb). Actions: ".to_owned().concat(
        notebook::ACTIONS,
    ).concat(
        ". `read path=...` lists the notebook's cells (index, type, output summary, bounded source preview; files larger than 8 MiB are refused). `execute path=... [cell=N | all] [write=true]` runs code cells through a session-scoped Python kernel and reports per-cell stdout/stderr/result/errors (outputs are written back into the .ipynb only when `write` is true; a cell timeout kills the kernel and skips the remaining cells). `edit path=... cell_type=markdown|code|raw source=...` appends a cell, preserving unknown notebook fields. `timeout` bounds each cell (default 30s).",
    );
    proof {
        let d = notebook_definition();
        assert(description@ =~= d.description);
        assert(parameter_models(parameters@) =~= d.parameters);
        assert(text::texts(required@) =~= d.required);
        assert(text::texts(guidelines@) =~= d.guidelines);
        assert(d.parameters[0].name == d.required[0]);
        assert(d.parameters[1].name == d.required[1]);
    }
    ToolDefinition {
        name: "notebook".to_owned(),
        description,
        parameters,
        required,
        capability: ToolCapability::Exec,
        guidelines,
    }
}

// ---------------------------------------------------------------------------
// Laws
// ---------------------------------------------------------------------------

/// How much a capability allows: to write is more than to read, and to run
/// code is more than to write.
pub open spec fn strength(capability: ToolCapability) -> nat {
    match capability {
        ToolCapability::Read => 0,
        ToolCapability::Write => 1,
        ToolCapability::Exec => 2,
    }
}

/// The language server tool counts as its strongest action: no action needs
/// more than the tool declares, and renaming needs all of it.
pub proof fn law_lsp_declares_its_strongest_action(action: Seq<char>)
    ensures
        match lsp::needed(action) {
            Some(c) => strength(c) <= strength(lsp_definition().capability),
            None => true,
        },
        lsp::needed("rename"@) == Some(lsp_definition().capability),
{
    reveal_strlit("rename");
    reveal_strlit("hover");
    reveal_strlit("definition");
    reveal_strlit("references");
    reveal_strlit("diagnostics");
    reveal_strlit("symbols");
    assert("rename"@.len() == 6 && "hover"@.len() == 5 && "definition"@.len() == 10);
    assert("references"@.len() == 10 && "diagnostics"@.len() == 11 && "symbols"@.len() == 7);
}

/// The notebook tool counts as its strongest action: no action needs more
/// than the tool declares, and running cells needs all of it.
pub proof fn law_notebook_declares_its_strongest_action(action: Seq<char>)
    ensures
        match notebook::needed(action) {
            Some(c) => strength(c) <= strength(notebook_definition().capability),
            None => true,
        },
        notebook::needed("execute"@) == Some(notebook_definition().capability),
{
    reveal_strlit("read");
    reveal_strlit("execute");
    assert("read"@.len() == 4 && "execute"@.len() == 7);
}

} // verus!
