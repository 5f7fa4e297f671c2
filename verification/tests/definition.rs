use pi_coding::tools::definition::{
    lsp_tool, notebook_tool, web_search_tool, ParameterKind, ToolDefinition,
};
use pi_coding::tools::lsp::{action_capability, all_capabilities, run_lsp};
use pi_coding::tools::notebook::{self, ToolCapability};

fn names(tool: &ToolDefinition) -> Vec<&str> {
    tool.parameters.iter().map(|p| p.name.as_str()).collect()
}

fn asks_for_its_own(tool: &ToolDefinition) -> bool {
    tool.required.iter().all(|name| names(tool).contains(&name.as_str()))
}

#[test]
fn schema_requires_query_and_makes_max_results_optional() {
    let t = web_search_tool();
    assert!(t.required.contains(&"query".to_string()));
    assert!(!t.required.contains(&"max_results".to_string()));
    assert_eq!(names(&t), ["query", "max_results"]);
    assert_eq!(t.parameters[1].kind, ParameterKind::Number);
    assert_eq!(t.parameters[1].description, "Maximum results to return (default 5, max 10)");
    assert_eq!(
        t.description,
        "Search the web via the DuckDuckGo Instant Answer API and return plain-text result blocks (title / url / snippet). Output is bounded to 4KB. Disabled while PI_OFFLINE is set."
    );
    assert_eq!(t.capability, ToolCapability::Read);
    assert!(t.guidelines.is_empty());
}

#[test]
fn lsp_definition_lists_every_action() {
    let t = lsp_tool();
    assert_eq!(t.name, "lsp");
    assert_eq!(
        names(&t),
        [
            "action",
            "path",
            "query",
            "symbol",
            "line",
            "character",
            "end_line",
            "end_character",
            "new_name",
            "lang"
        ]
    );
    assert_eq!(t.required, ["action"]);
    assert_eq!(
        t.parameters[0].description,
        "LSP action to run. One of: hover, definition, references, diagnostics, symbols, rename, code_actions, capabilities, status, reload (deferred: rename_file, implementation, type_definition, request)"
    );
    assert_eq!(t.parameters[4].kind, ParameterKind::Number);
    assert_eq!(t.guidelines.len(), 3);
    assert_eq!(t.capability, ToolCapability::Write);
    assert_eq!(action_capability("rename"), Some(ToolCapability::Write));
    assert!(run_lsp("rename", &all_capabilities()).is_ok());
}

#[test]
fn notebook_definition_takes_text_or_lines() {
    let t = notebook_tool();
    assert_eq!(names(&t), ["action", "path", "cell", "write", "cell_type", "source", "timeout"]);
    assert_eq!(t.required, ["action", "path"]);
    assert_eq!(t.parameters[3].kind, ParameterKind::Boolean);
    assert_eq!(
        t.parameters[5].kind,
        ParameterKind::TextOrLines {
            text: "Cell source text".to_owned(),
            line: "Source line".to_owned(),
            lines: "Cell source as an array of lines".to_owned(),
        }
    );
    assert!(t.description.starts_with(
        "Read, execute, and edit Jupyter notebooks (.ipynb). Actions: read, execute, edit. `read"
    ));
    assert_eq!(t.capability, ToolCapability::Exec);
    assert_eq!(notebook::action_capability("execute"), Some(ToolCapability::Exec));
}

#[test]
fn definitions_ask_only_for_their_own_parameters() {
    assert!(asks_for_its_own(&web_search_tool()));
    assert!(asks_for_its_own(&lsp_tool()));
    assert!(asks_for_its_own(&notebook_tool()));
}
