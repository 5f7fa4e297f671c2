use pi_coding::json::{Json, JsonNumber};
use pi_coding::tools::notebook::{
    action_capability, all_capabilities, bounded, check_cells, check_size, compact_json,
    ipynb_outputs, preview_source, render_notebook_cell, resolve_path, run_notebook,
    run_notebook_read, CellError, CellResult, EvalErrorKind, NotebookAction, ToolCapability,
    MAX_NOTEBOOK_BYTES,
};
use pi_coding::tools::notebook_edit::{check_edit, run_notebook_edit, source_to_lines};
use pi_coding::tools::notebook_run::{run_notebook_execute, RunOpening, RunReport};

fn convert(value: &serde_json::Value) -> Json {
    match value {
        serde_json::Value::Null => Json::Null,
        serde_json::Value::Bool(b) => Json::Bool(*b),
        serde_json::Value::Number(n) => {
            Json::Number(JsonNumber { unsigned: n.as_u64(), shown: n.to_string() })
        }
        serde_json::Value::String(s) => Json::Text(s.clone()),
        serde_json::Value::Array(v) => Json::List(v.iter().map(convert).collect()),
        serde_json::Value::Object(m) => {
            Json::Object(m.iter().map(|(k, v)| (k.clone(), convert(v))).collect())
        }
    }
}

fn json(text: &str) -> Json {
    convert(&serde_json::from_str(text).expect("valid JSON"))
}

fn fixture_notebook() -> Json {
    json(
        r##"{
            "cells": [
                {
                    "cell_type": "code",
                    "execution_count": null,
                    "metadata": {},
                    "outputs": [],
                    "source": ["a = 21\n"]
                },
                {
                    "cell_type": "markdown",
                    "metadata": {},
                    "source": ["# Title\n", "Some *text*.\n"]
                },
                {
                    "cell_type": "code",
                    "execution_count": null,
                    "metadata": {},
                    "outputs": [],
                    "source": ["print('n =', a)\n", "a * 2\n"]
                }
            ],
            "metadata": {
                "kernelspec": { "display_name": "Python 3", "language": "python", "name": "python3" },
                "language_info": { "name": "python", "version": "3.11" }
            },
            "nbformat": 4,
            "nbformat_minor": 5,
            "custom_top_level_field": { "keep": "me" }
        }"##,
    )
}

fn cell(doc: &Json, index: usize) -> &Json {
    match doc.get("cells") {
        Some(Json::List(cells)) => &cells[index],
        _ => panic!("no cells"),
    }
}

fn items<'a>(value: &'a Json, key: &str) -> &'a Vec<Json> {
    match value.get(key) {
        Some(Json::List(items)) => items,
        _ => panic!("no list under {key}"),
    }
}

fn clean(stdout: &str, result: Option<&str>) -> CellResult {
    CellResult {
        stdout: stdout.to_string(),
        stderr: String::new(),
        result: result.map(String::from),
        error: None,
    }
}

fn failed(kind: EvalErrorKind, text: &str) -> CellResult {
    CellResult {
        stdout: String::new(),
        stderr: String::new(),
        result: None,
        error: Some(CellError { kind, text: text.to_string() }),
    }
}

/// Runs cells with a kernel that answers by the code it gets.
fn execute(
    doc: Json,
    selected: Option<i64>,
    write: bool,
    kernel: impl Fn(&str) -> Result<CellResult, String>,
) -> Result<RunReport, String> {
    match run_notebook_execute("notes.ipynb", doc, selected, write)? {
        RunOpening::Nothing(text) => Ok(RunReport { text, document: None, keep_kernel: true }),
        RunOpening::Run(mut run) => {
            while let Some(code) = run.next_code() {
                run.accept(kernel(&code));
            }
            run.finish()
        }
    }
}

fn python(code: &str) -> Result<CellResult, String> {
    match code {
        "a = 21\n" => Ok(clean("", None)),
        "print('n =', a)\na * 2\n" => Ok(clean("n = 21\n", Some("42"))),
        "1 / 0\n" => Ok(failed(EvalErrorKind::Runtime, "ZeroDivisionError: division by zero")),
        "2 + 2\n" => Ok(clean("", Some("4"))),
        "7 * 6\n" | "42\n" => Ok(clean("", Some("42"))),
        "import time\ntime.sleep(30)\n" => Ok(failed(EvalErrorKind::Timeout, "timed out")),
        other => Err(format!("no such code: {other}")),
    }
}

#[test]
fn notebook_read_lists_cells_with_output_summary() {
    let text = run_notebook_read("notes.ipynb", &fixture_notebook(), Some("{}")).expect("read");
    assert!(text.contains("nbformat 4.5"), "{text}");
    assert!(text.contains("3 cells"), "{text}");
    assert!(text.contains("[0] code (0 outputs)"), "{text}");
    assert!(text.contains("[1] markdown"), "{text}");
    assert!(text.contains("[2] code (0 outputs)"), "{text}");
    assert!(text.contains("a = 21"), "{text}");
    assert!(text.contains("# Title"), "{text}");
}

#[test]
fn a_listing_is_exact() {
    let doc = json(
        r#"{ "cells": [
            { "source": "x\ny", "outputs": [{ "output_type": "error" }, {}] },
            { "cell_type": "raw" } ], "metadata": { "a": 1 } }"#,
    );
    assert_eq!(
        run_notebook_read("p", &doc, Some("{\"a\":1}")).unwrap(),
        "notebook: p — nbformat 4.0, 2 cells\nmetadata: {\"a\":1}\n[0] code (2 outputs, includes error)\n    x\n    y\n[1] raw\n"
    );
}

#[test]
fn notebook_execute_runs_code_cells_without_writing() {
    let report = execute(fixture_notebook(), None, false, python).expect("execute");
    let text = report.text;
    assert!(text.contains("[0] ok"), "{text}");
    assert!(text.contains("[2] ok"), "{text}");
    assert!(text.contains("result: 42"), "{text}");
    assert!(text.contains("n = 21"), "{text}");
    assert!(report.document.is_none());
    assert!(report.keep_kernel);
}

#[test]
fn notebook_execute_write_persists_outputs_preserving_fields() {
    let report = execute(fixture_notebook(), None, true, python).expect("execute with write");
    assert!(report.text.contains("wrote outputs to"), "{}", report.text);
    let after = report.document.expect("document");
    assert_eq!(after.get("custom_top_level_field"), Some(&json(r#"{ "keep": "me" }"#)));
    assert_eq!(after.unsigned_at("nbformat"), Some(4));
    assert_eq!(
        after.get("metadata").and_then(|m| m.get("kernelspec")).and_then(|k| k.text_at("name")),
        Some("python3")
    );
    assert_eq!(items(cell(&after, 0), "outputs").len(), 0);
    assert_eq!(cell(&after, 0).unsigned_at("execution_count"), Some(1));
    let outputs = items(cell(&after, 2), "outputs");
    assert_eq!(outputs.len(), 2);
    assert_eq!(outputs[0].text_at("output_type"), Some("stream"));
    assert_eq!(outputs[0].text_at("name"), Some("stdout"));
    assert_eq!(outputs[1].text_at("output_type"), Some("execute_result"));
    assert_eq!(outputs[1].get("data").and_then(|d| d.text_at("text/plain")), Some("42"));
    assert_eq!(cell(&after, 2).unsigned_at("execution_count"), Some(2));
    assert!(cell(&after, 1).get("outputs").is_none());
    assert_eq!(items(cell(&after, 0), "source"), &vec![Json::Text("a = 21\n".to_string())]);
}

#[test]
fn notebook_execute_reports_errors_per_cell() {
    let doc = json(
        r#"{
            "cells": [
                { "cell_type": "code", "execution_count": null, "metadata": {}, "outputs": [], "source": ["1 / 0\n"] },
                { "cell_type": "code", "execution_count": null, "metadata": {}, "outputs": [], "source": ["2 + 2\n"] }
            ],
            "metadata": {},
            "nbformat": 4,
            "nbformat_minor": 5
        }"#,
    );
    let text = execute(doc, None, false, python).expect("execute").text;
    assert!(text.contains("[0] runtime error"), "{text}");
    assert!(text.contains("ZeroDivisionError"), "{text}");
    assert!(text.contains("[1] ok"), "{text}");
    assert!(text.contains("result: 4"), "{text}");
}

#[test]
fn a_kernel_that_fails_ends_the_run() {
    let outcome = execute(fixture_notebook(), None, true, |_| Err("broken pipe".to_string()));
    assert_eq!(
        outcome.err(),
        Some("notebook execute failed in cell 0: broken pipe".to_string())
    );
}

#[test]
fn notebook_edit_appends_cell_preserving_unknown_fields() {
    let mut doc = fixture_notebook();
    let new = check_edit("markdown", Some(&Json::Text("## Added\n".to_string()))).expect("edit");
    let text = run_notebook_edit("notes.ipynb", &mut doc, &new).expect("edit");
    assert_eq!(text, "appended markdown cell to notes.ipynb (now 4 cells)");
    assert_eq!(doc.unsigned_at("nbformat"), Some(4));
    assert_eq!(doc.unsigned_at("nbformat_minor"), Some(5));
    let kernelspec = doc.get("metadata").and_then(|m| m.get("kernelspec")).expect("kernelspec");
    assert_eq!(kernelspec.text_at("name"), Some("python3"));
    assert_eq!(doc.get("custom_top_level_field"), Some(&json(r#"{ "keep": "me" }"#)));
    assert_eq!(items(&doc, "cells").len(), 4);
    assert_eq!(cell(&doc, 3).text_at("cell_type"), Some("markdown"));
    assert_eq!(cell(&doc, 3).get("source"), Some(&json(r###"["## Added\n"]"###)));
    assert_eq!(
        cell(&doc, 1).get("source"),
        Some(&json(r##"["# Title\n", "Some *text*.\n"]"##))
    );
}

#[test]
fn notebook_edit_code_cell_carries_outputs_and_execution_count() {
    let mut doc = fixture_notebook();
    let new = check_edit("code", Some(&json(r#"["print(1)\n"]"#))).expect("edit");
    let text = run_notebook_edit("notes.ipynb", &mut doc, &new).expect("edit");
    assert!(text.contains("appended code cell"), "{text}");
    let cell = cell(&doc, 3);
    assert_eq!(cell.text_at("cell_type"), Some("code"));
    assert_eq!(cell.get("source"), Some(&json(r#"["print(1)\n"]"#)));
    assert_eq!(cell.get("outputs"), Some(&json("[]")));
    assert_eq!(cell.get("execution_count"), Some(&Json::Null));
}

#[test]
fn notebook_read_rejects_oversized_files() {
    assert!(check_size("huge.ipynb", MAX_NOTEBOOK_BYTES).is_ok());
    let error = check_size("huge.ipynb", MAX_NOTEBOOK_BYTES + 1).expect_err("oversized");
    assert!(error.contains("8 MiB"), "{error}");
    assert!(error.contains("8388609 bytes"), "{error}");
}

#[test]
fn notebook_read_rejects_non_notebook_json() {
    let doc = json(r#"{"hello": "world"}"#);
    let error = check_cells("not-notebook.ipynb", &doc).expect_err("missing cells rejected");
    assert!(error.contains("cells"), "{error}");
    assert_eq!(
        run_notebook_read("p", &doc, None),
        Err("notebook has no cells".to_string())
    );
}

#[test]
fn notebook_requires_action_and_path() {
    let granted = all_capabilities();
    let missing_action = run_notebook("", "x.ipynb", &granted).expect_err("action required");
    assert!(missing_action.contains("action"), "{missing_action}");
    let bad_action = run_notebook("delete", "x.ipynb", &granted).expect_err("unknown action");
    assert!(bad_action.contains("delete"), "{bad_action}");
    let missing_path = run_notebook("read", " ", &granted).expect_err("path required");
    assert_eq!(missing_path, "notebook requires a `path` (.ipynb file)");
    assert_eq!(run_notebook(" READ ", "x.ipynb", &granted), Ok(NotebookAction::Read));
}

#[test]
fn action_capability_maps_actions_to_tool_capabilities() {
    assert_eq!(action_capability("read"), Some(ToolCapability::Read));
    assert_eq!(action_capability("execute"), Some(ToolCapability::Exec));
    assert_eq!(action_capability("edit"), Some(ToolCapability::Write));
    assert_eq!(action_capability("delete"), None);
    assert_eq!(action_capability(""), None);
}

#[test]
fn read_only_role_can_read_but_not_edit_or_execute() {
    let granted = vec![ToolCapability::Read];
    assert_eq!(run_notebook("read", "p", &granted), Ok(NotebookAction::Read));
    let edit = run_notebook("edit", "p", &granted).expect_err("edit refused");
    assert!(edit.contains("write"), "{edit}");
    assert!(edit.contains("capability"), "{edit}");
    let exec = run_notebook("execute", "p", &granted).expect_err("execute refused");
    assert!(exec.contains("exec"), "{exec}");
}

#[test]
fn exec_role_can_execute_but_not_read_or_edit() {
    let granted = vec![ToolCapability::Exec];
    let read = run_notebook("read", "p", &granted).expect_err("read refused");
    assert!(read.contains("read"), "{read}");
    let edit = run_notebook("edit", "p", &granted).expect_err("edit refused");
    assert!(edit.contains("write"), "{edit}");
    assert_eq!(run_notebook("execute", "p", &granted), Ok(NotebookAction::Execute));
}

#[test]
fn source_to_lines_follows_nbformat_convention() {
    assert_eq!(source_to_lines("a = 1\nb = 2"), json(r#"["a = 1\n", "b = 2"]"#));
    assert_eq!(source_to_lines("a = 1\n"), json(r#"["a = 1\n"]"#));
    assert_eq!(source_to_lines(""), json(r#"[""]"#));
}

#[test]
fn notebook_read_caps_rendered_cells_at_two_hundred() {
    let cells: Vec<String> = (0..250)
        .map(|i| format!(r#"{{ "cell_type": "code", "outputs": [], "source": ["x = {i}"] }}"#))
        .collect();
    let doc = json(&format!(
        r#"{{ "cells": [{}], "metadata": {{}}, "nbformat": 4, "nbformat_minor": 5 }}"#,
        cells.join(",")
    ));
    let text = bounded(&run_notebook_read("big.ipynb", &doc, Some("{}")).expect("read"));
    assert!(text.contains("250 cells"), "{text}");
    assert!(text.contains("[199] code"), "{text}");
    assert!(text.contains("50 more cells omitted"), "{text}");
    assert!(!text.contains("[200] code"), "{text}");
}

#[test]
fn notebook_read_truncates_large_metadata() {
    let metadata = format!(r#"{{"big_field":"{}"}}"#, "x".repeat(500));
    let doc = json(&format!(r#"{{ "cells": [], "metadata": {metadata} }}"#));
    let text = run_notebook_read("meta.ipynb", &doc, Some(&metadata)).expect("read");
    assert!(text.contains("[truncated metadata]"), "{text}");
    assert_eq!(compact_json(Some("{}")), "{}");
    assert_eq!(compact_json(None), "[truncated metadata]");
}

#[test]
fn notebook_read_renders_raw_and_unknown_cell_types() {
    let doc = json(
        r#"{
            "cells": [
                { "cell_type": "raw", "metadata": {}, "source": ["<raw>\n"] },
                { "cell_type": "custom-type", "metadata": {}, "source": ["??\n"] }
            ],
            "metadata": {}, "nbformat": 4, "nbformat_minor": 5
        }"#,
    );
    let text = run_notebook_read("mixed.ipynb", &doc, Some("{}")).expect("read");
    assert!(text.contains("[0] raw"), "{text}");
    assert!(text.contains("[1] custom-type"), "{text}");
}

#[test]
fn notebook_read_empty_notebook_reports_zero_cells() {
    let doc = json(r#"{ "cells": [], "metadata": {}, "nbformat": 4, "nbformat_minor": 5 }"#);
    let text = run_notebook_read("empty.ipynb", &doc, Some("{}")).expect("read");
    assert!(text.contains("0 cells"), "{text}");
}

#[test]
fn notebook_execute_times_out_and_skips_remaining_cells() {
    let doc = json(
        r#"{
            "cells": [
                { "cell_type": "code", "outputs": [], "source": ["import time\ntime.sleep(30)\n"] },
                { "cell_type": "code", "outputs": [], "source": ["42\n"] }
            ]
        }"#,
    );
    let report = execute(doc, None, true, python).expect("execute");
    let text = report.text;
    assert!(text.contains("[0] timeout"), "{text}");
    assert!(text.contains("remaining cells skipped"), "{text}");
    assert!(!text.contains("result: 42"), "{text}");
    assert!(report.document.is_none());
    assert!(!report.keep_kernel);
}

#[test]
fn notebook_execute_skips_empty_code_cell() {
    let doc = json(
        r#"{
            "cells": [
                { "cell_type": "code", "outputs": [], "source": ["   \n"] },
                { "cell_type": "code", "outputs": [], "source": ["7 * 6\n"] }
            ]
        }"#,
    );
    let text = execute(doc, None, false, python).expect("execute").text;
    assert!(text.contains("[0] code cell is empty — skipped"), "{text}");
    assert!(text.contains("[1] ok"), "{text}");
    assert!(text.contains("result: 42"), "{text}");
}

#[test]
fn notebook_execute_cell_index_out_of_range_is_rejected() {
    let error = execute(fixture_notebook(), Some(99), false, python).err().expect("out of range");
    assert!(error.contains("out of range"), "{error}");
    assert!(error.contains("3 cells"), "{error}");
    let error = execute(fixture_notebook(), Some(-1), false, python).err().expect("negative");
    assert!(error.contains("`cell` -1"), "{error}");
}

#[test]
fn notebook_execute_single_cell_runs_only_that_cell() {
    let text = execute(fixture_notebook(), Some(0), false, python).expect("execute").text;
    assert!(text.contains("[0] ok"), "{text}");
    assert!(!text.contains("[2]"), "{text}");
    assert!(!text.contains("result: 42"), "{text}");
}

#[test]
fn a_notebook_without_code_has_nothing_to_run() {
    let doc = json(r#"{ "cells": [{ "cell_type": "markdown", "source": "x" }] }"#);
    let report = execute(doc, None, true, python).expect("execute");
    assert_eq!(report.text, "notebook: notes.ipynb — no code cells to execute");
}

#[test]
fn notebook_edit_rejects_bad_cell_type() {
    let error = check_edit("delete", Some(&Json::Text("x".to_string()))).expect_err("bad type");
    assert!(error.contains("markdown, code, or raw"), "{error}");
    assert!(error.contains("delete"), "{error}");
}

#[test]
fn a_cell_without_a_type_is_markdown() {
    let mut doc = fixture_notebook();
    let new = check_edit("", Some(&Json::Text("x".to_string()))).expect("edit");
    let text = run_notebook_edit("notes.ipynb", &mut doc, &new).expect("edit");
    assert_eq!(text, "appended markdown cell to notes.ipynb (now 4 cells)");
    assert_eq!(cell(&doc, 3).text_at("cell_type"), Some("markdown"));
    assert_eq!(cell(&doc, 3).get("source"), Some(&json(r#"["x"]"#)));
    assert_eq!(cell(&doc, 3).get("outputs"), None);
}

#[test]
fn notebook_edit_rejects_empty_source() {
    let error = check_edit("code", Some(&Json::Text("   ".to_string()))).expect_err("empty");
    assert!(error.contains("non-empty"), "{error}");
}

#[test]
fn notebook_edit_appends_code_cell_from_array_source() {
    let mut doc = fixture_notebook();
    let new = check_edit("code", Some(&json(r#"["print(1)\n", "print(2)\n"]"#))).expect("edit");
    let text = run_notebook_edit("notes.ipynb", &mut doc, &new).expect("edit");
    assert!(text.contains("appended code cell"), "{text}");
    let cell = cell(&doc, 3);
    assert_eq!(cell.text_at("cell_type"), Some("code"));
    assert_eq!(cell.get("source"), Some(&json(r#"["print(1)\n", "print(2)\n"]"#)));
    assert_eq!(cell.get("outputs"), Some(&json("[]")));
    assert_eq!(cell.get("execution_count"), Some(&Json::Null));
}

#[test]
fn notebook_edit_raw_cell_has_no_outputs_field() {
    let mut doc = fixture_notebook();
    let new = check_edit("raw", Some(&Json::Text("raw text\n".to_string()))).expect("edit");
    run_notebook_edit("notes.ipynb", &mut doc, &new).expect("edit raw");
    let cell = cell(&doc, 3);
    assert_eq!(cell.text_at("cell_type"), Some("raw"));
    assert_eq!(cell.get("source"), Some(&json(r#"["raw text\n"]"#)));
    assert!(cell.get("outputs").is_none());
}

#[test]
fn ipynb_outputs_classifies_syntax_error_as_syntaxerror() {
    let cell = CellResult {
        stdout: "out\n".into(),
        stderr: "err\n".into(),
        result: Some("42".into()),
        error: Some(CellError { kind: EvalErrorKind::Syntax, text: "SyntaxError: bad".into() }),
    };
    let outputs = ipynb_outputs(&cell);
    let arr = match &outputs {
        Json::List(arr) => arr,
        _ => panic!("a list"),
    };
    assert_eq!(arr.len(), 4);
    assert_eq!(arr[0].text_at("output_type"), Some("stream"));
    assert_eq!(arr[0].text_at("name"), Some("stdout"));
    assert_eq!(arr[1].text_at("output_type"), Some("stream"));
    assert_eq!(arr[1].text_at("name"), Some("stderr"));
    assert_eq!(arr[2].text_at("output_type"), Some("execute_result"));
    assert_eq!(arr[2].get("data").and_then(|d| d.text_at("text/plain")), Some("42"));
    assert_eq!(arr[3].text_at("output_type"), Some("error"));
    assert_eq!(arr[3].text_at("ename"), Some("SyntaxError"));
}

#[test]
fn ipynb_outputs_timeout_uses_timeouterror_ename() {
    let outputs = ipynb_outputs(&failed(EvalErrorKind::Timeout, "timed out"));
    let arr = match &outputs {
        Json::List(arr) => arr,
        _ => panic!("a list"),
    };
    assert_eq!(arr.len(), 1);
    assert_eq!(arr[0].text_at("output_type"), Some("error"));
    assert_eq!(arr[0].text_at("ename"), Some("TimeoutError"));
    assert_eq!(items(&arr[0], "traceback")[0], Json::Text("timed out".to_string()));
}

#[test]
fn ipynb_outputs_clean_cell_has_no_outputs() {
    assert_eq!(ipynb_outputs(&clean("", None)), json("[]"));
}

#[test]
fn render_notebook_cell_includes_all_sections() {
    let cell = CellResult {
        stdout: "out line".into(),
        stderr: "err line".into(),
        result: Some("99".into()),
        error: Some(CellError { kind: EvalErrorKind::Runtime, text: "boom".into() }),
    };
    let text = render_notebook_cell(&cell);
    assert!(text.starts_with("runtime error"), "{text}");
    assert!(text.contains("stdout: out line"), "{text}");
    assert!(text.contains("stderr: err line"), "{text}");
    assert!(text.contains("result: 99"), "{text}");
    assert!(text.contains("error:"), "{text}");
    assert!(text.contains("boom"), "{text}");
}

#[test]
fn previews_and_paths() {
    assert_eq!(preview_source(&"x".repeat(200)), "x".repeat(200));
    assert_eq!(preview_source(&"x".repeat(201)), format!("{}...", "x".repeat(200)));
    assert_eq!(resolve_path("/w", "a.ipynb"), "/w/a.ipynb");
    assert_eq!(resolve_path("/w", "/a.ipynb"), "/a.ipynb");
}

#[test]
fn kept_sources_read_back() {
    for source in ["a\nb", "a\n", "\n\n", "x", ""] {
        let lines = source_to_lines(source);
        let new = check_edit("code", Some(&lines));
        if source.trim().is_empty() {
            assert!(new.is_err());
        } else {
            assert_eq!(new.unwrap().source, source);
        }
    }
}
