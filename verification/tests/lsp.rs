use pi_coding::json::{Json, JsonNumber};
use pi_coding::tools::lsp::{
    all_capabilities, check_new_name, check_target_file, check_target_path, diagnostics_hint,
    is_skipped_directory, lang_ext, lang_key_for_path, no_source_files, normalize_lang,
    position_arg, query_params, resolve_lang, resolve_lang_or, run_diagnostics, run_lsp,
    run_status, server_for_lang, server_missing, status_languages, symbol_query, LspAction,
    SourceScan, RELOADED,
};
use pi_coding::tools::lsp_client::{
    initialize_failure, is_content_modified, judge_uri, judge_url, keep_stderr, kept_diagnostics,
    needs_barrier, path_to_uri, read_response, request_with_retry, uri_to_path,
    wait_for_diagnostics, wait_ready_diagnostics, Incoming, ParsedUrl, Retry, Waited, STDERR_CAP,
};
use pi_coding::tools::lsp_edit::{
    apply_text_edits, apply_workspace_edit, edit_targets, position_to_byte_offset,
    preflight_workspace_edit, range_to_byte_offsets, PermissionVerdict, PreflightStep,
};
use pi_coding::tools::lsp_format::{
    format_code_actions, format_diagnostics, format_hover, format_locations,
};
use pi_coding::tools::lsp_symbols::format_symbols;
use pi_coding::tools::notebook::ToolCapability;
use pi_coding::tools::paths::{resolve_scoped_path, ScopedFacts, ScopedStep};
use std::collections::BTreeMap;

fn convert(value: &serde_json::Value) -> Json {
    match value {
        serde_json::Value::Null => Json::Null,
        serde_json::Value::Bool(b) => Json::Bool(*b),
        serde_json::Value::Number(n) => {
            Json::Number(JsonNumber { unsigned: n.as_u64(), shown: n.to_string() })
        }
        serde_json::Value::String(s) => Json::Text(s.clone()),
        serde_json::Value::Array(v) => Json::List(v.iter().map(convert).collect()),
        serde_json::Value::Object(m) => {
            Json::Object(m.iter().map(|(k, v)| (k.clone(), convert(v))).collect())
        }
    }
}

fn json(text: &str) -> Json {
    convert(&serde_json::from_str(text).expect("valid JSON"))
}

/// Files of a workspace, and the roots that edits may touch.
struct Workspace {
    roots: Vec<String>,
    files: BTreeMap<String, String>,
}

impl Workspace {
    fn new(roots: &[&str], files: &[(&str, &str)]) -> Self {
        Workspace {
            roots: roots.iter().map(|r| r.to_string()).collect(),
            files: files.iter().map(|(p, c)| (p.to_string(), c.to_string())).collect(),
        }
    }

    fn resolve(&self, path: &str) -> Result<String, String> {
        let mut last = String::new();
        for root in &self.roots {
            let mut facts = ScopedFacts { root: None, exists: vec![], real_path: None };
            loop {
                match resolve_scoped_path(path, root, None, &facts) {
                    ScopedStep::RealRoot(p) => facts.root = Some(Some(p)),
                    ScopedStep::Exists(p) => facts.exists.push(
                        self.files.contains_key(&p)
                            || self.files.keys().any(|f| f.starts_with(&format!("{p}/")))
                            || p == "/",
                    ),
                    ScopedStep::RealPath(p) => facts.real_path = Some(Ok(p)),
                    ScopedStep::Failed(e) => {
                        last = e;
                        break;
                    }
                    ScopedStep::Done(p) => return Ok(p),
                }
            }
        }
        Err(last)
    }

    fn apply(&mut self, edit: &Json, verdict: PermissionVerdict) -> Result<String, String> {
        let mut resolved = vec![];
        let mut asked: Option<PermissionVerdict> = None;
        let mut verdict = Some(verdict);
        loop {
            match preflight_workspace_edit(edit, &resolved, &asked) {
                PreflightStep::Nothing(text) => return Ok(text),
                PreflightStep::Resolve(path) => resolved.push(self.resolve(&path)),
                PreflightStep::Judge => asked = verdict.take(),
                PreflightStep::Refused(e) => return Err(e),
                PreflightStep::Ready => break,
            }
        }
        let targets = edit_targets(edit).unwrap();
        let mut paths = vec![];
        let mut counts = vec![];
        for (target, path) in targets.iter().zip(resolved) {
            let path = path.unwrap();
            let empty = vec![];
            let edits = target.edits.unwrap_or(&empty);
            let (content, n) = apply_text_edits(&self.files[&path], edits)?;
            self.files.insert(path.clone(), content);
            paths.push(path);
            counts.push(n as u64);
        }
        Ok(apply_workspace_edit(&paths, &counts))
    }
}

fn rename_edit(uris: &[&str]) -> Json {
    let changes: Vec<String> = uris
        .iter()
        .map(|uri| {
            format!(
                r#""{uri}": [{{ "range": {{ "start": {{ "line": 0, "character": 0 }}, "end": {{ "line": 0, "character": 3 }} }}, "newText": "NEW" }}]"#
            )
        })
        .collect();
    json(&format!(r#"{{ "changes": {{ {} }} }}"#, changes.join(",")))
}

#[test]
fn unknown_action_is_rejected() {
    let err = run_lsp("frobnicate", &all_capabilities()).unwrap_err();
    assert!(err.contains("unknown lsp action `frobnicate`"), "{err}");
}

#[test]
fn missing_action_is_rejected() {
    let err = run_lsp("  ", &all_capabilities()).unwrap_err();
    assert!(err.contains("lsp action is required"), "{err}");
}

#[test]
fn deferred_actions_are_rejected_with_clear_error() {
    for action in ["rename_file", "implementation", "type_definition", "request"] {
        let err = run_lsp(action, &all_capabilities()).unwrap_err();
        assert!(err.contains("deferred"), "{action}: {err}");
    }
}

#[test]
fn read_only_instance_rejects_rename_but_serves_hover() {
    let granted = vec![ToolCapability::Read];
    let err = run_lsp("rename", &granted).unwrap_err();
    assert_eq!(
        err,
        "lsp `rename` requires the write capability, which is not granted to this session"
    );
    assert_eq!(run_lsp("hover", &granted), Ok(LspAction::Hover));
    assert_eq!(run_lsp(" rename ", &all_capabilities()), Ok(LspAction::Rename));
}

#[test]
fn position_actions_validate_before_spawn() {
    assert_eq!(
        check_target_path(" "),
        Err("lsp `path` is required for this action".to_string())
    );
    assert_eq!(
        check_target_file("/x", false),
        Err("lsp target is not a file: /x".to_string())
    );
    assert!(check_target_path("a").is_ok() && check_target_file("/x", true).is_ok());
}

#[test]
fn unknown_language_is_rejected() {
    let err = resolve_lang_or("cobol", "a.rs", "a.rs").unwrap_err();
    assert!(err.contains("unsupported lsp language `cobol`"), "{err}");
    let err = resolve_lang_or("", "a.txt", "a.txt").unwrap_err();
    assert!(err.contains("cannot determine language for `a.txt`"), "{err}");
    assert_eq!(resolve_lang("", ""), Ok(None));
    assert_eq!(resolve_lang_or("Go ", "a.rs", "a.rs"), Ok("go".to_string()));
}

#[test]
fn rename_requires_new_name() {
    assert_eq!(check_new_name(" "), Err("lsp rename requires new_name".to_string()));
    assert!(check_new_name("n").is_ok());
}

#[test]
fn missing_server_binary_is_a_clear_error() {
    let err = server_missing("go");
    assert!(err.contains("`gopls` not found in PATH"), "{err}");
    assert_eq!(server_missing("cobol"), "unsupported lsp language `cobol`");
}

#[test]
fn status_reports_registry_without_spawning() {
    let lang = resolve_lang("", "sample.rs").unwrap();
    let text = run_status("/w", &lang, &vec![None]);
    assert!(text.contains("rust-analyzer"), "{text}");
    assert!(text.contains("one server per call"), "{text}");
    assert!(text.contains("NOT FOUND in PATH"), "{text}");
    let all = status_languages(&None);
    assert_eq!(all.len(), 5);
    let locations = vec![Some("/bin/x".to_string()), None, None, None, None];
    let text = run_status("/w", &None, &locations);
    assert!(text.contains("  rust: rust-analyzer /bin/x  language_id=rust"), "{text}");
    assert!(
        text.contains("  python: pyright-langserver (--stdio) NOT FOUND in PATH  language_id=python"),
        "{text}"
    );
    assert!(text.ends_with("narrow status to one language)"), "{text}");
}

#[test]
fn reload_is_a_noop_under_per_call_lifecycle() {
    assert_eq!(run_lsp("reload", &all_capabilities()), Ok(LspAction::Reload));
    assert!(RELOADED.contains("no-op"));
}

#[test]
fn language_detection_covers_registry() {
    for (path, expected) in [
        ("a.rs", Some("rust")),
        ("a.ts", Some("typescript")),
        ("a.tsx", Some("typescript")),
        ("a.mts", Some("typescript")),
        ("a.js", Some("javascript")),
        ("a.mjs", Some("javascript")),
        ("a.go", Some("go")),
        ("a.py", Some("python")),
        ("a.txt", None),
    ] {
        assert_eq!(lang_key_for_path(path), expected, "{path}");
    }
    for (lang, command) in [
        ("rust", "rust-analyzer"),
        ("typescript", "typescript-language-server"),
        ("javascript", "typescript-language-server"),
        ("go", "gopls"),
        ("python", "pyright-langserver"),
    ] {
        assert_eq!(server_for_lang(lang).unwrap().command, command, "{lang}");
    }
    assert_eq!(normalize_lang("TS").unwrap(), "typescript");
    assert!(normalize_lang("cobol").is_err());
}

#[test]
fn extensions_are_those_of_file_names() {
    for (path, expected) in [
        ("/x/.rs", None),
        ("/x/a.b.RS", Some("rust")),
        ("/x.rs/..", None),
        ("a.rs/", Some("rust")),
        ("/x.rs/a", None),
        (".", None),
        ("a.", None),
    ] {
        assert_eq!(lang_key_for_path(path), expected, "{path}");
    }
    assert_eq!(lang_ext("python"), Some("py"));
    assert_eq!(lang_ext("cobol"), None);
}

#[test]
fn position_offsets_are_utf16_aware() {
    let text = "héllo\nwörld 世界\n";
    assert_eq!(position_to_byte_offset(text, 0, 0), 0);
    assert_eq!(position_to_byte_offset(text, 0, 1), 1);
    assert_eq!(position_to_byte_offset(text, 0, 4), 5);
    let line2_start = text.find('\n').unwrap() + 1;
    assert_eq!(position_to_byte_offset(text, 1, 0), line2_start);
    assert_eq!(position_to_byte_offset(text, 1, 7), line2_start + 10);
    let emoji = "a😀b\n";
    assert_eq!(position_to_byte_offset(emoji, 0, 0), 0);
    assert_eq!(position_to_byte_offset(emoji, 0, 4), 6);
    assert_eq!(position_to_byte_offset(text, 99, 0), text.len());
}

#[test]
fn positions_clamp_to_lines_and_characters() {
    let emoji = "a😀b\nc";
    assert_eq!(position_to_byte_offset(emoji, 0, 2), 1);
    assert_eq!(position_to_byte_offset(emoji, 0, 99), 6);
    assert_eq!(position_to_byte_offset(emoji, 1, 99), 8);
}

#[test]
fn ranges_never_run_backwards() {
    let range = json(
        r#"{ "start": { "line": 0, "character": 3 }, "end": { "line": 0, "character": 1 } }"#,
    );
    assert_eq!(range_to_byte_offsets("abcdef", &range), Ok((3, 3)));
    let behind = json(
        r#"{ "start": { "line": 4294967296, "character": 1 }, "end": {} }"#,
    );
    assert_eq!(range_to_byte_offsets("abcdef", &behind), Ok((6, 6)));
    let wide = json(
        r#"{ "start": {}, "end": { "line": 0, "character": 4294967297 } }"#,
    );
    assert_eq!(range_to_byte_offsets("ab\ncd", &wide), Ok((0, 2)));
    assert_eq!(
        range_to_byte_offsets("a", &json("{}")),
        Err("text edit range missing start".to_string())
    );
    assert_eq!(
        range_to_byte_offsets("a", &json(r#"{ "start": {} }"#)),
        Err("text edit range missing end".to_string())
    );
}

#[test]
fn format_locations_handles_single_array_and_links() {
    let array = json(
        r#"[{ "uri": "file:///tmp/a.rs", "range": { "start": { "line": 2, "character": 4 }, "end": { "line": 2, "character": 9 } } }]"#,
    );
    let out = format_locations(&array, "definition");
    assert!(out.contains("definition (1 location(s))"), "{out}");
    assert!(out.contains("/tmp/a.rs:3:5"), "{out}");

    let single = json(
        r#"{ "uri": "file:///tmp/a.rs", "range": { "start": { "line": 0, "character": 0 }, "end": { "line": 0, "character": 2 } } }"#,
    );
    let out = format_locations(&single, "definition");
    assert!(out.contains(":1:1"), "{out}");

    let link = json(
        r#"[{
            "targetUri": "file:///tmp/b.rs",
            "targetRange": { "start": { "line": 9, "character": 0 }, "end": { "line": 9, "character": 3 } },
            "targetSelectionRange": { "start": { "line": 9, "character": 0 }, "end": { "line": 9, "character": 3 } }
        }]"#,
    );
    assert!(format_locations(&link, "definition").contains("/tmp/b.rs:10:1"));

    assert!(format_locations(&Json::Null, "references").contains("no locations"));
}

#[test]
fn locations_are_capped_and_other_uris_shown_as_they_are() {
    let one = r#"{ "uri": "untitled:U", "range": {} }"#;
    let many = json(&format!("[{}]", vec![one; 60].join(",")));
    let out = format_locations(&many, "references");
    assert_eq!(out.lines().count(), 52);
    assert!(out.starts_with("references (60 location(s))\n  untitled:U:1:1\n"), "{out}");
    assert!(out.ends_with("  ... 10 more omitted"), "{out}");
    let far = json(r#"{ "uri": "x:y", "range": { "start": { "line": 18446744073709551615 } } }"#);
    assert!(format_locations(&far, "d").ends_with("  x:y:18446744073709551616:1"));
}

#[test]
fn format_diagnostics_renders_severity_and_position() {
    let params = json(
        r#"{
            "uri": "file:///tmp/a.rs",
            "diagnostics": [
                { "range": { "start": { "line": 1, "character": 2 }, "end": { "line": 1, "character": 6 } }, "severity": 1, "message": "boom" },
                { "range": { "start": { "line": 3, "character": 0 }, "end": { "line": 3, "character": 1 } }, "severity": 2, "message": "meh" }
            ]
        }"#,
    );
    let out = format_diagnostics(&params, "diagnostics");
    assert!(out.contains("2 diagnostic(s) for /tmp/a.rs"), "{out}");
    assert!(out.contains("/tmp/a.rs:2:3 error: boom"), "{out}");
    assert!(out.contains("/tmp/a.rs:4:1 warning: meh"), "{out}");

    let clean = json(r#"{ "uri": "file:///tmp/a.rs", "diagnostics": [] }"#);
    assert!(format_diagnostics(&clean, "diagnostics").contains("no diagnostics"));
}

#[test]
fn other_documents_are_reported_behind_those_asked_about() {
    let own = json(r#"{ "uri": "file:///a", "diagnostics": [] }"#);
    let other = json(r#"{ "uri": "file:///b", "diagnostics": [{ "message": "m" }] }"#);
    let pushed = vec![
        json(r#"{ "uri": "file:///a", "diagnostics": [] }"#),
        other,
        json("{}"),
    ];
    assert_eq!(
        run_diagnostics(&vec![own], &pushed, &vec!["file:///a".to_string()]),
        "diagnostics: no diagnostics for /a\ndiagnostics (workspace): 1 diagnostic(s) for /b\n  /b:1:1 info: m"
    );
    let many: Vec<Json> = (0..30).map(|i| json(&format!(r#"{{ "uri": "file:///f{i}" }}"#))).collect();
    assert_eq!(run_diagnostics(&vec![], &many, &vec![]).lines().count(), 20);
    assert!(no_source_files("go").contains("no `go` source files"));
    assert!(diagnostics_hint("e").starts_with("e\n(hint: "));
}

#[test]
fn format_symbols_handles_nested_and_flat() {
    let nested = json(
        r#"[
            {
                "name": "main", "kind": 12, "range": { "start": { "line": 0, "character": 0 }, "end": { "line": 2, "character": 1 } },
                "selectionRange": { "start": { "line": 0, "character": 0 }, "end": { "line": 0, "character": 4 } },
                "children": [
                    { "name": "inner", "kind": 6, "range": { "start": { "line": 1, "character": 4 }, "end": { "line": 1, "character": 9 } }, "selectionRange": { "start": { "line": 1, "character": 4 }, "end": { "line": 1, "character": 9 } } }
                ]
            }
        ]"#,
    );
    let out = format_symbols(&nested);
    assert!(out.contains("main (Function)"), "{out}");
    assert!(out.contains("  inner (Method)"), "{out}");

    let flat = json(
        r#"[
            { "name": "helper", "kind": 12, "location": { "uri": "file:///tmp/a.rs", "range": { "start": { "line": 0, "character": 0 }, "end": { "line": 0, "character": 6 } } }, "containerName": "mod" }
        ]"#,
    );
    let out = format_symbols(&flat);
    assert!(out.contains("helper — Function"), "{out}");
    assert!(out.contains("(in mod)"), "{out}");
    assert!(format_symbols(&Json::Null).contains("none found"));
}

#[test]
fn symbols_are_capped_in_trees_too() {
    let child = r#"{ "name": "c", "kind": 26, "detail": "d" }"#;
    let tree = json(&format!(
        r#"[{{ "name": "p", "selectionRange": {{}}, "children": [{}] }}, {{ "name": "q" }}]"#,
        vec![child; 250].join(",")
    ));
    let out = format_symbols(&tree);
    assert!(out.starts_with("symbols (200 shown):\np (Symbol)\n  c (TypeParameter) — d\n"), "{out}");
    assert!(out.ends_with("  ... symbol limit (200) reached\n"), "{out}");
    assert!(!out.contains("q (Symbol)"));
    assert_eq!(format_symbols(&json("[]")), "symbols: none found");
    assert_eq!(format_symbols(&json("3")), "symbols: unexpected server response");
}

#[test]
fn format_hover_covers_markup_and_language_strings() {
    let markup = json(r#"{ "contents": { "kind": "markdown", "value": "**doc**" } }"#);
    assert_eq!(format_hover(&markup), "**doc**");
    let language = json(r#"{ "contents": { "language": "rust", "value": "fn x()" } }"#);
    assert_eq!(format_hover(&language), "```rust\nfn x()\n```");
    let array = json(r#"{ "contents": ["plain", { "language": "go", "value": "y" }] }"#);
    let out = format_hover(&array);
    assert!(out.contains("plain") && out.contains("```go"), "{out}");
    assert!(format_hover(&Json::Null).contains("No hover"));
}

#[test]
fn format_code_actions_lists_with_kind_and_diagnostic_count() {
    let actions = json(
        r#"[
            { "title": "Fix it", "kind": "quickfix", "diagnostics": [{ "message": "x" }] },
            { "title": "Extract", "kind": "refactor.extract" }
        ]"#,
    );
    let out = format_code_actions(&actions);
    assert!(out.contains("- Fix it [quickfix] (fixes 1 diagnostic(s))"), "{out}");
    assert!(out.contains("- Extract [refactor.extract]"), "{out}");
    assert!(out.contains("apply is deferred"), "{out}");
    assert!(format_code_actions(&Json::Null).contains("none available"));
}

#[test]
fn apply_workspace_edit_applies_text_edits_to_disk() {
    let mut w = Workspace::new(&["/w"], &[("/w/lib.rs", "fn old() {}\nfn main() { old(); }\n")]);
    let edit = json(
        r#"{ "changes": { "file:///w/lib.rs": [
            { "range": { "start": { "line": 0, "character": 3 }, "end": { "line": 0, "character": 6 } }, "newText": "new" },
            { "range": { "start": { "line": 1, "character": 12 }, "end": { "line": 1, "character": 15 } }, "newText": "new" }
        ] } }"#,
    );
    let out = w.apply(&edit, PermissionVerdict::NoMatch).unwrap();
    assert!(out.contains("2 text edit(s) applied"), "{out}");
    assert_eq!(w.files["/w/lib.rs"], "fn new() {}\nfn main() { new(); }\n");
    assert_eq!(
        out,
        "rename: applied 2 text edit(s)\n  /w/lib.rs: 2 text edit(s) applied"
    );
}

#[test]
fn apply_workspace_edit_rejects_resource_operations() {
    let mut w = Workspace::new(&["/w"], &[("/w/a.rs", "abc")]);
    let create = json(
        r#"{ "documentChanges": [
            { "kind": "create", "uri": "file:///w/new.rs" },
            { "textDocument": { "uri": "file:///w/a.rs", "version": 1 }, "edits": [] }
        ] }"#,
    );
    let err = w.apply(&create, PermissionVerdict::Allow).unwrap_err();
    assert!(err.contains("unsupported file create/rename/delete operation"), "{err}");
    let marked = json(
        r#"{ "documentChanges": [
            { "kind": "rename", "textDocument": { "uri": "file:///w/a.rs" }, "edits": [] }
        ] }"#,
    );
    let err = w.apply(&marked, PermissionVerdict::Allow).unwrap_err();
    assert!(err.ends_with("operation (`rename`)"), "{err}");
    let nameless = json(r#"{ "documentChanges": [{ "textDocument": {} }] }"#);
    assert_eq!(
        w.apply(&nameless, PermissionVerdict::Allow).unwrap_err(),
        "workspace edit textDocument missing uri"
    );
    assert_eq!(w.files["/w/a.rs"], "abc");
}

#[test]
fn apply_workspace_edit_rejects_out_of_workspace_target_atomically() {
    let mut w = Workspace::new(&["/w"], &[("/w/a.rs", "old"), ("/x/b.rs", "old")]);
    let err = w
        .apply(&rename_edit(&["file:///w/a.rs", "file:///x/b.rs"]), PermissionVerdict::Allow)
        .unwrap_err();
    assert!(err.contains("outside the configured workspace roots"), "{err}");
    assert_eq!(w.files["/w/a.rs"], "old");
    assert_eq!(w.files["/x/b.rs"], "old");
}

#[test]
fn apply_workspace_edit_rejects_non_file_uri() {
    let mut w = Workspace::new(&["/w"], &[("/w/a.rs", "old")]);
    let err = w
        .apply(&rename_edit(&["file:///w/a.rs", "untitled:U"]), PermissionVerdict::Allow)
        .unwrap_err();
    assert!(err.contains("not a file:// uri: `untitled:U`"), "{err}");
    assert_eq!(w.files["/w/a.rs"], "old");
}

#[test]
fn apply_workspace_edit_denied_permission_rule_rejects_atomically() {
    let mut w = Workspace::new(&["/w"], &[("/w/a.rs", "old")]);
    let err = w
        .apply(&rename_edit(&["file:///w/a.rs"]), PermissionVerdict::Deny("rule 1".to_string()))
        .unwrap_err();
    assert_eq!(err, "lsp rename refused: rule 1");
    assert_eq!(w.files["/w/a.rs"], "old");
}

#[test]
fn apply_workspace_edit_ask_permission_rule_rejects_atomically() {
    let mut w = Workspace::new(&["/w"], &[("/w/a.rs", "old")]);
    let err = w.apply(&rename_edit(&["file:///w/a.rs"]), PermissionVerdict::Ask).unwrap_err();
    assert!(err.contains("requires host approval"), "{err}");
    assert_eq!(w.files["/w/a.rs"], "old");
}

#[test]
fn apply_workspace_edit_allows_in_workspace_multi_file_rename() {
    let mut w = Workspace::new(&["/w"], &[("/w/a.rs", "old a"), ("/w/b.rs", "old b")]);
    let out = w
        .apply(&rename_edit(&["file:///w/a.rs", "file:///w/b.rs"]), PermissionVerdict::NoMatch)
        .unwrap();
    assert!(out.starts_with("rename: applied 2 text edit(s)"), "{out}");
    assert_eq!(w.files["/w/a.rs"], "NEW a");
    assert_eq!(w.files["/w/b.rs"], "NEW b");
}

#[test]
fn apply_workspace_edit_respects_additional_workspace_roots() {
    let mut w = Workspace::new(&["/w", "/extra"], &[("/w/a.rs", "old"), ("/extra/b.rs", "old")]);
    w.apply(&rename_edit(&["file:///w/a.rs", "file:///extra/b.rs"]), PermissionVerdict::Allow)
        .unwrap();
    assert_eq!(w.files["/extra/b.rs"], "NEW");
}

#[test]
fn empty_workspace_edits_change_nothing() {
    let mut w = Workspace::new(&["/w"], &[]);
    assert_eq!(
        w.apply(&Json::Null, PermissionVerdict::Allow).unwrap(),
        "rename: the server returned no workspace edit (nothing to change)"
    );
    assert_eq!(
        w.apply(&json(r#"{ "changes": {} }"#), PermissionVerdict::Allow).unwrap(),
        "rename: the server returned an empty workspace edit"
    );
}

#[test]
fn edits_without_a_range_fail() {
    let edits = match json(r#"[{ "newText": "x" }]"#) {
        Json::List(v) => v,
        _ => vec![],
    };
    assert_eq!(apply_text_edits("a", &edits), Err("text edit missing range".to_string()));
}

#[test]
fn uri_to_path_requires_file_scheme() {
    let path = "/tmp/pi-lsp-uri-test.rs";
    let uri = path_to_uri(path).unwrap();
    assert_eq!(uri, "file:///tmp/pi-lsp-uri-test.rs");
    assert_eq!(uri_to_path(&uri).unwrap(), path);
    for bad in ["http://evil.example/x.rs", "untitled:Untitled-1", "vscode-userdata:///x"] {
        let err = uri_to_path(bad).unwrap_err();
        assert!(err.contains("not a file:// uri"), "{bad}: {err}");
    }
}

#[test]
fn uris_escape_what_is_not_plain() {
    assert_eq!(path_to_uri("/a b/c%d").unwrap(), "file:///a%20b/c%25d");
    assert_eq!(uri_to_path("file:///a%20b/c%25d").unwrap(), "/a b/c%d");
    assert_eq!(
        path_to_uri("a").unwrap_err(),
        "invalid file path for URI: a"
    );
    assert!(path_to_uri("/a|b").unwrap_err().starts_with("invalid file URI for /a|b: "));
    assert_eq!(uri_to_path("no uri").unwrap_err(), "invalid LSP uri: no uri");
    assert!(uri_to_path("file://elsewhere/x").is_err());
}

#[test]
fn uris_are_judged_by_what_the_parsers_say() {
    assert_eq!(judge_uri("/p", Some("u".to_string()), None), Ok("u".to_string()));
    assert_eq!(
        judge_uri("/p", Some("u".to_string()), Some("why")),
        Err("invalid file URI for /p: why".to_string())
    );
    let url = ParsedUrl { scheme: "http".to_string(), path: Some("/x".to_string()) };
    assert_eq!(judge_url("u", Some(url)), Err("not a file:// uri: u".to_string()));
    let url = ParsedUrl { scheme: "file".to_string(), path: Some("/x".to_string()) };
    assert_eq!(judge_url("u", Some(url)), Ok("/x".to_string()));
}

#[test]
fn answers_are_told_from_notifications() {
    let answer = json(r#"{ "id": 2, "result": "two" }"#);
    assert_eq!(read_response(&answer, 2), Incoming::Answer(Some(&Json::Text("two".to_string()))));
    assert_eq!(read_response(&answer, 1), Incoming::Ignored);
    let failed = json(r#"{ "id": 1, "error": { "code": 3 } }"#);
    assert_eq!(read_response(&failed, 1), Incoming::Failed(&json(r#"{ "code": 3 }"#)));
    let push = json(r#"{ "method": "textDocument/publishDiagnostics", "params": { "uri": "u" } }"#);
    assert_eq!(
        read_response(&push, 1),
        Incoming::Diagnostics(Some(&json(r#"{ "uri": "u" }"#)))
    );
    assert_eq!(read_response(&json(r#"{ "method": "log" }"#), 1), Incoming::Ignored);
    assert_eq!(read_response(&json(r#"{ "id": 1 }"#), 1), Incoming::Answer(None));
    assert_eq!(wait_for_diagnostics(&push, "u"), Waited::Found(&json(r#"{ "uri": "u" }"#)));
    assert_eq!(wait_for_diagnostics(&push, "v"), Waited::Other(Some(&json(r#"{ "uri": "u" }"#))));
    assert_eq!(wait_for_diagnostics(&answer, "u"), Waited::Ignored);
    let kept = vec![json(r#"{ "uri": "a" }"#), json(r#"{ "uri": "b", "n": 1 }"#), json(r#"{ "uri": "b" }"#)];
    assert_eq!(kept_diagnostics(&kept, "b"), Some(&kept[1]));
    assert_eq!(kept_diagnostics(&kept, "c"), None);
}

#[test]
fn only_modified_content_is_retried() {
    let raced = r#"LSP request failed: {"code":-32801,"message":"m"}"#;
    assert!(is_content_modified(raced));
    assert!(is_content_modified("content modified"));
    assert!(!is_content_modified("timed out"));
    assert_eq!(request_with_retry(0, raced), Retry::After(200));
    assert_eq!(request_with_retry(2, raced), Retry::After(600));
    assert_eq!(request_with_retry(3, raced), Retry::Never);
    assert_eq!(request_with_retry(0, "timed out"), Retry::Never);
}

#[test]
fn server_errors_are_kept_up_to_a_cap() {
    let tail = keep_stderr(&"a".repeat(STDERR_CAP), "bc");
    assert_eq!(tail.len(), STDERR_CAP);
    assert!(tail.ends_with("abc"));
    assert_eq!(
        initialize_failure("ra", "no", " \n"),
        "LSP server `ra` failed to initialize: no"
    );
    assert!(initialize_failure("ra", "no", "why").ends_with("\n--- server stderr ---\nwhy"));
}

#[test]
fn arguments_are_clamped_and_queries_built() {
    assert_eq!(position_arg(None, 7), 7);
    assert_eq!(position_arg(Some(-1), 7), 0);
    assert_eq!(position_arg(Some(i64::MAX), 0), u32::MAX);
    assert_eq!(symbol_query("".to_string(), "s".to_string()), "s");
    assert_eq!(symbol_query("q".to_string(), "s".to_string()), "q");
    assert_eq!(
        query_params("u", 1, 2, true),
        Json::Object(vec![
            ("textDocument".to_string(), json(r#"{ "uri": "u" }"#)),
            (
                "position".to_string(),
                Json::Object(vec![
                    ("line".to_string(), json("1")),
                    ("character".to_string(), json("2"))
                ])
            ),
            ("context".to_string(), json(r#"{ "includeDeclaration": true }"#)),
        ])
    );
}

#[test]
fn source_files_are_collected_up_to_a_cap() {
    let mut scan = SourceScan::workspace_source_files("rust").unwrap();
    assert!(scan.offer("/w/a.RS", true));
    assert!(scan.offer("/w/b.rs", false));
    assert!(scan.offer("/w/c.py", true));
    assert_eq!(scan.files, vec!["/w/a.RS"]);
    for i in 0..18 {
        assert!(scan.offer(&format!("/w/{i}.rs"), true));
    }
    assert!(!scan.offer("/w/last.rs", true));
    assert!(!scan.offer("/w/more.rs", true));
    assert_eq!(scan.files.len(), 20);
    assert!(SourceScan::workspace_source_files("cobol").is_err());
    assert!(is_skipped_directory("node_modules") && !is_skipped_directory("src"));
}

/// The workspace edit in a server's answer to the first request.
fn answered(message: &str) -> Json {
    match read_response(&json(message), 1) {
        Incoming::Answer(Some(edit)) => match edit {
            Json::Object(members) => {
                Json::Object(members.iter().map(|(k, v)| (k.clone(), copied(v))).collect())
            }
            other => panic!("no workspace edit: {other:?}"),
        },
        other => panic!("no answer: {other:?}"),
    }
}

fn copied(value: &Json) -> Json {
    match value {
        Json::Null => Json::Null,
        Json::Bool(b) => Json::Bool(*b),
        Json::Number(n) => Json::Number(JsonNumber { unsigned: n.unsigned, shown: n.shown.clone() }),
        Json::Text(s) => Json::Text(s.clone()),
        Json::List(v) => Json::List(v.iter().map(copied).collect()),
        Json::Object(m) => Json::Object(m.iter().map(|(k, v)| (k.clone(), copied(v))).collect()),
    }
}

/// A server's answer to a rename that replaces the first three characters of
/// every target.
fn rename_answer(paths: &[&str]) -> Json {
    let changes: Vec<String> = paths
        .iter()
        .map(|path| {
            format!(
                r#""{}": [{{ "range": {{ "start": {{ "line": 0, "character": 0 }}, "end": {{ "line": 0, "character": 3 }} }}, "newText": "NEW" }}]"#,
                path_to_uri(path).unwrap()
            )
        })
        .collect();
    answered(&format!(
        r#"{{ "jsonrpc": "2.0", "id": 1, "result": {{ "changes": {{ {} }} }} }}"#,
        changes.join(",")
    ))
}

#[test]
fn rename_end_to_end_rejects_out_of_workspace_target_atomically() {
    let mut w = Workspace::new(
        &["/w"],
        &[("/w/lib.rs", "fn old() {}\n"), ("/tmp/outside", "fn old() {}\n")],
    );
    let err = w
        .apply(&rename_answer(&["/w/lib.rs", "/tmp/outside"]), PermissionVerdict::NoMatch)
        .expect_err("out-of-workspace target must reject the whole rename");
    assert!(err.contains("outside the configured workspace roots"), "{err}");
    assert_eq!(w.files["/w/lib.rs"], "fn old() {}\n", "sentinel must be unchanged");
}

#[test]
fn rename_end_to_end_applies_in_workspace_multi_file_edit() {
    let mut w = Workspace::new(
        &["/w"],
        &[("/w/a.rs", "fn old() {}\n"), ("/w/b.rs", "fn old() {}\n")],
    );
    let text = w
        .apply(&rename_answer(&["/w/a.rs", "/w/b.rs"]), PermissionVerdict::NoMatch)
        .expect("in-workspace multi-file rename must succeed");
    assert!(text.contains("rename: applied 2 text edit(s)"), "{text}");
    assert_eq!(w.files["/w/a.rs"], "NEWold() {}\n");
    assert_eq!(w.files["/w/b.rs"], "NEWold() {}\n");
}

#[test]
fn rename_end_to_end_rejects_resource_operations() {
    let mut w = Workspace::new(&["/w"], &[("/w/lib.rs", "fn old() {}\n")]);
    let edit = answered(
        r#"{ "jsonrpc": "2.0", "id": 1, "result": { "documentChanges": [
            { "kind": "create", "uri": "file:///w/new.rs" }
        ] } }"#,
    );
    let err = w
        .apply(&edit, PermissionVerdict::NoMatch)
        .expect_err("resource operations must reject the rename");
    assert!(err.contains("unsupported file create/rename/delete operation"), "{err}");
    assert_eq!(w.files["/w/lib.rs"], "fn old() {}\n");
}

#[test]
fn rename_end_to_end_rejects_permission_denied_target() {
    let mut w = Workspace::new(&["/w"], &[("/w/lib.rs", "fn old() {}\n")]);
    let verdict = PermissionVerdict::Deny("denied by path permission rule".to_owned());
    let err = w
        .apply(&rename_answer(&["/w/lib.rs"]), verdict)
        .expect_err("permission-denied target must reject the rename");
    assert!(err.contains("denied by path permission rule"), "{err}");
    assert_eq!(w.files["/w/lib.rs"], "fn old() {}\n");
}

#[test]
fn diagnostics_skip_initial_empty_push_via_analysis_barrier() {
    let uri = "file:///w/lib.rs";
    let empty = json(r#"{ "uri": "file:///w/lib.rs", "diagnostics": [] }"#);
    assert!(needs_barrier(&empty));
    assert!(needs_barrier(&Json::Null));
    let real = || {
        json(
            r#"{ "uri": "file:///w/lib.rs", "diagnostics": [{
                "range": { "start": { "line": 0, "character": 3 }, "end": { "line": 0, "character": 7 } },
                "severity": 1, "message": "progressive real diagnostic"
            }] }"#,
        )
    };
    assert!(!needs_barrier(&real()));
    let other = || json(r#"{ "uri": "file:///w/other.rs", "diagnostics": [] }"#);
    let pushed = vec![other(), real(), other()];
    let params = wait_ready_diagnostics(&empty, &pushed, 1, uri);
    let text = format_diagnostics(params, "diagnostics");
    assert!(text.contains("progressive real diagnostic"), "{text}");
    assert!(!text.contains("no diagnostics"), "{text}");
    assert_eq!(wait_ready_diagnostics(&empty, &pushed, 2, uri), &empty);
    assert_eq!(wait_ready_diagnostics(&empty, &pushed, 9, uri), &empty);
}

#[test]
fn paths_come_back_from_their_uris() {
    for path in ["/", "/a", "/a b/c%d#e?f", "/tmp/\u{e9}\u{4e16}/x.rs", "/%2e%2e/{q}", "/back\\slash"] {
        let uri = path_to_uri(path).unwrap();
        assert_eq!(uri_to_path(&uri).unwrap(), path, "{uri}");
    }
    let uri = path_to_uri("//a/./b/").unwrap();
    assert_eq!(uri_to_path(&uri).unwrap(), "/a/b");
    assert_eq!(uri_to_path(&path_to_uri("/a/../b").unwrap()).unwrap(), "/b");
}
