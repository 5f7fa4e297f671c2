//! The language server tool: actions, languages and what is asked of a server.

use crate::json;
use crate::json::{push_member, text_json, whole_number, Json, JsonModel};
use crate::lexical_path;
use crate::lexical_path::path_components;
use crate::text;
use crate::text::{
    chars_of, contains_text, is_blank, join_texts, push_text, same_text, text_between,
    to_ascii_lower, trim,
};
use crate::tools::lsp_format;
use crate::tools::lsp_format::{format_diagnostics, format_hover, format_locations};
use crate::tools::notebook::{capability_name, ToolCapability};
use vstd::prelude::*;
use vstd::string::*;

verus! {

pub const ACTIONS: &'static str = "hover, definition, references, diagnostics, symbols, rename, code_actions, capabilities, status, reload";

/// Cap on the files of one call for diagnostics.
pub const MAX_DIAGNOSTIC_FILES: usize = 20;

/// How deep directories are searched for source files.
pub const DIAGNOSTICS_MAX_DEPTH: usize = 6;

pub const RELOADED: &'static str = "lsp reload: no-op — this build spawns a fresh server per call, so there are no cached clients or configuration to reload. A per-(lang, cwd) server pool with config caching is the planned follow-up.";

// ---------------------------------------------------------------------------
// Actions
// ---------------------------------------------------------------------------

/// What a call of the tool asks for.
#[derive(Clone, Copy, Debug, PartialEq, Eq, Structural)]
pub enum LspAction {
    Hover,
    Definition,
    References,
    Diagnostics,
    Symbols,
    Rename,
    CodeActions,
    Capabilities,
    Status,
    Reload,
}

impl LspAction {
    /// The capability that the action needs: only a rename changes files.
    pub open spec fn needs(self) -> ToolCapability {
        match self {
            LspAction::Rename => ToolCapability::Write,
            _ => ToolCapability::Read,
        }
    }
}

/// The action with the given name.
pub open spec fn action_named(action: Seq<char>) -> Option<LspAction> {
    if action == "hover"@ {
        Some(LspAction::Hover)
    } else if action == "definition"@ {
        Some(LspAction::Definition)
    } else if action == "references"@ {
        Some(LspAction::References)
    } else if action == "diagnostics"@ {
        Some(LspAction::Diagnostics)
    } else if action == "symbols"@ {
        Some(LspAction::Symbols)
    } else if action == "rename"@ {
        Some(LspAction::Rename)
    } else if action == "code_actions"@ {
        Some(LspAction::CodeActions)
    } else if action == "capabilities"@ {
        Some(LspAction::Capabilities)
    } else if action == "status"@ {
        Some(LspAction::Status)
    } else if action == "reload"@ {
        Some(LspAction::Reload)
    } else {
        None
    }
}

fn action_of(action: &str) -> (r: Option<LspAction>)
    ensures
        r == action_named(action@),
{
    if same_text(action, "hover") {
        Some(LspAction::Hover)
    } else if same_text(action, "definition") {
        Some(LspAction::Definition)
    } else if same_text(action, "references") {
        Some(LspAction::References)
    } else if same_text(action, "diagnostics") {
        Some(LspAction::Diagnostics)
    } else if same_text(action, "symbols") {
        Some(LspAction::Symbols)
    } else if same_text(action, "rename") {
        Some(LspAction::Rename)
    } else if same_text(action, "code_actions") {
        Some(LspAction::CodeActions)
    } else if same_text(action, "capabilities") {
        Some(LspAction::Capabilities)
    } else if same_text(action, "status") {
        Some(LspAction::Status)
    } else if same_text(action, "reload") {
        Some(LspAction::Reload)
    } else {
        None
    }
}

/// The capability that the action with the given name needs.
pub open spec fn needed(action: Seq<char>) -> Option<ToolCapability> {
    match action_named(action) {
        Some(a) => Some(a.needs()),
        None => None,
    }
}

/// The capability that an action needs. Queries read; a rename writes.
pub fn action_capability(action: &str) -> (r: Option<ToolCapability>)
    ensures
        r == needed(action@),
{
    match action_of(action) {
        Some(LspAction::Rename) => Some(ToolCapability::Write),
        Some(_) => Some(ToolCapability::Read),
        None => None,
    }
}

/// The capabilities of the tool on its own.
pub fn all_capabilities() -> (r: Vec<ToolCapability>)
    ensures
        r@ == seq![ToolCapability::Read, ToolCapability::Write],
{
    let mut r: Vec<ToolCapability> = Vec::new();
    r.push(ToolCapability::Read);
    r.push(ToolCapability::Write);
    r
}

/// Whether an action is known but not there yet.
pub open spec fn deferred(action: Seq<char>) -> bool {
    action == "rename_file"@ || action == "implementation"@ || action == "type_definition"@
        || action == "request"@
}

fn is_deferred(action: &str) -> (r: bool)
    ensures
        r == deferred(action@),
{
    same_text(action, "rename_file") || same_text(action, "implementation") || same_text(
        action,
        "type_definition",
    ) || same_text(action, "request")
}

/// Why a call is refused before any server is contacted.
pub open spec fn refusal(action: Seq<char>, granted: Seq<ToolCapability>) -> Option<Seq<char>> {
    let action = text::trimmed(action);
    if action.len() == 0 {
        Some("lsp action is required (one of: "@ + ACTIONS@ + ")"@)
    } else if deferred(action) {
        Some(
            "lsp action `"@ + action
                + "` is deferred in this build (implemented actions: "@ + ACTIONS@ + ")"@,
        )
    } else {
        match needed(action) {
            None => Some(
                "unknown lsp action `"@ + action + "` (expected one of: "@ + ACTIONS@ + ")"@,
            ),
            Some(capability) => if granted.contains(capability) {
                None
            } else {
                Some(
                    "lsp `"@ + action + "` requires the "@ + capability.name()
                        + " capability, which is not granted to this session"@,
                )
            },
        }
    }
}

fn is_granted(granted: &Vec<ToolCapability>, capability: ToolCapability) -> (r: bool)
    ensures
        r == granted@.contains(capability),
{
    let mut i: usize = 0;
    while i < granted.len()
        invariant
            i <= granted@.len(),
            forall|j: int| 0 <= j < i ==> granted@[j] != capability,
        decreases granted@.len() - i,
    {
        if granted[i] == capability {
            return true;
        }
        i += 1;
    }
    false
}

/// Checks a call before any server is contacted: the action, and whether the
/// capability that it needs is granted.
pub fn run_lsp(action: &str, granted: &Vec<ToolCapability>) -> (r: Result<LspAction, String>)
    ensures
        match r {
            Ok(a) => refusal(action@, granted@) is None && action_named(text::trimmed(action@))
                == Some(a),
            Err(e) => refusal(action@, granted@) == Some(e@),
        },
{
    let action = trim(action);
    let name = action.as_str();
    if name.is_empty() {
        return Err("lsp action is required (one of: ".to_owned().concat(ACTIONS).concat(")"));
    }
    if is_deferred(name) {
        return Err(
            "lsp action `".to_owned().concat(name).concat(
                "` is deferred in this build (implemented actions: ",
            ).concat(ACTIONS).concat(")"),
        );
    }
    match (action_of(name), action_capability(name)) {
        (Some(a), Some(capability)) => {
            if is_granted(granted, capability) {
                Ok(a)
            } else {
                Err(
                    "lsp `".to_owned().concat(name).concat("` requires the ").concat(
                        capability_name(capability),
                    ).concat(" capability, which is not granted to this session"),
                )
            }
        },
        _ => Err(
            "unknown lsp action `".to_owned().concat(name).concat(
                "` (expected one of: ",
            ).concat(ACTIONS).concat(")"),
        ),
    }
}

/// A tool that may not write never gets as far as a rename.
pub proof fn law_renames_need_write(action: Seq<char>, granted: Seq<ToolCapability>)
    requires
        action_named(text::trimmed(action)) == Some(LspAction::Rename),
        !granted.contains(ToolCapability::Write),
    ensures
        refusal(action, granted) is Some,
{
}

// ---------------------------------------------------------------------------
// Languages
// ---------------------------------------------------------------------------

/// How the server of a language is started.
#[derive(Clone, Copy, Debug, PartialEq, Eq)]
pub struct ServerSpec {
    pub command: &'static str,
    /// Whether it is started with `--stdio`.
    pub stdio: bool,
    pub language_id: &'static str,
}

/// How the server of a language is started, as a model.
#[verifier::ext_equal]
pub struct ServerModel {
    pub command: Seq<char>,
    pub stdio: bool,
    pub language_id: Seq<char>,
}

impl View for ServerSpec {
    type V = ServerModel;

    open spec fn view(&self) -> ServerModel {
        ServerModel {
            command: self.command@,
            stdio: self.stdio,
            language_id: self.language_id@,
        }
    }
}

/// The server of a language, by its name or its short name.
pub open spec fn server_of(lang: Seq<char>) -> Option<ServerModel> {
    if lang == "rust"@ || lang == "rs"@ {
        Some(
            ServerModel { command: "rust-analyzer"@, stdio: false, language_id: "rust"@ },
        )
    } else if lang == "typescript"@ || lang == "ts"@ {
        Some(
            ServerModel {
                command: "typescript-language-server"@,
                stdio: true,
                language_id: "typescript"@,
            },
        )
    } else if lang == "javascript"@ || lang == "js"@ {
        Some(
            ServerModel {
                command: "typescript-language-server"@,
                stdio: true,
                language_id: "javascript"@,
            },
        )
    } else if lang == "go"@ || lang == "golang"@ {
        Some(ServerModel { command: "gopls"@, stdio: false, language_id: "go"@ })
    } else if lang == "python"@ || lang == "py"@ {
        Some(
            ServerModel { command: "pyright-langserver"@, stdio: true, language_id: "python"@ },
        )
    } else {
        None
    }
}

/// The server of a language, by its name or its short name.
pub fn server_for_lang(lang: &str) -> (r: Option<ServerSpec>)
    ensures
        match r {
            Some(s) => server_of(lang@) == Some(s@),
            None => server_of(lang@) is None,
        },
{
    if same_text(lang, "rust") || same_text(lang, "rs") {
        Some(ServerSpec { command: "rust-analyzer", stdio: false, language_id: "rust" })
    } else if same_text(lang, "typescript") || same_text(lang, "ts") {
        Some(
            ServerSpec {
                command: "typescript-language-server",
                stdio: true,
                language_id: "typescript",
            },
        )
    } else if same_text(lang, "javascript") || same_text(lang, "js") {
        Some(
            ServerSpec {
                command: "typescript-language-server",
                stdio: true,
                language_id: "javascript",
            },
        )
    } else if same_text(lang, "go") || same_text(lang, "golang") {
        Some(ServerSpec { command: "gopls", stdio: false, language_id: "go" })
    } else if same_text(lang, "python") || same_text(lang, "py") {
        Some(ServerSpec { command: "pyright-langserver", stdio: true, language_id: "python" })
    } else {
        None
    }
}

/// The language that a user means.
pub open spec fn language_named(lang: Seq<char>) -> Option<Seq<char>> {
    let name = text::ascii_lower(text::trimmed(lang));
    if name == "rust"@ || name == "rs"@ {
        Some("rust"@)
    } else if name == "typescript"@ || name == "ts"@ || name == "tsx"@ {
        Some("typescript"@)
    } else if name == "javascript"@ || name == "js"@ || name == "jsx"@ {
        Some("javascript"@)
    } else if name == "go"@ || name == "golang"@ {
        Some("go"@)
    } else if name == "python"@ || name == "py"@ {
        Some("python"@)
    } else {
        None
    }
}

/// The message for a language that there is no server for.
pub open spec fn unsupported(lang: Seq<char>) -> Seq<char> {
    "unsupported lsp language `"@ + lang
        + "` (supported: rust, typescript, javascript, go, python)"@
}

/// The language that a user means.
pub fn normalize_lang(lang: &str) -> (r: Result<String, String>)
    ensures
        match (language_named(lang@), r) {
            (Some(name), Ok(s)) => s@ == name,
            (None, Err(e)) => e@ == unsupported(lang@),
            _ => false,
        },
{
    let name = to_ascii_lower(trim(lang).as_str());
    let name = name.as_str();
    if same_text(name, "rust") || same_text(name, "rs") {
        Ok("rust".to_owned())
    } else if same_text(name, "typescript") || same_text(name, "ts") || same_text(name, "tsx") {
        Ok("typescript".to_owned())
    } else if same_text(name, "javascript") || same_text(name, "js") || same_text(name, "jsx") {
        Ok("javascript".to_owned())
    } else if same_text(name, "go") || same_text(name, "golang") {
        Ok("go".to_owned())
    } else if same_text(name, "python") || same_text(name, "py") {
        Ok("python".to_owned())
    } else {
        Err(
            "unsupported lsp language `".to_owned().concat(lang).concat(
                "` (supported: rust, typescript, javascript, go, python)",
            ),
        )
    }
}

/// The language of files with an extension.
pub open spec fn language_of_ext(ext: Seq<char>) -> Option<Seq<char>> {
    if ext == "rs"@ {
        Some("rust"@)
    } else if ext == "ts"@ || ext == "tsx"@ || ext == "mts"@ || ext == "cts"@ {
        Some("typescript"@)
    } else if ext == "js"@ || ext == "jsx"@ || ext == "mjs"@ || ext == "cjs"@ {
        Some("javascript"@)
    } else if ext == "go"@ {
        Some("go"@)
    } else if ext == "py"@ {
        Some("python"@)
    } else {
        None
    }
}

/// The text of an optional text.
pub open spec fn opt_str(o: Option<&'static str>) -> Option<Seq<char>> {
    match o {
        Some(s) => Some(s@),
        None => None,
    }
}

/// The language of files with an extension.
pub fn lang_key_for_ext(ext: &str) -> (r: Option<&'static str>)
    ensures
        opt_str(r) == language_of_ext(ext@),
{
    if same_text(ext, "rs") {
        Some("rust")
    } else if same_text(ext, "ts") || same_text(ext, "tsx") || same_text(ext, "mts") || same_text(
        ext,
        "cts",
    ) {
        Some("typescript")
    } else if same_text(ext, "js") || same_text(ext, "jsx") || same_text(ext, "mjs") || same_text(
        ext,
        "cjs",
    ) {
        Some("javascript")
    } else if same_text(ext, "go") {
        Some("go")
    } else if same_text(ext, "py") {
        Some("python")
    } else {
        None
    }
}

/// Where the last dot of a name stands, looking at its first `n` characters.
pub open spec fn last_dot(name: Seq<char>, n: nat) -> Option<int>
    decreases n,
{
    if n == 0 {
        None
    } else if name[n - 1] == '.' {
        Some(n - 1)
    } else {
        last_dot(name, (n - 1) as nat)
    }
}

/// The extension of a path: what stands behind the last dot of its last
/// component, unless that dot is the first character.
pub open spec fn extension_of(path: Seq<char>) -> Option<Seq<char>> {
    let parts = lexical_path::components(path);
    if parts.len() == 0 || parts.last() == ".."@ || parts.last() == "."@ {
        None
    } else {
        match last_dot(parts.last(), parts.last().len()) {
            Some(at) if at > 0 => Some(parts.last().skip(at + 1)),
            _ => None,
        }
    }
}

fn extension(path: &str) -> (r: Option<String>)
    ensures
        text::opt_text(r) == extension_of(path@),
{
    let parts = path_components(path);
    if parts.len() == 0 {
        return None;
    }
    let name = parts[parts.len() - 1].as_str();
    assert(text::texts(parts@).last() == name@);
    if same_text(name, "..") || same_text(name, ".") {
        return None;
    }
    let chars = chars_of(name);
    let n: usize = chars.len();
    let mut i: usize = n;
    while i > 0 && chars[i - 1] != '.'
        invariant
            i <= n == chars@.len(),
            chars@ == name@,
            last_dot(name@, n as nat) == last_dot(name@, i as nat),
        decreases i,
    {
        i -= 1;
    }
    if i <= 1 {
        return None;
    }
    let ext = text_between(chars.as_slice(), i, n);
    assert(ext@ =~= name@.skip(i as int));
    Some(ext)
}

/// The language of a file.
pub open spec fn language_of_path(path: Seq<char>) -> Option<Seq<char>> {
    match extension_of(path) {
        Some(ext) => language_of_ext(text::ascii_lower(ext)),
        None => None,
    }
}

/// The language of a file, from its extension.
pub fn lang_key_for_path(path: &str) -> (r: Option<&'static str>)
    ensures
        opt_str(r) == language_of_path(path@),
{
    match extension(path) {
        Some(ext) => lang_key_for_ext(to_ascii_lower(ext.as_str()).as_str()),
        None => None,
    }
}

/// The extension of the source files of a language.
pub open spec fn source_ext(lang: Seq<char>) -> Option<Seq<char>> {
    if lang == "rust"@ {
        Some("rs"@)
    } else if lang == "typescript"@ {
        Some("ts"@)
    } else if lang == "javascript"@ {
        Some("js"@)
    } else if lang == "go"@ {
        Some("go"@)
    } else if lang == "python"@ {
        Some("py"@)
    } else {
        None
    }
}

/// The extension of the source files of a language.
pub fn lang_ext(lang: &str) -> (r: Option<&'static str>)
    ensures
        opt_str(r) == source_ext(lang@),
{
    if same_text(lang, "rust") {
        Some("rs")
    } else if same_text(lang, "typescript") {
        Some("ts")
    } else if same_text(lang, "javascript") {
        Some("js")
    } else if same_text(lang, "go") {
        Some("go")
    } else if same_text(lang, "python") {
        Some("py")
    } else {
        None
    }
}

/// The language of a call: the one it names, else that of its path.
pub open spec fn call_language(
    lang: Seq<char>,
    path: Seq<char>,
) -> Result<Option<Seq<char>>, Seq<char>> {
    if lang.len() > 0 {
        match language_named(lang) {
            Some(name) => Ok(Some(name)),
            None => Err(unsupported(lang)),
        }
    } else if path.len() == 0 {
        Ok(None)
    } else {
        Ok(language_of_path(path))
    }
}

/// The language of a call: the one it names, else that of its path.
pub fn resolve_lang(lang: &str, path: &str) -> (r: Result<Option<String>, String>)
    ensures
        match (call_language(lang@, path@), r) {
            (Ok(o), Ok(s)) => text::opt_text(s) == o,
            (Err(e), Err(m)) => m@ == e,
            _ => false,
        },
{
    if !lang.is_empty() {
        return match normalize_lang(lang) {
            Ok(name) => Ok(Some(name)),
            Err(e) => Err(e),
        };
    }
    if path.is_empty() {
        return Ok(None);
    }
    match lang_key_for_path(path) {
        Some(name) => Ok(Some(name.to_owned())),
        None => Ok(None),
    }
}

/// The message for a call whose language cannot be told.
pub open spec fn no_language(target: Seq<char>) -> Seq<char> {
    "cannot determine language for `"@ + target
        + "` (no `lang` argument and the path extension is not one of: rs, ts, tsx, mts, cts, js, jsx, mjs, cjs, go, py)"@
}

/// The language of a call, which has to have one. `target` is the path that is
/// shown where it has none.
pub fn resolve_lang_or(lang: &str, path: &str, target: &str) -> (r: Result<String, String>)
    ensures
        match (call_language(lang@, path@), r) {
            (Ok(Some(name)), Ok(s)) => s@ == name,
            (Ok(None), Err(m)) => m@ == no_language(target@),
            (Err(e), Err(m)) => m@ == e,
            _ => false,
        },
{
    match resolve_lang(lang, path) {
        Ok(Some(name)) => Ok(name),
        Ok(None) => Err(
            "cannot determine language for `".to_owned().concat(target).concat(
                "` (no `lang` argument and the path extension is not one of: rs, ts, tsx, mts, cts, js, jsx, mjs, cjs, go, py)",
            ),
        ),
        Err(e) => Err(e),
    }
}

proof fn lemma_registered(name: Seq<char>)
    requires
        name == "rust"@ || name == "typescript"@ || name == "javascript"@ || name == "go"@ || name
            == "python"@,
    ensures
        server_of(name) is Some,
        source_ext(name) is Some,
{
}

/// Every language that a call can have has a server, and source files.
pub proof fn law_languages_have_servers(lang: Seq<char>, path: Seq<char>)
    requires
        call_language(lang, path) matches Ok(Some(_)),
    ensures
        server_of(call_language(lang, path)->Ok_0->0) is Some,
        source_ext(call_language(lang, path)->Ok_0->0) is Some,
{
    let name = call_language(lang, path)->Ok_0->0;
    lemma_registered(name);
}

/// Says that there is no server for a language, or that it is not installed.
pub open spec fn missing_server(lang: Seq<char>) -> Seq<char> {
    match server_of(lang) {
        None => "unsupported lsp language `"@ + lang + "`"@,
        Some(s) => "LSP server binary `"@ + s.command
            + "` not found in PATH (required for language `"@ + lang
            + "`); install it or pass a different lang"@,
    }
}

/// Says that there is no server for a language, or that it is not installed.
pub fn server_missing(lang: &str) -> (r: String)
    ensures
        r@ == missing_server(lang@),
{
    match server_for_lang(lang) {
        None => "unsupported lsp language `".to_owned().concat(lang).concat("`"),
        Some(s) => "LSP server binary `".to_owned().concat(s.command).concat(
            "` not found in PATH (required for language `",
        ).concat(lang).concat("`); install it or pass a different lang"),
    }
}

// ---------------------------------------------------------------------------
// Arguments
// ---------------------------------------------------------------------------

/// The number that a position argument stands for.
pub open spec fn position_value(value: Option<i64>, default: u32) -> int {
    match value {
        None => default as int,
        Some(n) => if n < 0 {
            0
        } else if n > u32::MAX {
            u32::MAX as int
        } else {
            n as int
        },
    }
}

/// A position argument within its range.
pub fn position_arg(value: Option<i64>, default: u32) -> (r: u32)
    ensures
        r == position_value(value, default),
        r == match value {
            None => default as int,
            Some(n) => if n < 0 {
                0
            } else if n > u32::MAX {
                u32::MAX as int
            } else {
                n as int
            },
        },
{
    match value {
        None => default,
        Some(n) => if n < 0 {
            0
        } else if n > 4294967295 {
            4294967295
        } else {
            n as u32
        },
    }
}

/// Refuses a call without a path.
pub fn check_target_path(path: &str) -> (r: Result<(), String>)
    ensures
        r is Ok <==> !text::blank(path@),
        r matches Err(e) ==> e@ == "lsp `path` is required for this action"@,
{
    if is_blank(path) {
        Err("lsp `path` is required for this action".to_owned())
    } else {
        Ok(())
    }
}

/// Refuses a target that is no file.
pub fn check_target_file(resolved: &str, is_file: bool) -> (r: Result<(), String>)
    ensures
        r is Ok <==> is_file,
        r matches Err(e) ==> e@ == "lsp target is not a file: "@ + resolved@,
{
    if is_file {
        Ok(())
    } else {
        Err("lsp target is not a file: ".to_owned().concat(resolved))
    }
}

/// Refuses a rename without a name.
pub fn check_new_name(name: &str) -> (r: Result<(), String>)
    ensures
        r is Ok <==> !text::blank(name@),
        r matches Err(e) ==> e@ == "lsp rename requires new_name"@,
{
    if is_blank(name) {
        Err("lsp rename requires new_name".to_owned())
    } else {
        Ok(())
    }
}

/// What a search for symbols looks for.
pub open spec fn sought(query: Seq<char>, symbol: Seq<char>) -> Seq<char> {
    if query.len() == 0 {
        symbol
    } else {
        query
    }
}

/// What a search for symbols looks for: the query, else the symbol.
pub fn symbol_query(query: String, symbol: String) -> (r: String)
    ensures
        r@ == sought(query@, symbol@),
        r@ == (if query@.len() == 0 {
            symbol@
        } else {
            query@
        }),
{
    if query.as_str().is_empty() {
        symbol
    } else {
        query
    }
}

/// The parameters of a query at a position.
pub open spec fn query_model(
    uri: Seq<char>,
    line: u32,
    character: u32,
    declaration: bool,
) -> JsonModel {
    let common = seq![
        ("textDocument"@, JsonModel::Object(seq![("uri"@, JsonModel::Text(uri))])),
        (
            "position"@,
            JsonModel::Object(
                seq![
                    ("line"@, json::whole(line as u64)),
                    ("character"@, json::whole(character as u64)),
                ],
            ),
        ),
    ];
    JsonModel::Object(
        if declaration {
            common.push(
                (
                    "context"@,
                    JsonModel::Object(seq![("includeDeclaration"@, JsonModel::Bool(true))]),
                ),
            )
        } else {
            common
        },
    )
}

/// The parameters of a query at a position. A search for references includes the
/// declaration.
pub fn query_params(uri: &str, line: u32, character: u32, declaration: bool) -> (r: Json)
    ensures
        r@ == query_model(uri@, line, character, declaration),
{
    let mut document: Vec<(String, Json)> = Vec::new();
    assert(json::member_models(document@) =~= Seq::<(Seq<char>, JsonModel)>::empty());
    push_member(&mut document, "uri", text_json(uri));
    let mut position: Vec<(String, Json)> = Vec::new();
    assert(json::member_models(position@) =~= Seq::<(Seq<char>, JsonModel)>::empty());
    push_member(&mut position, "line", whole_number(line as u64));
    push_member(&mut position, "character", whole_number(character as u64));
    proof {
        json::lemma_object_view(document);
        json::lemma_object_view(position);
        assert(json::member_models(document@) =~= seq![("uri"@, JsonModel::Text(uri@))]);
        assert(json::member_models(position@) =~= seq![
            ("line"@, json::whole(line as u64)),
            ("character"@, json::whole(character as u64)),
        ]);
    }
    let mut members: Vec<(String, Json)> = Vec::new();
    assert(json::member_models(members@) =~= Seq::<(Seq<char>, JsonModel)>::empty());
    push_member(&mut members, "textDocument", Json::Object(document));
    push_member(&mut members, "position", Json::Object(position));
    if declaration {
        let mut context: Vec<(String, Json)> = Vec::new();
        assert(json::member_models(context@) =~= Seq::<(Seq<char>, JsonModel)>::empty());
        push_member(&mut context, "includeDeclaration", Json::Bool(true));
        proof {
            json::lemma_object_view(context);
            assert(json::member_models(context@) =~= seq![
                ("includeDeclaration"@, JsonModel::Bool(true)),
            ]);
        }
        push_member(&mut members, "context", Json::Object(context));
    }
    proof {
        json::lemma_object_view(members);
        assert(json::member_models(members@) =~= query_model(
            uri@,
            line,
            character,
            declaration,
        )->Object_0);
    }
    Json::Object(members)
}

/// What is asked about the position under a cursor.
#[derive(Clone, Copy, Debug, PartialEq, Eq, Structural)]
pub enum PositionQuery {
    Hover,
    Definition,
    References,
}

/// How the answer to a query at a position is shown.
pub open spec fn shown_answer(query: PositionQuery, result: JsonModel) -> Seq<char> {
    match query {
        PositionQuery::Hover => lsp_format::hover(result),
        PositionQuery::Definition => lsp_format::locations_text(result, "definition"@),
        PositionQuery::References => lsp_format::locations_text(result, "references"@),
    }
}

/// Shows the answer to a query at a position.
pub fn run_position_query(query: PositionQuery, result: &Json) -> (r: String)
    ensures
        r@ == shown_answer(query, result@),
{
    match query {
        PositionQuery::Hover => format_hover(result),
        PositionQuery::Definition => format_locations(result, "definition"),
        PositionQuery::References => format_locations(result, "references"),
    }
}

/// The parameters of a search for symbols: those of a document where one is
/// given, else those of the workspace that match the query.
pub open spec fn symbol_model(uri: Option<Seq<char>>, query: Seq<char>) -> JsonModel {
    match uri {
        Some(uri) => JsonModel::Object(
            seq![
                ("textDocument"@, JsonModel::Object(seq![("uri"@, JsonModel::Text(uri))])),
            ],
        ),
        None => JsonModel::Object(seq![("query"@, JsonModel::Text(query))]),
    }
}

fn one_member(key: &str, value: Json) -> (r: Json)
    ensures
        r@ == JsonModel::Object(seq![(key@, value@)]),
{
    let mut members: Vec<(String, Json)> = Vec::new();
    assert(json::member_models(members@) =~= Seq::<(Seq<char>, JsonModel)>::empty());
    push_member(&mut members, key, value);
    proof {
        json::lemma_object_view(members);
        assert(json::member_models(members@) =~= seq![(key@, value@)]);
    }
    Json::Object(members)
}

/// The parameters of a search for symbols. A file target asks for its own
/// symbols, anything else searches the workspace.
pub fn symbol_params(uri: &Option<String>, query: &str) -> (r: Json)
    ensures
        r@ == symbol_model(text::opt_text(*uri), query@),
{
    match uri {
        Some(uri) => one_member("textDocument", one_member("uri", text_json(uri.as_str()))),
        None => one_member("query", text_json(query)),
    }
}

/// What is shown of the capabilities of a server, given their pretty rendering.
pub fn run_capabilities(lang: &str, rendered: &str) -> (r: String)
    ensures
        r@ == "LSP server capabilities for language `"@ + lang@ + "`:\n"@ + rendered@,
{
    "LSP server capabilities for language `".to_owned().concat(lang).concat("`:\n").concat(rendered)
}

// ---------------------------------------------------------------------------
// Diagnostics
// ---------------------------------------------------------------------------

/// Whether a directory holds nothing of the project itself.
pub open spec fn foreign_directory(name: Seq<char>) -> bool {
    name == "target"@ || name == "node_modules"@ || name == ".git"@ || name == "dist"@ || name
        == "build"@ || name == "vendor"@
}

/// Whether a directory is not searched for source files.
pub fn is_skipped_directory(name: &str) -> (r: bool)
    ensures
        r == foreign_directory(name@),
{
    same_text(name, "target") || same_text(name, "node_modules") || same_text(name, ".git")
        || same_text(name, "dist") || same_text(name, "build") || same_text(name, "vendor")
}

/// A search for source files.
#[derive(Debug, PartialEq, Eq)]
pub struct SourceScan {
    pub ext: String,
    pub files: Vec<String>,
}

/// Whether a file is a source file.
pub open spec fn is_source(path: Seq<char>, ext: Seq<char>) -> bool {
    match extension_of(path) {
        Some(e) => text::ascii_lower(e) == text::ascii_lower(ext),
        None => false,
    }
}

/// The files of a search after it came upon another one.
pub open spec fn offered(
    files: Seq<Seq<char>>,
    ext: Seq<char>,
    path: Seq<char>,
    is_file: bool,
) -> Seq<Seq<char>> {
    if is_file && is_source(path, ext) && files.len() < MAX_DIAGNOSTIC_FILES {
        files.push(path)
    } else {
        files
    }
}

impl SourceScan {
    /// A search for the source files of a language.
    pub fn workspace_source_files(lang: &str) -> (r: Result<Self, String>)
        ensures
            match (source_ext(lang@), r) {
                (Some(ext), Ok(scan)) => scan.ext@ == ext && scan.files@.len() == 0,
                (None, Err(e)) => e@ == "unsupported lsp language `"@ + lang@ + "`"@,
                _ => false,
            },
    {
        match lang_ext(lang) {
            Some(ext) => Ok(SourceScan { ext: ext.to_owned(), files: Vec::new() }),
            None => Err("unsupported lsp language `".to_owned().concat(lang).concat("`")),
        }
    }

    /// Takes what the search came upon. The search goes on while this gives true.
    pub fn offer(&mut self, path: &str, is_file: bool) -> (r: bool)
        ensures
            final(self).ext@ == old(self).ext@,
            text::texts(final(self).files@) == offered(
                text::texts(old(self).files@),
                old(self).ext@,
                path@,
                is_file,
            ),
            text::texts(final(self).files@) == (if is_file && is_source(path@, old(self).ext@)
                && old(self).files@.len() < MAX_DIAGNOSTIC_FILES {
                text::texts(old(self).files@).push(path@)
            } else {
                text::texts(old(self).files@)
            }),
            r == (final(self).files@.len() < MAX_DIAGNOSTIC_FILES),
    {
        if is_file && self.files.len() < MAX_DIAGNOSTIC_FILES {
            if let Some(ext) = extension(path) {
                if same_text(
                    to_ascii_lower(ext.as_str()).as_str(),
                    to_ascii_lower(self.ext.as_str()).as_str(),
                ) {
                    push_text(&mut self.files, path);
                }
            }
        }
        self.files.len() < MAX_DIAGNOSTIC_FILES
    }
}

/// Reports on diagnostics that were pushed for documents that were not asked
/// about, among the first `n`.
pub open spec fn other_reports(pushed: Seq<JsonModel>, n: nat, uris: Seq<Seq<char>>) -> Seq<
    Seq<char>,
>
    decreases n,
{
    if n == 0 {
        Seq::empty()
    } else {
        let before = other_reports(pushed, (n - 1) as nat, uris);
        match json::text_under(pushed[n - 1], "uri"@) {
            Some(uri) => if before.len() < MAX_DIAGNOSTIC_FILES && !uris.contains(uri) {
                before.push(
                    lsp_format::diagnostics_text(pushed[n - 1], "diagnostics (workspace)"@),
                )
            } else {
                before
            },
            None => before,
        }
    }
}

/// Reports on the diagnostics of the documents that were asked about.
pub open spec fn own_reports(found: Seq<JsonModel>) -> Seq<Seq<char>> {
    found.map_values(|v: JsonModel| lsp_format::diagnostics_text(v, "diagnostics"@))
}

/// Reports on diagnostics: of the documents that were asked about, whose URIs are
/// `uris`, then of others that the server pushed meanwhile, up to a cap.
pub fn run_diagnostics(found: &Vec<Json>, pushed: &Vec<Json>, uris: &Vec<String>) -> (r: String)
    ensures
        r@ == text::join(
            own_reports(json::models(found@)) + other_reports(
                json::models(pushed@),
                pushed@.len(),
                text::texts(uris@),
            ),
            "\n"@,
        ),
{
    let mut reports: Vec<String> = Vec::new();
    let ghost own = own_reports(json::models(found@));
    let ghost all = json::models(pushed@);
    let mut i: usize = 0;
    assert(text::texts(reports@) =~= own.take(0));
    while i < found.len()
        invariant
            i <= found@.len(),
            own == own_reports(json::models(found@)),
            text::texts(reports@) == own.take(i as int),
        decreases found@.len() - i,
    {
        assert(json::models(found@)[i as int] == found@[i as int]@);
        push_text(&mut reports, format_diagnostics(&found[i], "diagnostics").as_str());
        i += 1;
        assert(text::texts(reports@) =~= own.take(i as int));
    }
    assert(own.take(found@.len() as int) =~= own);
    let mut extra: usize = 0;
    let mut k: usize = 0;
    assert(text::texts(reports@) =~= own + other_reports(all, 0, text::texts(uris@)));
    while k < pushed.len()
        invariant
            k <= pushed@.len(),
            all == json::models(pushed@),
            extra == other_reports(all, k as nat, text::texts(uris@)).len(),
            extra <= MAX_DIAGNOSTIC_FILES,
            text::texts(reports@) == own + other_reports(all, k as nat, text::texts(uris@)),
        decreases pushed@.len() - k,
    {
        assert(all[k as int] == pushed@[k as int]@);
        if extra < MAX_DIAGNOSTIC_FILES {
            if let Some(uri) = pushed[k].words_at("uri") {
                if !contains_text(uris, uri) {
                    push_text(
                        &mut reports,
                        format_diagnostics(&pushed[k], "diagnostics (workspace)").as_str(),
                    );
                    extra += 1;
                }
            }
        }
        k += 1;
        assert(text::texts(reports@) =~= own + other_reports(all, k as nat, text::texts(uris@)));
    }
    join_texts(&reports, "\n")
}

/// Says that there is nothing to diagnose.
pub fn no_source_files(lang: &str) -> (r: String)
    ensures
        r@ == "diagnostics: no `"@ + lang@ + "` source files found under the target"@,
{
    "diagnostics: no `".to_owned().concat(lang).concat("` source files found under the target")
}

/// The error of a call for diagnostics whose language cannot be told.
pub fn diagnostics_hint(error: &str) -> (r: String)
    ensures
        r@ == error@
            + "\n(hint: for workspace-wide diagnostics pass lang=rust|typescript|javascript|go|python)"@,
{
    error.to_owned().concat(
        "\n(hint: for workspace-wide diagnostics pass lang=rust|typescript|javascript|go|python)",
    )
}

// ---------------------------------------------------------------------------
// Status
// ---------------------------------------------------------------------------

/// The languages that a status covers.
pub open spec fn covered(lang: Option<Seq<char>>) -> Seq<Seq<char>> {
    match lang {
        Some(l) => seq![l],
        None => seq!["rust"@, "typescript"@, "javascript"@, "go"@, "python"@],
    }
}

/// The line of a language, with where its server was found.
pub open spec fn status_line(lang: Seq<char>, location: Option<Seq<char>>) -> Seq<char> {
    match server_of(lang) {
        Some(s) => "  "@ + lang + ": "@ + s.command + " "@ + (if s.stdio {
            "(--stdio) "@
        } else {
            ""@
        }) + match location {
            Some(p) => p,
            None => "NOT FOUND in PATH"@,
        } + "  language_id="@ + s.language_id,
        None => "  "@ + lang + ": no server registered"@,
    }
}

/// The status: a header, a line for each language, and a hint.
pub open spec fn status_text(
    cwd: Seq<char>,
    lang: Option<Seq<char>>,
    locations: Seq<Option<Seq<char>>>,
) -> Seq<char> {
    let lines = seq![
        "lsp tool status (cwd: "@ + cwd + ")"@,
        "  lifecycle: one server per call — spawned on demand, shutdown handshake on return"@,
    ] + Seq::new(covered(lang).len(), |i: int| status_line(covered(lang)[i], locations[i]));
    text::join(
        if lang is Some {
            lines
        } else {
            lines.push("  (pass path or lang to narrow status to one language)"@)
        },
        "\n"@,
    )
}

/// The languages that a status covers: the one of the call, or all.
pub fn status_languages(lang: &Option<String>) -> (r: Vec<String>)
    ensures
        text::texts(r@) == covered(text::opt_text(*lang)),
{
    let mut r: Vec<String> = Vec::new();
    match lang {
        Some(l) => {
            push_text(&mut r, l.as_str());
        },
        None => {
            push_text(&mut r, "rust");
            push_text(&mut r, "typescript");
            push_text(&mut r, "javascript");
            push_text(&mut r, "go");
            push_text(&mut r, "python");
        },
    }
    assert(text::texts(r@) =~= covered(text::opt_text(*lang)));
    r
}

fn describe(lang: &str, location: &Option<String>) -> (r: String)
    ensures
        r@ == status_line(lang@, text::opt_text(*location)),
{
    match server_for_lang(lang) {
        Some(s) => {
            let note = if s.stdio {
                "(--stdio) "
            } else {
                ""
            };
            let place = match location {
                Some(p) => p.as_str(),
                None => "NOT FOUND in PATH",
            };
            "  ".to_owned().concat(lang).concat(": ").concat(s.command).concat(" ").concat(
                note,
            ).concat(place).concat("  language_id=").concat(s.language_id)
        },
        None => "  ".to_owned().concat(lang).concat(": no server registered"),
    }
}

/// Where things were found.
pub open spec fn opt_texts(v: Seq<Option<String>>) -> Seq<Option<Seq<char>>> {
    v.map_values(|o: Option<String>| text::opt_text(o))
}

/// Says which server each language has, and where it was found. `locations` goes
/// with the languages that the status covers.
pub fn run_status(cwd: &str, lang: &Option<String>, locations: &Vec<Option<String>>) -> (r: String)
    requires
        locations@.len() == covered(text::opt_text(*lang)).len(),
    ensures
        r@ == status_text(cwd@, text::opt_text(*lang), opt_texts(locations@)),
{
    let languages = status_languages(lang);
    let ghost names = covered(text::opt_text(*lang));
    let ghost places = opt_texts(locations@);
    let ghost head = seq![
        "lsp tool status (cwd: "@ + cwd@ + ")"@,
        "  lifecycle: one server per call — spawned on demand, shutdown handshake on return"@,
    ];
    let ghost rows = Seq::new(names.len(), |i: int| status_line(names[i], places[i]));
    let mut lines: Vec<String> = Vec::new();
    push_text(
        &mut lines,
        "lsp tool status (cwd: ".to_owned().concat(cwd).concat(")").as_str(),
    );
    push_text(
        &mut lines,
        "  lifecycle: one server per call — spawned on demand, shutdown handshake on return",
    );
    assert(text::texts(lines@) =~= head + rows.take(0));
    let mut i: usize = 0;
    while i < languages.len()
        invariant
            i <= languages@.len(),
            locations@.len() == languages@.len(),
            names == text::texts(languages@),
            places == opt_texts(locations@),
            rows == Seq::new(names.len(), |i: int| status_line(names[i], places[i])),
            text::texts(lines@) == head + rows.take(i as int),
        decreases languages@.len() - i,
    {
        assert(names[i as int] == languages@[i as int]@);
        push_text(&mut lines, describe(languages[i].as_str(), &locations[i]).as_str());
        i += 1;
        assert(text::texts(lines@) =~= head + rows.take(i as int));
    }
    assert(rows.take(names.len() as int) =~= rows);
    if lang.is_none() {
        push_text(&mut lines, "  (pass path or lang to narrow status to one language)");
    }
    join_texts(&lines, "\n")
}

} // verus!
