//! What the language server tool promises.

use crate::json;
use crate::json::JsonModel;
use crate::lexical_path;
use crate::text;
use crate::tools::lsp;
use crate::tools::lsp::{LspAction, PositionQuery};
use crate::tools::lsp_client;
use crate::tools::lsp_client::{IncomingModel, Retry, WaitedModel};
use crate::tools::lsp_edit;
use crate::tools::lsp_format;
use crate::tools::lsp_symbols;
use crate::tools::notebook::ToolCapability;
use vstd::prelude::*;
use vstd::string::*;

verus! {

// ---------------------------------------------------------------------------
// Calls
// ---------------------------------------------------------------------------

/// A call goes ahead if and only if it names an action and the capability of that
/// action is granted: renaming writes, everything else reads. Actions that are
/// put off are refused whatever is granted.
pub proof fn law_calls_need_an_action_and_a_capability(
    action: Seq<char>,
    granted: Seq<ToolCapability>,
)
    ensures
        ({
            let asked = text::trimmed(action);
            let put_off = asked == "rename_file"@ || asked == "implementation"@ || asked
                == "type_definition"@ || asked == "request"@;
            let told = lsp::refusal(action, granted);
            &&& asked.len() == 0 ==> told is Some
            &&& put_off ==> told is Some
            &&& lsp::action_named(asked) is None ==> told is Some
            &&& asked.len() > 0 && !put_off ==> (lsp::action_named(asked) matches Some(a) ==> (
            told is None <==> granted.contains(
                if a == LspAction::Rename {
                    ToolCapability::Write
                } else {
                    ToolCapability::Read
                },
            )))
        }),
{
    reveal_strlit("rename_file");
    assert("rename_file"@.len() == 11);
}

/// Each action goes by its own name.
pub proof fn law_actions_go_by_name(action: Seq<char>)
    ensures
        lsp::action_named(action) == Some(LspAction::Hover) <==> action == "hover"@,
        lsp::action_named(action) == Some(LspAction::Definition) <==> action == "definition"@,
        lsp::action_named(action) == Some(LspAction::References) <==> action == "references"@,
        lsp::action_named(action) == Some(LspAction::Diagnostics) <==> action == "diagnostics"@,
        lsp::action_named(action) == Some(LspAction::Symbols) <==> action == "symbols"@,
        lsp::action_named(action) == Some(LspAction::Rename) <==> action == "rename"@,
        lsp::action_named(action) == Some(LspAction::CodeActions) <==> action == "code_actions"@,
        lsp::action_named(action) == Some(LspAction::Capabilities) <==> action == "capabilities"@,
        lsp::action_named(action) == Some(LspAction::Status) <==> action == "status"@,
        lsp::action_named(action) == Some(LspAction::Reload) <==> action == "reload"@,
{
    reveal_strlit("hover");
    reveal_strlit("definition");
    reveal_strlit("references");
    reveal_strlit("diagnostics");
    reveal_strlit("symbols");
    reveal_strlit("rename");
    reveal_strlit("code_actions");
    reveal_strlit("capabilities");
    reveal_strlit("status");
    reveal_strlit("reload");
    assert("hover"@.len() == 5 && "definition"@.len() == 10 && "references"@.len() == 10
        && "diagnostics"@.len() == 11 && "symbols"@.len() == 7 && "rename"@.len() == 6
        && "code_actions"@.len() == 12 && "capabilities"@.len() == 12 && "status"@.len() == 6
        && "reload"@.len() == 6);
    assert("definition"@[0] == 'd' && "references"@[0] == 'r');
    assert("rename"@[2] == 'n' && "status"@[2] == 'a' && "reload"@[2] == 'l');
    assert("code_actions"@[1] == 'o' && "capabilities"@[1] == 'a');
}

// ---------------------------------------------------------------------------
// Languages
// ---------------------------------------------------------------------------

proof fn lemma_languages()
    ensures
        "rust"@ != "typescript"@,
        "rust"@ != "javascript"@,
        "rust"@ != "go"@,
        "rust"@ != "python"@,
        "typescript"@ != "javascript"@,
        "typescript"@ != "go"@,
        "typescript"@ != "python"@,
        "javascript"@ != "go"@,
        "javascript"@ != "python"@,
        "go"@ != "python"@,
{
    reveal_strlit("rust");
    reveal_strlit("typescript");
    reveal_strlit("javascript");
    reveal_strlit("go");
    reveal_strlit("python");
    assert("rust"@.len() == 4 && "typescript"@.len() == 10 && "javascript"@.len() == 10
        && "go"@.len() == 2 && "python"@.len() == 6);
    assert("typescript"@[0] == 't' && "javascript"@[0] == 'j');
}

proof fn lemma_short_names()
    ensures
        "rs"@.len() == 2 && "ts"@.len() == 2 && "js"@.len() == 2 && "go"@.len() == 2 && "py"@.len()
            == 2,
        "rs"@[0] == 'r' && "ts"@[0] == 't' && "js"@[0] == 'j' && "go"@[0] == 'g' && "py"@[0] == 'p',
        "rust"@.len() == 4 && "typescript"@.len() == 10 && "javascript"@.len() == 10
            && "golang"@.len() == 6 && "python"@.len() == 6,
        "typescript"@[0] == 't' && "javascript"@[0] == 'j' && "golang"@[0] == 'g' && "python"@[0]
            == 'p',
{
    reveal_strlit("rs");
    reveal_strlit("ts");
    reveal_strlit("js");
    reveal_strlit("go");
    reveal_strlit("py");
    reveal_strlit("rust");
    reveal_strlit("typescript");
    reveal_strlit("javascript");
    reveal_strlit("golang");
    reveal_strlit("python");
}

/// Each language has its own server, started as that server wants it, and is
/// called by its own name there.
pub proof fn law_languages_have_their_servers()
    ensures
        lsp::server_of("rust"@) matches Some(s) && s.command == "rust-analyzer"@ && !s.stdio
            && s.language_id == "rust"@,
        lsp::server_of("typescript"@) matches Some(s) && s.command
            == "typescript-language-server"@ && s.stdio && s.language_id == "typescript"@,
        lsp::server_of("javascript"@) matches Some(s) && s.command
            == "typescript-language-server"@ && s.stdio && s.language_id == "javascript"@,
        lsp::server_of("go"@) matches Some(s) && s.command == "gopls"@ && !s.stdio && s.language_id
            == "go"@,
        lsp::server_of("python"@) matches Some(s) && s.command == "pyright-langserver"@ && s.stdio
            && s.language_id == "python"@,
        lsp::server_of("rs"@) == lsp::server_of("rust"@),
        lsp::server_of("ts"@) == lsp::server_of("typescript"@),
        lsp::server_of("js"@) == lsp::server_of("javascript"@),
        lsp::server_of("golang"@) == lsp::server_of("go"@),
        lsp::server_of("py"@) == lsp::server_of("python"@),
{
    lemma_short_names();
}

/// A file is in the language that its extension tells, and the extension of a
/// language tells that language.
pub proof fn law_extensions_tell_the_language(lang: Seq<char>)
    ensures
        lsp::source_ext(lang) matches Some(ext) ==> lsp::language_of_ext(ext) == Some(lang),
        lsp::language_of_ext("tsx"@) == Some("typescript"@),
        lsp::language_of_ext("mts"@) == Some("typescript"@),
        lsp::language_of_ext("cts"@) == Some("typescript"@),
        lsp::language_of_ext("jsx"@) == Some("javascript"@),
        lsp::language_of_ext("mjs"@) == Some("javascript"@),
        lsp::language_of_ext("cjs"@) == Some("javascript"@),
{
    lemma_short_names();
    reveal_strlit("tsx");
    reveal_strlit("mts");
    reveal_strlit("cts");
    reveal_strlit("jsx");
    reveal_strlit("mjs");
    reveal_strlit("cjs");
    assert("tsx"@[1] == 's' && "mts"@[1] == 't' && "cts"@[1] == 't' && "jsx"@[0] == 'j'
        && "mjs"@[1] == 'j' && "cjs"@[1] == 'j');
    assert("tsx"@.len() == 3 && "mts"@.len() == 3 && "cts"@.len() == 3 && "jsx"@.len() == 3
        && "mjs"@.len() == 3 && "cjs"@.len() == 3);
    assert("tsx"@[0] == 't' && "mts"@[0] == 'm' && "cts"@[0] == 'c' && "mjs"@[0] == 'm'
        && "cjs"@[0] == 'c');
}

/// The extension of a path is what stands behind the last dot of its last
/// component; a name that starts with its only dot has none.
pub proof fn law_extensions_stand_behind_the_last_dot(
    path: Seq<char>,
    front: Seq<char>,
    ext: Seq<char>,
)
    requires
        lexical_path::components(path).len() > 0,
        lexical_path::components(path).last() == front + seq!['.'] + ext,
        front.len() > 0,
        front + seq!['.'] + ext != ".."@,
        !ext.contains('.'),
    ensures
        lsp::extension_of(path) == Some(ext),
{
    let name = front + seq!['.'] + ext;
    reveal_strlit(".");
    assert("."@.len() == 1);
    lemma_last_dot(front, ext, ext.len());
    assert(name =~= name.take(name.len() as int));
    assert(name.skip(front.len() as int + 1) =~= ext);
}

proof fn lemma_last_dot(front: Seq<char>, ext: Seq<char>, k: nat)
    requires
        k <= ext.len(),
        !ext.contains('.'),
    ensures
        lsp::last_dot(front + seq!['.'] + ext, (front.len() + 1 + k) as nat) == Some(
            front.len() as int,
        ),
    decreases k,
{
    let name = front + seq!['.'] + ext;
    if k > 0 {
        lemma_last_dot(front, ext, (k - 1) as nat);
        assert(name[front.len() as int + k] == ext[k - 1]);
        assert(ext.contains(ext[k - 1]));
    } else {
        assert(name[front.len() as int] == '.');
    }
}

/// A call is in the language that it names; one that names none is in that of
/// its path, and one without a path in none.
pub proof fn law_calls_are_in_the_named_language(lang: Seq<char>, path: Seq<char>)
    ensures
        lang.len() > 0 ==> (lsp::language_named(lang) matches Some(name) ==> lsp::call_language(
            lang,
            path,
        ) == Ok::<Option<Seq<char>>, Seq<char>>(Some(name))),
        lang.len() > 0 && lsp::language_named(lang) is None ==> lsp::call_language(lang, path)
            == Err::<Option<Seq<char>>, Seq<char>>(
            "unsupported lsp language `"@ + lang
                + "` (supported: rust, typescript, javascript, go, python)"@,
        ),
        lang.len() == 0 && path.len() == 0 ==> lsp::call_language(lang, path) == Ok::<
            Option<Seq<char>>,
            Seq<char>,
        >(None),
        lang.len() == 0 && path.len() > 0 ==> lsp::call_language(lang, path) == Ok::<
            Option<Seq<char>>,
            Seq<char>,
        >(lsp::language_of_path(path)),
{
}

/// A language goes by its name or a short one, in any case and with any space
/// around it, and only those names are known.
pub proof fn law_languages_go_by_their_names(lang: Seq<char>)
    ensures
        ({
            let name = text::ascii_lower(text::trimmed(lang));
            let r = lsp::language_named(lang);
            &&& r == Some("rust"@) <==> name == "rust"@ || name == "rs"@
            &&& r == Some("typescript"@) <==> name == "typescript"@ || name == "ts"@ || name
                == "tsx"@
            &&& r == Some("javascript"@) <==> name == "javascript"@ || name == "js"@ || name
                == "jsx"@
            &&& r == Some("go"@) <==> name == "go"@ || name == "golang"@
            &&& r == Some("python"@) <==> name == "python"@ || name == "py"@
        }),
{
    lemma_languages();
    lemma_short_names();
    reveal_strlit("tsx");
    reveal_strlit("jsx");
    assert("tsx"@.len() == 3 && "jsx"@.len() == 3 && "tsx"@[0] == 't' && "jsx"@[0] == 'j');
}

// ---------------------------------------------------------------------------
// Requests
// ---------------------------------------------------------------------------

proof fn lemma_at(members: Seq<(Seq<char>, JsonModel)>, key: Seq<char>, i: int)
    requires
        json::first_key(members, key, i),
        i < members.len(),
    ensures
        json::at(JsonModel::Object(members), key) == Some(members[i].1),
{
    json::lemma_first_key(members, key, JsonModel::Null, i);
}

/// A query is about its document and position, and asks for the declaration if
/// and only if it is to.
pub proof fn law_queries_name_document_and_position(
    uri: Seq<char>,
    line: u32,
    character: u32,
    declaration: bool,
)
    ensures
        ({
            let v = lsp::query_model(uri, line, character, declaration);
            &&& json::at(v, "textDocument"@) matches Some(d) && json::text_under(d, "uri"@) == Some(
                uri,
            )
            &&& json::at(v, "position"@) matches Some(p) && json::unsigned_under(p, "line"@)
                == Some(line as u64) && json::unsigned_under(p, "character"@) == Some(
                character as u64,
            )
            &&& declaration ==> (json::at(v, "context"@) matches Some(c) && json::at(
                c,
                "includeDeclaration"@,
            ) == Some(JsonModel::Bool(true)))
            &&& !declaration ==> json::at(v, "context"@) is None
        }),
{
    reveal_strlit("textDocument");
    reveal_strlit("position");
    reveal_strlit("context");
    reveal_strlit("line");
    reveal_strlit("character");
    assert("textDocument"@.len() == 12 && "position"@.len() == 8 && "context"@.len() == 7
        && "line"@.len() == 4 && "character"@.len() == 9);
    let members = lsp::query_model(uri, line, character, declaration)->Object_0;
    lemma_at(members, "textDocument"@, 0);
    lemma_at(members, "position"@, 1);
    lemma_at(members[0].1->Object_0, "uri"@, 0);
    lemma_at(members[1].1->Object_0, "line"@, 0);
    lemma_at(members[1].1->Object_0, "character"@, 1);
    if declaration {
        lemma_at(members, "context"@, 2);
        lemma_at(members[2].1->Object_0, "includeDeclaration"@, 0);
    } else {
        json::lemma_first_key(members, "context"@, JsonModel::Null, 2);
    }
}

/// Symbols are asked for by document, or by query where there is none.
pub proof fn law_symbols_are_asked_for_by_document_or_query(uri: Seq<char>, query: Seq<char>)
    ensures
        json::at(lsp::symbol_model(Some(uri), query), "textDocument"@) matches Some(d)
            && json::text_under(d, "uri"@) == Some(uri),
        json::text_under(lsp::symbol_model(None, query), "query"@) == Some(query),
{
    let a = lsp::symbol_model(Some(uri), query)->Object_0;
    lemma_at(a, "textDocument"@, 0);
    lemma_at(a[0].1->Object_0, "uri"@, 0);
    lemma_at(lsp::symbol_model(None, query)->Object_0, "query"@, 0);
}

/// Each query is answered in its own form.
pub proof fn law_answers_fit_their_query(result: JsonModel)
    ensures
        lsp::shown_answer(PositionQuery::Hover, result) == lsp_format::hover(result),
        lsp::shown_answer(PositionQuery::Definition, result) == lsp_format::locations_text(
            result,
            "definition"@,
        ),
        lsp::shown_answer(PositionQuery::References, result) == lsp_format::locations_text(
            result,
            "references"@,
        ),
{
}

/// Files are taken as sources if and only if they have the extension of the
/// language, in any case; directories of builds and of others' code are passed
/// over.
pub proof fn law_sources_are_found_by_extension(path: Seq<char>, ext: Seq<char>, name: Seq<char>)
    ensures
        lsp::is_source(path, ext) <==> lsp::extension_of(path) is Some && text::ascii_lower(
            lsp::extension_of(path)->0,
        ) == text::ascii_lower(ext),
        lsp::foreign_directory(name) <==> name == "target"@ || name == "node_modules"@ || name
            == ".git"@ || name == "dist"@ || name == "build"@ || name == "vendor"@,
        lsp::MAX_DIAGNOSTIC_FILES == 20,
        lsp::DIAGNOSTICS_MAX_DEPTH == 6,
{
}

/// Of the diagnostics that were pushed, those of other documents are reported,
/// in order, up to twenty; those of the documents asked for are not reported
/// again.
pub proof fn law_other_documents_are_reported(
    pushed: Seq<JsonModel>,
    n: nat,
    uris: Seq<Seq<char>>,
)
    requires
        n < pushed.len(),
    ensures
        ({
            let before = lsp::other_reports(pushed, n, uris);
            let after = lsp::other_reports(pushed, n + 1, uris);
            let uri = json::text_under(pushed[n as int], "uri"@);
            let other = uri is Some && !uris.contains(uri->0) && before.len() < 20;
            &&& other ==> after == before.push(
                lsp_format::diagnostics_text(pushed[n as int], "diagnostics (workspace)"@),
            )
            &&& !other ==> after == before
            &&& lsp::other_reports(pushed, 0, uris).len() == 0
        }),
        forall|found: Seq<JsonModel>, i: int|
            0 <= i < found.len() ==> #[trigger] lsp::own_reports(found)[i]
                == lsp_format::diagnostics_text(found[i], "diagnostics"@),
{
}

/// The status of a language tells its server, where it was found, and what it is
/// called there.
pub proof fn law_status_tells_the_server(lang: Seq<char>, location: Option<Seq<char>>)
    ensures
        lsp::server_of(lang) matches Some(s) ==> lsp::status_line(lang, location) == "  "@ + lang
            + ": "@ + s.command + " "@ + (if s.stdio {
            "(--stdio) "@
        } else {
            ""@
        }) + (match location {
            Some(p) => p,
            None => "NOT FOUND in PATH"@,
        }) + "  language_id="@ + s.language_id,
        lsp::server_of(lang) is None ==> lsp::status_line(lang, location) == "  "@ + lang
            + ": no server registered"@,
        lsp::covered(Some(lang)) == seq![lang],
        lsp::covered(None) == seq!["rust"@, "typescript"@, "javascript"@, "go"@, "python"@],
{
}

// ---------------------------------------------------------------------------
// Messages
// ---------------------------------------------------------------------------

/// A message without an id is a notification: pushed diagnostics are kept, any
/// other is ignored. A message with another id is ignored; the one with the id
/// that is waited for is the answer, or a failure where it has an error.
pub proof fn law_answers_are_told_by_id(message: JsonModel, id: u64)
    ensures
        ({
            let r = lsp_client::incoming(message, id);
            let anonymous = json::at(message, "id"@) is None;
            let pushed = json::text_under(message, "method"@) == Some(
                "textDocument/publishDiagnostics"@,
            );
            let own = json::unsigned_under(message, "id"@) == Some(id);
            &&& anonymous && pushed ==> r == IncomingModel::Diagnostics(
                lsp_client::or_null(json::at(message, "params"@)),
            )
            &&& anonymous && !pushed ==> r == IncomingModel::Ignored
            &&& !anonymous && !own ==> r == IncomingModel::Ignored
            &&& !anonymous && own ==> match json::at(message, "error"@) {
                Some(e) => r == IncomingModel::Failed(e),
                None => r == IncomingModel::Answer(
                    lsp_client::or_null(json::at(message, "result"@)),
                ),
            }
        }),
{
}

/// Diagnostics that are waited for are those of the document; pushes of others
/// are kept, and anything else is ignored.
pub proof fn law_diagnostics_are_told_by_document(message: JsonModel, uri: Seq<char>)
    ensures
        ({
            let r = lsp_client::waited(message, uri);
            let pushed = json::at(message, "id"@) is None && json::text_under(message, "method"@)
                == Some("textDocument/publishDiagnostics"@);
            let params = lsp_client::or_null(json::at(message, "params"@));
            let own = json::text_under(params, "uri"@) == Some(uri);
            &&& !pushed ==> r == WaitedModel::Ignored
            &&& pushed && own ==> r == WaitedModel::Found(params)
            &&& pushed && !own ==> r == WaitedModel::Other(params)
        }),
{
}

/// Of kept pushes the first of the document counts.
pub proof fn law_the_first_kept_push_counts(
    front: Seq<JsonModel>,
    push: JsonModel,
    back: Seq<JsonModel>,
    uri: Seq<char>,
    i: nat,
)
    requires
        i <= front.len(),
        json::text_under(push, "uri"@) == Some(uri),
        forall|k: int|
            0 <= k < front.len() ==> json::text_under(#[trigger] front[k], "uri"@) != Some(uri),
    ensures
        lsp_client::first_for(front.push(push) + back, uri, i) == Some(push),
        lsp_client::first_for(front, uri, i) is None,
    decreases front.len() - i,
{
    let all = front.push(push) + back;
    if i < front.len() {
        law_the_first_kept_push_counts(front, push, back, uri, i + 1);
        assert(all[i as int] == front[i as int]);
    } else {
        assert(all[i as int] == push);
    }
}

/// Diagnostics tell something if and only if there are any.
pub proof fn law_empty_diagnostics_tell_nothing(params: JsonModel)
    ensures
        lsp_client::tells_something(params) <==> (json::list_under(params, "diagnostics"@) matches
            Some(items) && items.len() > 0),
{
}

/// A request is made again if and only if the content changed under it, at most
/// three times, each time after a longer pause.
pub proof fn law_changed_content_is_tried_again(attempt: nat, error: Seq<char>)
    ensures
        ({
            let changed = text::holds(error, "\"code\":-32801"@) || text::holds(
                error,
                "content modified"@,
            ) || text::holds(error, "ContentModified"@);
            &&& attempt < 3 && changed ==> lsp_client::retried(attempt, error) == Retry::After(
                (200 * (attempt + 1)) as u64,
            )
            &&& !(attempt < 3 && changed) ==> lsp_client::retried(attempt, error) == Retry::Never
        }),
{
}

/// A server that cannot be started is told by name, with its reason and whatever
/// it said.
pub proof fn law_failed_servers_are_told(
    binary: Seq<char>,
    error: Seq<char>,
    stderr: Seq<char>,
)
    ensures
        ({
            let first = "LSP server `"@ + binary + "` failed to initialize: "@ + error;
            &&& text::blank(stderr) ==> lsp_client::start_failure(binary, error, stderr) == first
            &&& !text::blank(stderr) ==> lsp_client::start_failure(binary, error, stderr) == first
                + "\n--- server stderr ---\n"@ + stderr
        }),
{
}

/// A path has a uri if and only if an address can be made of it without fault;
/// a uri has a path if and only if it is that of a file.
pub proof fn law_uris_are_those_of_files(
    path: Seq<char>,
    url: Seq<char>,
    fault: Seq<char>,
    uri: Seq<char>,
    scheme: Seq<char>,
)
    ensures
        lsp_client::uri_from(path, Some(url), None) == Ok::<Seq<char>, Seq<char>>(url),
        lsp_client::uri_from(path, None, None) == Err::<Seq<char>, Seq<char>>(
            "invalid file path for URI: "@ + path,
        ),
        lsp_client::uri_from(path, Some(url), Some(fault)) == Err::<Seq<char>, Seq<char>>(
            "invalid file URI for "@ + path + ": "@ + fault,
        ),
        scheme == "file"@ ==> lsp_client::path_from(uri, Some((scheme, Some(path)))) == Ok::<
            Seq<char>,
            Seq<char>,
        >(path),
        scheme != "file"@ ==> lsp_client::path_from(uri, Some((scheme, Some(path)))) == Err::<
            Seq<char>,
            Seq<char>,
        >("not a file:// uri: "@ + uri),
        lsp_client::path_from(uri, None) == Err::<Seq<char>, Seq<char>>(
            "invalid LSP uri: "@ + uri,
        ),
{
}

// ---------------------------------------------------------------------------
// Answers
// ---------------------------------------------------------------------------

/// A hover is shown as its contents say: a text as it is, marked text by its
/// value, in a fence of its language where it has one, a list piece by piece; no
/// contents are told.
pub proof fn law_hovers_show_their_contents(
    result: JsonModel,
    s: Seq<char>,
    item: JsonModel,
    value: Seq<char>,
)
    ensures
        json::at(result, "contents"@) == Some(JsonModel::Text(s)) ==> lsp_format::hover(result)
            == s,
        json::at(result, "contents"@) is None ==> lsp_format::hover(result)
            == "No hover information at this position."@,
        lsp_format::marked(JsonModel::Text(s)) == Some(s),
        item is Object && json::text_under(item, "value"@) == Some(value) && json::text_under(
            item,
            "language"@,
        ) == Some(s) ==> lsp_format::marked(item) == Some(
            "```"@ + s + "\n"@ + value + "\n```"@,
        ),
        item is Object && json::text_under(item, "value"@) == Some(value) && json::text_under(
            item,
            "language"@,
        ) is None ==> lsp_format::marked(item) == Some(value),
        item is Object && json::text_under(item, "value"@) is None ==> lsp_format::marked(item)
            is None,
{
}

/// The pieces of a list are shown in order, those that say nothing left out.
pub proof fn law_hover_pieces_are_in_order(items: Seq<JsonModel>, n: nat)
    requires
        n < items.len(),
    ensures
        lsp_format::marked(items[n as int]) matches Some(s) ==> lsp_format::all_marked(items, n + 1)
            == lsp_format::all_marked(items, n).push(s),
        lsp_format::marked(items[n as int]) is None ==> lsp_format::all_marked(items, n + 1)
            == lsp_format::all_marked(items, n),
        lsp_format::all_marked(items, 0).len() == 0,
{
}

/// A location is the start of its range, or of the target of a link, by the uri
/// that belongs to it.
pub proof fn law_locations_are_where_ranges_start(location: JsonModel)
    ensures
        ({
            let l = lsp_format::location_of(location);
            let linked = json::at(location, "targetUri"@) is Some;
            let uri = json::text_under(
                location,
                if linked {
                    "targetUri"@
                } else {
                    "uri"@
                },
            );
            let range = json::at(
                location,
                if linked {
                    "targetRange"@
                } else {
                    "range"@
                },
            );
            &&& uri matches Some(u) ==> l.uri == u
            &&& uri is None ==> l.uri.len() == 0
            &&& range matches Some(r) ==> (json::at(r, "start"@) matches Some(start) ==> (
            json::unsigned_under(start, "line"@) matches Some(n) ==> l.line == n) && (
            json::unsigned_under(start, "character"@) matches Some(n) ==> l.character == n))
            &&& range is None ==> l.line == 0 && l.character == 0
        }),
{
}

/// Places are shown counted from one.
pub proof fn law_places_are_counted_from_one(path: Seq<char>, line: u64, character: u64)
    ensures
        lsp_format::place_text(path, line, character) == path + ":"@ + text::numeral(
            (line + 1) as nat,
        ) + ":"@ + text::numeral((character + 1) as nat),
{
}

/// A list of locations has its number, a row for each of the first fifty, and the
/// number of those left out; no locations are told.
pub proof fn law_locations_are_listed(items: Seq<JsonModel>, label: Seq<char>)
    ensures
        items.len() == 0 ==> lsp_format::locations_text(JsonModel::List(items), label) == label
            + ": no locations found"@,
        0 < items.len() <= 50 ==> lsp_format::locations_text(JsonModel::List(items), label)
            == text::join(
            seq![label + " ("@ + text::numeral(items.len()) + " location(s))"@] + Seq::new(
                items.len(),
                |i: int| "  "@ + lsp_format::location_text(items[i]),
            ),
            "\n"@,
        ),
        items.len() > 50 ==> lsp_format::locations_text(JsonModel::List(items), label)
            == text::join(
            (seq![label + " ("@ + text::numeral(items.len()) + " location(s))"@] + Seq::new(
                50,
                |i: int| "  "@ + lsp_format::location_text(items[i]),
            )).push("  ... "@ + text::numeral((items.len() - 50) as nat) + " more omitted"@),
            "\n"@,
        ),
{
}

/// The severities by number.
pub proof fn law_severities_have_names(n: u64)
    ensures
        lsp_format::severity_label(1) == "error"@,
        lsp_format::severity_label(2) == "warning"@,
        lsp_format::severity_label(3) == "info"@,
        n == 0 || n > 3 ==> lsp_format::severity_label(n) == "hint"@,
{
}

/// A range starts where it says, and at the first character of the first line
/// where it does not say.
pub proof fn law_ranges_start_at_the_top_unless_they_say(range: JsonModel)
    ensures
        lsp_format::start_of(None).line == 0 && lsp_format::start_of(None).character == 0,
        json::at(range, "start"@) is None ==> lsp_format::start_of(Some(range)).line == 0
            && lsp_format::start_of(Some(range)).character == 0,
        json::at(range, "start"@) matches Some(p) ==> ({
            let line = json::unsigned_under(p, "line"@);
            let character = json::unsigned_under(p, "character"@);
            let start = lsp_format::start_of(Some(range));
            &&& start.line == (if line is Some {
                line->0
            } else {
                0
            })
            &&& start.character == (if character is Some {
                character->0
            } else {
                0
            })
        }),
{
}

/// A diagnostic is shown with its place, its severity, information where it says
/// none, and its message.
pub proof fn law_diagnostics_are_shown(path: Seq<char>, d: JsonModel)
    ensures
        ({
            let start = lsp_format::start_of(json::at(d, "range"@));
            let severity = match json::unsigned_under(d, "severity"@) {
                Some(n) => lsp_format::severity_label(n),
                None => "info"@,
            };
            lsp_format::diagnostic_row(path, d) == "  "@ + lsp_format::place_text(
                path,
                start.line,
                start.character,
            ) + " "@ + severity + ": "@ + lsp_format::words(d, "message"@)
        }),
{
}

/// The diagnostics of a document are shown one a row, all of them, behind their
/// number; none are told.
pub proof fn law_documents_show_their_diagnostics(
    params: JsonModel,
    items: Seq<JsonModel>,
    path: Seq<char>,
    label: Seq<char>,
)
    requires
        json::at(params, "diagnostics"@) == Some(JsonModel::List(items)),
    ensures
        items.len() == 0 ==> lsp_format::diagnostics_at(params, path, label) == label
            + ": no diagnostics for "@ + path,
        items.len() > 0 ==> lsp_format::diagnostics_at(params, path, label) == text::join(
            seq![
                label + ": "@ + text::numeral(items.len()) + " diagnostic(s) for "@ + path,
            ] + Seq::new(items.len(), |i: int| lsp_format::diagnostic_row(path, items[i])),
            "\n"@,
        ),
{
}

/// A code action is shown by its title, with its kind and the number of
/// diagnostics that it fixes where it has them.
pub proof fn law_code_actions_are_shown(action: JsonModel)
    ensures
        ({
            let title = "  - "@ + lsp_format::words(action, "title"@);
            let kind = lsp_format::words(action, "kind"@);
            let fixes = lsp_edit::items_of(json::at(action, "diagnostics"@)).len();
            let row = lsp_format::action_row(action);
            &&& kind.len() == 0 && fixes == 0 ==> row == title
            &&& kind.len() > 0 && fixes == 0 ==> row == title + (" ["@ + kind + "]"@)
            &&& kind.len() == 0 && fixes > 0 ==> row == title + (" (fixes "@ + text::numeral(fixes)
                + " diagnostic(s))"@)
            &&& kind.len() > 0 && fixes > 0 ==> row == title + (" ["@ + kind + "]"@) + (" (fixes "@
                + text::numeral(fixes) + " diagnostic(s))"@)
        }),
{
    reveal_strlit("");
    let title = "  - "@ + lsp_format::words(action, "title"@);
    let kind = lsp_format::words(action, "kind"@);
    let fixes = lsp_edit::items_of(json::at(action, "diagnostics"@)).len();
    assert(""@ =~= Seq::<char>::empty());
    let k = " ["@ + kind + "]"@;
    let x = " (fixes "@ + text::numeral(fixes) + " diagnostic(s))"@;
    assert(title + ""@ + ""@ =~= title);
    assert(title + k + ""@ =~= title + k);
    assert(title + ""@ + x =~= title + x);
}

/// A symbol of a tree is shown under its parent, two spaces further in, with its
/// kind and its detail where it has one.
pub proof fn law_tree_symbols_are_shown(item: JsonModel, depth: nat)
    ensures
        ({
            let line = lsp_symbols::tree_line(item, depth);
            let detail = lsp_format::words(item, "detail"@);
            let front = lsp_symbols::indent(depth) + lsp_format::words(item, "name"@) + " ("@
                + lsp_symbols::kind_label(lsp_symbols::symbol_kind(item)) + ")"@;
            &&& lsp_symbols::indent(depth).len() == 2 * depth
            &&& forall|i: int|
                0 <= i < 2 * depth ==> #[trigger] lsp_symbols::indent(depth)[i] == ' '
            &&& detail.len() == 0 ==> line == front + "\n"@
            &&& detail.len() > 0 ==> line == front + (" — "@ + detail) + "\n"@
        }),
{
    reveal_strlit("");
    assert(""@ =~= Seq::<char>::empty());
    let front = lsp_symbols::indent(depth) + lsp_format::words(item, "name"@) + " ("@
        + lsp_symbols::kind_label(lsp_symbols::symbol_kind(item)) + ")"@;
    assert(front + ""@ =~= front);
}

/// A tree is shown with each symbol before its children, in order, until there
/// are two hundred lines.
pub proof fn law_trees_are_shown_from_the_top(
    item: JsonModel,
    depth: nat,
    lines: Seq<Seq<char>>,
)
    ensures
        lines.len() >= 200 ==> lsp_symbols::tree(item, depth, lines) == lines,
        lines.len() < 200 && json::list_under(item, "children"@) is None ==> lsp_symbols::tree(
            item,
            depth,
            lines,
        ) == lines.push(lsp_symbols::tree_line(item, depth)),
        lines.len() < 200 ==> (json::list_under(item, "children"@) matches Some(items)
            ==> lsp_symbols::tree(item, depth, lines) == lsp_symbols::forest(
            items,
            items.len(),
            depth + 1,
            lines.push(lsp_symbols::tree_line(item, depth)),
        )),
{
}

/// Some kinds of symbols by number.
pub proof fn law_symbol_kinds_have_names(n: u64)
    ensures
        lsp_symbols::kind_label(2) == "Module"@,
        lsp_symbols::kind_label(5) == "Class"@,
        lsp_symbols::kind_label(6) == "Method"@,
        lsp_symbols::kind_label(8) == "Field"@,
        lsp_symbols::kind_label(10) == "Enum"@,
        lsp_symbols::kind_label(11) == "Interface"@,
        lsp_symbols::kind_label(12) == "Function"@,
        lsp_symbols::kind_label(13) == "Variable"@,
        lsp_symbols::kind_label(14) == "Constant"@,
        lsp_symbols::kind_label(22) == "EnumMember"@,
        lsp_symbols::kind_label(23) == "Struct"@,
        lsp_symbols::kind_label(26) == "TypeParameter"@,
        n == 0 || n > 26 ==> lsp_symbols::kind_label(n) == "Symbol"@,
{
}

/// Symbols are a tree if and only if one of them has a range of its own to
/// select; otherwise each of the first two hundred has a line.
pub proof fn law_symbols_are_a_tree_or_a_list(items: Seq<JsonModel>)
    ensures
        (exists|i: int|
            0 <= i < items.len() && json::at(#[trigger] items[i], "selectionRange"@) is Some)
            ==> lsp_symbols::symbol_lines(items) == lsp_symbols::forest(
            items,
            items.len(),
            0,
            Seq::empty(),
        ),
        !(exists|i: int|
            0 <= i < items.len() && json::at(#[trigger] items[i], "selectionRange"@) is Some) ==> {
            let lines = lsp_symbols::symbol_lines(items);
            &&& lines.len() == (if items.len() < 200 {
                items.len()
            } else {
                200
            })
            &&& forall|i: int|
                0 <= i < lines.len() ==> #[trigger] lines[i] == lsp_symbols::flat_line(items[i])
        },
{
}

/// Symbols are shown behind their number, one line behind the other, with a note
/// where there may be more; none are told.
pub proof fn law_symbols_are_shown(items: Seq<JsonModel>)
    ensures
        ({
            let lines = lsp_symbols::symbol_lines(items);
            let shown = lsp_symbols::symbols_text(JsonModel::List(items));
            let front = "symbols ("@ + text::numeral(lines.len()) + " shown):\n"@;
            &&& lines.len() == 0 ==> shown == "symbols: none found"@
            &&& 0 < lines.len() < 200 ==> shown == front + lsp_symbols::run_on(lines)
            &&& lines.len() >= 200 ==> shown == front + (lsp_symbols::run_on(lines)
                + "  ... symbol limit (200) reached\n"@)
        }),
        lsp_symbols::symbols_text(JsonModel::Null) == "symbols: none found"@,
{
    reveal_strlit("");
    assert(""@ =~= Seq::<char>::empty());
    let lines = lsp_symbols::symbol_lines(items);
    assert(lsp_symbols::run_on(lines) + ""@ =~= lsp_symbols::run_on(lines));
}

/// Lines run on one behind the other.
pub proof fn law_lines_run_on(lines: Seq<Seq<char>>, line: Seq<char>)
    ensures
        lsp_symbols::run_on(lines.push(line)) == lsp_symbols::run_on(lines) + line,
        lsp_symbols::run_on(Seq::empty()).len() == 0,
{
    assert(lines.push(line).drop_last() =~= lines);
}

/// A symbol of a flat list is shown with its name, its kind and its place, and
/// with what it lies in where it lies in something.
pub proof fn law_flat_symbols_are_shown(item: JsonModel, location: JsonModel)
    requires
        json::at(item, "location"@) == Some(location),
    ensures
        ({
            let line = "  "@ + lsp_format::words(item, "name"@) + " — "@ + lsp_symbols::kind_label(
                lsp_symbols::symbol_kind(item),
            ) + " — "@ + lsp_format::location_text(location);
            let container = lsp_format::words(item, "containerName"@);
            &&& container.len() == 0 ==> lsp_symbols::flat_line(item) == line + ""@ + "\n"@
            &&& container.len() > 0 ==> lsp_symbols::flat_line(item) == line + (" (in "@ + container
                + ")"@) + "\n"@
        }),
{
}

proof fn lemma_dot_found(front: Seq<char>, ext: Seq<char>, n: nat)
    requires
        n <= ext.len(),
        !ext.contains('.'),
    ensures
        lsp::last_dot(front + seq!['.'] + ext, front.len() + 1 + n) == Some(front.len() as int),
    decreases n,
{
    let name = front + seq!['.'] + ext;
    if n > 0 {
        assert(name[front.len() as int + n] == ext[n - 1]);
        assert(ext.contains(ext[n - 1]));
        lemma_dot_found(front, ext, (n - 1) as nat);
    } else {
        assert(name[front.len() as int] == '.');
    }
}

/// A name that starts with its only dot has no extension.
pub proof fn law_hidden_names_have_no_extension(path: Seq<char>, name: Seq<char>)
    requires
        lexical_path::components(path).len() > 0,
        lexical_path::components(path).last() == seq!['.'] + name,
        !name.contains('.'),
    ensures
        lsp::extension_of(path) is None,
{
    let front = Seq::<char>::empty();
    lemma_dot_found(front, name, name.len());
    assert(front + seq!['.'] + name =~= seq!['.'] + name);
}

/// A symbol that does not say its kind is called a symbol.
pub proof fn law_symbols_without_a_kind_are_symbols(item: JsonModel, n: u64)
    ensures
        json::unsigned_under(item, "kind"@) is None ==> lsp_symbols::kind_label(
            lsp_symbols::symbol_kind(item),
        ) == "Symbol"@,
        json::unsigned_under(item, "kind"@) == Some(n) ==> lsp_symbols::symbol_kind(item) == n,
{
}

/// Markup is shown as it is. Contents that do not say their kind of markup are
/// shown as a marked string.
pub proof fn law_hover_shows_markup(
    result: JsonModel,
    members: Seq<(Seq<char>, JsonModel)>,
    value: Seq<char>,
)
    requires
        json::at(result, "contents"@) == Some(JsonModel::Object(members)),
    ensures
        ({
            let contents = JsonModel::Object(members);
            &&& json::at(contents, "kind"@) is Some && json::at(contents, "value"@) == Some(
                JsonModel::Text(value),
            ) ==> lsp_format::hover(result) == value
            &&& json::at(contents, "kind"@) is None && lsp_format::marked(contents) == Some(value)
                ==> lsp_format::hover(result) == value
            &&& json::at(contents, "kind"@) is None && lsp_format::marked(contents) is None
                ==> lsp_format::hover(result) == "No hover information at this position."@
        }),
{
}

} // verus!
