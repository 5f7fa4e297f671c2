//! What a client of a language server decides: paths and URIs, which message is
//! an answer, and when a request is made again.

use crate::json;
use crate::json::{Json, JsonModel};
use crate::lexical_path;
use crate::text;
use crate::text::{contains, same_text};
use crate::truncate;
use crate::truncate::truncate_string_to_bytes_from_end;
use std::str::FromStr;
use vstd::prelude::*;
use vstd::string::*;

verus! {

/// Timeout for one request, in seconds.
pub const REQUEST_TIMEOUT_SECS: u64 = 30;

/// How long the diagnostics of a document are waited for, in seconds.
pub const DIAGNOSTICS_TIMEOUT_SECS: u64 = 15;

/// How long a server has to exit, in seconds.
pub const EXIT_TIMEOUT_SECS: u64 = 2;

/// How long a server has to answer a shutdown, in seconds.
pub const SHUTDOWN_TIMEOUT_SECS: u64 = 5;

/// Cap on what is kept of the errors that a server prints.
pub const STDERR_CAP: usize = 65536;

/// How often a request that raced a change of the document is made again.
pub const CONTENT_MODIFIED_RETRIES: usize = 3;

pub const PUBLISH_DIAGNOSTICS: &'static str = "textDocument/publishDiagnostics";

// ---------------------------------------------------------------------------
// URIs
// ---------------------------------------------------------------------------

/// Whether a character stands for itself in a URI.
pub open spec fn plain_url_char(c: char) -> bool {
    ('a' <= c <= 'z') || ('A' <= c <= 'Z') || ('0' <= c <= '9') || c == '-' || c == '_' || c == '.'
}

/// Whether a component of a path is written into a URI as it is.
pub open spec fn url_plain(part: Seq<char>) -> bool {
    part.len() > 0 && part != "."@ && part != ".."@ && forall|i: int|
        0 <= i < part.len() ==> plain_url_char(#[trigger] part[i])
}

/// Whether all components are written into a URI as they are.
pub open spec fn all_url_plain(parts: Seq<Seq<char>>) -> bool {
    parts.len() > 0 && forall|i: int| 0 <= i < parts.len() ==> url_plain(#[trigger] parts[i])
}

/// The URI of a path with plain components.
pub open spec fn plain_uri(parts: Seq<Seq<char>>) -> Seq<char> {
    "file://"@ + lexical_path::rendered(true, parts)
}

/// Whether the URL of a path is written as it is where its components are plain.
pub open spec fn url_is_plain(path: Seq<char>, url: Option<Seq<char>>) -> bool {
    lexical_path::absolute(path) && all_url_plain(lexical_path::components(path)) ==> url == Some(
        plain_uri(lexical_path::components(path)),
    )
}

/// Whether a URL is read as the path that it was written from where the
/// components of that path are plain.
pub open spec fn url_reads_plain(
    uri: Seq<char>,
    url: Option<(Seq<char>, Option<Seq<char>>)>,
) -> bool {
    forall|parts: Seq<Seq<char>>| #[trigger]
        plain_uri(parts) == uri && all_url_plain(parts) ==> url == Some(
            ("file"@, Some(lexical_path::rendered(true, parts))),
        )
}

/// The URL of a file, as `Url::from_file_path` of `url` gives it.
pub uninterp spec fn file_url_of(path: Seq<char>) -> Option<Seq<char>>;

/// Whether a component can be told from its place in a URL: a URL resolves `..`,
/// and takes a letter before `:` or `|` for a drive.
pub open spec fn url_keeps(part: Seq<char>) -> bool {
    part != ".."@ && !part.contains(':') && !part.contains('|')
}

/// Whether a path can be read back from its URL.
pub open spec fn comes_back(path: Seq<char>) -> bool {
    lexical_path::absolute(path) && forall|i: int|
        0 <= i < lexical_path::components(path).len() ==> url_keeps(
            #[trigger] lexical_path::components(path)[i],
        )
}

/// Whether a URL is read as the path that it was made from, where that path can
/// be read back.
pub open spec fn url_reads_back(
    uri: Seq<char>,
    url: Option<(Seq<char>, Option<Seq<char>>)>,
) -> bool {
    forall|path: Seq<char>| #[trigger]
        file_url_of(path) == Some(uri) && comes_back(path) ==> url == Some(
            (
                "file"@,
                Some(lexical_path::rendered(true, lexical_path::components(path))),
            ),
        )
}

/// The `file://` URL of a path, from `Url::from_file_path` of `url`. There is one
/// exactly for a path that starts at the root. A byte is written as at most
/// three. Components of plain characters are written as they are; how others are
/// escaped is left unsaid.
#[verifier::external_body]
pub(crate) fn file_url(path: &str) -> (r: Option<String>)
    ensures
        match r {
            Some(u) => file_url_of(path@) == Some(u@),
            None => file_url_of(path@) is None,
        },
        r is Some <==> lexical_path::absolute(path@),
        r matches Some(u) ==> text::byte_len(u@) <= 8 + 3 * text::byte_len(path@),
        url_is_plain(path@, text::opt_text(r)),
{
    match url::Url::from_file_path(path) {
        Ok(u) => Some(u.as_str().to_owned()),
        Err(()) => None,
    }
}

/// What `lsp_types::Uri::from_str` says of a text: nothing, or why it is no URI.
pub uninterp spec fn uri_fault_of(s: Seq<char>) -> Option<Seq<char>>;

/// Reads a text as a URI with `Uri::from_str` of `lsp-types`. A URI keeps its
/// text; which texts are refused, and in which words, is left unsaid. It does not
/// take texts of more than two gigabytes.
#[verifier::external_body]
pub(crate) fn lsp_uri(s: &str) -> (r: Result<String, String>)
    requires
        text::byte_len(s@) <= i32::MAX,
    ensures
        match r {
            Ok(u) => uri_fault_of(s@) is None && u@ == s@,
            Err(e) => uri_fault_of(s@) == Some(e@),
        },
{
    match lsp_types::Uri::from_str(s) {
        Ok(uri) => Ok(uri.as_str().to_owned()),
        Err(e) => Err(e.to_string()),
    }
}

/// What `Url::parse` of `url` makes of a text: nothing, or the scheme and the
/// path of the file that the URL stands for, where it stands for one.
pub uninterp spec fn parsed_url_of(uri: Seq<char>) -> Option<(Seq<char>, Option<Seq<char>>)>;

/// A URL, taken apart.
#[derive(Debug, PartialEq, Eq)]
pub struct ParsedUrl {
    pub scheme: String,
    /// The path of the file, whatever the scheme.
    pub path: Option<String>,
}

/// The scheme and the path of a URL.
pub open spec fn taken_apart(url: Option<ParsedUrl>) -> Option<(Seq<char>, Option<Seq<char>>)> {
    match url {
        Some(u) => Some((u.scheme@, text::opt_text(u.path))),
        None => None,
    }
}

/// Reads a text as a URL with `Url::parse` of `url`, and gives its `scheme` and
/// what its `to_file_path` gives. The URL that `Url::from_file_path` made of a path
/// stands for the components of that path, unless one of them is `..` or holds a
/// `:` or a `|`. A URL of plain components is of this sort; what other texts stand
/// for is left unsaid.
#[verifier::external_body]
pub(crate) fn parse_url(uri: &str) -> (r: Option<ParsedUrl>)
    ensures
        taken_apart(r) == parsed_url_of(uri@),
        url_reads_plain(uri@, taken_apart(r)),
        url_reads_back(uri@, taken_apart(r)),
{
    match url::Url::parse(uri) {
        Ok(u) => {
            let scheme = u.scheme().to_owned();
            match u.to_file_path() {
                Ok(p) => Some(ParsedUrl { scheme, path: Some(p.to_string_lossy().into_owned()) }),
                Err(()) => Some(ParsedUrl { scheme, path: None }),
            }
        },
        Err(_) => None,
    }
}

/// The URI of a path, from its URL and from what is wrong with it.
pub open spec fn uri_from(
    path: Seq<char>,
    url: Option<Seq<char>>,
    fault: Option<Seq<char>>,
) -> Result<Seq<char>, Seq<char>> {
    match url {
        None => Err("invalid file path for URI: "@ + path),
        Some(u) => match fault {
            Some(e) => Err("invalid file URI for "@ + path + ": "@ + e),
            None => Ok(u),
        },
    }
}

/// The URI of a path.
pub open spec fn uri_of(path: Seq<char>) -> Result<Seq<char>, Seq<char>> {
    match file_url_of(path) {
        None => uri_from(path, None, None),
        Some(u) => uri_from(path, Some(u), uri_fault_of(u)),
    }
}

/// The models of a result of texts.
pub open spec fn result_text(r: Result<String, String>) -> Result<Seq<char>, Seq<char>> {
    match r {
        Ok(s) => Ok(s@),
        Err(e) => Err(e@),
    }
}

/// The URI of a path, from its URL and from what is wrong with it.
pub fn judge_uri(path: &str, url: Option<String>, fault: Option<&str>) -> (r: Result<
    String,
    String,
>)
    ensures
        result_text(r) == uri_from(
            path@,
            text::opt_text(url),
            match fault {
                Some(e) => Some(e@),
                None => None,
            },
        ),
{
    match url {
        None => Err("invalid file path for URI: ".to_owned().concat(path)),
        Some(u) => match fault {
            Some(e) => Err(
                "invalid file URI for ".to_owned().concat(path).concat(": ").concat(e),
            ),
            None => Ok(u),
        },
    }
}

/// The `file://` URI of a path. A path that does not start at the root has none.
pub fn path_to_uri(path: &str) -> (r: Result<String, String>)
    requires
        8 + 3 * text::byte_len(path@) <= i32::MAX,
    ensures
        result_text(r) == uri_of(path@),
        !lexical_path::absolute(path@) ==> r is Err,
        r matches Ok(u) ==> url_is_plain(path@, Some(u@)),
{
    match file_url(path) {
        None => judge_uri(path, None, None),
        Some(u) => match lsp_uri(u.as_str()) {
            Ok(_) => judge_uri(path, Some(u), None),
            Err(e) => judge_uri(path, Some(u), Some(e.as_str())),
        },
    }
}

/// The path that a URI stands for, from its URL. Only `file://` URIs stand for
/// paths.
pub open spec fn path_from(
    uri: Seq<char>,
    url: Option<(Seq<char>, Option<Seq<char>>)>,
) -> Result<Seq<char>, Seq<char>> {
    match url {
        None => Err("invalid LSP uri: "@ + uri),
        Some((scheme, path)) => match path {
            Some(p) if scheme == "file"@ => Ok(p),
            _ => Err("not a file:// uri: "@ + uri),
        },
    }
}

/// The path that a URI stands for, from its URL. The scheme is looked at, since
/// every URL with a path could pass for that of a file.
pub fn judge_url(uri: &str, url: Option<ParsedUrl>) -> (r: Result<String, String>)
    ensures
        result_text(r) == path_from(uri@, taken_apart(url)),
{
    match url {
        None => Err("invalid LSP uri: ".to_owned().concat(uri)),
        Some(u) => {
            if !same_text(u.scheme.as_str(), "file") {
                return Err("not a file:// uri: ".to_owned().concat(uri));
            }
            match u.path {
                Some(p) => Ok(p),
                None => Err("not a file:// uri: ".to_owned().concat(uri)),
            }
        },
    }
}

/// The path that a URI stands for.
pub open spec fn path_of(uri: Seq<char>) -> Result<Seq<char>, Seq<char>> {
    path_from(uri, parsed_url_of(uri))
}

/// The path that a `file://` URI stands for. The URI of a path stands for that
/// path.
pub fn uri_to_path(uri: &str) -> (r: Result<String, String>)
    ensures
        result_text(r) == path_of(uri@),
        forall|parts: Seq<Seq<char>>| #[trigger]
            plain_uri(parts) == uri@ && all_url_plain(parts) ==> (r matches Ok(p) && p@
                == lexical_path::rendered(true, parts)),
        forall|path: Seq<char>| #[trigger]
            uri_of(path) == Ok::<Seq<char>, Seq<char>>(uri@) && comes_back(path) ==> (
            r matches Ok(p) && p@ == lexical_path::rendered(
                true,
                lexical_path::components(path),
            )),
{
    judge_url(uri, parse_url(uri))
}

/// The path that comes back from the URI of a path is the same path.
pub proof fn law_paths_come_back(path: Seq<char>)
    requires
        comes_back(path),
    ensures
        lexical_path::same_path(
            lexical_path::rendered(true, lexical_path::components(path)),
            path,
        ),
{
    lexical_path::lemma_components_of_absolute(path);
    lexical_path::lemma_components_of_rendered(true, lexical_path::components(path));
}

/// A URI of another scheme never stands for a path.
pub proof fn law_only_file_uris_are_paths(
    uri: Seq<char>,
    scheme: Seq<char>,
    path: Option<Seq<char>>,
)
    requires
        scheme != "file"@,
    ensures
        path_from(uri, Some((scheme, path))) == Err::<Seq<char>, Seq<char>>(
            "not a file:// uri: "@ + uri,
        ),
{
}

// ---------------------------------------------------------------------------
// Messages
// ---------------------------------------------------------------------------

/// What a message is to a client that waits for the answer to a request.
#[derive(Debug, PartialEq, Eq)]
pub enum Incoming<'a> {
    /// Diagnostics that were pushed; they are kept.
    Diagnostics(Option<&'a Json>),
    /// Nothing that concerns the client.
    Ignored,
    /// The answer is an error.
    Failed(&'a Json),
    /// The answer.
    Answer(Option<&'a Json>),
}

/// What a message is, as a model.
#[verifier::ext_equal]
pub enum IncomingModel {
    Diagnostics(JsonModel),
    Ignored,
    Failed(JsonModel),
    Answer(JsonModel),
}

/// A value, or null.
pub open spec fn or_null(v: Option<JsonModel>) -> JsonModel {
    match v {
        Some(v) => v,
        None => JsonModel::Null,
    }
}

impl<'a> View for Incoming<'a> {
    type V = IncomingModel;

    open spec fn view(&self) -> IncomingModel {
        match self {
            Incoming::Diagnostics(v) => IncomingModel::Diagnostics(
                match v {
                    Some(v) => v@,
                    None => JsonModel::Null,
                },
            ),
            Incoming::Ignored => IncomingModel::Ignored,
            Incoming::Failed(v) => IncomingModel::Failed(v@),
            Incoming::Answer(v) => IncomingModel::Answer(
                match v {
                    Some(v) => v@,
                    None => JsonModel::Null,
                },
            ),
        }
    }
}

/// Whether a message pushes diagnostics.
pub open spec fn pushes_diagnostics(message: JsonModel) -> bool {
    json::at(message, "id"@) is None && json::text_under(message, "method"@) == Some(
        PUBLISH_DIAGNOSTICS@,
    )
}

/// What a message is to a client that waits for the answer to request `id`.
pub open spec fn incoming(message: JsonModel, id: u64) -> IncomingModel {
    if json::at(message, "id"@) is None {
        if pushes_diagnostics(message) {
            IncomingModel::Diagnostics(or_null(json::at(message, "params"@)))
        } else {
            IncomingModel::Ignored
        }
    } else if json::unsigned_under(message, "id"@) != Some(id) {
        IncomingModel::Ignored
    } else {
        match json::at(message, "error"@) {
            Some(e) => IncomingModel::Failed(e),
            None => IncomingModel::Answer(or_null(json::at(message, "result"@))),
        }
    }
}

/// Sorts a message that comes while the answer to request `id` is waited for.
/// Diagnostics are kept, other notifications and answers to other requests are
/// passed over.
pub fn read_response<'a>(message: &'a Json, id: u64) -> (r: Incoming<'a>)
    ensures
        r@ == incoming(message@, id),
{
    match message.value_at("id") {
        None => {
            if let Some(method) = message.words_at("method") {
                if same_text(method, PUBLISH_DIAGNOSTICS) {
                    return Incoming::Diagnostics(message.value_at("params"));
                }
            }
            Incoming::Ignored
        },
        Some(_) => {
            match message.whole_at("id") {
                Some(n) if n == id => {},
                _ => {
                    return Incoming::Ignored;
                },
            }
            match message.value_at("error") {
                Some(e) => Incoming::Failed(e),
                None => Incoming::Answer(message.value_at("result")),
            }
        },
    }
}

/// Only a message with the id of the request answers it.
pub proof fn law_answers_carry_the_id(message: JsonModel, id: u64)
    requires
        incoming(message, id) is Answer || incoming(message, id) is Failed,
    ensures
        json::unsigned_under(message, "id"@) == Some(id),
{
}

/// The first diagnostics for a document among those that were pushed.
pub open spec fn first_for(pushed: Seq<JsonModel>, uri: Seq<char>, i: nat) -> Option<JsonModel>
    decreases pushed.len() - i,
{
    if i >= pushed.len() {
        None
    } else if json::text_under(pushed[i as int], "uri"@) == Some(uri) {
        Some(pushed[i as int])
    } else {
        first_for(pushed, uri, i + 1)
    }
}

/// The first diagnostics for a document among those that were pushed.
pub fn kept_diagnostics<'a>(pushed: &'a Vec<Json>, uri: &str) -> (r: Option<&'a Json>)
    ensures
        match r {
            Some(v) => first_for(json::models(pushed@), uri@, 0) == Some(v@),
            None => first_for(json::models(pushed@), uri@, 0) is None,
        },
{
    let mut i: usize = 0;
    let ghost all = json::models(pushed@);
    while i < pushed.len()
        invariant
            i <= pushed@.len(),
            all == json::models(pushed@),
            first_for(all, uri@, 0) == first_for(all, uri@, i as nat),
        decreases pushed@.len() - i,
    {
        assert(all[i as int] == pushed@[i as int]@);
        if let Some(u) = pushed[i].words_at("uri") {
            if same_text(u, uri) {
                return Some(&pushed[i]);
            }
        }
        i += 1;
    }
    None
}

/// Whether a push of diagnostics tells of anything.
pub open spec fn tells_something(params: JsonModel) -> bool {
    match json::list_under(params, "diagnostics"@) {
        Some(items) => items.len() > 0,
        None => false,
    }
}

/// Whether a first push of diagnostics may stem from before the document was
/// analyzed: it is empty. A request for the document's symbols makes the server
/// catch up.
pub fn needs_barrier(first: &Json) -> (r: bool)
    ensures
        r == !tells_something(first@),
{
    match first.list_at("diagnostics") {
        Some(items) => items.len() == 0,
        None => true,
    }
}

/// The latest diagnostics for a document among the first `n` that were pushed,
/// not counting the first `seen`.
pub open spec fn latest_for(
    pushed: Seq<JsonModel>,
    uri: Seq<char>,
    seen: nat,
    n: nat,
) -> Option<JsonModel>
    decreases n,
{
    if n <= seen || n > pushed.len() {
        None
    } else if json::text_under(pushed[n - 1], "uri"@) == Some(uri) {
        Some(pushed[n - 1])
    } else {
        latest_for(pushed, uri, seen, (n - 1) as nat)
    }
}

/// The diagnostics of an analyzed document, once the server caught up: the
/// latest of those that were pushed after the first `seen`, or the first push
/// where none came.
pub fn wait_ready_diagnostics<'a>(
    first: &'a Json,
    pushed: &'a Vec<Json>,
    seen: usize,
    uri: &str,
) -> (r: &'a Json)
    ensures
        r@ == (match latest_for(
            json::models(pushed@),
            uri@,
            seen as nat,
            pushed@.len(),
        ) {
            Some(latest) => latest,
            None => first@,
        }),
{
    let mut n: usize = pushed.len();
    let ghost all = json::models(pushed@);
    while n > seen
        invariant
            n <= pushed@.len(),
            all == json::models(pushed@),
            latest_for(all, uri@, seen as nat, pushed@.len()) == latest_for(
                all,
                uri@,
                seen as nat,
                n as nat,
            ),
        decreases n,
    {
        assert(all[n - 1] == pushed@[n - 1]@);
        if let Some(u) = pushed[n - 1].words_at("uri") {
            if same_text(u, uri) {
                return &pushed[n - 1];
            }
        }
        n -= 1;
    }
    first
}

proof fn lemma_latest(pushed: Seq<JsonModel>, uri: Seq<char>, seen: nat, n: nat, k: int)
    requires
        n <= pushed.len(),
        seen <= k < n,
        json::text_under(pushed[k], "uri"@) == Some(uri),
        forall|j: int|
            k < j < n ==> json::text_under(#[trigger] pushed[j], "uri"@) != Some(uri),
    ensures
        latest_for(pushed, uri, seen, n) == Some(pushed[k]),
    decreases n,
{
    if k < n - 1 {
        lemma_latest(pushed, uri, seen, (n - 1) as nat, k);
    }
}

/// A stale empty push never hides what the server found later: where the last
/// push for the document came after the first `seen`, it is what counts.
pub proof fn law_the_latest_push_counts(
    pushed: Seq<JsonModel>,
    uri: Seq<char>,
    seen: nat,
    k: int,
)
    requires
        seen <= k < pushed.len(),
        json::text_under(pushed[k], "uri"@) == Some(uri),
        forall|j: int|
            k < j < pushed.len() ==> json::text_under(#[trigger] pushed[j], "uri"@) != Some(uri),
    ensures
        latest_for(pushed, uri, seen, pushed.len()) == Some(pushed[k]),
{
    lemma_latest(pushed, uri, seen, pushed.len(), k);
}

/// What a message is to a client that waits for the diagnostics of a document.
#[derive(Debug, PartialEq, Eq)]
pub enum Waited<'a> {
    /// The diagnostics that are waited for.
    Found(&'a Json),
    /// Diagnostics of another document; they are kept.
    Other(Option<&'a Json>),
    Ignored,
}

/// What a message is, as a model.
#[verifier::ext_equal]
pub enum WaitedModel {
    Found(JsonModel),
    Other(JsonModel),
    Ignored,
}

impl<'a> View for Waited<'a> {
    type V = WaitedModel;

    open spec fn view(&self) -> WaitedModel {
        match self {
            Waited::Found(v) => WaitedModel::Found(v@),
            Waited::Other(v) => WaitedModel::Other(
                match v {
                    Some(v) => v@,
                    None => JsonModel::Null,
                },
            ),
            Waited::Ignored => WaitedModel::Ignored,
        }
    }
}

/// What a message is to a client that waits for the diagnostics of a document.
pub open spec fn waited(message: JsonModel, uri: Seq<char>) -> WaitedModel {
    if !pushes_diagnostics(message) {
        WaitedModel::Ignored
    } else {
        let params = or_null(json::at(message, "params"@));
        if json::text_under(params, "uri"@) == Some(uri) {
            WaitedModel::Found(params)
        } else {
            WaitedModel::Other(params)
        }
    }
}

/// Sorts a message that comes while the diagnostics of a document are waited
/// for.
pub fn wait_for_diagnostics<'a>(message: &'a Json, uri: &str) -> (r: Waited<'a>)
    ensures
        r@ == waited(message@, uri@),
{
    if let Some(_) = message.value_at("id") {
        return Waited::Ignored;
    }
    match message.words_at("method") {
        Some(method) => {
            if !same_text(method, PUBLISH_DIAGNOSTICS) {
                return Waited::Ignored;
            }
        },
        None => {
            return Waited::Ignored;
        },
    }
    match message.value_at("params") {
        Some(params) => {
            if let Some(u) = params.words_at("uri") {
                if same_text(u, uri) {
                    return Waited::Found(params);
                }
            }
            Waited::Other(Some(params))
        },
        None => Waited::Other(None),
    }
}

// ---------------------------------------------------------------------------
// Retries
// ---------------------------------------------------------------------------

/// Whether the words of an error say that the document changed meanwhile.
pub open spec fn content_modified(error: Seq<char>) -> bool {
    text::holds(error, "\"code\":-32801"@) || text::holds(error, "content modified"@)
        || text::holds(error, "ContentModified"@)
}

/// Whether the words of an error say that the document changed meanwhile.
pub fn is_content_modified(error: &str) -> (r: bool)
    ensures
        r == content_modified(error@),
{
    contains(error, "\"code\":-32801") || contains(error, "content modified") || contains(
        error,
        "ContentModified",
    )
}

/// What follows a request that failed.
#[derive(Clone, Copy, Debug, PartialEq, Eq, Structural)]
pub enum Retry {
    /// Wait this many milliseconds, and make the request again.
    After(u64),
    /// The request failed.
    Never,
}

/// What follows after `attempt` retries when a request fails with these words.
pub open spec fn retried(attempt: nat, error: Seq<char>) -> Retry {
    if attempt < CONTENT_MODIFIED_RETRIES && content_modified(error) {
        Retry::After((200 * (attempt + 1)) as u64)
    } else {
        Retry::Never
    }
}

/// Decides what follows after `attempt` retries when a request fails: one that
/// raced a change of the document is made again, a few times, after a wait that
/// grows.
pub fn request_with_retry(attempt: usize, error: &str) -> (r: Retry)
    ensures
        r == retried(attempt as nat, error@),
{
    if attempt < CONTENT_MODIFIED_RETRIES && is_content_modified(error) {
        Retry::After(200 * (attempt as u64 + 1))
    } else {
        Retry::Never
    }
}

/// A request is made at most four times.
pub proof fn law_retries_end(attempt: nat, error: Seq<char>)
    requires
        retried(attempt, error) is After,
    ensures
        attempt + 1 <= CONTENT_MODIFIED_RETRIES,
        retried(attempt, error) == Retry::After((200 * (attempt + 1)) as u64),
{
}

// ---------------------------------------------------------------------------
// What a server prints
// ---------------------------------------------------------------------------

/// What is kept of the errors that a server printed, with more of them.
pub fn keep_stderr(tail: &str, more: &str) -> (r: String)
    ensures
        r@ == truncate::byte_tail(tail@ + more@, STDERR_CAP as nat),
{
    let all = tail.to_owned().concat(more);
    truncate_string_to_bytes_from_end(all.as_str(), STDERR_CAP)
}

/// Why a server does not start.
pub open spec fn start_failure(
    binary: Seq<char>,
    error: Seq<char>,
    stderr: Seq<char>,
) -> Seq<char> {
    let first = "LSP server `"@ + binary + "` failed to initialize: "@ + error;
    if text::blank(stderr) {
        first
    } else {
        first + "\n--- server stderr ---\n"@ + stderr
    }
}

/// Says why a server does not start, with what it printed.
pub fn initialize_failure(binary: &str, error: &str, stderr: &str) -> (r: String)
    ensures
        r@ == start_failure(binary@, error@, stderr@),
{
    let first = "LSP server `".to_owned().concat(binary).concat(
        "` failed to initialize: ",
    ).concat(error);
    if text::is_blank(stderr) {
        first
    } else {
        first.concat("\n--- server stderr ---\n").concat(stderr)
    }
}

} // verus!
