//! The answers of a language server as text.

use crate::json;
use crate::json::{Json, JsonModel};
use crate::text;
use crate::text::{decimal, join_texts, push_text, successor};
use crate::tools::lsp_client;
use crate::tools::lsp_client::uri_to_path;
use crate::tools::lsp_edit;
use vstd::prelude::*;
use vstd::string::*;

verus! {

/// Cap on the locations that are shown.
pub const MAX_LOCATIONS: usize = 50;

/// Cap on the symbols that are shown.
pub const MAX_SYMBOLS: usize = 200;

/// Cap on the code actions that are shown.
pub const MAX_CODE_ACTIONS: usize = 50;

/// The text under a key, or none.
pub open spec fn words(v: JsonModel, key: Seq<char>) -> Seq<char> {
    match json::text_under(v, key) {
        Some(s) => s,
        None => Seq::empty(),
    }
}

/// The text under a key, or none.
pub fn words_of<'a>(v: &'a Json, key: &str) -> (r: &'a str)
    ensures
        r@ == words(v@, key@),
{
    match v.words_at(key) {
        Some(s) => s,
        None => {
            proof {
                reveal_strlit("");
                assert(""@ =~= Seq::<char>::empty());
            }
            ""
        },
    }
}

/// The smaller number.
pub open spec fn at_most(n: nat, cap: nat) -> nat {
    if n < cap {
        n
    } else {
        cap
    }
}

// ---------------------------------------------------------------------------
// Hover
// ---------------------------------------------------------------------------

/// A part of a hover text: a text, or one in a language.
pub open spec fn marked(item: JsonModel) -> Option<Seq<char>> {
    match item {
        JsonModel::Text(s) => Some(s),
        JsonModel::Object(_) => match json::text_under(item, "value"@) {
            Some(value) => match json::text_under(item, "language"@) {
                Some(language) => Some("```"@ + language + "\n"@ + value + "\n```"@),
                None => Some(value),
            },
            None => None,
        },
        _ => None,
    }
}

/// The parts among the first `n` items.
pub open spec fn all_marked(items: Seq<JsonModel>, n: nat) -> Seq<Seq<char>>
    decreases n,
{
    if n == 0 {
        Seq::empty()
    } else {
        let before = all_marked(items, (n - 1) as nat);
        match marked(items[n - 1]) {
            Some(s) => before.push(s),
            None => before,
        }
    }
}

pub open spec fn just(part: Option<Seq<char>>) -> Seq<Seq<char>> {
    match part {
        Some(s) => seq![s],
        None => Seq::empty(),
    }
}

/// The parts of a hover text.
pub open spec fn hover_parts(result: JsonModel) -> Seq<Seq<char>> {
    match json::at(result, "contents"@) {
        Some(JsonModel::Text(s)) => seq![s],
        Some(JsonModel::List(items)) => all_marked(items, items.len()),
        Some(JsonModel::Object(members)) => {
            let contents = JsonModel::Object(members);
            if json::at(contents, "value"@) is Some && json::at(contents, "kind"@) is Some {
                just(json::text_under(contents, "value"@))
            } else {
                just(marked(contents))
            }
        },
        _ => Seq::empty(),
    }
}

/// A hover answer as text.
pub open spec fn hover(result: JsonModel) -> Seq<char> {
    if hover_parts(result).len() == 0 {
        "No hover information at this position."@
    } else {
        text::join(hover_parts(result), "\n\n"@)
    }
}

fn push_marked_string(item: &Json, parts: &mut Vec<String>)
    ensures
        text::texts(final(parts)@) == match marked(item@) {
            Some(s) => text::texts(old(parts)@).push(s),
            None => text::texts(old(parts)@),
        },
{
    match item {
        Json::Text(s) => {
            push_text(parts, s.as_str());
        },
        Json::Object(_) => {
            if let Some(value) = item.words_at("value") {
                if let Some(language) = item.words_at("language") {
                    push_text(
                        parts,
                        "```".to_owned().concat(language).concat("\n").concat(value).concat(
                            "\n```",
                        ).as_str(),
                    );
                } else {
                    push_text(parts, value);
                }
            }
        },
        _ => {},
    }
}

/// A hover answer as text: marked-up contents, or texts one below the other.
pub fn format_hover(result: &Json) -> (r: String)
    ensures
        r@ == hover(result@),
{
    let mut parts: Vec<String> = Vec::new();
    assert(text::texts(parts@) =~= Seq::<Seq<char>>::empty());
    if let Some(contents) = result.value_at("contents") {
        match contents {
            Json::Text(s) => {
                push_text(&mut parts, s.as_str());
                assert(text::texts(parts@) =~= seq![s@]);
            },
            Json::List(items) => {
                proof {
                    json::lemma_list_view(*items);
                }
                let ghost all = json::models(items@);
                let mut i: usize = 0;
                while i < items.len()
                    invariant
                        i <= items@.len(),
                        all == json::models(items@),
                        text::texts(parts@) == all_marked(all, i as nat),
                    decreases items@.len() - i,
                {
                    assert(all[i as int] == items@[i as int]@);
                    push_marked_string(&items[i], &mut parts);
                    i += 1;
                }
            },
            Json::Object(members) => {
                proof {
                    json::lemma_object_view(*members);
                }
                let value = contents.value_at("value");
                let kind = contents.value_at("kind");
                if value.is_some() && kind.is_some() {
                    if let Some(s) = contents.words_at("value") {
                        push_text(&mut parts, s);
                        assert(text::texts(parts@) =~= seq![s@]);
                    }
                } else {
                    push_marked_string(contents, &mut parts);
                    assert(text::texts(parts@) =~= just(marked(contents@)));
                }
            },
            _ => {},
        }
    }
    if parts.len() == 0 {
        return "No hover information at this position.".to_owned();
    }
    join_texts(&parts, "\n\n")
}

// ---------------------------------------------------------------------------
// Locations
// ---------------------------------------------------------------------------

/// Where something is, as the server gives it.
#[verifier::ext_equal]
pub struct LocationModel {
    pub uri: Seq<char>,
    pub line: u64,
    pub character: u64,
}

/// The start of a range; what it leaves out is zero.
pub open spec fn start_of(range: Option<JsonModel>) -> lsp_edit::EditPosition {
    match range {
        Some(range) => match json::at(range, "start"@) {
            Some(start) => lsp_edit::position_of(start),
            None => lsp_edit::EditPosition { line: 0, character: 0 },
        },
        None => lsp_edit::EditPosition { line: 0, character: 0 },
    }
}

/// Where a location or the target of a link is.
pub open spec fn location_of(location: JsonModel) -> LocationModel {
    let linked = json::at(location, "targetUri"@) is Some;
    let uri = words(
        location,
        if linked {
            "targetUri"@
        } else {
            "uri"@
        },
    );
    let start = start_of(
        json::at(
            location,
            if linked {
                "targetRange"@
            } else {
                "range"@
            },
        ),
    );
    LocationModel { uri, line: start.line, character: start.character }
}

/// A place in a file, counted from one.
pub open spec fn place_text(path: Seq<char>, line: u64, character: u64) -> Seq<char> {
    path + ":"@ + text::numeral(line as nat + 1) + ":"@ + text::numeral(character as nat + 1)
}

/// The path that is shown for a URI: that of the file, or the URI itself.
pub open spec fn path_or_uri(uri: Seq<char>, path: Result<Seq<char>, Seq<char>>) -> Seq<char> {
    match path {
        Ok(p) => p,
        Err(_) => uri,
    }
}

/// The path that is shown for a URI.
pub open spec fn shown_path(uri: Seq<char>) -> Seq<char> {
    path_or_uri(uri, lsp_client::path_of(uri))
}

/// A location as text.
pub open spec fn location_text(location: JsonModel) -> Seq<char> {
    let l = location_of(location);
    place_text(shown_path(l.uri), l.line, l.character)
}

/// A location.
#[derive(Debug, PartialEq, Eq)]
pub struct LocationPlace {
    pub uri: String,
    pub line: u64,
    pub character: u64,
}

impl View for LocationPlace {
    type V = LocationModel;

    open spec fn view(&self) -> LocationModel {
        LocationModel { uri: self.uri@, line: self.line, character: self.character }
    }
}

fn number_at(v: &Json, key: &str) -> (r: u64)
    ensures
        r == lsp_edit::number_under(v@, key@),
{
    match v.whole_at(key) {
        Some(n) => n,
        None => 0,
    }
}

fn read_start(range: Option<&Json>) -> (r: (u64, u64))
    ensures
        ({
            let start = start_of(
                match range {
                    Some(v) => Some(v@),
                    None => None,
                },
            );
            r.0 == start.line && r.1 == start.character
        }),
{
    if let Some(range) = range {
        if let Some(start) = range.value_at("start") {
            return (number_at(start, "line"), number_at(start, "character"));
        }
    }
    (0, 0)
}

/// Where a location or the target of a link is.
pub fn read_location(location: &Json) -> (r: LocationPlace)
    ensures
        r@ == location_of(location@),
{
    if let Some(_) = location.value_at("targetUri") {
        let uri = words_of(location, "targetUri").to_owned();
        let (line, character) = read_start(location.value_at("targetRange"));
        LocationPlace { uri, line, character }
    } else {
        let uri = words_of(location, "uri").to_owned();
        let (line, character) = read_start(location.value_at("range"));
        LocationPlace { uri, line, character }
    }
}

/// A place in a file, counted from one.
pub fn format_place(path: &str, line: u64, character: u64) -> (r: String)
    ensures
        r@ == place_text(path@, line, character),
{
    path.to_owned().concat(":").concat(successor(line).as_str()).concat(":").concat(
        successor(character).as_str(),
    )
}

/// The path that is shown for a URI, from what it stands for.
pub fn choose_path(uri: &str, path: Result<String, String>) -> (r: String)
    ensures
        r@ == path_or_uri(uri@, lsp_client::result_text(path)),
{
    match path {
        Ok(p) => p,
        Err(_) => uri.to_owned(),
    }
}

fn show_path(uri: &str) -> (r: String)
    ensures
        r@ == shown_path(uri@),
{
    choose_path(uri, uri_to_path(uri))
}

/// A location as text.
pub fn format_location(location: &Json) -> (r: String)
    ensures
        r@ == location_text(location@),
{
    let place = read_location(location);
    format_place(show_path(place.uri.as_str()).as_str(), place.line, place.character)
}

/// The locations of an answer: one, several or none.
pub open spec fn locations_of(v: JsonModel) -> Seq<JsonModel> {
    match v {
        JsonModel::List(items) => items,
        JsonModel::Object(_) => seq![v],
        _ => Seq::empty(),
    }
}

/// The rows of a list with a header, what is shown of it, and a row on what is
/// left out.
pub open spec fn capped_rows(
    header: Seq<char>,
    rows: Seq<Seq<char>>,
    omitted: nat,
) -> Seq<Seq<char>> {
    let shown = seq![header] + rows;
    if omitted > 0 {
        shown.push("  ... "@ + text::numeral(omitted) + " more omitted"@)
    } else {
        shown
    }
}

/// The first rows that show locations.
pub open spec fn location_rows(items: Seq<JsonModel>, n: nat) -> Seq<Seq<char>> {
    Seq::new(n, |i: int| "  "@ + location_text(items[i]))
}

/// The locations of an answer as text.
pub open spec fn locations_text(v: JsonModel, label: Seq<char>) -> Seq<char> {
    let items = locations_of(v);
    if items.len() == 0 {
        label + ": no locations found"@
    } else {
        let shown = at_most(items.len(), MAX_LOCATIONS as nat);
        text::join(
            capped_rows(
                label + " ("@ + text::numeral(items.len()) + " location(s))"@,
                location_rows(items, shown),
                (items.len() - shown) as nat,
            ),
            "\n"@,
        )
    }
}

fn push_omitted(lines: &mut Vec<String>, omitted: usize)
    ensures
        text::texts(final(lines)@) == (if omitted > 0 {
            text::texts(old(lines)@).push(
                "  ... "@ + text::numeral(omitted as nat) + " more omitted"@,
            )
        } else {
            text::texts(old(lines)@)
        }),
{
    if omitted > 0 {
        push_text(
            lines,
            "  ... ".to_owned().concat(decimal(omitted as u64).as_str()).concat(
                " more omitted",
            ).as_str(),
        );
    }
}

/// The locations of an answer as text, up to a cap.
pub fn format_locations(locations: &Json, label: &str) -> (r: String)
    ensures
        r@ == locations_text(locations@, label@),
{
    match locations {
        Json::List(items) => {
            proof {
                json::lemma_list_view(*items);
            }
            if items.len() == 0 {
                return label.to_owned().concat(": no locations found");
            }
            let ghost all = json::models(items@);
            let shown: usize = if items.len() < MAX_LOCATIONS {
                items.len()
            } else {
                MAX_LOCATIONS
            };
            let ghost rows = location_rows(all, shown as nat);
            let ghost header = label@ + " ("@ + text::numeral(items@.len()) + " location(s))"@;
            let mut lines: Vec<String> = Vec::new();
            push_text(
                &mut lines,
                label.to_owned().concat(" (").concat(decimal(items.len() as u64).as_str()).concat(
                    " location(s))",
                ).as_str(),
            );
            assert(text::texts(lines@) =~= seq![header] + rows.take(0));
            let mut i: usize = 0;
            while i < shown
                invariant
                    i <= shown <= items@.len(),
                    all == json::models(items@),
                    rows == location_rows(all, shown as nat),
                    text::texts(lines@) == seq![header] + rows.take(i as int),
                decreases shown - i,
            {
                assert(all[i as int] == items@[i as int]@);
                push_text(
                    &mut lines,
                    "  ".to_owned().concat(format_location(&items[i]).as_str()).as_str(),
                );
                i += 1;
                assert(text::texts(lines@) =~= seq![header] + rows.take(i as int));
            }
            assert(rows.take(shown as int) =~= rows);
            push_omitted(&mut lines, items.len() - shown);
            join_texts(&lines, "\n")
        },
        Json::Object(members) => {
            proof {
                json::lemma_object_view(*members);
            }
            let mut lines: Vec<String> = Vec::new();
            push_text(
                &mut lines,
                label.to_owned().concat(" (").concat(decimal(1).as_str()).concat(
                    " location(s))",
                ).as_str(),
            );
            push_text(
                &mut lines,
                "  ".to_owned().concat(format_location(locations).as_str()).as_str(),
            );
            proof {
                let items = seq![locations@];
                assert(locations_of(locations@) =~= items);
                assert(text::texts(lines@) =~= capped_rows(
                    label@ + " ("@ + text::numeral(1) + " location(s))"@,
                    location_rows(items, 1),
                    0,
                ));
            }
            join_texts(&lines, "\n")
        },
        _ => label.to_owned().concat(": no locations found"),
    }
}

// ---------------------------------------------------------------------------
// Diagnostics
// ---------------------------------------------------------------------------

pub open spec fn severity_label(severity: u64) -> Seq<char> {
    if severity == 1 {
        "error"@
    } else if severity == 2 {
        "warning"@
    } else if severity == 3 {
        "info"@
    } else {
        "hint"@
    }
}

pub fn severity_name(severity: u64) -> (r: &'static str)
    ensures
        r@ == severity_label(severity),
{
    if severity == 1 {
        "error"
    } else if severity == 2 {
        "warning"
    } else if severity == 3 {
        "info"
    } else {
        "hint"
    }
}

/// A diagnostic as text.
pub open spec fn diagnostic_row(path: Seq<char>, diagnostic: JsonModel) -> Seq<char> {
    let start = start_of(json::at(diagnostic, "range"@));
    let severity = match json::unsigned_under(diagnostic, "severity"@) {
        Some(n) => n,
        None => 3,
    };
    "  "@ + place_text(path, start.line, start.character) + " "@ + severity_label(severity) + ": "@
        + words(diagnostic, "message"@)
}

/// The diagnostics of a document as text, with the path that is shown for it.
pub open spec fn diagnostics_at(
    params: JsonModel,
    path: Seq<char>,
    label: Seq<char>,
) -> Seq<char> {
    let items = lsp_edit::items_of(json::at(params, "diagnostics"@));
    if items.len() == 0 {
        label + ": no diagnostics for "@ + path
    } else {
        text::join(
            seq![
                label + ": "@ + text::numeral(items.len()) + " diagnostic(s) for "@ + path,
            ] + Seq::new(items.len(), |i: int| diagnostic_row(path, items[i])),
            "\n"@,
        )
    }
}

/// The diagnostics of a document as text.
pub open spec fn diagnostics_text(params: JsonModel, label: Seq<char>) -> Seq<char> {
    diagnostics_at(params, shown_path(words(params, "uri"@)), label)
}

fn render_diagnostic(path: &str, diagnostic: &Json) -> (r: String)
    ensures
        r@ == diagnostic_row(path@, diagnostic@),
{
    let severity: u64 = match diagnostic.whole_at("severity") {
        Some(n) => n,
        None => 3,
    };
    let (line, character) = read_start(diagnostic.value_at("range"));
    "  ".to_owned().concat(format_place(path, line, character).as_str()).concat(" ").concat(
        severity_name(severity),
    ).concat(": ").concat(words_of(diagnostic, "message"))
}

/// The diagnostics of a document as text, with the path that is shown for it.
pub fn render_diagnostics(params: &Json, path: &str, label: &str) -> (r: String)
    ensures
        r@ == diagnostics_at(params@, path@, label@),
{
    let items = match params.list_at("diagnostics") {
        Some(items) => items,
        None => {
            return label.to_owned().concat(": no diagnostics for ").concat(path);
        },
    };
    if items.len() == 0 {
        return label.to_owned().concat(": no diagnostics for ").concat(path);
    }
    let ghost all = json::models(items@);
    let ghost rows = Seq::new(all.len(), |i: int| diagnostic_row(path@, all[i]));
    let ghost header = label@ + ": "@ + text::numeral(all.len()) + " diagnostic(s) for "@ + path@;
    let mut lines: Vec<String> = Vec::new();
    push_text(
        &mut lines,
        label.to_owned().concat(": ").concat(decimal(items.len() as u64).as_str()).concat(
            " diagnostic(s) for ",
        ).concat(path).as_str(),
    );
    assert(text::texts(lines@) =~= seq![header] + rows.take(0));
    let mut i: usize = 0;
    while i < items.len()
        invariant
            i <= items@.len(),
            all == json::models(items@),
            rows == Seq::new(all.len(), |i: int| diagnostic_row(path@, all[i])),
            text::texts(lines@) == seq![header] + rows.take(i as int),
        decreases items@.len() - i,
    {
        assert(all[i as int] == items@[i as int]@);
        push_text(&mut lines, render_diagnostic(path, &items[i]).as_str());
        i += 1;
        assert(text::texts(lines@) =~= seq![header] + rows.take(i as int));
    }
    assert(rows.take(items@.len() as int) =~= rows);
    join_texts(&lines, "\n")
}

/// The diagnostics that a server pushed for a document, as text.
pub fn format_diagnostics(params: &Json, label: &str) -> (r: String)
    ensures
        r@ == diagnostics_text(params@, label@),
{
    let path = show_path(words_of(params, "uri"));
    render_diagnostics(params, path.as_str(), label)
}

// ---------------------------------------------------------------------------
// Code actions
// ---------------------------------------------------------------------------

/// A code action as text.
pub open spec fn action_row(action: JsonModel) -> Seq<char> {
    let kind = words(action, "kind"@);
    let fixes = lsp_edit::items_of(json::at(action, "diagnostics"@)).len();
    "  - "@ + words(action, "title"@) + (if kind.len() == 0 {
        ""@
    } else {
        " ["@ + kind + "]"@
    }) + (if fixes > 0 {
        " (fixes "@ + text::numeral(fixes) + " diagnostic(s))"@
    } else {
        ""@
    })
}

/// The code actions of an answer as text.
pub open spec fn actions_text(result: JsonModel) -> Seq<char> {
    match result {
        JsonModel::List(items) => if items.len() == 0 {
            "code_actions: none available at this position"@
        } else {
            let shown = at_most(items.len(), MAX_CODE_ACTIONS as nat);
            text::join(
                capped_rows(
                    "code_actions ("@ + text::numeral(shown) + " shown):"@,
                    Seq::new(shown, |i: int| action_row(items[i])),
                    (items.len() - shown) as nat,
                ).push("  (actions are listed only; apply is deferred in this build)"@),
                "\n"@,
            )
        },
        JsonModel::Null => "code_actions: none available at this position"@,
        _ => "code_actions: unexpected server response"@,
    }
}

fn render_action(action: &Json) -> (r: String)
    ensures
        r@ == action_row(action@),
{
    let kind = words_of(action, "kind");
    let fixes: usize = match action.list_at("diagnostics") {
        Some(v) => v.len(),
        None => 0,
    };
    let kind_note = if kind.is_empty() {
        "".to_owned()
    } else {
        " [".to_owned().concat(kind).concat("]")
    };
    let fix_note = if fixes > 0 {
        " (fixes ".to_owned().concat(decimal(fixes as u64).as_str()).concat(" diagnostic(s))")
    } else {
        "".to_owned()
    };
    "  - ".to_owned().concat(words_of(action, "title")).concat(kind_note.as_str()).concat(
        fix_note.as_str(),
    )
}

/// The code actions of an answer as text, up to a cap. They are listed, not
/// applied.
pub fn format_code_actions(result: &Json) -> (r: String)
    ensures
        r@ == actions_text(result@),
{
    let items = match result {
        Json::List(items) => items,
        Json::Null => {
            return "code_actions: none available at this position".to_owned();
        },
        _ => {
            return "code_actions: unexpected server response".to_owned();
        },
    };
    proof {
        json::lemma_list_view(*items);
    }
    if items.len() == 0 {
        return "code_actions: none available at this position".to_owned();
    }
    let ghost all = json::models(items@);
    let shown: usize = if items.len() < MAX_CODE_ACTIONS {
        items.len()
    } else {
        MAX_CODE_ACTIONS
    };
    let ghost rows = Seq::new(shown as nat, |i: int| action_row(all[i]));
    let ghost header = "code_actions ("@ + text::numeral(shown as nat) + " shown):"@;
    let mut lines: Vec<String> = Vec::new();
    push_text(
        &mut lines,
        "code_actions (".to_owned().concat(decimal(shown as u64).as_str()).concat(
            " shown):",
        ).as_str(),
    );
    assert(text::texts(lines@) =~= seq![header] + rows.take(0));
    let mut i: usize = 0;
    while i < shown
        invariant
            i <= shown <= items@.len(),
            all == json::models(items@),
            rows == Seq::new(shown as nat, |i: int| action_row(all[i])),
            text::texts(lines@) == seq![header] + rows.take(i as int),
        decreases shown - i,
    {
        assert(all[i as int] == items@[i as int]@);
        push_text(&mut lines, render_action(&items[i]).as_str());
        i += 1;
        assert(text::texts(lines@) =~= seq![header] + rows.take(i as int));
    }
    assert(rows.take(shown as int) =~= rows);
    push_omitted(&mut lines, items.len() - shown);
    push_text(&mut lines, "  (actions are listed only; apply is deferred in this build)");
    join_texts(&lines, "\n")
}

} // verus!
