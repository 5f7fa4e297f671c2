//! The symbols that a language server answers with, as text.

use crate::json;
use crate::json::{Json, JsonModel};
use crate::text;
use crate::text::{decimal, push_text};
use crate::tools::lsp_format;
use crate::tools::lsp_format::{format_location, words_of, MAX_SYMBOLS};
use vstd::prelude::*;
use vstd::string::*;

verus! {

/// What kind of symbol a number stands for.
pub open spec fn kind_label(kind: u64) -> Seq<char> {
    match kind {
        1 => "File"@,
        2 => "Module"@,
        3 => "Namespace"@,
        4 => "Package"@,
        5 => "Class"@,
        6 => "Method"@,
        7 => "Property"@,
        8 => "Field"@,
        9 => "Constructor"@,
        10 => "Enum"@,
        11 => "Interface"@,
        12 => "Function"@,
        13 => "Variable"@,
        14 => "Constant"@,
        15 => "String"@,
        16 => "Number"@,
        17 => "Boolean"@,
        18 => "Array"@,
        19 => "Object"@,
        20 => "Key"@,
        21 => "Null"@,
        22 => "EnumMember"@,
        23 => "Struct"@,
        24 => "Event"@,
        25 => "Operator"@,
        26 => "TypeParameter"@,
        _ => "Symbol"@,
    }
}

/// What kind of symbol a number stands for.
pub fn symbol_kind_name(kind: u64) -> (r: &'static str)
    ensures
        r@ == kind_label(kind),
{
    match kind {
        1 => "File",
        2 => "Module",
        3 => "Namespace",
        4 => "Package",
        5 => "Class",
        6 => "Method",
        7 => "Property",
        8 => "Field",
        9 => "Constructor",
        10 => "Enum",
        11 => "Interface",
        12 => "Function",
        13 => "Variable",
        14 => "Constant",
        15 => "String",
        16 => "Number",
        17 => "Boolean",
        18 => "Array",
        19 => "Object",
        20 => "Key",
        21 => "Null",
        22 => "EnumMember",
        23 => "Struct",
        24 => "Event",
        25 => "Operator",
        26 => "TypeParameter",
        _ => "Symbol",
    }
}

/// The kind of a symbol.
pub open spec fn symbol_kind(item: JsonModel) -> u64 {
    match json::unsigned_under(item, "kind"@) {
        Some(n) => n,
        None => 0,
    }
}

/// Two spaces for each level.
pub open spec fn indent(depth: nat) -> Seq<char> {
    Seq::new(2 * depth, |i: int| ' ')
}

/// A symbol of a tree as a line.
pub open spec fn tree_line(item: JsonModel, depth: nat) -> Seq<char> {
    let detail = lsp_format::words(item, "detail"@);
    indent(depth) + lsp_format::words(item, "name"@) + " ("@ + kind_label(symbol_kind(item))
        + ")"@ + (if detail.len() == 0 {
        ""@
    } else {
        " — "@ + detail
    }) + "\n"@
}

/// The symbols below a symbol.
pub open spec fn children_of(item: JsonModel) -> Seq<JsonModel> {
    match json::list_under(item, "children"@) {
        Some(items) => items,
        None => Seq::empty(),
    }
}

proof fn lemma_value_is_smaller(members: Seq<(Seq<char>, JsonModel)>, key: Seq<char>) -> (i: int)
    requires
        json::value_of(members, key) is Some,
    ensures
        0 <= i < members.len(),
        json::value_of(members, key) == Some(members[i].1),
    decreases members.len(),
{
    if members[0].0 == key {
        0
    } else {
        let i = lemma_value_is_smaller(members.skip(1), key);
        i + 1
    }
}

/// The symbols below a symbol are a part of it.
pub proof fn lemma_children_are_smaller(item: JsonModel)
    requires
        json::list_under(item, "children"@) is Some,
    ensures
        decreases_to!(item => children_of(item)),
{
    let members = item->Object_0;
    let i = lemma_value_is_smaller(members, "children"@);
    assert(decreases_to!(item => members));
    assert(decreases_to!(members => members[i]));
    assert(decreases_to!(members[i] => members[i].1));
    assert(decreases_to!(members[i].1 => members[i].1->List_0));
}

/// The lines with those of a symbol and of the symbols below it, until there are
/// as many as are shown.
pub open spec fn tree(item: JsonModel, depth: nat, lines: Seq<Seq<char>>) -> Seq<Seq<char>>
    decreases item, 0nat,
{
    if lines.len() >= MAX_SYMBOLS {
        lines
    } else {
        let next = lines.push(tree_line(item, depth));
        match json::list_under(item, "children"@) {
            Some(items) => {
                proof {
                    lemma_children_are_smaller(item);
                }
                forest(items, items.len(), depth + 1, next)
            },
            None => next,
        }
    }
}

/// The lines with those of the first `n` symbols and of the symbols below them.
pub open spec fn forest(
    items: Seq<JsonModel>,
    n: nat,
    depth: nat,
    lines: Seq<Seq<char>>,
) -> Seq<Seq<char>>
    decreases items, n,
{
    if n == 0 || n > items.len() {
        lines
    } else {
        tree(items[n - 1], depth, forest(items, (n - 1) as nat, depth, lines))
    }
}

/// A symbol of a flat list as a line.
pub open spec fn flat_line(item: JsonModel) -> Seq<char> {
    let container = lsp_format::words(item, "containerName"@);
    let location = match json::at(item, "location"@) {
        Some(v) => v,
        None => JsonModel::Object(Seq::empty()),
    };
    "  "@ + lsp_format::words(item, "name"@) + " — "@ + kind_label(symbol_kind(item)) + " — "@
        + lsp_format::location_text(location) + (if container.len() == 0 {
        ""@
    } else {
        " (in "@ + container + ")"@
    }) + "\n"@
}

/// Whether the symbols form a tree.
pub open spec fn nested(items: Seq<JsonModel>) -> bool {
    exists|i: int|
        0 <= i < items.len() && json::at(#[trigger] items[i], "selectionRange"@) is Some
}

/// The lines that show symbols.
pub open spec fn symbol_lines(items: Seq<JsonModel>) -> Seq<Seq<char>> {
    if nested(items) {
        forest(items, items.len(), 0, Seq::empty())
    } else {
        Seq::new(
            lsp_format::at_most(items.len(), MAX_SYMBOLS as nat),
            |i: int| flat_line(items[i]),
        )
    }
}

/// Lines one behind the other.
pub open spec fn run_on(lines: Seq<Seq<char>>) -> Seq<char>
    decreases lines.len(),
{
    if lines.len() == 0 {
        Seq::empty()
    } else {
        run_on(lines.drop_last()) + lines.last()
    }
}

/// The symbols of an answer as text.
pub open spec fn symbols_text(result: JsonModel) -> Seq<char> {
    match result {
        JsonModel::List(items) => {
            let lines = symbol_lines(items);
            if lines.len() == 0 {
                "symbols: none found"@
            } else {
                "symbols ("@ + text::numeral(lines.len()) + " shown):\n"@ + (run_on(lines) + (
                if lines.len() >= MAX_SYMBOLS {
                    "  ... symbol limit (200) reached\n"@
                } else {
                    ""@
                }))
            }
        },
        JsonModel::Null => "symbols: none found"@,
        _ => "symbols: unexpected server response"@,
    }
}

fn kind_of(item: &Json) -> (r: u64)
    ensures
        r == symbol_kind(item@),
{
    match item.whole_at("kind") {
        Some(n) => n,
        None => 0,
    }
}

fn render_indent(depth: usize) -> (r: String)
    ensures
        r@ == indent(depth as nat),
{
    let mut r = String::new();
    let mut i: usize = 0;
    assert(r@ =~= indent(0));
    while i < depth
        invariant
            i <= depth,
            r@ == indent(i as nat),
        decreases depth - i,
    {
        r.push(' ');
        r.push(' ');
        i += 1;
        assert(r@ =~= indent(i as nat));
    }
    r
}

fn render_tree_line(item: &Json, depth: usize) -> (r: String)
    ensures
        r@ == tree_line(item@, depth as nat),
{
    let detail = words_of(item, "detail");
    let note = if detail.is_empty() {
        "".to_owned()
    } else {
        " — ".to_owned().concat(detail)
    };
    render_indent(depth).concat(words_of(item, "name")).concat(" (").concat(
        symbol_kind_name(kind_of(item)),
    ).concat(")").concat(note.as_str()).concat("\n")
}

fn render_flat_line(item: &Json) -> (r: String)
    ensures
        r@ == flat_line(item@),
{
    let container = words_of(item, "containerName");
    let note = if container.is_empty() {
        "".to_owned()
    } else {
        " (in ".to_owned().concat(container).concat(")")
    };
    let at = match item.value_at("location") {
        Some(location) => format_location(location),
        None => {
            let members: Vec<(String, Json)> = Vec::new();
            proof {
                json::lemma_object_view(members);
                assert(json::member_models(members@) =~= Seq::<(Seq<char>, JsonModel)>::empty());
            }
            format_location(&Json::Object(members))
        },
    };
    "  ".to_owned().concat(words_of(item, "name")).concat(" — ").concat(
        symbol_kind_name(kind_of(item)),
    ).concat(" — ").concat(at.as_str()).concat(note.as_str()).concat("\n")
}

/// Adds the lines of a symbol and of the symbols below it.
fn push_symbol_tree(item: &Json, depth: usize, lines: &mut Vec<String>)
    requires
        depth <= old(lines)@.len(),
    ensures
        text::texts(final(lines)@) == tree(item@, depth as nat, text::texts(old(lines)@)),
        final(lines)@.len() >= old(lines)@.len(),
    decreases item@,
{
    if lines.len() >= MAX_SYMBOLS {
        return;
    }
    push_text(lines, render_tree_line(item, depth).as_str());
    if let Some(items) = item.list_at("children") {
        let ghost all = json::models(items@);
        let ghost start = text::texts(lines@);
        proof {
            lemma_children_are_smaller(item@);
        }
        let mut i: usize = 0;
        while i < items.len()
            invariant
                i <= items@.len(),
                all == json::models(items@),
                all == children_of(item@),
                decreases_to!(item@ => all),
                depth + 1 <= lines@.len(),
                depth < MAX_SYMBOLS,
                old(lines)@.len() < lines@.len(),
                text::texts(lines@) == forest(all, i as nat, depth as nat + 1, start),
            decreases items@.len() - i,
        {
            assert(all[i as int] == items@[i as int]@);
            assert(decreases_to!(all => all[i as int]));
            push_symbol_tree(&items[i], depth + 1, lines);
            i += 1;
        }
    }
}

fn has_tree(items: &Vec<Json>) -> (r: bool)
    ensures
        r == nested(json::models(items@)),
{
    let ghost all = json::models(items@);
    let mut i: usize = 0;
    while i < items.len()
        invariant
            i <= items@.len(),
            all == json::models(items@),
            forall|j: int|
                0 <= j < i ==> json::at(#[trigger] all[j], "selectionRange"@) is None,
        decreases items@.len() - i,
    {
        assert(all[i as int] == items@[i as int]@);
        if let Some(_) = items[i].value_at("selectionRange") {
            return true;
        }
        i += 1;
    }
    false
}

/// The symbols of an answer as text: a tree with a line for each symbol, or a
/// flat list with places, up to a cap.
pub fn format_symbols(result: &Json) -> (r: String)
    ensures
        r@ == symbols_text(result@),
{
    let items = match result {
        Json::List(items) => items,
        Json::Null => {
            return "symbols: none found".to_owned();
        },
        _ => {
            return "symbols: unexpected server response".to_owned();
        },
    };
    proof {
        json::lemma_list_view(*items);
    }
    let ghost all = json::models(items@);
    let mut lines: Vec<String> = Vec::new();
    let mut i: usize = 0;
    assert(text::texts(lines@) =~= Seq::<Seq<char>>::empty());
    if has_tree(items) {
        while i < items.len()
            invariant
                i <= items@.len(),
                all == json::models(items@),
                text::texts(lines@) == forest(all, i as nat, 0, Seq::empty()),
            decreases items@.len() - i,
        {
            assert(all[i as int] == items@[i as int]@);
            push_symbol_tree(&items[i], 0, &mut lines);
            i += 1;
        }
    } else {
        let shown: usize = if items.len() < MAX_SYMBOLS {
            items.len()
        } else {
            MAX_SYMBOLS
        };
        let ghost rows = Seq::new(shown as nat, |i: int| flat_line(all[i]));
        assert(text::texts(lines@) =~= rows.take(0));
        while i < shown
            invariant
                i <= shown <= items@.len(),
                all == json::models(items@),
                rows == Seq::new(shown as nat, |i: int| flat_line(all[i])),
                text::texts(lines@) == rows.take(i as int),
            decreases shown - i,
        {
            assert(all[i as int] == items@[i as int]@);
            push_text(&mut lines, render_flat_line(&items[i]).as_str());
            i += 1;
            assert(text::texts(lines@) =~= rows.take(i as int));
        }
        assert(rows.take(shown as int) =~= rows);
    }
    let ghost shown_lines = text::texts(lines@);
    assert(shown_lines == symbol_lines(all));
    if lines.len() == 0 {
        return "symbols: none found".to_owned();
    }
    let mut out = String::new();
    let mut k: usize = 0;
    assert(shown_lines.take(0) =~= Seq::<Seq<char>>::empty());
    assert(out@ =~= run_on(shown_lines.take(0)));
    while k < lines.len()
        invariant
            k <= lines@.len(),
            shown_lines == text::texts(lines@),
            out@ == run_on(shown_lines.take(k as int)),
        decreases lines@.len() - k,
    {
        assert(shown_lines.take(k + 1).drop_last() =~= shown_lines.take(k as int));
        assert(shown_lines[k as int] == lines@[k as int]@);
        out = out.concat(lines[k].as_str());
        k += 1;
    }
    assert(shown_lines.take(lines@.len() as int) =~= shown_lines);
    let note = if lines.len() >= MAX_SYMBOLS {
        "  ... symbol limit (200) reached\n"
    } else {
        ""
    };
    "symbols (".to_owned().concat(decimal(lines.len() as u64).as_str()).concat(
        " shown):\n",
    ).concat(out.concat(note).as_str())
}

proof fn lemma_tree_is_capped(item: JsonModel, depth: nat, lines: Seq<Seq<char>>)
    requires
        lines.len() <= MAX_SYMBOLS,
    ensures
        tree(item, depth, lines).len() <= MAX_SYMBOLS,
    decreases item, 0nat,
{
    if lines.len() < MAX_SYMBOLS && json::list_under(item, "children"@) is Some {
        lemma_children_are_smaller(item);
        let items = children_of(item);
        lemma_forest_is_capped(
            items,
            items.len(),
            depth + 1,
            lines.push(tree_line(item, depth)),
        );
    }
}

proof fn lemma_forest_is_capped(
    items: Seq<JsonModel>,
    n: nat,
    depth: nat,
    lines: Seq<Seq<char>>,
)
    requires
        lines.len() <= MAX_SYMBOLS,
    ensures
        forest(items, n, depth, lines).len() <= MAX_SYMBOLS,
    decreases items, n,
{
    if n > 0 && n <= items.len() {
        lemma_forest_is_capped(items, (n - 1) as nat, depth, lines);
        lemma_tree_is_capped(
            items[n - 1],
            depth,
            forest(items, (n - 1) as nat, depth, lines),
        );
    }
}

/// No more symbols are shown than the cap allows, however deep they lie.
pub proof fn law_symbols_are_capped(items: Seq<JsonModel>)
    ensures
        symbol_lines(items).len() <= MAX_SYMBOLS,
{
    lemma_forest_is_capped(items, items.len(), 0, Seq::empty());
}

} // verus!
