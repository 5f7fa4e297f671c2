//! Appending a cell to a notebook.

use crate::json;
use crate::json::{push_item, push_member, text_json, Json, JsonModel};
use crate::text;
use crate::text::{decimal, is_blank, same_text, split, to_ascii_lower};
use crate::tools::notebook;
use crate::tools::notebook::{empty_list, empty_object, read_source};
use vstd::prelude::*;
use vstd::string::*;

verus! {

/// The lines of a source. Each carries its newline, except the last; there is at
/// least one.
pub open spec fn source_lines(source: Seq<char>) -> Seq<Seq<char>> {
    let pieces = text::split_on(source, '\n');
    let full = Seq::new((pieces.len() - 1) as nat, |i: int| pieces[i].push('\n'));
    if pieces.last().len() > 0 || full.len() == 0 {
        full.push(pieces.last())
    } else {
        full
    }
}

/// Lines as JSON.
pub open spec fn line_models(lines: Seq<Seq<char>>) -> Seq<JsonModel> {
    lines.map_values(|s: Seq<char>| JsonModel::Text(s))
}

/// The source of a cell in the form in which a notebook keeps it: a list of
/// lines, each with its newline except the last.
pub fn source_to_lines(source: &str) -> (r: Json)
    ensures
        r@ == JsonModel::List(line_models(source_lines(source@))),
{
    let pieces = split(source, '\n');
    let ghost all = text::texts(pieces@);
    let ghost full = Seq::new((all.len() - 1) as nat, |i: int| all[i].push('\n'));
    proof {
        text::lemma_split_nonempty(source@, '\n');
    }
    let n: usize = pieces.len();
    let mut items: Vec<Json> = Vec::new();
    let mut i: usize = 0;
    assert(json::models(items@) =~= line_models(full.take(0)));
    while i + 1 < n
        invariant
            i + 1 <= n,
            n == pieces@.len(),
            all == text::texts(pieces@),
            full == Seq::new((all.len() - 1) as nat, |i: int| all[i].push('\n')),
            json::models(items@) == line_models(full.take(i as int)),
        decreases n - i,
    {
        let mut line = pieces[i].clone();
        line.push('\n');
        assert(all[i as int] == pieces@[i as int]@);
        push_item(&mut items, Json::Text(line));
        i += 1;
        assert(json::models(items@) =~= line_models(full.take(i as int)));
    }
    assert(full.take(n - 1) =~= full);
    assert(all[n - 1] == pieces@[n - 1]@);
    let last = pieces[n - 1].as_str();
    if !last.is_empty() || n == 1 {
        push_item(&mut items, text_json(last));
        assert(json::models(items@) =~= line_models(full.push(all.last())));
    }
    proof {
        json::lemma_list_view(items);
    }
    Json::List(items)
}

proof fn lemma_all_text(lines: Seq<Seq<char>>, pieces: Seq<Seq<char>>)
    requires
        lines.len() <= pieces.len(),
        forall|i: int| 0 <= i < lines.len() ==> #[trigger] lines[i] == pieces[i].push('\n'),
    ensures
        notebook::all_text(line_models(lines)) == (if lines.len() == 0 {
            Seq::empty()
        } else {
            text::join(pieces.take(lines.len() as int), seq!['\n']).push('\n')
        }),
    decreases lines.len(),
{
    if lines.len() > 0 {
        let front = lines.drop_last();
        let n = lines.len() as int;
        lemma_all_text(front, pieces);
        assert(line_models(lines).drop_last() =~= line_models(front));
        let before = pieces.take(n - 1);
        assert(pieces.take(n) =~= before.push(pieces[n - 1]));
        if front.len() > 0 {
            text::lemma_join_push(before, pieces[n - 1], seq!['\n']);
        } else {
            assert(before =~= Seq::<Seq<char>>::empty());
            assert(text::join(pieces.take(n), seq!['\n']) == pieces[n - 1]);
        }
        assert(lines[n - 1] == pieces[n - 1].push('\n'));
        assert(notebook::all_text(line_models(lines)) =~= text::join(
            pieces.take(n),
            seq!['\n'],
        ).push('\n'));
    }
}

/// Reading the source of a cell gives back what was kept as lines.
pub proof fn law_source_is_read_back(source: Seq<char>)
    ensures
        notebook::source_text(Some(JsonModel::List(line_models(source_lines(source))))) == source,
{
    let pieces = text::split_on(source, '\n');
    text::lemma_split_nonempty(source, '\n');
    text::lemma_join_split(source, '\n');
    let full = Seq::new((pieces.len() - 1) as nat, |i: int| pieces[i].push('\n'));
    lemma_all_text(full, pieces);
    let before = pieces.drop_last();
    assert(pieces.take(full.len() as int) =~= before);
    assert(pieces =~= before.push(pieces.last()));
    if full.len() > 0 {
        text::lemma_join_push(before, pieces.last(), seq!['\n']);
    } else {
        assert(text::join(pieces, seq!['\n']) == pieces.last());
    }
    let lines = source_lines(source);
    if pieces.last().len() > 0 || full.len() == 0 {
        assert(line_models(lines).drop_last() =~= line_models(full));
        assert(notebook::all_text(line_models(lines)) =~= source);
    } else {
        assert(notebook::all_text(line_models(lines)) =~= source);
    }
}

/// A cell that is to be appended.
#[derive(Debug, PartialEq, Eq)]
pub struct NewCell {
    pub cell_type: String,
    pub source: String,
}

/// Whether a cell can have this type.
pub open spec fn known_type(cell_type: Seq<char>) -> bool {
    cell_type == "markdown"@ || cell_type == "code"@ || cell_type == "raw"@
}

/// The type of a cell that is asked for; a cell without one is markdown.
pub open spec fn asked_type(cell_type: Seq<char>) -> Seq<char> {
    if cell_type.len() == 0 {
        "markdown"@
    } else {
        text::ascii_lower(cell_type)
    }
}

/// Why a cell cannot be appended.
pub open spec fn edit_refusal(cell_type: Seq<char>, source: Seq<char>) -> Option<Seq<char>> {
    let cell_type = asked_type(cell_type);
    if !known_type(cell_type) {
        Some(
            "notebook edit `cell_type` must be markdown, code, or raw (got `"@ + cell_type + "`)"@,
        )
    } else if text::blank(source) {
        Some("notebook edit requires non-empty `source`"@)
    } else {
        None
    }
}

/// Checks a cell before the notebook is read. An empty type stands for markdown.
pub fn check_edit(cell_type: &str, source: Option<&Json>) -> (r: Result<NewCell, String>)
    ensures
        ({
            let text = notebook::source_text(
                match source {
                    Some(v) => Some(v@),
                    None => None,
                },
            );
            match r {
                Ok(cell) => edit_refusal(cell_type@, text) is None && cell.cell_type@
                    == asked_type(cell_type@) && cell.source@ == text,
                Err(e) => edit_refusal(cell_type@, text) == Some(e@),
            }
        }),
{
    let cell_type = if cell_type.is_empty() {
        "markdown".to_owned()
    } else {
        to_ascii_lower(cell_type)
    };
    let source = read_source(source);
    if !same_text(cell_type.as_str(), "markdown") && !same_text(cell_type.as_str(), "code")
        && !same_text(cell_type.as_str(), "raw") {
        return Err(
            "notebook edit `cell_type` must be markdown, code, or raw (got `".to_owned().concat(
                cell_type.as_str(),
            ).concat("`)"),
        );
    }
    if is_blank(source.as_str()) {
        return Err("notebook edit requires non-empty `source`".to_owned());
    }
    Ok(NewCell { cell_type, source })
}

/// A cell as it is appended. Only a code cell has outputs.
pub open spec fn cell_model(cell_type: Seq<char>, source: Seq<char>) -> JsonModel {
    let common = seq![
        ("cell_type"@, JsonModel::Text(cell_type)),
        ("metadata"@, JsonModel::Object(Seq::empty())),
        ("source"@, JsonModel::List(line_models(source_lines(source)))),
    ];
    JsonModel::Object(
        if cell_type == "code"@ {
            common.push(("outputs"@, JsonModel::List(Seq::empty()))).push(
                ("execution_count"@, JsonModel::Null),
            )
        } else {
            common
        },
    )
}

fn cell_json(cell: &NewCell) -> (r: Json)
    ensures
        r@ == cell_model(cell.cell_type@, cell.source@),
{
    let mut members: Vec<(String, Json)> = Vec::new();
    assert(json::member_models(members@) =~= Seq::<(Seq<char>, JsonModel)>::empty());
    push_member(&mut members, "cell_type", text_json(cell.cell_type.as_str()));
    push_member(&mut members, "metadata", empty_object());
    push_member(&mut members, "source", source_to_lines(cell.source.as_str()));
    if same_text(cell.cell_type.as_str(), "code") {
        push_member(&mut members, "outputs", empty_list());
        push_member(&mut members, "execution_count", Json::Null);
    }
    proof {
        json::lemma_object_view(members);
        assert(json::member_models(members@) =~= cell_model(
            cell.cell_type@,
            cell.source@,
        )->Object_0);
    }
    Json::Object(members)
}

/// The document with a cell behind its cells.
pub open spec fn appended(doc: JsonModel, cell: JsonModel) -> JsonModel {
    json::with_field(
        doc,
        "cells"@,
        JsonModel::List(notebook::cells_of(doc)->0.push(cell)),
    )
}

/// Appends a cell to a notebook. The rest of the document stays as it is. Gives
/// what is reported.
pub fn run_notebook_edit(path: &str, doc: &mut Json, cell: &NewCell) -> (r: Result<String, String>)
    ensures
        match notebook::cells_of(old(doc)@) {
            Some(cells) => {
                &&& final(doc)@ == appended(
                    old(doc)@,
                    cell_model(cell.cell_type@, cell.source@),
                )
                &&& r matches Ok(s) && s@ == "appended "@ + cell.cell_type@ + " cell to "@ + path@
                    + " (now "@ + text::numeral(cells.len() + 1) + " cells)"@
            },
            None => final(doc)@ == old(doc)@ && (r matches Err(e) && e@
                == "notebook has no cells"@),
        },
{
    let n: usize = match doc.list_at("cells") {
        Some(cells) => cells.len(),
        None => {
            return Err("notebook has no cells".to_owned());
        },
    };
    let ghost cells = notebook::cells_of(doc@)->0;
    let value = cell_json(cell);
    let ghost model = value@;
    let mut at: usize = 0;
    let mut count: usize = n;
    if let Json::Object(members) = doc {
        proof {
            json::lemma_object_view(*members);
        }
        let ghost before = json::member_models(members@);
        at = json::member_index(members, "cells");
        proof {
            json::lemma_first_key(before, "cells"@, JsonModel::Null, at as int);
        }
        if let Json::List(items) = &mut members[at].1 {
            proof {
                json::lemma_list_view(*items);
            }
            push_item(items, value);
            assert(json::models(items@) == cells.push(model));
            count = items.len();
            assert(count == json::models(items@).len());
        }
    }
    proof {
        let before = (*old(doc))->Object_0;
        let after = (*doc)->Object_0;
        json::lemma_object_view(before);
        json::lemma_object_view(after);
        json::lemma_list_view(before@[at as int].1->List_0);
        json::lemma_list_view(after@[at as int].1->List_0);
        json::lemma_first_key(
            json::member_models(before@),
            "cells"@,
            JsonModel::List(cells.push(model)),
            at as int,
        );
        assert(json::member_models(after@) =~= json::member_models(before@).update(
            at as int,
            ("cells"@, JsonModel::List(cells.push(model))),
        ));
        assert(doc@ == appended(old(doc)@, model));
        assert(count == cells.len() + 1);
    }
    Ok(
        "appended ".to_owned().concat(cell.cell_type.as_str()).concat(" cell to ").concat(
            path,
        ).concat(" (now ").concat(decimal(count as u64).as_str()).concat(" cells)"),
    )
}

/// Appending a cell keeps every other field of the document and every cell, and
/// the source of the new cell reads as it was given.
pub proof fn law_append_keeps_everything_else(
    doc: JsonModel,
    cell_type: Seq<char>,
    source: Seq<char>,
    key: Seq<char>,
)
    requires
        notebook::cells_of(doc) is Some,
    ensures
        ({
            let cells = notebook::cells_of(doc)->0;
            let after = appended(doc, cell_model(cell_type, source));
            &&& key != "cells"@ ==> json::at(after, key) == json::at(doc, key)
            &&& notebook::cells_of(after) == Some(cells.push(cell_model(cell_type, source)))
            &&& notebook::cell_kind(cell_model(cell_type, source)) == cell_type
            &&& notebook::source_of(cell_model(cell_type, source)) == source
        }),
{
    let cells = notebook::cells_of(doc)->0;
    let cell = cell_model(cell_type, source);
    json::law_set_is_read_back(doc, "cells"@, JsonModel::List(cells.push(cell)), key);
    law_source_is_read_back(source);
    let members = cell->Object_0;
    reveal_strlit("cell_type");
    reveal_strlit("metadata");
    reveal_strlit("source");
    assert("cell_type"@.len() == 9 && "metadata"@.len() == 8 && "source"@.len() == 6);
    assert(json::first_key(members, "cell_type"@, 0));
    json::lemma_first_key(members, "cell_type"@, JsonModel::Null, 0);
    assert(json::first_key(members, "source"@, 2));
    json::lemma_first_key(members, "source"@, JsonModel::Null, 2);
}

} // verus!
