//! Applying the edits that a language server answers a rename with.

use crate::json;
use crate::json::{Json, JsonModel};
use crate::sort;
use crate::sort::{stable_sort, Rank, Ranked};
use crate::text;
use crate::text::{char_width, chars_of, decimal, join_texts, push_text, text_between};
use crate::tools::lsp_client;
use crate::tools::lsp_client::uri_to_path;
use crate::truncate;
use vstd::prelude::*;
use vstd::string::*;

verus! {

// ---------------------------------------------------------------------------
// Positions
// ---------------------------------------------------------------------------

/// Where the line behind the next newline starts.
pub open spec fn next_line(s: Seq<char>, from: int) -> Option<int>
    decreases s.len() - from,
{
    if from >= s.len() || from < 0 {
        None
    } else if s[from] == '\n' {
        Some(from + 1)
    } else {
        next_line(s, from + 1)
    }
}

/// Where a line starts, counted from zero.
pub open spec fn line_start(s: Seq<char>, line: nat) -> Option<int>
    decreases line,
{
    if line == 0 {
        Some(0)
    } else {
        match line_start(s, (line - 1) as nat) {
            Some(at) => next_line(s, at),
            None => None,
        }
    }
}

/// Where one arrives from `from` on within a line after at most `units` more
/// UTF-16 code units.
pub open spec fn column(s: Seq<char>, from: int, units: int) -> int
    decreases s.len() - from,
{
    if from >= s.len() || from < 0 || s[from] == '\n' || units <= 0 || truncate::units(s[from])
        > units {
        from
    } else {
        column(s, from + 1, units - truncate::units(s[from]))
    }
}

/// The place of a position, as a number of characters. A place behind the end of
/// its line is the end of the line; one behind the last line is the end.
pub open spec fn place(s: Seq<char>, line: nat, character: nat) -> int {
    match line_start(s, line) {
        Some(at) => column(s, at, character as int),
        None => s.len() as int,
    }
}

/// The start of the next line lies behind, within the text.
pub proof fn lemma_next_line(s: Seq<char>, from: int)
    requires
        0 <= from,
    ensures
        next_line(s, from) matches Some(at) ==> from < at <= s.len(),
    decreases s.len() - from,
{
    if from < s.len() && s[from] != '\n' {
        lemma_next_line(s, from + 1);
    }
}

/// A line starts within the text.
pub proof fn lemma_line_start(s: Seq<char>, line: nat)
    ensures
        line_start(s, line) matches Some(at) ==> 0 <= at <= s.len(),
    decreases line,
{
    if line > 0 {
        lemma_line_start(s, (line - 1) as nat);
        match line_start(s, (line - 1) as nat) {
            Some(at) => {
                lemma_next_line(s, at);
            },
            None => {},
        }
    }
}

/// A column lies behind the start of its line, within the text.
pub proof fn lemma_column(s: Seq<char>, from: int, units: int)
    requires
        0 <= from <= s.len(),
    ensures
        from <= column(s, from, units) <= s.len(),
    decreases s.len() - from,
{
    if from < s.len() && s[from] != '\n' && units > 0 && truncate::units(s[from]) <= units {
        lemma_column(s, from + 1, units - truncate::units(s[from]));
    }
}

/// A place lies in the text.
pub proof fn law_place_is_inside(s: Seq<char>, line: nat, character: nat)
    ensures
        0 <= place(s, line, character) <= s.len(),
{
    lemma_line_start(s, line);
    match line_start(s, line) {
        Some(at) => {
            lemma_column(s, at, character as int);
        },
        None => {},
    }
}

fn find_place(chars: &Vec<char>, line: u64, character: u64) -> (r: usize)
    ensures
        r == place(chars@, line as nat, character as nat),
        r <= chars@.len(),
{
    proof {
        law_place_is_inside(chars@, line as nat, character as nat);
    }
    let n: usize = chars.len();
    let mut at: usize = 0;
    let mut current: u64 = 0;
    let ghost s = chars@;
    while current < line
        invariant
            n == chars@.len(),
            s == chars@,
            at <= n,
            current <= line,
            line_start(s, current as nat) == Some(at as int),
            0 <= place(s, line as nat, character as nat) <= s.len(),
        decreases line - current,
    {
        let mut i: usize = at;
        while i < n && chars[i] != '\n'
            invariant
                n == chars@.len(),
                s == chars@,
                at <= i <= n,
                next_line(s, at as int) == next_line(s, i as int),
            decreases n - i,
        {
            i += 1;
        }
        if i >= n {
            proof {
                assert(line_start(s, (current + 1) as nat) is None);
                lemma_no_later_line(s, (current + 1) as nat, line as nat);
            }
            return n;
        }
        at = i + 1;
        current = current + 1;
    }
    let mut left: u64 = character;
    let ghost start = at as int;
    while at < n && chars[at] != '\n' && left > 0 && units_of(chars[at]) <= left
        invariant
            n == chars@.len(),
            s == chars@,
            at <= n,
            column(s, start, character as int) == column(s, at as int, left as int),
            place(s, line as nat, character as nat) == column(s, start, character as int),
        decreases n - at,
    {
        left = left - units_of(chars[at]);
        at = at + 1;
    }
    at
}

/// Behind a line that is missing no line exists.
pub proof fn lemma_no_later_line(s: Seq<char>, line: nat, later: nat)
    requires
        line <= later,
        line_start(s, line) is None,
    ensures
        line_start(s, later) is None,
    decreases later - line,
{
    if line < later {
        lemma_no_later_line(s, line, (later - 1) as nat);
    }
}

fn units_of(c: char) -> (n: u64)
    ensures
        n == truncate::units(c),
        1 <= n <= 2,
{
    if c as u32 >= 0x10000 {
        2
    } else {
        1
    }
}

fn bytes_before(chars: &Vec<char>, at: usize) -> (n: usize)
    requires
        at <= chars@.len(),
        text::byte_len(chars@) <= usize::MAX,
    ensures
        n == text::byte_len(chars@.take(at as int)),
{
    let mut n: usize = 0;
    let mut i: usize = 0;
    assert(chars@.take(0) =~= Seq::<char>::empty());
    while i < at
        invariant
            i <= at <= chars@.len(),
            n == text::byte_len(chars@.take(i as int)),
            text::byte_len(chars@) <= usize::MAX,
        decreases at - i,
    {
        proof {
            let next = chars@.take(i + 1);
            assert(next =~= chars@.take(i as int).push(chars@[i as int]));
            text::lemma_byte_len_push(chars@.take(i as int), chars@[i as int]);
            assert(chars@ =~= next + chars@.skip(i + 1));
            text::lemma_byte_len_add(next, chars@.skip(i + 1));
        }
        n += char_width(chars[i]);
        i += 1;
    }
    n
}

/// The place of a position in bytes: a line counted from zero, and UTF-16 code
/// units within it. A position behind the end is the end.
pub fn position_to_byte_offset(s: &str, line: u32, character: u32) -> (r: usize)
    ensures
        r == text::byte_len(s@.take(place(s@, line as nat, character as nat))),
{
    let chars = chars_of(s);
    let total: usize = text::byte_count(s);
    let at: usize = find_place(&chars, line as u64, character as u64);
    bytes_before(&chars, at)
}

// ---------------------------------------------------------------------------
// Ranges
// ---------------------------------------------------------------------------

/// A position of an edit, as the server gives it.
#[derive(Clone, Copy, Debug, PartialEq, Eq, Structural)]
pub struct EditPosition {
    pub line: u64,
    pub character: u64,
}

/// A number under a key, or zero.
pub open spec fn number_under(v: JsonModel, key: Seq<char>) -> u64 {
    match json::unsigned_under(v, key) {
        Some(n) => n,
        None => 0,
    }
}

/// A position as the server gives it. What it leaves out is zero.
pub open spec fn position_of(v: JsonModel) -> EditPosition {
    EditPosition {
        line: number_under(v, "line"@),
        character: number_under(v, "character"@),
    }
}

fn number_at(v: &Json, key: &str) -> (r: u64)
    ensures
        r == number_under(v@, key@),
{
    match v.whole_at(key) {
        Some(n) => n,
        None => 0,
    }
}

fn read_position(v: &Json) -> (r: EditPosition)
    ensures
        r == position_of(v@),
{
    EditPosition { line: number_at(v, "line"), character: number_at(v, "character") }
}

/// The places of a range, in characters. It ends where it starts or behind.
pub open spec fn span(s: Seq<char>, start: EditPosition, end: EditPosition) -> (int, int) {
    let a = place(s, start.line as nat, start.character as nat);
    let b = place(s, end.line as nat, end.character as nat);
    (
        a,
        if b < a {
            a
        } else {
            b
        },
    )
}

/// The positions of a range, or what it lacks.
pub open spec fn range_of(range: JsonModel) -> Result<(EditPosition, EditPosition), Seq<char>> {
    match (json::at(range, "start"@), json::at(range, "end"@)) {
        (None, _) => Err("text edit range missing start"@),
        (_, None) => Err("text edit range missing end"@),
        (Some(start), Some(end)) => Ok((position_of(start), position_of(end))),
    }
}

fn read_range(range: &Json) -> (r: Result<(EditPosition, EditPosition), String>)
    ensures
        match r {
            Ok(v) => range_of(range@) == Ok::<(EditPosition, EditPosition), Seq<char>>(v),
            Err(e) => range_of(range@) == Err::<(EditPosition, EditPosition), Seq<char>>(e@),
        },
{
    let start = match range.value_at("start") {
        Some(v) => read_position(v),
        None => {
            return Err("text edit range missing start".to_owned());
        },
    };
    let end = match range.value_at("end") {
        Some(v) => read_position(v),
        None => {
            return Err("text edit range missing end".to_owned());
        },
    };
    Ok((start, end))
}

fn find_span(chars: &Vec<char>, start: EditPosition, end: EditPosition) -> (r: (usize, usize))
    ensures
        (r.0 as int, r.1 as int) == span(chars@, start, end),
        r.0 <= r.1 <= chars@.len(),
{
    let a: usize = find_place(chars, start.line, start.character);
    let b: usize = find_place(chars, end.line, end.character);
    if b < a {
        (a, a)
    } else {
        (a, b)
    }
}

/// The places of a range in bytes.
pub fn range_to_byte_offsets(s: &str, range: &Json) -> (r: Result<(usize, usize), String>)
    ensures
        match (range_of(range@), r) {
            (Ok((start, end)), Ok((a, b))) => {
                let (x, y) = span(s@, start, end);
                a == text::byte_len(s@.take(x)) && b == text::byte_len(s@.take(y)) && a <= b
            },
            (Err(e), Err(m)) => e == m@,
            _ => false,
        },
{
    match read_range(range) {
        Ok((start, end)) => {
            let chars = chars_of(s);
            let total: usize = text::byte_count(s);
            let (a, b) = find_span(&chars, start, end);
            proof {
                let front = s@.take(b as int);
                assert(front =~= s@.take(a as int) + s@.subrange(a as int, b as int));
                text::lemma_byte_len_add(s@.take(a as int), s@.subrange(a as int, b as int));
            }
            Ok((bytes_before(&chars, a), bytes_before(&chars, b)))
        },
        Err(e) => Err(e),
    }
}

// ---------------------------------------------------------------------------
// Text edits
// ---------------------------------------------------------------------------

/// An edit of a text.
pub struct TextEdit {
    /// Where the edit starts, for the order in which edits are applied.
    pub key: EditPosition,
    /// The range, or what it lacks.
    pub range: Result<(EditPosition, EditPosition), String>,
    pub new_text: String,
}

/// The model of an edit.
#[verifier::ext_equal]
pub struct EditModel {
    pub key: EditPosition,
    pub range: Result<(EditPosition, EditPosition), Seq<char>>,
    pub new_text: Seq<char>,
}

impl View for TextEdit {
    type V = EditModel;

    open spec fn view(&self) -> EditModel {
        EditModel {
            key: self.key,
            range: match self.range {
                Ok(v) => Ok(v),
                Err(e) => Err(e@),
            },
            new_text: self.new_text@,
        }
    }
}

/// An edit as the server gives it.
pub open spec fn edit_of(v: JsonModel) -> EditModel {
    EditModel {
        key: match json::at(v, "range"@) {
            Some(range) => match json::at(range, "start"@) {
                Some(start) => position_of(start),
                None => EditPosition { line: 0, character: 0 },
            },
            None => EditPosition { line: 0, character: 0 },
        },
        range: match json::at(v, "range"@) {
            Some(range) => range_of(range),
            None => Err("text edit missing range"@),
        },
        new_text: match json::text_under(v, "newText"@) {
            Some(s) => s,
            None => Seq::empty(),
        },
    }
}

/// Whether an edit starts before another one.
pub open spec fn edit_before(a: EditModel, b: EditModel) -> bool {
    a.key.line < b.key.line || (a.key.line == b.key.line && a.key.character < b.key.character)
}

impl Rank for EditModel {
    open spec fn before(self, other: Self) -> bool {
        edit_before(self, other)
    }

    proof fn weak_order(a: Self, b: Self, c: Self) {
    }
}

impl Rank for TextEdit {
    open spec fn before(self, other: Self) -> bool {
        edit_before(self@, other@)
    }

    proof fn weak_order(a: Self, b: Self, c: Self) {
    }
}

impl Ranked for TextEdit {
    fn is_before(&self, other: &Self) -> (r: bool) {
        self.key.line < other.key.line || (self.key.line == other.key.line && self.key.character
            < other.key.character)
    }
}

fn read_edit(v: &Json) -> (r: TextEdit)
    ensures
        r@ == edit_of(v@),
{
    let new_text = match v.words_at("newText") {
        Some(s) => s.to_owned(),
        None => {
            let s = String::new();
            assert(s@ =~= Seq::<char>::empty());
            s
        },
    };
    match v.value_at("range") {
        Some(range) => {
            let key = match range.value_at("start") {
                Some(start) => read_position(start),
                None => EditPosition { line: 0, character: 0 },
            };
            TextEdit { key, range: read_range(range), new_text }
        },
        None => TextEdit {
            key: EditPosition { line: 0, character: 0 },
            range: Err("text edit missing range".to_owned()),
            new_text,
        },
    }
}

/// The edits as the server gives them.
pub open spec fn edits_of(edits: Seq<JsonModel>) -> Seq<EditModel> {
    edits.map_values(|v: JsonModel| edit_of(v))
}

/// A text with a part replaced.
pub open spec fn spliced(s: Seq<char>, a: int, b: int, new_text: Seq<char>) -> Seq<char> {
    s.take(a) + new_text + s.skip(b)
}

/// A text after the last `n` edits were applied, from the back to the front.
pub open spec fn edited(s: Seq<char>, edits: Seq<EditModel>, n: nat) -> Result<Seq<char>, Seq<char>>
    decreases n,
{
    if n == 0 {
        Ok(s)
    } else {
        match edited(s, edits, (n - 1) as nat) {
            Err(e) => Err(e),
            Ok(t) => {
                let edit = edits[edits.len() - n];
                match edit.range {
                    Err(e) => Err(e),
                    Ok((start, end)) => Ok(
                        spliced(t, span(t, start, end).0, span(t, start, end).1, edit.new_text),
                    ),
                }
            },
        }
    }
}

/// A text with the edits of a server: they are applied in the order of their
/// starts, the last one first.
pub open spec fn after_edits(s: Seq<char>, edits: Seq<JsonModel>) -> Result<Seq<char>, Seq<char>> {
    edited(s, sort::stable_sorted(edits_of(edits)), edits.len())
}

fn splice(s: &str, start: EditPosition, end: EditPosition, new_text: &str) -> (r: String)
    ensures
        r@ == spliced(s@, span(s@, start, end).0, span(s@, start, end).1, new_text@),
{
    let chars = chars_of(s);
    let (a, b) = find_span(&chars, start, end);
    let n: usize = chars.len();
    let head = text_between(chars.as_slice(), 0, a);
    let tail = text_between(chars.as_slice(), b, n);
    assert(head@ =~= s@.take(a as int));
    assert(tail@ =~= s@.skip(b as int));
    head.concat(new_text).concat(tail.as_str())
}

/// Applies the edits of a server to a text, from the back to the front, so that
/// the ranges of those that are left stay valid. Gives the text and the number
/// of edits.
pub fn apply_text_edits(content: &str, edits: &Vec<Json>) -> (r: Result<(String, usize), String>)
    ensures
        match (after_edits(content@, json::models(edits@)), r) {
            (Ok(s), Ok((t, n))) => t@ == s && n == edits@.len(),
            (Err(e), Err(m)) => m@ == e,
            _ => false,
        },
{
    let mut sorted: Vec<TextEdit> = Vec::new();
    let ghost items = json::models(edits@);
    let mut i: usize = 0;
    let n: usize = edits.len();
    assert(sort::views(sorted@) =~= edits_of(items).take(0));
    while i < n
        invariant
            i <= n == edits@.len(),
            items == json::models(edits@),
            sort::views(sorted@) == edits_of(items).take(i as int),
        decreases n - i,
    {
        assert(items[i as int] == edits@[i as int]@);
        let edit = read_edit(&edits[i]);
        let ghost before = sorted@;
        sorted.push(edit);
        assert(edits_of(items)[i as int] == edit@);
        assert(sort::views(sorted@) =~= sort::views(before).push(edit@));
        i += 1;
        assert(sort::views(sorted@) =~= edits_of(items).take(i as int));
    }
    assert(edits_of(items).take(n as int) =~= edits_of(items));
    let ghost given = sorted@;
    stable_sort(&mut sorted);
    let ghost order = sort::stable_sorted(edits_of(items));
    proof {
        assert(sort::ranked_as_viewed::<TextEdit>());
        sort::lemma_sorted_views(given);
        sort::lemma_stable_sorted(given);
        assert(sort::views(sorted@) == order);
        assert(order.len() == n);
    }
    let mut current = content.to_owned();
    let mut k: usize = 0;
    while k < n
        invariant
            k <= n == edits@.len(),
            n == sorted@.len(),
            order.len() == n,
            sort::views(sorted@) == order,
            items == json::models(edits@),
            order == sort::stable_sorted(edits_of(items)),
            edited(content@, order, k as nat) == Ok::<Seq<char>, Seq<char>>(current@),
        decreases n - k,
    {
        let edit = &sorted[n - 1 - k];
        assert(order[n - 1 - k] == edit@);
        match &edit.range {
            Ok((start, end)) => {
                current = splice(current.as_str(), *start, *end, edit.new_text.as_str());
            },
            Err(e) => {
                proof {
                    lemma_edit_error(content@, order, (k + 1) as nat, n as nat);
                }
                return Err(e.clone());
            },
        }
        k += 1;
    }
    Ok((current, n))
}

proof fn lemma_edit_error(s: Seq<char>, edits: Seq<EditModel>, n: nat, later: nat)
    requires
        n <= later,
        edited(s, edits, n) is Err,
    ensures
        edited(s, edits, later) == edited(s, edits, n),
    decreases later - n,
{
    if n < later {
        lemma_edit_error(s, edits, n, (later - 1) as nat);
    }
}

/// Of two edits of separate parts, the one that is applied second finds its part
/// as it was: the outcome is the text with both parts replaced.
pub proof fn law_edits_from_the_back_do_not_disturb(
    s: Seq<char>,
    a: int,
    b: int,
    first: Seq<char>,
    c: int,
    d: int,
    second: Seq<char>,
)
    requires
        0 <= a <= b <= c <= d <= s.len(),
    ensures
        spliced(spliced(s, c, d, second), a, b, first) == s.take(a) + first + s.subrange(b, c)
            + second + s.skip(d),
{
    let t = spliced(s, c, d, second);
    assert(t.take(a) =~= s.take(a));
    assert(t.skip(b) =~= s.subrange(b, c) + second + s.skip(d));
    assert(spliced(t, a, b, first) =~= s.take(a) + first + s.subrange(b, c) + second + s.skip(d));
}

/// Texts with a common start have its line breaks in common.
pub proof fn lemma_next_line_shared(s: Seq<char>, t: Seq<char>, a: int, from: int, at: int)
    requires
        0 <= from,
        a <= s.len(),
        a <= t.len(),
        s.take(a) == t.take(a),
        next_line(s, from) == Some(at),
        at <= a,
    ensures
        next_line(t, from) == Some(at),
    decreases s.len() - from,
{
    lemma_next_line(s, from);
    assert(s.take(a)[from] == s[from] && t.take(a)[from] == t[from]);
    if s[from] != '\n' {
        lemma_next_line_shared(s, t, a, from + 1, at);
    }
}

/// Texts with a common start have the starts of its lines in common.
pub proof fn lemma_line_start_shared(s: Seq<char>, t: Seq<char>, a: int, line: nat, at: int)
    requires
        a <= s.len(),
        a <= t.len(),
        s.take(a) == t.take(a),
        line_start(s, line) == Some(at),
        at <= a,
    ensures
        line_start(t, line) == Some(at),
    decreases line,
{
    if line > 0 {
        lemma_line_start(s, (line - 1) as nat);
        let before = line_start(s, (line - 1) as nat)->0;
        lemma_next_line(s, before);
        lemma_line_start_shared(s, t, a, (line - 1) as nat, before);
        lemma_next_line_shared(s, t, a, before, at);
    }
}

/// Texts with a common start have the columns within it in common.
pub proof fn lemma_column_shared(s: Seq<char>, t: Seq<char>, a: int, from: int, units: int)
    requires
        0 <= from <= a,
        a <= s.len(),
        a <= t.len(),
        s.take(a) == t.take(a),
        column(s, from, units) < a,
    ensures
        column(t, from, units) == column(s, from, units),
    decreases s.len() - from,
{
    lemma_column(s, from, units);
    assert(s.take(a)[from] == s[from] && t.take(a)[from] == t[from]);
    if s[from] != '\n' && units > 0 && truncate::units(s[from]) <= units {
        lemma_column_shared(s, t, a, from + 1, units - truncate::units(s[from]));
    }
}

/// An edit leaves every position before its start where it was. This is why
/// edits are applied from the back.
pub proof fn law_edit_keeps_earlier_positions(
    s: Seq<char>,
    a: int,
    b: int,
    new_text: Seq<char>,
    line: nat,
    character: nat,
)
    requires
        0 <= a <= b <= s.len(),
        place(s, line, character) < a,
    ensures
        place(spliced(s, a, b, new_text), line, character) == place(s, line, character),
{
    let t = spliced(s, a, b, new_text);
    assert(t.take(a) =~= s.take(a));
    lemma_line_start(s, line);
    let at = line_start(s, line)->0;
    lemma_column(s, at, character as int);
    lemma_line_start_shared(s, t, a, line, at);
    lemma_column_shared(s, t, a, at, character as int);
}

// ---------------------------------------------------------------------------
// Workspace edits
// ---------------------------------------------------------------------------

/// A document that a workspace edit changes.
#[derive(Debug, PartialEq, Eq)]
pub struct EditTarget<'a> {
    pub uri: &'a str,
    /// The edits, where there are any.
    pub edits: Option<&'a Vec<Json>>,
}

/// The model of such a document.
#[verifier::ext_equal]
pub struct TargetModel {
    pub uri: Seq<char>,
    pub edits: Seq<JsonModel>,
}

impl<'a> View for EditTarget<'a> {
    type V = TargetModel;

    open spec fn view(&self) -> TargetModel {
        TargetModel {
            uri: self.uri@,
            edits: match self.edits {
                Some(v) => json::models(v@),
                None => Seq::empty(),
            },
        }
    }
}

/// The items of a list, or none.
pub open spec fn items_of(v: Option<JsonModel>) -> Seq<JsonModel> {
    match v {
        Some(JsonModel::List(items)) => items,
        _ => Seq::empty(),
    }
}

/// The document of one change. Creating, renaming and deleting files is refused.
pub open spec fn change_of(change: JsonModel) -> Result<TargetModel, Seq<char>> {
    match json::at(change, "textDocument"@) {
        None => Err(
            "lsp rename refused: workspace edit contains an unsupported file create/rename/delete operation"@,
        ),
        Some(document) => match json::text_under(change, "kind"@) {
            Some(kind) => Err(
                "lsp rename refused: workspace edit contains an unsupported file create/rename/delete operation (`"@
                    + kind + "`)"@,
            ),
            None => match json::text_under(document, "uri"@) {
                None => Err("workspace edit textDocument missing uri"@),
                Some(uri) => Ok(
                    TargetModel { uri, edits: items_of(json::at(change, "edits"@)) },
                ),
            },
        },
    }
}

/// The documents of the first `n` changes, or the first that is refused.
pub open spec fn changes_of(changes: Seq<JsonModel>, n: nat) -> Result<Seq<TargetModel>, Seq<char>>
    decreases n,
{
    if n == 0 {
        Ok(Seq::empty())
    } else {
        match changes_of(changes, (n - 1) as nat) {
            Err(e) => Err(e),
            Ok(before) => match change_of(changes[n - 1]) {
                Err(e) => Err(e),
                Ok(target) => Ok(before.push(target)),
            },
        }
    }
}

/// The documents that a workspace edit changes.
pub open spec fn targets_of(edit: JsonModel) -> Result<Seq<TargetModel>, Seq<char>> {
    match json::list_under(edit, "documentChanges"@) {
        Some(changes) => changes_of(changes, changes.len()),
        None => match json::at(edit, "changes"@) {
            Some(JsonModel::Object(members)) => Ok(
                members.map_values(
                    |m: (Seq<char>, JsonModel)|
                        TargetModel { uri: m.0, edits: items_of(Some(m.1)) },
                ),
            ),
            _ => Ok(Seq::empty()),
        },
    }
}

fn list_of<'a>(v: Option<&'a Json>) -> (r: Option<&'a Vec<Json>>)
    ensures
        (match r {
            Some(items) => json::models(items@),
            None => Seq::empty(),
        }) == items_of(
            match v {
                Some(v) => Some(v@),
                None => None,
            },
        ),
{
    match v {
        Some(Json::List(items)) => {
            proof {
                json::lemma_list_view(*items);
            }
            Some(items)
        },
        _ => None,
    }
}

fn read_change<'a>(change: &'a Json) -> (r: Result<EditTarget<'a>, String>)
    ensures
        match r {
            Ok(t) => change_of(change@) == Ok::<TargetModel, Seq<char>>(t@),
            Err(e) => change_of(change@) == Err::<TargetModel, Seq<char>>(e@),
        },
{
    let document = match change.value_at("textDocument") {
        Some(document) => document,
        None => {
            return Err(
                "lsp rename refused: workspace edit contains an unsupported file create/rename/delete operation".to_owned(),
            );
        },
    };
    if let Some(kind) = change.words_at("kind") {
        return Err(
            "lsp rename refused: workspace edit contains an unsupported file create/rename/delete operation (`".to_owned().concat(
                kind,
            ).concat("`)"),
        );
    }
    match document.words_at("uri") {
        None => Err("workspace edit textDocument missing uri".to_owned()),
        Some(uri) => Ok(EditTarget { uri, edits: list_of(change.value_at("edits")) }),
    }
}

proof fn lemma_change_error(changes: Seq<JsonModel>, n: nat, later: nat)
    requires
        n <= later,
        changes_of(changes, n) is Err,
    ensures
        changes_of(changes, later) == changes_of(changes, n),
    decreases later - n,
{
    if n < later {
        lemma_change_error(changes, n, (later - 1) as nat);
    }
}

/// The documents that a workspace edit changes. Creating, renaming and deleting
/// files is refused.
pub fn edit_targets<'a>(edit: &'a Json) -> (r: Result<Vec<EditTarget<'a>>, String>)
    ensures
        match r {
            Ok(v) => targets_of(edit@) == Ok::<Seq<TargetModel>, Seq<char>>(sort::views(v@)),
            Err(e) => targets_of(edit@) == Err::<Seq<TargetModel>, Seq<char>>(e@),
        },
{
    let mut targets: Vec<EditTarget<'a>> = Vec::new();
    let mut i: usize = 0;
    assert(sort::views(targets@) =~= Seq::<TargetModel>::empty());
    if let Some(changes) = edit.list_at("documentChanges") {
        let ghost items = json::models(changes@);
        while i < changes.len()
            invariant
                i <= changes@.len(),
                items == json::models(changes@),
                changes_of(items, i as nat) == Ok::<Seq<TargetModel>, Seq<char>>(
                    sort::views(targets@),
                ),
                targets_of(edit@) == changes_of(items, items.len()),
            decreases changes@.len() - i,
        {
            assert(items[i as int] == changes@[i as int]@);
            match read_change(&changes[i]) {
                Ok(target) => {
                    let ghost before = targets@;
                    targets.push(target);
                    assert(sort::views(targets@) =~= sort::views(before).push(target@));
                },
                Err(e) => {
                    proof {
                        lemma_change_error(items, (i + 1) as nat, items.len());
                    }
                    return Err(e);
                },
            }
            i += 1;
        }
        return Ok(targets);
    }
    if let Some(Json::Object(members)) = edit.value_at("changes") {
        proof {
            json::lemma_object_view(*members);
        }
        let ghost all = targets_of(edit@)->Ok_0;
        assert(sort::views(targets@) =~= all.take(0));
        while i < members.len()
            invariant
                i <= members@.len(),
                all == json::member_models(members@).map_values(
                    |m: (Seq<char>, JsonModel)|
                        TargetModel { uri: m.0, edits: items_of(Some(m.1)) },
                ),
                targets_of(edit@) == Ok::<Seq<TargetModel>, Seq<char>>(all),
                sort::views(targets@) == all.take(i as int),
            decreases members@.len() - i,
        {
            let target = EditTarget {
                uri: members[i].0.as_str(),
                edits: list_of(Some(&members[i].1)),
            };
            assert(all[i as int] == target@);
            let ghost before = targets@;
            targets.push(target);
            assert(sort::views(targets@) =~= sort::views(before).push(target@));
            i += 1;
            assert(sort::views(targets@) =~= all.take(i as int));
        }
        assert(all.take(members@.len() as int) =~= all);
    }
    Ok(targets)
}

/// What the permission rules say of a set of paths.
#[derive(Debug, PartialEq, Eq)]
pub enum PermissionVerdict {
    Deny(String),
    Ask,
    Allow,
    NoMatch,
}

/// What comes next before a workspace edit is applied.
#[derive(Debug, PartialEq, Eq)]
pub enum PreflightStep {
    /// There is nothing to change.
    Nothing(String),
    /// Resolve a path within the workspace.
    Resolve(String),
    /// Ask the permission rules about the resolved paths.
    Judge,
    Refused(String),
    /// Every document may be changed.
    Ready,
}

/// The model of a step.
#[verifier::ext_equal]
pub enum PreflightModel {
    Nothing(Seq<char>),
    Resolve(Seq<char>),
    Judge,
    Refused(Seq<char>),
    Ready,
}

impl View for PreflightStep {
    type V = PreflightModel;

    open spec fn view(&self) -> PreflightModel {
        match self {
            PreflightStep::Nothing(s) => PreflightModel::Nothing(s@),
            PreflightStep::Resolve(s) => PreflightModel::Resolve(s@),
            PreflightStep::Judge => PreflightModel::Judge,
            PreflightStep::Refused(s) => PreflightModel::Refused(s@),
            PreflightStep::Ready => PreflightModel::Ready,
        }
    }
}

/// The models of results of texts.
pub open spec fn result_texts(v: Seq<Result<String, String>>) -> Seq<Result<Seq<char>, Seq<char>>> {
    v.map_values(|r: Result<String, String>| lsp_client::result_text(r))
}

/// The check of the documents from position `i` on. `local` holds the paths that
/// the URIs stand for, `resolved` where these lie within the workspace.
pub open spec fn contained(
    uris: Seq<Seq<char>>,
    local: Seq<Result<Seq<char>, Seq<char>>>,
    resolved: Seq<Result<Seq<char>, Seq<char>>>,
    i: nat,
) -> PreflightModel
    decreases uris.len() - i,
{
    if i >= uris.len() {
        PreflightModel::Judge
    } else {
        match local[i as int] {
            Err(_) => PreflightModel::Refused(
                "lsp rename refused: workspace edit target is not a file:// uri: `"@
                    + uris[i as int] + "`"@,
            ),
            Ok(path) => if i >= resolved.len() {
                PreflightModel::Resolve(path)
            } else {
                match resolved[i as int] {
                    Err(_) => PreflightModel::Refused(
                        "lsp rename refused: workspace edit target `"@ + uris[i as int]
                            + "` is outside the configured workspace roots"@,
                    ),
                    Ok(_) => contained(uris, local, resolved, i + 1),
                }
            },
        }
    }
}

/// The check of all documents, with what the permission rules say of them.
pub open spec fn judged(
    uris: Seq<Seq<char>>,
    local: Seq<Result<Seq<char>, Seq<char>>>,
    resolved: Seq<Result<Seq<char>, Seq<char>>>,
    verdict: Option<PermissionVerdict>,
) -> PreflightModel {
    match contained(uris, local, resolved, 0) {
        PreflightModel::Judge => match verdict {
            None => PreflightModel::Judge,
            Some(PermissionVerdict::Deny(reason)) => PreflightModel::Refused(
                "lsp rename refused: "@ + reason@,
            ),
            Some(PermissionVerdict::Ask) => PreflightModel::Refused(
                "lsp rename refused: a workspace edit target requires host approval"@,
            ),
            Some(_) => PreflightModel::Ready,
        },
        other => other,
    }
}

/// The URIs of documents.
pub open spec fn uris_of(targets: Seq<TargetModel>) -> Seq<Seq<char>> {
    targets.map_values(|t: TargetModel| t.uri)
}

/// Checks the documents of a workspace edit before anything is written: each has
/// to lie in the workspace, and the permission rules must not object. One that
/// fails refuses the whole edit.
pub fn judge_targets(
    uris: &Vec<String>,
    local: &Vec<Result<String, String>>,
    resolved: &Vec<Result<String, String>>,
    verdict: &Option<PermissionVerdict>,
) -> (r: PreflightStep)
    requires
        local@.len() == uris@.len(),
    ensures
        r@ == judged(
            text::texts(uris@),
            result_texts(local@),
            result_texts(resolved@),
            *verdict,
        ),
{
    let ghost names = text::texts(uris@);
    let ghost paths = result_texts(local@);
    let ghost found = result_texts(resolved@);
    let ghost model = contained(names, paths, found, 0);
    let mut i: usize = 0;
    while i < uris.len()
        invariant
            i <= uris@.len(),
            local@.len() == uris@.len(),
            names == text::texts(uris@),
            paths == result_texts(local@),
            found == result_texts(resolved@),
            contained(names, paths, found, i as nat) == model,
            model == contained(names, paths, found, 0),
        decreases uris@.len() - i,
    {
        assert(names[i as int] == uris@[i as int]@);
        assert(paths[i as int] == lsp_client::result_text(local@[i as int]));
        match &local[i] {
            Err(_) => {
                return PreflightStep::Refused(
                    "lsp rename refused: workspace edit target is not a file:// uri: `".to_owned().concat(
                        uris[i].as_str(),
                    ).concat("`"),
                );
            },
            Ok(path) => {
                if i >= resolved.len() {
                    return PreflightStep::Resolve(path.clone());
                }
                assert(found[i as int] == lsp_client::result_text(resolved@[i as int]));
                if let Err(_) = &resolved[i] {
                    return PreflightStep::Refused(
                        "lsp rename refused: workspace edit target `".to_owned().concat(
                            uris[i].as_str(),
                        ).concat("` is outside the configured workspace roots"),
                    );
                }
            },
        }
        i += 1;
    }
    match verdict {
        None => PreflightStep::Judge,
        Some(PermissionVerdict::Deny(reason)) => PreflightStep::Refused(
            "lsp rename refused: ".to_owned().concat(reason.as_str()),
        ),
        Some(PermissionVerdict::Ask) => PreflightStep::Refused(
            "lsp rename refused: a workspace edit target requires host approval".to_owned(),
        ),
        Some(PermissionVerdict::Allow) => PreflightStep::Ready,
        Some(PermissionVerdict::NoMatch) => PreflightStep::Ready,
    }
}

/// The check of a workspace edit.
pub open spec fn preflight(
    edit: JsonModel,
    resolved: Seq<Result<Seq<char>, Seq<char>>>,
    verdict: Option<PermissionVerdict>,
) -> PreflightModel {
    if edit is Null {
        PreflightModel::Nothing(
            "rename: the server returned no workspace edit (nothing to change)"@,
        )
    } else {
        match targets_of(edit) {
            Err(e) => PreflightModel::Refused(e),
            Ok(targets) => if targets.len() == 0 {
                PreflightModel::Nothing("rename: the server returned an empty workspace edit"@)
            } else {
                judged(
                    uris_of(targets),
                    uris_of(targets).map_values(|u: Seq<char>| lsp_client::path_of(u)),
                    resolved,
                    verdict,
                )
            },
        }
    }
}

/// Checks a workspace edit before anything is written. `resolved` holds where the
/// paths of its documents lie within the workspace, as far as that was found
/// out, and `verdict` what the permission rules say of them.
pub fn preflight_workspace_edit(
    edit: &Json,
    resolved: &Vec<Result<String, String>>,
    verdict: &Option<PermissionVerdict>,
) -> (r: PreflightStep)
    ensures
        r@ == preflight(edit@, result_texts(resolved@), *verdict),
{
    if let Json::Null = edit {
        return PreflightStep::Nothing(
            "rename: the server returned no workspace edit (nothing to change)".to_owned(),
        );
    }
    let targets = match edit_targets(edit) {
        Ok(targets) => targets,
        Err(e) => {
            return PreflightStep::Refused(e);
        },
    };
    if targets.len() == 0 {
        return PreflightStep::Nothing(
            "rename: the server returned an empty workspace edit".to_owned(),
        );
    }
    let ghost names = uris_of(sort::views(targets@));
    let ghost paths = names.map_values(|u: Seq<char>| lsp_client::path_of(u));
    let mut uris: Vec<String> = Vec::new();
    let mut local: Vec<Result<String, String>> = Vec::new();
    let mut i: usize = 0;
    assert(text::texts(uris@) =~= names.take(0));
    assert(result_texts(local@) =~= paths.take(0));
    while i < targets.len()
        invariant
            i <= targets@.len(),
            names == uris_of(sort::views(targets@)),
            paths == names.map_values(|u: Seq<char>| lsp_client::path_of(u)),
            text::texts(uris@) == names.take(i as int),
            result_texts(local@) == paths.take(i as int),
            local@.len() == uris@.len(),
        decreases targets@.len() - i,
    {
        let uri = targets[i].uri;
        assert(names[i as int] == uri@);
        let path = uri_to_path(uri);
        let ghost before = local@;
        push_text(&mut uris, uri);
        local.push(path);
        assert(result_texts(local@) =~= result_texts(before).push(
            lsp_client::result_text(path),
        ));
        assert(paths[i as int] == lsp_client::result_text(path));
        i += 1;
        assert(text::texts(uris@) =~= names.take(i as int));
        assert(result_texts(local@) =~= paths.take(i as int));
    }
    assert(names.take(targets@.len() as int) =~= names);
    assert(paths.take(targets@.len() as int) =~= paths);
    judge_targets(&uris, &local, resolved, verdict)
}

proof fn lemma_contained(
    uris: Seq<Seq<char>>,
    local: Seq<Result<Seq<char>, Seq<char>>>,
    resolved: Seq<Result<Seq<char>, Seq<char>>>,
    i: nat,
    k: int,
)
    requires
        contained(uris, local, resolved, i) is Judge,
        i <= k < uris.len(),
    ensures
        local[k] is Ok,
        k < resolved.len(),
        resolved[k] is Ok,
    decreases uris.len() - i,
{
    if i < k {
        lemma_contained(uris, local, resolved, i + 1, k);
    }
}

proof fn lemma_contained_asks(
    uris: Seq<Seq<char>>,
    local: Seq<Result<Seq<char>, Seq<char>>>,
    resolved: Seq<Result<Seq<char>, Seq<char>>>,
    i: nat,
)
    ensures
        !(contained(uris, local, resolved, i) is Ready),
    decreases uris.len() - i,
{
    if i < uris.len() {
        lemma_contained_asks(uris, local, resolved, i + 1);
    }
}

/// An edit is applied only where every one of its documents is a file that lies
/// in the workspace, and the permission rules neither deny it nor want to be
/// asked: one document that fails refuses the whole edit.
pub proof fn law_edits_are_all_or_nothing(
    uris: Seq<Seq<char>>,
    local: Seq<Result<Seq<char>, Seq<char>>>,
    resolved: Seq<Result<Seq<char>, Seq<char>>>,
    verdict: Option<PermissionVerdict>,
    k: int,
)
    requires
        judged(uris, local, resolved, verdict) is Ready,
        0 <= k < uris.len(),
    ensures
        local[k] is Ok,
        k < resolved.len(),
        resolved[k] is Ok,
        verdict == Some(PermissionVerdict::Allow) || verdict == Some(PermissionVerdict::NoMatch),
{
    lemma_contained_asks(uris, local, resolved, 0);
    lemma_contained(uris, local, resolved, 0, k);
}

/// The number of edits in all.
pub open spec fn total(counts: Seq<u64>) -> nat
    decreases counts.len(),
{
    if counts.len() == 0 {
        0
    } else {
        total(counts.drop_last()) + counts.last() as nat
    }
}

/// The report on an edit that was applied: the number of edits in all, then that
/// of each document.
pub open spec fn edit_report(paths: Seq<Seq<char>>, counts: Seq<u64>) -> Seq<char> {
    text::join(
        seq!["rename: applied "@ + text::numeral(total(counts)) + " text edit(s)"@] + Seq::new(
            paths.len(),
            |i: int|
                "  "@ + paths[i] + ": "@ + text::numeral(counts[i] as nat)
                    + " text edit(s) applied"@,
        ),
        "\n"@,
    )
}

proof fn lemma_total_grows(counts: Seq<u64>, n: int)
    requires
        0 <= n <= counts.len(),
    ensures
        total(counts.take(n)) <= total(counts),
    decreases counts.len() - n,
{
    if n < counts.len() {
        lemma_total_grows(counts, n + 1);
        assert(counts.take(n + 1).drop_last() =~= counts.take(n));
    } else {
        assert(counts.take(n) =~= counts);
    }
}

/// Reports on an edit that was applied.
pub fn apply_workspace_edit(paths: &Vec<String>, counts: &Vec<u64>) -> (r: String)
    requires
        paths@.len() == counts@.len(),
        total(counts@) <= u64::MAX,
    ensures
        r@ == edit_report(text::texts(paths@), counts@),
{
    let mut sum: u64 = 0;
    let mut i: usize = 0;
    let n: usize = paths.len();
    let ghost names = text::texts(paths@);
    let ghost rows = Seq::new(
        names.len(),
        |i: int|
            "  "@ + names[i] + ": "@ + text::numeral(counts@[i] as nat)
                + " text edit(s) applied"@,
    );
    let mut lines: Vec<String> = Vec::new();
    assert(counts@.take(0) =~= Seq::<u64>::empty());
    assert(text::texts(lines@) =~= rows.take(0));
    while i < n
        invariant
            i <= n == paths@.len(),
            n == counts@.len(),
            total(counts@) <= u64::MAX,
            sum == total(counts@.take(i as int)),
            names == text::texts(paths@),
            rows == Seq::new(
                names.len(),
                |i: int|
                    "  "@ + names[i] + ": "@ + text::numeral(counts@[i] as nat)
                        + " text edit(s) applied"@,
            ),
            text::texts(lines@) == rows.take(i as int),
        decreases n - i,
    {
        proof {
            lemma_total_grows(counts@, i + 1);
            assert(counts@.take(i + 1).drop_last() =~= counts@.take(i as int));
        }
        sum = sum + counts[i];
        assert(names[i as int] == paths@[i as int]@);
        push_text(
            &mut lines,
            "  ".to_owned().concat(paths[i].as_str()).concat(": ").concat(
                decimal(counts[i]).as_str(),
            ).concat(" text edit(s) applied").as_str(),
        );
        i += 1;
        assert(text::texts(lines@) =~= rows.take(i as int));
    }
    assert(counts@.take(n as int) =~= counts@);
    assert(rows.take(n as int) =~= rows);
    let mut all: Vec<String> = Vec::new();
    push_text(
        &mut all,
        "rename: applied ".to_owned().concat(decimal(sum).as_str()).concat(
            " text edit(s)",
        ).as_str(),
    );
    let ghost first = text::texts(all@);
    let mut k: usize = 0;
    assert(text::texts(all@) =~= first + rows.take(0));
    while k < lines.len()
        invariant
            k <= lines@.len(),
            text::texts(lines@) == rows,
            text::texts(all@) == first + rows.take(k as int),
        decreases lines@.len() - k,
    {
        assert(rows[k as int] == lines@[k as int]@);
        push_text(&mut all, lines[k].as_str());
        k += 1;
        assert(text::texts(all@) =~= first + rows.take(k as int));
    }
    assert(rows.take(lines@.len() as int) =~= rows);
    proof {
        assert(first =~= seq![
            "rename: applied "@ + text::numeral(total(counts@)) + " text edit(s)"@,
        ]);
        assert(text::texts(all@) =~= first + rows);
    }
    join_texts(&all, "\n")
}

} // verus!
