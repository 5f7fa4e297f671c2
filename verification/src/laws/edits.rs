//! What text edits promise.

use crate::json;
use crate::json::JsonModel;
use crate::sort;
use crate::sort::Rank;
use crate::text;
use crate::tools::lsp_edit;
use crate::tools::lsp_edit::{
    EditModel, EditPosition, PermissionVerdict, PreflightModel, TargetModel,
};
use crate::truncate;
use vstd::prelude::*;
use vstd::string::*;

verus! {

// ---------------------------------------------------------------------------
// Positions
// ---------------------------------------------------------------------------

/// How many line breaks a text has.
pub open spec fn breaks(s: Seq<char>) -> nat
    decreases s.len(),
{
    if s.len() == 0 {
        0
    } else {
        breaks(s.drop_last()) + if s.last() == '\n' {
            1nat
        } else {
            0
        }
    }
}

proof fn lemma_breaks_between(s: Seq<char>, a: int, b: int)
    requires
        0 <= a <= b <= s.len(),
        forall|i: int| a <= i < b ==> s[i] != '\n',
    ensures
        breaks(s.take(b)) == breaks(s.take(a)),
    decreases b - a,
{
    if a < b {
        lemma_breaks_between(s, a, b - 1);
        assert(s.take(b).drop_last() =~= s.take(b - 1));
    }
}

proof fn lemma_next_line_is_behind_a_break(s: Seq<char>, from: int)
    requires
        0 <= from,
    ensures
        lsp_edit::next_line(s, from) matches Some(at) ==> from < at <= s.len() && s[at - 1] == '\n'
            && forall|i: int| from <= i < at - 1 ==> s[i] != '\n',
        lsp_edit::next_line(s, from) is None ==> forall|i: int| from <= i < s.len() ==> s[i] != '\n',
    decreases s.len() - from,
{
    if from < s.len() && s[from] != '\n' {
        lemma_next_line_is_behind_a_break(s, from + 1);
    }
}

/// A line starts right behind a line break, or at the start of the text, and
/// there are as many line breaks before it as its number says; a line is missing
/// if and only if the text has too few line breaks.
pub proof fn law_lines_are_counted_by_breaks(s: Seq<char>, line: nat)
    ensures
        lsp_edit::line_start(s, line) matches Some(at) ==> {
            &&& 0 <= at <= s.len()
            &&& breaks(s.take(at)) == line
            &&& at > 0 ==> s[at - 1] == '\n'
        },
        lsp_edit::line_start(s, line) is None ==> breaks(s) < line,
    decreases line,
{
    if line == 0 {
        assert(s.take(0) =~= Seq::<char>::empty());
    } else {
        law_lines_are_counted_by_breaks(s, (line - 1) as nat);
        if let Some(at) = lsp_edit::line_start(s, (line - 1) as nat) {
            lemma_next_line_is_behind_a_break(s, at);
            match lsp_edit::next_line(s, at) {
                Some(next) => {
                    lemma_breaks_between(s, at, next - 1);
                    assert(s.take(next).drop_last() =~= s.take(next - 1));
                },
                None => {
                    lemma_breaks_between(s, at, s.len() as int);
                    assert(s.take(s.len() as int) =~= s);
                },
            }
        }
    }
}

proof fn lemma_utf16_front(s: Seq<char>)
    requires
        s.len() > 0,
    ensures
        truncate::utf16(s) == truncate::units(s[0]) + truncate::utf16(s.skip(1)),
    decreases s.len(),
{
    if s.len() == 1 {
        assert(s.drop_last() =~= Seq::<char>::empty());
        assert(s.skip(1) =~= Seq::<char>::empty());
    } else {
        lemma_utf16_front(s.drop_last());
        assert(s.drop_last().skip(1) =~= s.skip(1).drop_last());
    }
}

proof fn lemma_column_counts(s: Seq<char>, from: int, units: int)
    requires
        0 <= from <= s.len(),
        0 <= units,
    ensures
        ({
            let p = lsp_edit::column(s, from, units);
            &&& from <= p <= s.len()
            &&& forall|i: int| from <= i < p ==> s[i] != '\n'
            &&& truncate::utf16(s.subrange(from, p)) <= units
            &&& p == s.len() || s[p] == '\n' || truncate::utf16(s.subrange(from, p + 1)) > units
        }),
    decreases s.len() - from,
{
    let p = lsp_edit::column(s, from, units);
    if from < s.len() && s[from] != '\n' && units > 0 && truncate::units(s[from]) <= units {
        lemma_column_counts(s, from + 1, units - truncate::units(s[from]));
        lemma_utf16_front(s.subrange(from, p));
        assert(s.subrange(from, p).skip(1) =~= s.subrange(from + 1, p));
        if p < s.len() {
            lemma_utf16_front(s.subrange(from, p + 1));
            assert(s.subrange(from, p + 1).skip(1) =~= s.subrange(from + 1, p + 1));
        }
    } else {
        assert(s.subrange(from, from) =~= Seq::<char>::empty());
        if from < s.len() {
            lemma_utf16_front(s.subrange(from, from + 1));
            assert(s.subrange(from, from + 1).skip(1) =~= Seq::<char>::empty());
        }
    }
}

/// A position lies on its line, behind as many UTF-16 units of that line as it
/// says, or at the end of the line where that is shorter; behind the last line
/// it is the end of the text.
pub proof fn law_positions_count_units(s: Seq<char>, line: nat, character: nat)
    ensures
        ({
            let p = lsp_edit::place(s, line, character);
            match lsp_edit::line_start(s, line) {
                Some(at) => {
                    &&& at <= p <= s.len()
                    &&& forall|i: int| at <= i < p ==> s[i] != '\n'
                    &&& truncate::utf16(s.subrange(at, p)) <= character
                    &&& p == s.len() || s[p] == '\n' || truncate::utf16(s.subrange(at, p + 1))
                        > character
                },
                None => p == s.len(),
            }
        }),
{
    lsp_edit::lemma_line_start(s, line);
    if let Some(at) = lsp_edit::line_start(s, line) {
        lemma_column_counts(s, at, character as int);
    }
}

proof fn lemma_column_grows(s: Seq<char>, from: int, a: int, b: int)
    requires
        0 <= from <= s.len(),
        0 <= a <= b,
    ensures
        lsp_edit::column(s, from, a) <= lsp_edit::column(s, from, b),
    decreases s.len() - from,
{
    lsp_edit::lemma_column(s, from, b);
    if from < s.len() && s[from] != '\n' && a > 0 && truncate::units(s[from]) <= a {
        lemma_column_grows(
            s,
            from + 1,
            a - truncate::units(s[from]),
            b - truncate::units(s[from]),
        );
    }
}

proof fn lemma_column_before_next_line(s: Seq<char>, from: int, units: int)
    requires
        0 <= from <= s.len(),
    ensures
        lsp_edit::next_line(s, from) matches Some(next) ==> lsp_edit::column(s, from, units) < next,
    decreases s.len() - from,
{
    if from < s.len() && s[from] != '\n' {
        lsp_edit::lemma_next_line(s, from + 1);
        lemma_column_before_next_line(s, from + 1, units - truncate::units(s[from]));
    }
}

proof fn lemma_lines_grow(s: Seq<char>, line: nat, later: nat)
    requires
        line <= later,
        lsp_edit::line_start(s, later) is Some,
    ensures
        lsp_edit::line_start(s, line) is Some,
        lsp_edit::line_start(s, line)->0 <= lsp_edit::line_start(s, later)->0,
    decreases later - line,
{
    if line < later {
        lemma_lines_grow(s, line, (later - 1) as nat);
        lsp_edit::lemma_line_start(s, (later - 1) as nat);
        lsp_edit::lemma_next_line(s, lsp_edit::line_start(s, (later - 1) as nat)->0);
    }
}

/// Whether a position comes before another one, or is the same: by line first,
/// then by character.
pub open spec fn not_after(a: EditPosition, b: EditPosition) -> bool {
    a.line < b.line || (a.line == b.line && a.character <= b.character)
}

/// Positions that come later lie no earlier in the text.
pub proof fn law_positions_are_in_text_order(s: Seq<char>, a: EditPosition, b: EditPosition)
    requires
        not_after(a, b),
    ensures
        placed(s, a) <= placed(s, b),
{
    lsp_edit::law_place_is_inside(s, a.line as nat, a.character as nat);
    lsp_edit::lemma_line_start(s, a.line as nat);
    lsp_edit::lemma_line_start(s, b.line as nat);
    if lsp_edit::line_start(s, b.line as nat) is Some {
        lemma_lines_grow(s, a.line as nat, b.line as nat);
        let at = lsp_edit::line_start(s, a.line as nat)->0;
        if a.line == b.line {
            lemma_column_grows(s, at, a.character as int, b.character as int);
        } else {
            lemma_lines_grow(s, (a.line + 1) as nat, b.line as nat);
            lemma_column_before_next_line(s, at, a.character as int);
            lsp_edit::lemma_column(
                s,
                lsp_edit::line_start(s, b.line as nat)->0,
                b.character as int,
            );
        }
    }
}

/// Where a position lies in a text.
pub open spec fn placed(s: Seq<char>, p: EditPosition) -> int {
    lsp_edit::place(s, p.line as nat, p.character as nat)
}

// ---------------------------------------------------------------------------
// Edits
// ---------------------------------------------------------------------------

/// Whether the line of a position exists and has as many units as it says.
pub open spec fn exact(s: Seq<char>, p: EditPosition) -> bool {
    lsp_edit::line_start(s, p.line as nat) matches Some(at) && truncate::utf16(
        s.subrange(at, placed(s, p)),
    ) == p.character
}

/// Whether a position lies before a place, or right there, as it says.
pub open spec fn settled(s: Seq<char>, p: EditPosition, a: int) -> bool {
    placed(s, p) < a || (placed(s, p) == a && exact(s, p))
}

/// Where the range of an edit begins in a text.
pub open spec fn first_of(s: Seq<char>, edit: EditModel) -> int {
    placed(s, edit.range->Ok_0.0)
}

/// Where the range of an edit ends in a text; a range that ends before it begins
/// is empty.
pub open spec fn end_of(s: Seq<char>, edit: EditModel) -> int {
    let a = placed(s, edit.range->Ok_0.0);
    let b = placed(s, edit.range->Ok_0.1);
    if b < a {
        a
    } else {
        b
    }
}

/// Whether edits have ranges that do not overlap in a text, given in its order.
pub open spec fn apart(s: Seq<char>, edits: Seq<EditModel>) -> bool {
    &&& forall|i: int|
        0 <= i < edits.len() ==> (#[trigger] edits[i]).range is Ok && edits[i].key
            == edits[i].range->Ok_0.0
    &&& forall|i: int, j: int|
        0 <= i < j < edits.len() ==> {
            &&& first_of(s, #[trigger] edits[i]) < first_of(s, #[trigger] edits[j])
            &&& settled(s, edits[i].range->Ok_0.1, first_of(s, edits[j]))
        }
}

/// A text from a place on, with the ranges of the edits from the `k`th on
/// replaced, and everything between them as it is.
pub open spec fn replaced(s: Seq<char>, edits: Seq<EditModel>, from: int, k: nat) -> Seq<char>
    decreases edits.len() - k,
{
    if k >= edits.len() {
        s.skip(from)
    } else {
        s.subrange(from, first_of(s, edits[k as int])) + edits[k as int].new_text + replaced(
            s,
            edits,
            end_of(s, edits[k as int]),
            k + 1,
        )
    }
}

proof fn lemma_column_exact(s: Seq<char>, t: Seq<char>, a: int, from: int, units: int)
    requires
        0 <= from <= a,
        a <= s.len(),
        a <= t.len(),
        s.take(a) == t.take(a),
        lsp_edit::column(s, from, units) == a,
        truncate::utf16(s.subrange(from, a)) == units,
    ensures
        lsp_edit::column(t, from, units) == a,
    decreases a - from,
{
    if from < a {
        assert(s.take(a)[from] == s[from] && t.take(a)[from] == t[from]);
        lemma_utf16_front(s.subrange(from, a));
        assert(s.subrange(from, a).skip(1) =~= s.subrange(from + 1, a));
        lemma_column_exact(s, t, a, from + 1, units - truncate::units(s[from]));
    } else {
        assert(s.subrange(from, a) =~= Seq::<char>::empty());
    }
}

proof fn lemma_settled(s: Seq<char>, t: Seq<char>, a: int, p: EditPosition)
    requires
        0 <= a <= s.len(),
        a <= t.len(),
        s.take(a) == t.take(a),
        settled(s, p, a),
    ensures
        placed(t, p) == placed(s, p),
{
    lsp_edit::lemma_line_start(s, p.line as nat);
    let at = lsp_edit::line_start(s, p.line as nat)->0;
    lsp_edit::lemma_column(s, at, p.character as int);
    lsp_edit::lemma_line_start_shared(s, t, a, p.line as nat, at);
    if placed(s, p) < a {
        lsp_edit::lemma_column_shared(s, t, a, at, p.character as int);
    } else {
        lemma_column_exact(s, t, a, at, p.character as int);
    }
}

proof fn lemma_edited(s: Seq<char>, edits: Seq<EditModel>, n: nat)
    requires
        apart(s, edits),
        n <= edits.len(),
    ensures
        ({
            let k = (edits.len() - n) as nat;
            let cut = if k < edits.len() {
                first_of(s, edits[k as int])
            } else {
                s.len() as int
            };
            &&& 0 <= cut <= s.len()
            &&& lsp_edit::edited(s, edits, n) matches Ok(t) && t == s.take(cut) + replaced(
                s,
                edits,
                cut,
                k,
            )
        }),
    decreases n,
{
    let k = (edits.len() - n) as nat;
    if n == 0 {
        assert(s =~= s.take(s.len() as int) + s.skip(s.len() as int));
    } else {
        lemma_edited(s, edits, (n - 1) as nat);
        let edit = edits[k as int];
        let start = edit.range->Ok_0.0;
        let end = edit.range->Ok_0.1;
        let a = first_of(s, edit);
        let b = end_of(s, edit);
        let t = lsp_edit::edited(s, edits, (n - 1) as nat)->Ok_0;
        lsp_edit::law_place_is_inside(s, start.line as nat, start.character as nat);
        lsp_edit::law_place_is_inside(s, end.line as nat, end.character as nat);
        let cut = if k + 1 < edits.len() {
            first_of(s, edits[k as int + 1])
        } else {
            s.len() as int
        };
        let rest = replaced(s, edits, cut, k + 1);
        if k + 1 < edits.len() {
            assert(first_of(s, edits[k as int]) < first_of(s, edits[k as int + 1]));
            assert(t.take(cut) =~= s.take(cut));
            lemma_settled(s, t, cut, start);
            lemma_settled(s, t, cut, end);
        } else {
            assert(t =~= s);
        }
        assert(lsp_edit::span(t, start, end) == (a, b));
        assert(b <= cut);
        assert(replaced(s, edits, b, k + 1) =~= s.subrange(b, cut) + rest);
        assert(lsp_edit::spliced(t, a, b, edit.new_text) =~= s.take(a) + edit.new_text + (s.subrange(
            b,
            cut,
        ) + rest));
        assert(replaced(s, edits, a, k) =~= edit.new_text + replaced(s, edits, b, k + 1));
        assert(s.take(a) + edit.new_text + replaced(s, edits, b, k + 1) =~= s.take(a) + replaced(
            s,
            edits,
            a,
            k,
        ));
    }
}

proof fn lemma_sorted_once<T: Rank>(a: Seq<T>, b: Seq<T>)
    requires
        sort::in_rank_order(a),
        forall|i: int, j: int| 0 <= i < j < b.len() ==> (#[trigger] b[i]).before(#[trigger] b[j]),
        a.to_multiset() == b.to_multiset(),
    ensures
        a == b,
    decreases b.len(),
{
    broadcast use vstd::seq_lib::group_to_multiset_ensures;

    assert(a.len() == a.to_multiset().len());
    assert(b.len() == b.to_multiset().len());
    if b.len() > 0 {
        let n = b.len() - 1;
        assert(a.contains(a[n]));
        assert(a.to_multiset().count(a[n]) > 0);
        assert(b.to_multiset().count(a[n]) > 0);
        assert(b.contains(a[n]));
        let k = choose|k: int| 0 <= k < b.len() && b[k] == a[n];
        assert(b.contains(b[n]));
        assert(a.to_multiset().count(b[n]) > 0);
        assert(a.contains(b[n]));
        let m = choose|m: int| 0 <= m < a.len() && a[m] == b[n];
        if k < n {
            assert(b[k].before(b[n]));
            T::weak_order(b[n], b[n], b[n]);
            assert(m < n);
            assert(!a[n].before(a[m]));
        }
        assert(a[n] == b[n]);
        let x = a.drop_last();
        let y = b.drop_last();
        assert(x =~= a.remove(n));
        assert(y =~= b.remove(n));
        assert(x.to_multiset() =~= a.to_multiset().remove(a[n]));
        assert(y.to_multiset() =~= b.to_multiset().remove(b[n]));
        assert forall|i: int, j: int| 0 <= i < j < x.len() implies !(#[trigger] x[j]).before(
            #[trigger] x[i],
        ) by {
            assert(x[i] == a[i] && x[j] == a[j]);
        }
        assert forall|i: int, j: int| 0 <= i < j < y.len() implies (#[trigger] y[i]).before(
            #[trigger] y[j],
        ) by {
            assert(y[i] == b[i] && y[j] == b[j]);
        }
        lemma_sorted_once(x, y);
        assert(a =~= x.push(a[n]));
        assert(b =~= y.push(b[n]));
    } else {
        assert(a =~= b);
    }
}

/// The outcome of edits whose ranges do not overlap in the text, in whatever
/// order they are given, is the text with every range, as placed in that text,
/// replaced by its new text, and all text between the ranges unchanged.
/// `in_text_order` holds the edits in the order of the text.
pub proof fn law_edits_replace_their_ranges(
    s: Seq<char>,
    edits: Seq<JsonModel>,
    in_text_order: Seq<EditModel>,
)
    requires
        in_text_order.to_multiset() == lsp_edit::edits_of(edits).to_multiset(),
        apart(s, in_text_order),
    ensures
        lsp_edit::after_edits(s, edits) == Ok::<Seq<char>, Seq<char>>(
            replaced(s, in_text_order, 0, 0),
        ),
{
    broadcast use vstd::seq_lib::group_to_multiset_ensures;

    let given = lsp_edit::edits_of(edits);
    let order = in_text_order;
    sort::lemma_stable_sorted(given);
    assert forall|i: int, j: int| 0 <= i < j < order.len() implies (#[trigger] order[i]).before(
        #[trigger] order[j],
    ) by {
        let x = order[i].range->Ok_0.0;
        let y = order[j].range->Ok_0.0;
        assert(first_of(s, order[i]) < first_of(s, order[j]));
        assert(order[i].key == x && order[j].key == y);
        if not_after(y, x) {
            law_positions_are_in_text_order(s, y, x);
        }
    }
    lemma_sorted_once(sort::stable_sorted(given), order);
    assert(given.len() == edits.len());
    assert(order.len() == edits.len());
    lemma_edited(s, order, order.len());
    if order.len() > 0 {
        let a = first_of(s, order[0]);
        assert(s.take(a) + replaced(s, order, a, 0) =~= replaced(s, order, 0, 0));
    } else {
        assert(s.take(s.len() as int) + replaced(s, order, s.len() as int, 0) =~= replaced(
            s,
            order,
            0,
            0,
        ));
    }
}

/// Edits are ordered by where they start, by line first and then by character,
/// and applied from the last one back; edits that start together keep the order
/// in which they are given, and none is lost.
pub proof fn law_edits_are_ordered_by_start(edits: Seq<JsonModel>, key: EditModel)
    ensures
        ({
            let order = sort::stable_sorted(lsp_edit::edits_of(edits));
            &&& order.to_multiset() == lsp_edit::edits_of(edits).to_multiset()
            &&& forall|i: int, j: int|
                0 <= i < j < order.len() ==> {
                    let a = (#[trigger] order[i]).key;
                    let b = (#[trigger] order[j]).key;
                    a.line < b.line || (a.line == b.line && a.character <= b.character)
                }
            &&& order.filter(|e: EditModel| e.key == key.key) == lsp_edit::edits_of(edits).filter(
                |e: EditModel| e.key == key.key,
            )
        }),
{
    let given = lsp_edit::edits_of(edits);
    sort::lemma_stable_sorted(given);
    sort::lemma_sort_is_stable(given, key);
    let p = |y: EditModel| sort::same_rank(y, key);
    let q = |e: EditModel| e.key == key.key;
    assert(p =~= q);
}

/// An edit is read from its range and new text: the range from the lines and
/// characters of its start and end, numbers that are missing as nought, and a
/// missing text as none. It is ordered by its start.
pub proof fn law_edits_are_read(v: JsonModel, range: JsonModel, start: JsonModel, end: JsonModel)
    requires
        json::at(v, "range"@) == Some(range),
        json::at(range, "start"@) == Some(start),
        json::at(range, "end"@) == Some(end),
    ensures
        ({
            let edit = lsp_edit::edit_of(v);
            &&& edit.range matches Ok((a, b)) && {
                &&& edit.key == a
                &&& json::unsigned_under(start, "line"@) matches Some(n) ==> a.line == n
                &&& json::unsigned_under(start, "character"@) matches Some(n) ==> a.character == n
                &&& json::unsigned_under(end, "line"@) matches Some(n) ==> b.line == n
                &&& json::unsigned_under(end, "character"@) matches Some(n) ==> b.character == n
                &&& json::unsigned_under(start, "line"@) is None ==> a.line == 0
                &&& json::unsigned_under(start, "character"@) is None ==> a.character == 0
                &&& json::unsigned_under(end, "line"@) is None ==> b.line == 0
                &&& json::unsigned_under(end, "character"@) is None ==> b.character == 0
            }
            &&& json::text_under(v, "newText"@) matches Some(t) ==> edit.new_text == t
            &&& json::text_under(v, "newText"@) is None ==> edit.new_text.len() == 0
        }),
{
}

/// An edit without a range, or with one that lacks a start or an end, has no
/// range, and says what it lacks.
pub proof fn law_incomplete_ranges_are_told(v: JsonModel)
    ensures
        json::at(v, "range"@) is None ==> lsp_edit::edit_of(v).range == Err::<
            (EditPosition, EditPosition),
            Seq<char>,
        >("text edit missing range"@),
        json::at(v, "range"@) matches Some(range) ==> {
            &&& json::at(range, "start"@) is None ==> lsp_edit::edit_of(v).range == Err::<
                (EditPosition, EditPosition),
                Seq<char>,
            >("text edit range missing start"@)
            &&& json::at(range, "start"@) is Some && json::at(range, "end"@) is None
                ==> lsp_edit::edit_of(v).range == Err::<(EditPosition, EditPosition), Seq<char>>(
                "text edit range missing end"@,
            )
        },
{
}

/// Edits are applied if and only if every one of them has a range.
pub proof fn law_every_edit_needs_a_range(s: Seq<char>, edits: Seq<EditModel>, n: nat)
    requires
        n <= edits.len(),
    ensures
        lsp_edit::edited(s, edits, n) is Ok <==> forall|i: int|
            edits.len() - n <= i < edits.len() ==> (#[trigger] edits[i]).range is Ok,
    decreases n,
{
    if n > 0 {
        law_every_edit_needs_a_range(s, edits, (n - 1) as nat);
        let k = edits.len() - n;
        if edits[k].range is Err {
            assert(!(edits[k].range is Ok));
        }
    }
}

// ---------------------------------------------------------------------------
// Workspace edits
// ---------------------------------------------------------------------------

/// A change of a document is read as its uri and its list of edits; one without
/// a document, or with a kind, is an operation on files and refused, and so is a
/// document without a uri. Nothing else is refused.
pub proof fn law_changes_are_of_documents(change: JsonModel)
    ensures
        ({
            let read = lsp_edit::change_of(change);
            match json::at(change, "textDocument"@) {
                None => read == Err::<TargetModel, Seq<char>>(
                    "lsp rename refused: workspace edit contains an unsupported file create/rename/delete operation"@,
                ),
                Some(document) => {
                    let kind = json::text_under(change, "kind"@);
                    let uri = json::text_under(document, "uri"@);
                    &&& kind matches Some(k) ==> read == Err::<TargetModel, Seq<char>>(
                        "lsp rename refused: workspace edit contains an unsupported file create/rename/delete operation (`"@
                            + k + "`)"@,
                    )
                    &&& kind is None && uri is None ==> read == Err::<TargetModel, Seq<char>>(
                        "workspace edit textDocument missing uri"@,
                    )
                    &&& kind is None && uri is Some ==> (read matches Ok(target) && target.uri
                        == uri->0 && (json::list_under(change, "edits"@) matches Some(list)
                        ==> target.edits == list) && (json::list_under(change, "edits"@) is None
                        ==> target.edits.len() == 0))
                },
            }
        }),
{
}

/// The documents of a list of changes are those of its changes, in their order;
/// one change that is refused refuses all.
pub proof fn law_every_change_is_read(changes: Seq<JsonModel>, n: nat)
    requires
        n <= changes.len(),
    ensures
        lsp_edit::changes_of(changes, n) matches Ok(targets) ==> targets.len() == n && forall|i: int|
            0 <= i < n ==> lsp_edit::change_of(#[trigger] changes[i]) == Ok::<
                TargetModel,
                Seq<char>,
            >(targets[i]),
        lsp_edit::changes_of(changes, n) is Err <==> exists|i: int|
            0 <= i < n && lsp_edit::change_of(#[trigger] changes[i]) is Err,
    decreases n,
{
    if n > 0 {
        law_every_change_is_read(changes, (n - 1) as nat);
        let last = changes[n - 1];
        assert(lsp_edit::change_of(changes[n - 1]) == lsp_edit::change_of(last));
        if lsp_edit::changes_of(changes, n) is Err {
            if lsp_edit::changes_of(changes, (n - 1) as nat) is Err {
                let i = choose|i: int|
                    0 <= i < n - 1 && lsp_edit::change_of(#[trigger] changes[i]) is Err;
                assert(lsp_edit::change_of(changes[i]) is Err);
            }
        }
    }
}

/// A list of changes comes before a table of them; a table has one document per
/// key, with the list under it.
pub proof fn law_tables_name_documents_by_key(edit: JsonModel)
    ensures
        json::list_under(edit, "documentChanges"@) matches Some(changes) ==> lsp_edit::targets_of(
            edit,
        ) == lsp_edit::changes_of(changes, changes.len()),
        json::list_under(edit, "documentChanges"@) is None ==> (json::at(edit, "changes"@) matches
            Some(JsonModel::Object(members)) ==> (lsp_edit::targets_of(edit) matches Ok(targets)
            && targets.len() == members.len() && forall|i: int|
            0 <= i < members.len() ==> (#[trigger] targets[i]).uri == members[i].0 && (
            members[i].1 matches JsonModel::List(list) ==> targets[i].edits == list))),
        json::list_under(edit, "documentChanges"@) is None && !(json::at(edit, "changes"@) matches
            Some(JsonModel::Object(_))) ==> lsp_edit::targets_of(edit) == Ok::<
            Seq<TargetModel>,
            Seq<char>,
        >(Seq::empty()),
{
}

/// Documents are looked at one by one, in order: the first that is no file, or
/// that lies outside the workspace, refuses the whole edit and is named; the
/// first that was not looked for yet is asked for by its path.
pub proof fn law_documents_are_contained_in_order(
    uris: Seq<Seq<char>>,
    local: Seq<Result<Seq<char>, Seq<char>>>,
    resolved: Seq<Result<Seq<char>, Seq<char>>>,
    i: nat,
)
    requires
        i < uris.len(),
        local.len() == uris.len(),
    ensures
        ({
            let step = lsp_edit::contained(uris, local, resolved, i);
            let k = i as int;
            &&& local[k] is Err ==> step == PreflightModel::Refused(
                "lsp rename refused: workspace edit target is not a file:// uri: `"@ + uris[k]
                    + "`"@,
            )
            &&& local[k] matches Ok(path) ==> {
                &&& k >= resolved.len() ==> step == PreflightModel::Resolve(path)
                &&& k < resolved.len() && resolved[k] is Err ==> step == PreflightModel::Refused(
                    "lsp rename refused: workspace edit target `"@ + uris[k]
                        + "` is outside the configured workspace roots"@,
                )
                &&& k < resolved.len() && resolved[k] is Ok ==> step == lsp_edit::contained(
                    uris,
                    local,
                    resolved,
                    i + 1,
                )
            }
        }),
        lsp_edit::contained(uris, local, resolved, uris.len()) is Judge,
{
}

/// Once every document is contained, the permission rules decide: a denial and a
/// question refuse, anything else goes ahead.
pub proof fn law_permissions_decide(
    uris: Seq<Seq<char>>,
    local: Seq<Result<Seq<char>, Seq<char>>>,
    resolved: Seq<Result<Seq<char>, Seq<char>>>,
    verdict: Option<PermissionVerdict>,
)
    requires
        lsp_edit::contained(uris, local, resolved, 0) is Judge,
    ensures
        ({
            let step = lsp_edit::judged(uris, local, resolved, verdict);
            &&& verdict is None <==> step is Judge
            &&& verdict matches Some(PermissionVerdict::Deny(why)) ==> step
                == PreflightModel::Refused("lsp rename refused: "@ + why@)
            &&& verdict matches Some(PermissionVerdict::Ask) ==> step == PreflightModel::Refused(
                "lsp rename refused: a workspace edit target requires host approval"@,
            )
            &&& step is Ready <==> verdict == Some(PermissionVerdict::Allow) || verdict == Some(
                PermissionVerdict::NoMatch,
            )
        }),
{
}

/// An edit without documents changes nothing and says so; one that cannot be
/// read is refused with the reason.
pub proof fn law_empty_edits_change_nothing(
    edit: JsonModel,
    resolved: Seq<Result<Seq<char>, Seq<char>>>,
    verdict: Option<PermissionVerdict>,
)
    ensures
        ({
            let step = lsp_edit::preflight(edit, resolved, verdict);
            &&& edit is Null ==> step == PreflightModel::Nothing(
                "rename: the server returned no workspace edit (nothing to change)"@,
            )
            &&& !(edit is Null) ==> (lsp_edit::targets_of(edit) matches Err(e) ==> step
                == PreflightModel::Refused(e))
            &&& !(edit is Null) ==> (lsp_edit::targets_of(edit) matches Ok(targets) ==> (
            targets.len() == 0 ==> step == PreflightModel::Nothing(
                "rename: the server returned an empty workspace edit"@,
            )))
        }),
{
}

/// The number of edits of all documents is the sum of theirs.
pub proof fn law_counts_add_up(a: Seq<u64>, b: Seq<u64>, n: u64)
    ensures
        lsp_edit::total(a + b) == lsp_edit::total(a) + lsp_edit::total(b),
        lsp_edit::total(seq![n]) == n,
    decreases b.len(),
{
    assert(seq![n].drop_last() =~= Seq::<u64>::empty());
    assert(lsp_edit::total(seq![n].drop_last()) == 0);
    if b.len() > 0 {
        law_counts_add_up(a, b.drop_last(), n);
        assert((a + b).drop_last() =~= a + b.drop_last());
        assert((a + b).last() == b.last());
    } else {
        assert(a + b =~= a);
    }
}

/// A report has a line with the number of all edits, and behind it one line per
/// document with its path and number, in order.
pub proof fn law_reports_have_a_line_per_document(paths: Seq<Seq<char>>, counts: Seq<u64>)
    requires
        paths.len() == counts.len(),
    ensures
        ({
            let head = "rename: applied "@ + text::numeral(lsp_edit::total(counts))
                + " text edit(s)"@;
            &&& paths.len() == 0 ==> lsp_edit::edit_report(paths, counts) == head
            &&& paths.len() > 0 ==> exists|front: Seq<char>|
                head.is_prefix_of(front) && #[trigger] reported_last(paths, counts, front)
        }),
{
    let head = "rename: applied "@ + text::numeral(lsp_edit::total(counts)) + " text edit(s)"@;
    let lines = seq![head] + Seq::new(
        paths.len(),
        |i: int|
            "  "@ + paths[i] + ": "@ + text::numeral(counts[i] as nat) + " text edit(s) applied"@,
    );
    if paths.len() == 0 {
        assert(lines =~= seq![head]);
        assert(text::join(seq![head], "\n"@) == head);
    } else {
        let front = text::join(lines.drop_last(), "\n"@);
        lemma_join_starts(lines.drop_last(), "\n"@);
        assert(lines.drop_last()[0] == head);
        text::lemma_join_push(lines.drop_last(), lines.last(), "\n"@);
        assert(lines =~= lines.drop_last().push(lines.last()));
        assert(reported_last(paths, counts, front));
    }
}

/// Whether a report ends in the line of its last document, behind `front`.
pub open spec fn reported_last(paths: Seq<Seq<char>>, counts: Seq<u64>, front: Seq<char>) -> bool {
    lsp_edit::edit_report(paths, counts) == front + "\n"@ + ("  "@ + paths.last() + ": "@
        + text::numeral(counts.last() as nat) + " text edit(s) applied"@)
}

proof fn lemma_join_starts(parts: Seq<Seq<char>>, sep: Seq<char>)
    requires
        parts.len() > 0,
    ensures
        parts[0].is_prefix_of(text::join(parts, sep)),
    decreases parts.len(),
{
    if parts.len() > 1 {
        let front = parts.drop_last();
        lemma_join_starts(front, sep);
        assert(parts =~= front.push(parts.last()));
        text::lemma_join_push(front, parts.last(), sep);
        assert(front[0] == parts[0]);
        assert(text::join(front, sep).is_prefix_of(text::join(parts, sep)));
        assert(parts[0] =~= text::join(parts, sep).take(parts[0].len() as int));
    }
}

/// An edit that does not say where it starts is ordered as one at the start of
/// the text.
pub proof fn law_edits_without_a_start_come_first(v: JsonModel, other: EditModel)
    requires
        json::at(v, "range"@) is None || json::at(json::at(v, "range"@)->0, "start"@) is None,
    ensures
        lsp_edit::edit_of(v).key.line == 0,
        lsp_edit::edit_of(v).key.character == 0,
        !lsp_edit::edit_before(other, lsp_edit::edit_of(v)),
{
}

/// A range covers what lies between its positions. One that ends before it starts
/// covers nothing, at its start.
pub proof fn law_ranges_cover_what_lies_between(
    s: Seq<char>,
    start: EditPosition,
    end: EditPosition,
)
    ensures
        ({
            let a = lsp_edit::place(s, start.line as nat, start.character as nat);
            let b = lsp_edit::place(s, end.line as nat, end.character as nat);
            let r = lsp_edit::span(s, start, end);
            &&& r.0 == a
            &&& a <= b ==> r.1 == b
            &&& b < a ==> r.1 == a
        }),
{
}

} // verus!
