//! What operations on texts promise.

use crate::sort;
use crate::text;
use crate::truncate;
use vstd::prelude::*;
use vstd::string::*;

verus! {

// ---------------------------------------------------------------------------
// Trimming and splitting
// ---------------------------------------------------------------------------

/// Trimming the end takes the spaces at the end away and nothing else.
pub proof fn law_trimming_the_end_takes_spaces(s: Seq<char>)
    ensures
        ({
            let r = text::trim_end_of(s);
            &&& r.is_prefix_of(s)
            &&& forall|i: int| r.len() <= i < s.len() ==> text::is_space(#[trigger] s[i])
            &&& r.len() > 0 ==> !text::is_space(r.last())
        }),
    decreases s.len(),
{
    if s.len() > 0 && text::is_space(s.last()) {
        let front = s.drop_last();
        law_trimming_the_end_takes_spaces(front);
        let r = text::trim_end_of(s);
        assert(r.is_prefix_of(front));
        assert(r =~= s.take(r.len() as int)) by {
            assert(r =~= front.take(r.len() as int));
        }
        assert forall|i: int| r.len() <= i < s.len() implies text::is_space(#[trigger] s[i]) by {
            if i < front.len() {
                assert(front[i] == s[i]);
            }
        }
    } else {
        assert(s =~= s.take(s.len() as int));
    }
}

/// Trimming the start takes the spaces at the start away and nothing else.
pub proof fn law_trimming_the_start_takes_spaces(s: Seq<char>)
    ensures
        ({
            let r = text::trim_start_of(s);
            &&& r.is_suffix_of(s)
            &&& forall|i: int| 0 <= i < s.len() - r.len() ==> text::is_space(#[trigger] s[i])
            &&& r.len() > 0 ==> !text::is_space(r[0])
        }),
    decreases s.len(),
{
    let r = text::trim_start_of(s);
    if s.len() > 0 && text::is_space(s[0]) {
        let rest = s.drop_first();
        law_trimming_the_start_takes_spaces(rest);
        assert(r =~= s.subrange(s.len() - r.len(), s.len() as int)) by {
            assert(r =~= rest.subrange(rest.len() - r.len(), rest.len() as int));
        }
        assert forall|i: int| 0 <= i < s.len() - r.len() implies text::is_space(
            #[trigger] s[i],
        ) by {
            if i > 0 {
                assert(rest[i - 1] == s[i]);
            }
        }
    } else {
        assert(s =~= s.subrange(0, s.len() as int));
    }
}

/// A trimmed text is the middle of a text, with nothing but spaces around it,
/// and neither starts nor ends in one.
pub proof fn law_trimming_takes_the_middle(s: Seq<char>)
    ensures
        ({
            let r = text::trimmed(s);
            &&& r.len() > 0 ==> !text::is_space(r[0]) && !text::is_space(r.last())
            &&& exists|a: int, b: int|
                0 <= a <= b <= s.len() && r == #[trigger] s.subrange(a, b) && (forall|i: int|
                    0 <= i < a ==> text::is_space(#[trigger] s[i])) && (forall|i: int|
                    b <= i < s.len() ==> text::is_space(#[trigger] s[i]))
        }),
{
    law_trimming_the_start_takes_spaces(s);
    let t = text::trim_start_of(s);
    law_trimming_the_end_takes_spaces(t);
    let r = text::trimmed(s);
    let a = s.len() - t.len();
    let b = a + r.len();
    assert(t =~= s.subrange(a, s.len() as int));
    assert(r =~= t.take(r.len() as int));
    assert(r =~= s.subrange(a, b));
    assert forall|i: int| b <= i < s.len() implies text::is_space(#[trigger] s[i]) by {
        assert(t[i - a] == s[i]);
    }
    if r.len() > 0 {
        assert(r[0] == t[0]);
    }
}

/// Splitting a text gives pieces without the separator that make the text again
/// when they are joined by it.
pub proof fn law_pieces_make_the_text(s: Seq<char>, sep: char)
    ensures
        text::split_on(s, sep).len() > 0,
        forall|i: int|
            0 <= i < text::split_on(s, sep).len() ==> !(#[trigger] text::split_on(
                s,
                sep,
            )[i]).contains(sep),
        text::join(text::split_on(s, sep), seq![sep]) == s,
{
    text::lemma_split_nonempty(s, sep);
    text::lemma_split_pieces(s, sep);
    text::lemma_join_split(s, sep);
}

// ---------------------------------------------------------------------------
// Numbers
// ---------------------------------------------------------------------------

/// The number that digits stand for.
pub open spec fn read_number(s: Seq<char>) -> int
    decreases s.len(),
{
    if s.len() == 0 {
        0
    } else {
        10 * read_number(s.drop_last()) + (s.last() as int - '0' as int)
    }
}

/// A numeral holds digits alone, starts with nought for nought alone, and reads
/// as its number.
pub proof fn law_numerals_read_as_their_number(n: nat)
    ensures
        read_number(text::numeral(n)) == n,
        text::numeral(n).len() > 0,
        forall|i: int|
            0 <= i < text::numeral(n).len() ==> '0' <= #[trigger] text::numeral(n)[i] <= '9',
        text::numeral(n)[0] == '0' <==> n == 0,
    decreases n,
{
    let s = text::numeral(n);
    if n < 10 {
        assert(s.drop_last() =~= Seq::<char>::empty());
        assert(read_number(s.drop_last()) == 0);
    } else {
        law_numerals_read_as_their_number(n / 10);
        assert(s.drop_last() =~= text::numeral(n / 10));
        assert(s[0] == text::numeral(n / 10)[0]);
        assert forall|i: int| 0 <= i < s.len() implies '0' <= #[trigger] s[i] <= '9' by {
            if i < s.len() - 1 {
                assert(s[i] == text::numeral(n / 10)[i]);
            }
        }
    }
}

/// A number below nought is written with a sign before its size, any other one
/// without.
pub proof fn law_signs_stand_before_numerals(n: int)
    ensures
        n < 0 ==> text::signed_numeral(n) == "-"@ + text::numeral((-n) as nat),
        n >= 0 ==> text::signed_numeral(n) == text::numeral(n as nat),
{
}

// ---------------------------------------------------------------------------
// Characters
// ---------------------------------------------------------------------------

/// Lowering changes the capital letters of ASCII to their small ones, in place,
/// and nothing else.
pub proof fn law_lowering_changes_capitals(s: Seq<char>, i: int)
    requires
        0 <= i < s.len(),
    ensures
        text::ascii_lower(s).len() == s.len(),
        'A' <= s[i] <= 'Z' ==> text::ascii_lower(s)[i] as int == s[i] as int + 32,
        !('A' <= s[i] <= 'Z') ==> text::ascii_lower(s)[i] == s[i],
{
}

/// The bytes of a text are those of its parts; a character has one to four, by
/// its code.
pub proof fn law_bytes_add_up(a: Seq<char>, b: Seq<char>, c: char)
    ensures
        text::byte_len(a + b) == text::byte_len(a) + text::byte_len(b),
        text::byte_len(seq![c]) == (if (c as u32) < 0x80 {
            1nat
        } else if (c as u32) < 0x800 {
            2
        } else if (c as u32) < 0x1_0000 {
            3
        } else {
            4
        }),
{
    text::lemma_byte_len_add(a, b);
    assert(seq![c].drop_last() =~= Seq::<char>::empty());
    assert(text::byte_len(seq![c].drop_last()) == 0);
}

/// The UTF-16 units of a text are those of its characters: two for those beyond
/// the first plane, one for every other.
pub proof fn law_units_add_up(a: Seq<char>, c: char)
    ensures
        truncate::utf16(Seq::empty()) == 0,
        truncate::utf16(a.push(c)) == truncate::utf16(a) + (if (c as u32) < 0x1_0000 {
            1nat
        } else {
            2
        }),
{
    assert(a.push(c).drop_last() =~= a);
}

/// Texts are ordered by their first character that differs, and a text before
/// every longer one that it begins.
pub proof fn law_texts_are_ordered_by_character(front: Seq<char>, a: Seq<char>, b: Seq<char>)
    ensures
        a.len() > 0 && b.len() > 0 && a[0] != b[0] ==> (sort::text_before(front + a, front + b)
            <==> a[0] < b[0]),
        b.len() > 0 ==> sort::text_before(front, front + b),
        !sort::text_before(front + a, front),
    decreases front.len(),
{
    if front.len() > 0 {
        law_texts_are_ordered_by_character(front.drop_first(), a, b);
        assert((front + a).drop_first() =~= front.drop_first() + a);
        assert((front + b).drop_first() =~= front.drop_first() + b);
    } else {
        assert(front + a =~= a);
        assert(front + b =~= b);
    }
}

/// The first characters of a text are its start.
pub proof fn law_first_characters_are_the_start(s: Seq<char>, n: nat)
    ensures
        text::first_chars(s, n).is_prefix_of(s),
        s.len() >= n ==> text::first_chars(s, n).len() == n,
        s.len() < n ==> text::first_chars(s, n) == s,
{
    if s.len() == n {
        assert(s =~= s.take(n as int));
    }
    assert(text::first_chars(s, n) =~= s.take(text::first_chars(s, n).len() as int));
}

// ---------------------------------------------------------------------------
// Truncation
// ---------------------------------------------------------------------------

/// The lines of a text, joined again, are the text, but for a line break at its
/// end; an empty text has none.
pub proof fn law_counted_lines_make_the_text(content: Seq<char>)
    ensures
        ({
            let lines = truncate::counted_lines(content);
            &&& content.len() == 0 <==> lines.len() == 0
            &&& content.len() > 0 && content.last() != '\n' ==> text::join(lines, seq!['\n'])
                == content
            &&& content.len() > 0 && content.last() == '\n' ==> text::join(lines, seq!['\n']).push(
                '\n',
            ) == content
            &&& forall|i: int| 0 <= i < lines.len() ==> !(#[trigger] lines[i]).contains('\n')
        }),
{
    let pieces = text::split_on(content, '\n');
    text::lemma_split_nonempty(content, '\n');
    text::lemma_split_pieces(content, '\n');
    text::lemma_join_split(content, '\n');
    let lines = truncate::counted_lines(content);
    if content.len() > 0 && content.last() == '\n' {
        let front = content.drop_last();
        text::lemma_split_nonempty(front, '\n');
        text::lemma_join_split(front, '\n');
        assert(pieces =~= text::split_on(front, '\n').push(Seq::empty()));
        assert(lines =~= text::split_on(front, '\n'));
        assert(front.push('\n') =~= content);
    }
    assert forall|i: int| 0 <= i < lines.len() implies !(#[trigger] lines[i]).contains('\n') by {
        assert(lines[i] == pieces[i]);
    }
}

/// The head of a text says what there was and what the bounds were, and keeps as
/// many first lines as fit: one more would not. Where not even the first one
/// fits, it keeps nothing and says so.
pub proof fn law_heads_keep_what_fits(content: Seq<char>, max_lines: nat, max_bytes: nat)
    ensures
        ({
            let lines = truncate::counted_lines(content);
            let r = truncate::head(content, max_lines, max_bytes);
            &&& r.total_lines == lines.len()
            &&& r.total_bytes == text::byte_len(content)
            &&& r.max_lines == max_lines
            &&& r.max_bytes == max_bytes
            &&& !r.last_line_partial
            &&& r.first_line_exceeds_limit <==> r.truncated && lines.len() > 0 && text::byte_len(
                lines[0],
            ) > max_bytes
            &&& r.first_line_exceeds_limit ==> r.content.len() == 0 && r.output_lines == 0
                && r.truncated_by == "bytes"@
            &&& r.truncated && !r.first_line_exceeds_limit ==> r.output_lines == lines.len()
                || r.output_lines == max_lines || truncate::joined_bytes(
                lines.take(r.output_lines as int + 1),
            ) > max_bytes
            &&& !r.truncated ==> r.truncated_by.len() == 0 && r.output_lines == lines.len()
                && r.output_bytes == text::byte_len(content)
        }),
{
    reveal_strlit("");
    let lines = truncate::counted_lines(content);
    lemma_head_stops(lines, max_lines, max_bytes, 0);
    assert(text::join(Seq::<Seq<char>>::empty(), "\n"@) =~= Seq::<char>::empty());
}

proof fn lemma_head_stops(lines: Seq<Seq<char>>, max_lines: nat, max_bytes: nat, k: nat)
    requires
        k <= lines.len(),
        k <= max_lines,
    ensures
        ({
            let n = truncate::head_count(lines, max_lines, max_bytes, k);
            &&& k <= n <= lines.len()
            &&& n == lines.len() || n == max_lines || truncate::joined_bytes(
                lines.take(n as int + 1),
            ) > max_bytes
        }),
    decreases lines.len() - k,
{
    if k < lines.len() && k < max_lines && truncate::joined_bytes(lines.take(k as int + 1))
        <= max_bytes {
        lemma_head_stops(lines, max_lines, max_bytes, k + 1);
    }
}

/// The tail of a text says what there was and what the bounds were, and keeps as
/// many last lines as fit: one more would not. Where not even the last one fits,
/// it keeps as much of its end as does, and says so.
pub proof fn law_tails_keep_what_fits(content: Seq<char>, max_lines: nat, max_bytes: nat)
    requires
        max_lines > 0,
    ensures
        ({
            let lines = truncate::counted_lines(content);
            let r = truncate::tail(content, max_lines, max_bytes);
            &&& r.total_lines == lines.len()
            &&& r.total_bytes == text::byte_len(content)
            &&& r.max_lines == max_lines
            &&& r.max_bytes == max_bytes
            &&& !r.first_line_exceeds_limit
            &&& r.last_line_partial <==> r.truncated && lines.len() > 0 && text::byte_len(
                lines.last(),
            ) > max_bytes
            &&& r.last_line_partial ==> r.output_lines == 1 && r.content.is_suffix_of(lines.last())
                && text::byte_len(r.content) <= max_bytes && text::byte_len(
                lines.last().skip(lines.last().len() - r.content.len() - 1),
            ) > max_bytes
            &&& r.truncated && !r.last_line_partial ==> r.output_lines == lines.len()
                || r.output_lines == max_lines || truncate::joined_bytes(
                lines.skip(lines.len() - r.output_lines - 1),
            ) > max_bytes
            &&& !r.truncated ==> r.truncated_by.len() == 0 && r.output_lines == lines.len()
                && r.output_bytes == text::byte_len(content)
        }),
{
    reveal_strlit("");
    let lines = truncate::counted_lines(content);
    lemma_tail_stops(lines, max_lines, max_bytes, 0);
    if lines.len() > 0 {
        let last = lines.last();
        assert(lines.skip(lines.len() - 1) =~= seq![last]);
        assert(text::join(seq![last], "\n"@) == last);
        assert(last.skip(last.len() as int) =~= Seq::<char>::empty());
        law_byte_tails_keep_what_fits(last, max_bytes);
        let t = truncate::byte_tail(last, max_bytes);
        assert(text::join(seq![t], "\n"@) == t);
        if t.len() == last.len() {
            assert(t =~= last);
        }
        let k = truncate::tail_count(lines, max_lines, max_bytes, 0);
        assert(k == 0 <==> text::byte_len(last) > max_bytes);
    }
    let r = truncate::tail(content, max_lines, max_bytes);
    assert(r.truncated ==> lines.len() > 0) by {
        if lines.len() == 0 {
            law_counted_lines_make_the_text(content);
            assert(content =~= Seq::<char>::empty());
        }
    }
}

proof fn lemma_tail_stops(lines: Seq<Seq<char>>, max_lines: nat, max_bytes: nat, k: nat)
    requires
        k <= lines.len(),
        k <= max_lines,
    ensures
        ({
            let n = truncate::tail_count(lines, max_lines, max_bytes, k);
            &&& k <= n <= lines.len()
            &&& n == lines.len() || n == max_lines || truncate::joined_bytes(
                lines.skip(lines.len() - n - 1),
            ) > max_bytes
            &&& n > k ==> truncate::joined_bytes(lines.skip(lines.len() - k - 1)) <= max_bytes
        }),
    decreases lines.len() - k,
{
    if k < lines.len() && k < max_lines && truncate::joined_bytes(lines.skip(lines.len() - k - 1))
        <= max_bytes {
        lemma_tail_stops(lines, max_lines, max_bytes, k + 1);
    }
}

/// The end of a text within some bytes is its longest end that fits.
pub proof fn law_byte_tails_keep_what_fits(s: Seq<char>, max_bytes: nat)
    ensures
        ({
            let r = truncate::byte_tail(s, max_bytes);
            &&& r.is_suffix_of(s)
            &&& text::byte_len(r) <= max_bytes
            &&& r.len() < s.len() ==> text::byte_len(s.skip(s.len() - r.len() - 1)) > max_bytes
        }),
{
    assert(s.skip(s.len() as int) =~= Seq::<char>::empty());
    lemma_byte_tail(s, max_bytes, 0);
    let r = truncate::byte_tail(s, max_bytes);
    assert(r =~= s.subrange(s.len() - r.len(), s.len() as int));
}

proof fn lemma_byte_tail(s: Seq<char>, max_bytes: nat, k: nat)
    requires
        k <= s.len(),
        text::byte_len(s.skip(s.len() - k)) <= max_bytes,
    ensures
        ({
            let n = truncate::tail_chars(s, max_bytes, k);
            &&& k <= n <= s.len()
            &&& text::byte_len(s.skip(s.len() - n)) <= max_bytes
            &&& n < s.len() ==> text::byte_len(s.skip(s.len() - n - 1)) > max_bytes
        }),
    decreases s.len() - k,
{
    if k < s.len() && text::byte_len(s.skip(s.len() - k - 1)) <= max_bytes {
        lemma_byte_tail(s, max_bytes, k + 1);
    }
}

/// A line that is too long is cut behind its longest start that fits, and marked;
/// a character that would be cut in half is replaced.
pub proof fn law_cut_lines_are_marked(s: Seq<char>, max: nat)
    requires
        truncate::utf16(s) > max,
    ensures
        ({
            let r = truncate::cut_line(s, max);
            let k = truncate::fitting(s, max, 0) as int;
            let half = truncate::units(s[k]) == 2 && truncate::utf16(s.take(k)) + 1 == max;
            &&& 0 <= k < s.len()
            &&& truncate::utf16(s.take(k)) <= max
            &&& truncate::utf16(s.take(k + 1)) > max
            &&& !half ==> r == s.take(k) + "... [truncated]"@
            &&& half ==> r == s.take(k).push('\u{FFFD}') + "... [truncated]"@
        }),
{
    truncate::law_cut_line_is_longest(s, max);
}

/// A bound of nought stands for the default.
pub proof fn law_no_bound_is_the_default(bound: usize, default: usize)
    ensures
        bound == 0 ==> truncate::bound_or(bound, default) == default,
        bound != 0 ==> truncate::bound_or(bound, default) == bound,
        truncate::DEFAULT_MAX_LINES == 2000,
        truncate::DEFAULT_MAX_BYTES == 50 * 1024,
        truncate::GREP_MAX_LINE_LENGTH == 500,
        truncate::LS_DEFAULT_LIMIT == 500,
        truncate::FIND_DEFAULT_LIMIT == 1000,
        truncate::GREP_DEFAULT_LIMIT == 100,
        truncate::GLOB_DEFAULT_LIMIT == 200,
        truncate::GLOB_MAX_LIMIT == 200,
{
}

/// A size is shown in bytes below one kibibyte, in tenths of kibibytes below one
/// mebibyte and in tenths of mebibytes from there on, the nearest tenth each
/// time.
pub proof fn law_sizes_are_shown_to_the_nearest_tenth(bytes: nat)
    requires
        bytes < 9007199254740992,
    ensures
        bytes < 1024 ==> truncate::shown_size(bytes) == text::numeral(bytes) + "B"@,
        1024 <= bytes < 1_048_576 ==> exists|t: nat|
            nearest_tenth(bytes, 1024, t) && truncate::shown_size(bytes) == #[trigger] truncate::tenths(
                t,
            ) + "KB"@,
        1_048_576 <= bytes ==> exists|t: nat|
            nearest_tenth(bytes, 1_048_576, t) && truncate::shown_size(bytes)
                == #[trigger] truncate::tenths(t) + "MB"@,
{
    assert(truncate::double_unit(bytes) == 1);
    lemma_rounded(bytes, 1);
    assert(truncate::rounded(bytes, 1) == bytes);
    assert(truncate::as_double(bytes) == bytes);
    if 1024 <= bytes < 1_048_576 {
        let t = truncate::rounded(10 * bytes, 1024);
        lemma_rounded(10 * bytes, 1024);
        assert(nearest_tenth(bytes, 1024, t));
        assert(truncate::shown_size(bytes) == truncate::tenths(t) + "KB"@);
    }
    if 1_048_576 <= bytes {
        let t = truncate::rounded(10 * bytes, 1_048_576);
        lemma_rounded(10 * bytes, 1_048_576);
        assert(nearest_tenth(bytes, 1_048_576, t));
        assert(truncate::shown_size(bytes) == truncate::tenths(t) + "MB"@);
    }
}

/// Whether `t` tenths of a unit are nearest to a size.
pub open spec fn nearest_tenth(bytes: nat, unit: nat, t: nat) -> bool {
    -(unit as int) <= 2 * (t * unit - 10 * bytes) <= unit
}

proof fn lemma_rounded(n: nat, d: nat)
    requires
        d > 0,
    ensures
        -(d as int) <= 2 * (truncate::rounded(n, d) * d - n) <= d,
{
    vstd::arithmetic::div_mod::lemma_fundamental_div_mod(n as int, d as int);
    let q = n / d;
    let r = n % d;
    assert(n == d * q + r);
    assert(q * d == d * q) by (nonlinear_arith);
    assert((q + 1) * d == d * q + d) by (nonlinear_arith);
    assert(0 <= r < d) by (nonlinear_arith)
        requires
            r == n % d,
            d > 0,
    ;
}

/// Tenths are written with a point before the last digit.
pub proof fn law_tenths_have_a_point(n: nat)
    ensures
        truncate::tenths(n) == text::numeral(n / 10) + "."@ + text::numeral(n % 10),
        text::numeral(n % 10).len() == 1,
{
}

} // verus!
