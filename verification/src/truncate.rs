//! Output truncation for tools.

use crate::text;
use crate::text::{byte_count, char_width, chars_of, decimal, join_texts, split, text_between};
use vstd::prelude::*;
use vstd::string::*;

verus! {

/// Default maximum number of lines kept by head/tail truncation.
pub const DEFAULT_MAX_LINES: usize = 2000;

/// Default maximum number of bytes kept by head/tail truncation (50 KiB).
pub const DEFAULT_MAX_BYTES: usize = 51200;

/// Maximum line length (in UTF-16 code units) for grep output lines.
pub const GREP_MAX_LINE_LENGTH: usize = 500;

/// Default entry limit for the `ls` tool.
pub const LS_DEFAULT_LIMIT: usize = 500;

/// Default result limit for the `find` tool.
pub const FIND_DEFAULT_LIMIT: usize = 1000;

/// Default match limit for the `grep` tool.
pub const GREP_DEFAULT_LIMIT: usize = 100;

/// Default result limit for the `glob` tool.
pub const GLOB_DEFAULT_LIMIT: usize = 200;

/// Hard maximum for the `glob` tool `limit` parameter.
pub const GLOB_MAX_LIMIT: usize = 200;

// ---------------------------------------------------------------------------
// Sizes
// ---------------------------------------------------------------------------

/// `n` divided by `d`, rounded to the nearest whole number, ties to even.
pub open spec fn rounded(n: nat, d: nat) -> nat {
    let q = n / d;
    let r = n % d;
    if 2 * r < d || (2 * r == d && q % 2 == 0) {
        q
    } else {
        q + 1
    }
}

/// Distance of the double-precision numbers around `n`.
pub open spec fn double_unit(n: nat) -> nat
    decreases n,
{
    if n < 9007199254740992 {
        1
    } else {
        2 * double_unit(n / 2)
    }
}

/// The double-precision number nearest to `n`, ties to even.
pub open spec fn as_double(n: nat) -> nat {
    rounded(n, double_unit(n)) * double_unit(n)
}

/// A number of tenths, with one decimal place.
pub open spec fn tenths(n: nat) -> Seq<char> {
    text::numeral(n / 10) + "."@ + text::numeral(n % 10)
}

/// A byte count as a human-readable size.
pub open spec fn shown_size(bytes: nat) -> Seq<char> {
    if bytes < 1024 {
        text::numeral(bytes) + "B"@
    } else if bytes < 1048576 {
        tenths(rounded(10 * as_double(bytes), 1024)) + "KB"@
    } else {
        tenths(rounded(10 * as_double(bytes), 1048576)) + "MB"@
    }
}

fn round_div(n: u128, d: u128) -> (r: u128)
    requires
        d > 0,
        n < 0x1_0000_0000_0000_0000_0000_0000,
        d < 0x1_0000_0000_0000_0000,
    ensures
        r == rounded(n as nat, d as nat),
        r <= n / d + 1,
{
    let q: u128 = n / d;
    let rem: u128 = n % d;
    assert(q <= n) by (nonlinear_arith)
        requires
            q == n / d,
            d > 0,
    ;
    if 2 * rem < d || (2 * rem == d && q % 2 == 0) {
        q
    } else {
        q + 1
    }
}

fn unit_of(n: u64) -> (u: u64)
    ensures
        u == double_unit(n as nat),
        1 <= u,
        u * 4503599627370496 <= n || u == 1,
    decreases n,
{
    if n < 9007199254740992 {
        1
    } else {
        let half: u64 = n / 2;
        let u = unit_of(half);
        2 * u
    }
}

fn double_of(n: u64) -> (r: u128)
    ensures
        r == as_double(n as nat),
        r <= 0x1_0000_0000_0000_0000_0000,
{
    let u = unit_of(n);
    let q = round_div(n as u128, u as u128);
    assert(u <= 4096);
    assert(q <= 0x1_0000_0000_0000_0000) by {
        assert((n as u128) / (u as u128) <= n as u128) by (nonlinear_arith)
            requires
                u >= 1,
        ;
    }
    assert(q * u <= 0x1_0000_0000_0000_0000_0000) by (nonlinear_arith)
        requires
            u <= 4096,
            q <= 0x1_0000_0000_0000_0000,
    ;
    q * (u as u128)
}

fn show_tenths(n: u128) -> (s: String)
    requires
        n < 0x1_0000_0000_0000_0000,
    ensures
        s@ == tenths(n as nat),
{
    decimal((n / 10) as u64).concat(".").concat(decimal((n % 10) as u64).as_str())
}

/// A byte count as a human-readable size.
pub fn format_size(bytes: usize) -> (s: String)
    ensures
        s@ == shown_size(bytes as nat),
{
    let n: u64 = bytes as u64;
    if n < 1024 {
        decimal(n).concat("B")
    } else if n < 1048576 {
        let value = double_of(n);
        let t = round_div(10 * value, 1024);
        proof {
            lemma_small_double(n as nat);
        }
        show_tenths(t).concat("KB")
    } else {
        let value = double_of(n);
        let t = round_div(10 * value, 1048576);
        proof {
            lemma_double_bound(n as nat);
        }
        show_tenths(t).concat("MB")
    }
}

proof fn lemma_small_double(n: nat)
    requires
        n < 9007199254740992,
    ensures
        as_double(n) == n,
{
    assert(double_unit(n) == 1);
    assert(n / 1 == n && n % 1 == 0);
    assert(rounded(n, 1) == n);
    assert(n * 1 == n) by (nonlinear_arith);
}

proof fn lemma_unit(n: nat)
    ensures
        1 <= double_unit(n),
        double_unit(n) * 4503599627370496 <= n || double_unit(n) == 1,
    decreases n,
{
    if n >= 9007199254740992 {
        lemma_unit(n / 2);
    }
}

proof fn lemma_double_bound(n: nat)
    ensures
        as_double(n) <= n + double_unit(n),
        double_unit(n) <= n / 4503599627370496 + 1,
{
    lemma_unit(n);
    let u = double_unit(n);
    let q = n / u;
    assert(q * u <= n) by (nonlinear_arith)
        requires
            q == n / u,
            u >= 1,
    ;
    assert((q + 1) * u == q * u + u) by (nonlinear_arith);
    assert(rounded(n, u) * u <= (q + 1) * u) by (nonlinear_arith)
        requires
            rounded(n, u) <= q + 1,
    ;
}

// ---------------------------------------------------------------------------
// UTF-16
// ---------------------------------------------------------------------------

/// UTF-16 code units of one character.
pub open spec fn units(c: char) -> nat {
    if c as u32 > 0xFFFF {
        2
    } else {
        1
    }
}

/// UTF-16 code units of a text.
pub open spec fn utf16(s: Seq<char>) -> nat
    decreases s.len(),
{
    if s.len() == 0 {
        0
    } else {
        utf16(s.drop_last()) + units(s.last())
    }
}

proof fn lemma_utf16_bound(s: Seq<char>)
    ensures
        utf16(s) <= text::byte_len(s),
    decreases s.len(),
{
    if s.len() > 0 {
        lemma_utf16_bound(s.drop_last());
    }
}

proof fn lemma_utf16_prefix(s: Seq<char>, k: int)
    requires
        0 <= k <= s.len(),
    ensures
        utf16(s.take(k)) + (s.len() - k) <= utf16(s),
    decreases s.len() - k,
{
    if k < s.len() {
        lemma_utf16_prefix(s, k + 1);
        assert(s.take(k + 1).drop_last() =~= s.take(k));
        assert(s.take(k + 1).last() == s[k]);
    } else {
        assert(s.take(k) =~= s);
    }
}

fn units_of(c: char) -> (n: usize)
    ensures
        n == units(c),
{
    if c as u32 > 0xFFFF {
        2
    } else {
        1
    }
}

/// Number of UTF-16 code units in `s`.
pub fn utf16_len(s: &str) -> (n: usize)
    ensures
        n == utf16(s@),
{
    let bytes: usize = byte_count(s);
    let chars = chars_of(s);
    let mut n: usize = 0;
    let mut i: usize = 0;
    proof {
        lemma_utf16_bound(s@);
    }
    while i < chars.len()
        invariant
            i <= chars@.len(),
            chars@ == s@,
            utf16(s@) <= bytes,
            n == utf16(chars@.take(i as int)),
        decreases chars@.len() - i,
    {
        proof {
            lemma_utf16_prefix(chars@, i + 1);
            assert(chars@.take(i + 1).drop_last() =~= chars@.take(i as int));
        }
        n += units_of(chars[i]);
        i += 1;
    }
    assert(chars@.take(chars@.len() as int) =~= chars@);
    n
}

/// Length of the longest beginning that takes at most `max` code units, looked
/// for from `k` characters on.
pub open spec fn fitting(s: Seq<char>, max: nat, k: nat) -> nat
    decreases s.len() - k,
{
    if k < s.len() && utf16(s.take(k as int + 1)) <= max {
        fitting(s, max, k + 1)
    } else {
        k
    }
}

/// A line of at most `max` code units, with a marker. A character that would be
/// cut in half is replaced.
pub open spec fn cut_line(s: Seq<char>, max: nat) -> Seq<char> {
    let k = fitting(s, max, 0);
    let kept = s.take(k as int);
    (if k < s.len() && units(s[k as int]) == 2 && utf16(kept) + 1 == max {
        kept.push('\u{FFFD}')
    } else {
        kept
    }) + "... [truncated]"@
}

/// The bound that applies: the default where none is given.
pub open spec fn bound_or(bound: usize, default: usize) -> usize {
    if bound == 0 {
        default
    } else {
        bound
    }
}

/// Truncates a single line to `max_chars` UTF-16 code units, appending a
/// marker. `max_chars` of `0` falls back to [`GREP_MAX_LINE_LENGTH`].
pub fn truncate_line(line: &str, max_chars: usize) -> (r: (String, bool))
    ensures
        ({
            let max = bound_or(max_chars, GREP_MAX_LINE_LENGTH);
            if utf16(line@) <= max {
                r.0@ == line@ && !r.1
            } else {
                r.0@ == cut_line(line@, max as nat) && r.1
            }
        }),
{
    let max: usize = if max_chars == 0 {
        GREP_MAX_LINE_LENGTH
    } else {
        max_chars
    };
    let total = utf16_len(line);
    if total <= max {
        return (line.to_owned(), false);
    }
    let chars = chars_of(line);
    let mut buf = String::new();
    let mut n: usize = 0;
    let mut i: usize = 0;
    let mut going = true;
    assert(chars@.take(0) =~= Seq::<char>::empty());
    while going && i < chars.len()
        invariant
            i <= chars@.len(),
            chars@ == line@,
            n == utf16(chars@.take(i as int)),
            n <= max < total,
            total == utf16(line@),
            buf@ == chars@.take(i as int),
            fitting(line@, max as nat, 0) == fitting(line@, max as nat, i as nat),
            !going ==> i < chars@.len() && utf16(chars@.take(i + 1)) > max,
        decreases chars@.len() - i, if going { 1int } else { 0 },
    {
        let units = units_of(chars[i]);
        proof {
            assert(chars@.take(i + 1).drop_last() =~= chars@.take(i as int));
            lemma_utf16_prefix(chars@, i + 1);
        }
        if n + units > max {
            going = false;
        } else {
            buf.push(chars[i]);
            assert(buf@ =~= chars@.take(i + 1));
            n += units;
            i += 1;
        }
    }
    proof {
        if going {
            assert(chars@.take(chars@.len() as int) =~= chars@);
        }
    }
    if units_of(chars[i]) == 2 && n + 1 == max {
        buf.push('\u{FFFD}');
    }
    buf.append("... [truncated]");
    (buf, true)
}

/// What is kept of a cut line is a beginning of it that fits, and the next
/// character would not fit.
pub proof fn law_cut_line_is_longest(s: Seq<char>, max: nat)
    requires
        utf16(s) > max,
    ensures
        fitting(s, max, 0) < s.len(),
        utf16(s.take(fitting(s, max, 0) as int)) <= max,
        utf16(s.take(fitting(s, max, 0) as int + 1)) > max,
{
    lemma_fitting(s, max, 0);
}

proof fn lemma_fitting(s: Seq<char>, max: nat, k: nat)
    requires
        utf16(s) > max,
        k <= s.len(),
        utf16(s.take(k as int)) <= max,
    ensures
        k <= fitting(s, max, k) < s.len(),
        utf16(s.take(fitting(s, max, k) as int)) <= max,
        utf16(s.take(fitting(s, max, k) as int + 1)) > max,
    decreases s.len() - k,
{
    assert(s.take(s.len() as int) =~= s);
    if k < s.len() && utf16(s.take(k as int + 1)) <= max {
        lemma_fitting(s, max, k + 1);
    }
}

// ---------------------------------------------------------------------------
// Lines
// ---------------------------------------------------------------------------

/// The lines of a text. What stands behind a final line break is no line.
pub open spec fn counted_lines(content: Seq<char>) -> Seq<Seq<char>> {
    if content.len() == 0 {
        Seq::empty()
    } else if content.last() == '\n' {
        text::split_on(content, '\n').drop_last()
    } else {
        text::split_on(content, '\n')
    }
}

/// Bytes of lines with line breaks between them.
pub open spec fn joined_bytes(lines: Seq<Seq<char>>) -> nat {
    text::byte_len(text::join(lines, "\n"@))
}

proof fn lemma_newline()
    ensures
        "\n"@ == seq!['\n'],
        text::byte_len("\n"@) == 1,
{
    reveal_strlit("\n");
    assert("\n"@ =~= seq!['\n']);
    reveal_with_fuel(text::byte_len, 2);
    assert("\n"@.drop_last() =~= Seq::<char>::empty());
}

proof fn lemma_joined_push(lines: Seq<Seq<char>>, line: Seq<char>)
    ensures
        joined_bytes(lines.push(line)) == joined_bytes(lines) + text::byte_len(line) + (
        if lines.len() > 0 {
            1nat
        } else {
            0nat
        }),
{
    lemma_newline();
    text::lemma_join_push(lines, line, "\n"@);
    if lines.len() > 0 {
        text::lemma_byte_len_add(text::join(lines, "\n"@), "\n"@);
        text::lemma_byte_len_add(text::join(lines, "\n"@) + "\n"@, line);
    } else {
        assert(text::join(lines, "\n"@) =~= Seq::<char>::empty());
    }
}

proof fn lemma_joined_prefix(lines: Seq<Seq<char>>, k: int)
    requires
        0 <= k <= lines.len(),
    ensures
        joined_bytes(lines.take(k)) <= joined_bytes(lines),
        k < lines.len() ==> joined_bytes(lines.take(k + 1)) == joined_bytes(lines.take(k))
            + text::byte_len(lines[k]) + (if k > 0 {
            1nat
        } else {
            0nat
        }),
        k < lines.len() ==> joined_bytes(lines.take(k + 1)) <= joined_bytes(lines),
    decreases lines.len() - k,
{
    if k < lines.len() {
        lemma_joined_prefix(lines, k + 1);
        assert(lines.take(k).push(lines[k]) =~= lines.take(k + 1));
        lemma_joined_push(lines.take(k), lines[k]);
    } else {
        assert(lines.take(k) =~= lines);
    }
}

proof fn lemma_join_prepend(line: Seq<char>, lines: Seq<Seq<char>>, sep: Seq<char>)
    requires
        lines.len() > 0,
    ensures
        text::join(seq![line] + lines, sep) == line + sep + text::join(lines, sep),
    decreases lines.len(),
{
    let all = seq![line] + lines;
    if lines.len() == 1 {
        assert(all.drop_last() =~= seq![line]);
        assert(all.last() == lines[0]);
        assert(text::join(seq![line], sep) == line);
        assert(text::join(lines, sep) == lines[0]);
    } else {
        lemma_join_prepend(line, lines.drop_last(), sep);
        assert(all.drop_last() =~= seq![line] + lines.drop_last());
        assert(all.last() == lines.last());
        assert(line + sep + text::join(lines.drop_last(), sep) + sep + lines.last() =~= line + sep
            + (text::join(lines.drop_last(), sep) + sep + lines.last()));
    }
}

proof fn lemma_joined_suffix(lines: Seq<Seq<char>>, k: int)
    requires
        0 <= k <= lines.len(),
    ensures
        joined_bytes(lines.skip(lines.len() - k)) <= joined_bytes(lines),
        k < lines.len() ==> joined_bytes(lines.skip(lines.len() - k - 1)) == joined_bytes(
            lines.skip(lines.len() - k),
        ) + text::byte_len(lines[lines.len() - k - 1]) + (if k > 0 {
            1nat
        } else {
            0nat
        }),
        k < lines.len() ==> joined_bytes(lines.skip(lines.len() - k - 1)) <= joined_bytes(lines),
    decreases lines.len() - k,
{
    if k < lines.len() {
        lemma_joined_suffix(lines, k + 1);
        lemma_newline();
        let tail = lines.skip(lines.len() - k);
        let line = lines[lines.len() - k - 1];
        let wide = lines.skip(lines.len() - k - 1);
        assert(wide =~= seq![line] + tail);
        if k > 0 {
            lemma_join_prepend(line, tail, "\n"@);
            text::lemma_byte_len_add(line + "\n"@, text::join(tail, "\n"@));
            text::lemma_byte_len_add(line, "\n"@);
        } else {
            assert(tail =~= Seq::<Seq<char>>::empty());
            assert(wide =~= seq![line]);
            assert(text::join(tail, "\n"@) =~= Seq::<char>::empty());
        }
    } else {
        assert(lines.skip(lines.len() - k) =~= lines);
    }
}

proof fn lemma_lines_fit(content: Seq<char>)
    ensures
        joined_bytes(counted_lines(content)) <= text::byte_len(content),
{
    lemma_newline();
    if content.len() > 0 {
        text::lemma_join_split(content, '\n');
        text::lemma_split_nonempty(content, '\n');
        let pieces = text::split_on(content, '\n');
        if content.last() == '\n' {
            let front = pieces.drop_last();
            assert(pieces =~= front.push(pieces.last()));
            lemma_joined_push(front, pieces.last());
        }
    } else {
        assert(text::join(counted_lines(content), "\n"@) =~= Seq::<char>::empty());
    }
}

/// The lines of `content`. What stands behind a final line break is no line.
pub fn split_lines_for_counting(content: &str) -> (r: Vec<String>)
    ensures
        text::texts(r@) == counted_lines(content@),
{
    let chars = chars_of(content);
    if chars.len() == 0 {
        let r: Vec<String> = Vec::new();
        assert(text::texts(r@) =~= counted_lines(content@));
        return r;
    }
    let mut lines = split(content, '\n');
    let ghost all = text::texts(lines@);
    if chars[chars.len() - 1] == '\n' {
        let _empty = lines.pop();
        assert(text::texts(lines@) =~= all.drop_last());
    }
    lines
}

/// What came of a truncation.
#[derive(Debug, PartialEq, Eq)]
pub struct TruncationResult {
    /// The (possibly truncated) output text.
    pub content: String,
    pub truncated: bool,
    /// What triggered truncation: `lines`, `bytes`, or nothing. It is a bound
    /// that the content exceeds.
    pub truncated_by: String,
    /// Total lines in the original content.
    pub total_lines: usize,
    /// Total bytes in the original content.
    pub total_bytes: usize,
    pub output_lines: usize,
    pub output_bytes: usize,
    /// Whether the last retained line is a partial byte-truncated line.
    pub last_line_partial: bool,
    /// Whether the very first line alone exceeds the byte limit (head only).
    pub first_line_exceeds_limit: bool,
    /// The effective max-lines bound.
    pub max_lines: usize,
    /// The effective max-bytes bound.
    pub max_bytes: usize,
}

impl Clone for TruncationResult {
    fn clone(&self) -> (r: Self)
        ensures
            r == *self,
    {
        TruncationResult {
            content: self.content.clone(),
            truncated: self.truncated,
            truncated_by: self.truncated_by.clone(),
            total_lines: self.total_lines,
            total_bytes: self.total_bytes,
            output_lines: self.output_lines,
            output_bytes: self.output_bytes,
            last_line_partial: self.last_line_partial,
            first_line_exceeds_limit: self.first_line_exceeds_limit,
            max_lines: self.max_lines,
            max_bytes: self.max_bytes,
        }
    }
}

/// The model of a truncation.
#[verifier::ext_equal]
pub struct TruncationModel {
    pub content: Seq<char>,
    pub truncated: bool,
    pub truncated_by: Seq<char>,
    pub total_lines: nat,
    pub total_bytes: nat,
    pub output_lines: nat,
    pub output_bytes: nat,
    pub last_line_partial: bool,
    pub first_line_exceeds_limit: bool,
    pub max_lines: nat,
    pub max_bytes: nat,
}

impl View for TruncationResult {
    type V = TruncationModel;

    open spec fn view(&self) -> TruncationModel {
        TruncationModel {
            content: self.content@,
            truncated: self.truncated,
            truncated_by: self.truncated_by@,
            total_lines: self.total_lines as nat,
            total_bytes: self.total_bytes as nat,
            output_lines: self.output_lines as nat,
            output_bytes: self.output_bytes as nat,
            last_line_partial: self.last_line_partial,
            first_line_exceeds_limit: self.first_line_exceeds_limit,
            max_lines: self.max_lines as nat,
            max_bytes: self.max_bytes as nat,
        }
    }
}

/// Nothing was truncated.
pub open spec fn whole(content: Seq<char>, max_lines: nat, max_bytes: nat) -> TruncationModel {
    TruncationModel {
        content,
        truncated: false,
        truncated_by: ""@,
        total_lines: counted_lines(content).len(),
        total_bytes: text::byte_len(content),
        output_lines: counted_lines(content).len(),
        output_bytes: text::byte_len(content),
        last_line_partial: false,
        first_line_exceeds_limit: false,
        max_lines,
        max_bytes,
    }
}

/// Only the given lines were kept.
pub open spec fn cut(
    content: Seq<char>,
    kept: Seq<Seq<char>>,
    by_bytes: bool,
    partial: bool,
    max_lines: nat,
    max_bytes: nat,
) -> TruncationModel {
    TruncationModel {
        content: text::join(kept, "\n"@),
        truncated: true,
        truncated_by: if by_bytes {
            "bytes"@
        } else {
            "lines"@
        },
        total_lines: counted_lines(content).len(),
        total_bytes: text::byte_len(content),
        output_lines: kept.len(),
        output_bytes: joined_bytes(kept),
        last_line_partial: partial,
        first_line_exceeds_limit: false,
        max_lines,
        max_bytes,
    }
}

/// Whether a text is within both bounds.
pub open spec fn within(content: Seq<char>, max_lines: nat, max_bytes: nat) -> bool {
    counted_lines(content).len() <= max_lines && text::byte_len(content) <= max_bytes
}

/// How many first lines fit, looked for from `k` lines on.
pub open spec fn head_count(
    lines: Seq<Seq<char>>,
    max_lines: nat,
    max_bytes: nat,
    k: nat,
) -> nat
    decreases lines.len() - k,
{
    if k < lines.len() && k < max_lines && joined_bytes(lines.take(k as int + 1)) <= max_bytes {
        head_count(lines, max_lines, max_bytes, k + 1)
    } else {
        k
    }
}

/// The first lines of a text.
pub open spec fn head(content: Seq<char>, max_lines: nat, max_bytes: nat) -> TruncationModel {
    let lines = counted_lines(content);
    if within(content, max_lines, max_bytes) {
        whole(content, max_lines, max_bytes)
    } else if lines.len() > 0 && text::byte_len(lines[0]) > max_bytes {
        TruncationModel {
            first_line_exceeds_limit: true,
            ..cut(content, Seq::empty(), true, false, max_lines, max_bytes)
        }
    } else {
        let k = head_count(lines, max_lines, max_bytes, 0);
        cut(
            content,
            lines.take(k as int),
            lines.len() <= max_lines || k < max_lines,
            false,
            max_lines,
            max_bytes,
        )
    }
}

/// How many last lines fit, looked for from `k` lines on.
pub open spec fn tail_count(
    lines: Seq<Seq<char>>,
    max_lines: nat,
    max_bytes: nat,
    k: nat,
) -> nat
    decreases lines.len() - k,
{
    if k < lines.len() && k < max_lines && joined_bytes(lines.skip(lines.len() - k - 1))
        <= max_bytes {
        tail_count(lines, max_lines, max_bytes, k + 1)
    } else {
        k
    }
}

/// How many last characters fit, looked for from `k` characters on.
pub open spec fn tail_chars(s: Seq<char>, max_bytes: nat, k: nat) -> nat
    decreases s.len() - k,
{
    if k < s.len() && text::byte_len(s.skip(s.len() - k - 1)) <= max_bytes {
        tail_chars(s, max_bytes, k + 1)
    } else {
        k
    }
}

/// The longest end of a text that fits.
pub open spec fn byte_tail(s: Seq<char>, max_bytes: nat) -> Seq<char> {
    s.skip(s.len() - tail_chars(s, max_bytes, 0))
}

/// The last lines of a text. A last line that is too long by itself is cut.
pub open spec fn tail(content: Seq<char>, max_lines: nat, max_bytes: nat) -> TruncationModel {
    let lines = counted_lines(content);
    let k = tail_count(lines, max_lines, max_bytes, 0);
    if within(content, max_lines, max_bytes) {
        whole(content, max_lines, max_bytes)
    } else if k == 0 && lines.len() > 0 {
        cut(
            content,
            seq![byte_tail(lines.last(), max_bytes)],
            lines.len() <= max_lines || max_lines > 1,
            true,
            max_lines,
            max_bytes,
        )
    } else {
        cut(
            content,
            lines.skip(lines.len() - k),
            lines.len() <= max_lines || k < max_lines,
            false,
            max_lines,
            max_bytes,
        )
    }
}

fn whole_result(content: &str, lines: usize, bytes: usize, max_lines: usize, max_bytes: usize) -> (r:
    TruncationResult)
    requires
        lines == counted_lines(content@).len(),
        bytes == text::byte_len(content@),
    ensures
        r@ == whole(content@, max_lines as nat, max_bytes as nat),
{
    TruncationResult {
        content: content.to_owned(),
        truncated: false,
        truncated_by: "".to_owned(),
        total_lines: lines,
        total_bytes: bytes,
        output_lines: lines,
        output_bytes: bytes,
        last_line_partial: false,
        first_line_exceeds_limit: false,
        max_lines,
        max_bytes,
    }
}

fn cut_result(
    content: &str,
    kept: &Vec<String>,
    by_bytes: bool,
    partial: bool,
    lines: usize,
    bytes: usize,
    max_lines: usize,
    max_bytes: usize,
) -> (r: TruncationResult)
    requires
        lines == counted_lines(content@).len(),
        bytes == text::byte_len(content@),
    ensures
        r@ == cut(
            content@,
            text::texts(kept@),
            by_bytes,
            partial,
            max_lines as nat,
            max_bytes as nat,
        ),
{
    let output = join_texts(kept, "\n");
    let output_bytes: usize = byte_count(output.as_str());
    let truncated_by = if by_bytes {
        "bytes".to_owned()
    } else {
        "lines".to_owned()
    };
    TruncationResult {
        content: output,
        truncated: true,
        truncated_by,
        total_lines: lines,
        total_bytes: bytes,
        output_lines: kept.len(),
        output_bytes,
        last_line_partial: partial,
        first_line_exceeds_limit: false,
        max_lines,
        max_bytes,
    }
}

/// Keeps the first lines and bytes. Bounds of `0` fall back to the defaults.
pub fn truncate_head(content: &str, max_lines: usize, max_bytes: usize) -> (r: TruncationResult)
    ensures
        r@ == head(
            content@,
            bound_or(max_lines, DEFAULT_MAX_LINES) as nat,
            bound_or(max_bytes, DEFAULT_MAX_BYTES) as nat,
        ),
{
    let max_lines: usize = if max_lines == 0 {
        DEFAULT_MAX_LINES
    } else {
        max_lines
    };
    let max_bytes: usize = if max_bytes == 0 {
        DEFAULT_MAX_BYTES
    } else {
        max_bytes
    };
    let total_bytes: usize = byte_count(content);
    let lines = split_lines_for_counting(content);
    let ghost all = text::texts(lines@);
    let total_lines: usize = lines.len();
    if total_lines <= max_lines && total_bytes <= max_bytes {
        return whole_result(content, total_lines, total_bytes, max_lines, max_bytes);
    }
    if lines.len() > 0 && byte_count(lines[0].as_str()) > max_bytes {
        let none: Vec<String> = Vec::new();
        assert(text::texts(none@) =~= Seq::<Seq<char>>::empty());
        assert(all[0] == lines@[0]@);
        let mut r = cut_result(
            content,
            &none,
            true,
            false,
            total_lines,
            total_bytes,
            max_lines,
            max_bytes,
        );
        r.first_line_exceeds_limit = true;
        return r;
    }
    let mut out: Vec<String> = Vec::new();
    let mut out_bytes: usize = 0;
    let mut i: usize = 0;
    let mut going = true;
    proof {
        lemma_lines_fit(content@);
        assert(all.take(0) =~= Seq::<Seq<char>>::empty());
        assert(text::texts(out@) =~= all.take(0));
        assert(text::join(all.take(0), "\n"@) =~= Seq::<char>::empty());
    }
    while going && i < lines.len() && i < max_lines
        invariant
            i <= lines@.len(),
            i <= max_lines,
            all == text::texts(lines@),
            all == counted_lines(content@),
            text::texts(out@) == all.take(i as int),
            out_bytes == joined_bytes(all.take(i as int)),
            out_bytes <= max_bytes,
            joined_bytes(all) <= total_bytes,
            head_count(all, max_lines as nat, max_bytes as nat, 0) == head_count(
                all,
                max_lines as nat,
                max_bytes as nat,
                i as nat,
            ),
            !going ==> i < lines@.len() && i < max_lines && joined_bytes(all.take(i + 1))
                > max_bytes,
        decreases lines@.len() - i, if going { 1int } else { 0 },
    {
        proof {
            lemma_joined_prefix(all, i as int);
            assert(all[i as int] == lines@[i as int]@);
        }
        let mut line_bytes: usize = byte_count(lines[i].as_str());
        if i > 0 {
            line_bytes += 1;
        }
        if out_bytes + line_bytes > max_bytes {
            going = false;
        } else {
            text::push_text(&mut out, lines[i].as_str());
            assert(all.take(i as int).push(all[i as int]) =~= all.take(i + 1));
            out_bytes += line_bytes;
            i += 1;
        }
    }
    let by_bytes = total_lines <= max_lines || i < max_lines;
    cut_result(content, &out, by_bytes, false, total_lines, total_bytes, max_lines, max_bytes)
}

proof fn lemma_tail_bytes(s: Seq<char>, k: int)
    requires
        0 <= k < s.len(),
    ensures
        text::byte_len(s.skip(s.len() - k - 1)) == text::utf8_width(s[s.len() - k - 1])
            + text::byte_len(s.skip(s.len() - k)),
        text::byte_len(s.skip(s.len() - k - 1)) <= text::byte_len(s),
{
    let c = s[s.len() - k - 1];
    let head_part = s.take(s.len() - k - 1);
    assert(s.skip(s.len() - k - 1) =~= seq![c] + s.skip(s.len() - k));
    text::lemma_byte_len_add(seq![c], s.skip(s.len() - k));
    assert(seq![c].drop_last() =~= Seq::<char>::empty());
    reveal_with_fuel(text::byte_len, 2);
    assert(s =~= head_part + s.skip(s.len() - k - 1));
    text::lemma_byte_len_add(head_part, s.skip(s.len() - k - 1));
}

/// The longest end of `s` that takes at most `max_bytes` bytes.
pub fn truncate_string_to_bytes_from_end(s: &str, max_bytes: usize) -> (r: String)
    ensures
        r@ == byte_tail(s@, max_bytes as nat),
{
    let bytes: usize = byte_count(s);
    let chars = chars_of(s);
    let n: usize = chars.len();
    let mut k: usize = 0;
    let mut used: usize = 0;
    let mut going = true;
    assert(s@.skip(n as int) =~= Seq::<char>::empty());
    while going && k < n
        invariant
            k <= n == chars@.len(),
            chars@ == s@,
            used == text::byte_len(s@.skip(n - k)),
            used <= max_bytes,
            bytes == text::byte_len(s@),
            tail_chars(s@, max_bytes as nat, 0) == tail_chars(s@, max_bytes as nat, k as nat),
            !going ==> k < n && text::byte_len(s@.skip(n - k - 1)) > max_bytes,
        decreases n - k, if going { 1int } else { 0 },
    {
        let width: usize = char_width(chars[n - k - 1]);
        proof {
            lemma_tail_bytes(s@, k as int);
        }
        if used + width > max_bytes {
            going = false;
        } else {
            used += width;
            k += 1;
        }
    }
    let r = text_between(chars.as_slice(), n - k, n);
    assert(r@ =~= byte_tail(s@, max_bytes as nat));
    r
}

/// Keeps the last lines and bytes. Bounds of `0` fall back to the defaults.
pub fn truncate_tail(content: &str, max_lines: usize, max_bytes: usize) -> (r: TruncationResult)
    ensures
        r@ == tail(
            content@,
            bound_or(max_lines, DEFAULT_MAX_LINES) as nat,
            bound_or(max_bytes, DEFAULT_MAX_BYTES) as nat,
        ),
{
    let max_lines: usize = if max_lines == 0 {
        DEFAULT_MAX_LINES
    } else {
        max_lines
    };
    let max_bytes: usize = if max_bytes == 0 {
        DEFAULT_MAX_BYTES
    } else {
        max_bytes
    };
    let total_bytes: usize = byte_count(content);
    let lines = split_lines_for_counting(content);
    let ghost all = text::texts(lines@);
    let total_lines: usize = lines.len();
    if total_lines <= max_lines && total_bytes <= max_bytes {
        return whole_result(content, total_lines, total_bytes, max_lines, max_bytes);
    }
    let mut k: usize = 0;
    let mut out_bytes: usize = 0;
    let mut going = true;
    proof {
        lemma_lines_fit(content@);
        assert(all.skip(all.len() as int) =~= Seq::<Seq<char>>::empty());
        assert(text::join(all.skip(all.len() as int), "\n"@) =~= Seq::<char>::empty());
    }
    while going && k < lines.len() && k < max_lines
        invariant
            k <= lines@.len(),
            k <= max_lines,
            all == text::texts(lines@),
            all == counted_lines(content@),
            out_bytes == joined_bytes(all.skip(all.len() - k)),
            out_bytes <= max_bytes,
            joined_bytes(all) <= total_bytes,
            tail_count(all, max_lines as nat, max_bytes as nat, 0) == tail_count(
                all,
                max_lines as nat,
                max_bytes as nat,
                k as nat,
            ),
            !going ==> k < lines@.len() && k < max_lines && joined_bytes(
                all.skip(all.len() - k - 1),
            ) > max_bytes,
        decreases lines@.len() - k, if going { 1int } else { 0 },
    {
        let at: usize = lines.len() - k - 1;
        proof {
            lemma_joined_suffix(all, k as int);
            assert(all[at as int] == lines@[at as int]@);
        }
        let mut line_bytes: usize = byte_count(lines[at].as_str());
        if k > 0 {
            line_bytes += 1;
        }
        if out_bytes + line_bytes > max_bytes {
            going = false;
        } else {
            out_bytes += line_bytes;
            k += 1;
        }
    }
    if k == 0 && lines.len() > 0 {
        let mut out: Vec<String> = Vec::new();
        let last = truncate_string_to_bytes_from_end(
            lines[lines.len() - 1].as_str(),
            max_bytes,
        );
        assert(all.last() == lines@[lines@.len() - 1]@);
        let ghost shown = last@;
        out.push(last);
        assert(text::texts(out@) =~= seq![shown]);
        return cut_result(
            content,
            &out,
            total_lines <= max_lines || max_lines > 1,
            true,
            total_lines,
            total_bytes,
            max_lines,
            max_bytes,
        );
    }
    let by_bytes = total_lines <= max_lines || k < max_lines;
    let mut kept = lines;
    let out = kept.split_off(total_lines - k);
    assert(text::texts(out@) =~= all.skip(all.len() - k));
    cut_result(content, &out, by_bytes, false, total_lines, total_bytes, max_lines, max_bytes)
}

// ---------------------------------------------------------------------------
// What holds of every truncation
// ---------------------------------------------------------------------------

proof fn lemma_head_count(lines: Seq<Seq<char>>, max_lines: nat, max_bytes: nat, k: nat)
    requires
        k <= lines.len(),
        k <= max_lines,
        joined_bytes(lines.take(k as int)) <= max_bytes,
    ensures
        ({
            let n = head_count(lines, max_lines, max_bytes, k);
            &&& k <= n <= lines.len()
            &&& n <= max_lines
            &&& joined_bytes(lines.take(n as int)) <= max_bytes
            &&& (n == lines.len() || n == max_lines || joined_bytes(lines.take(n as int + 1))
                > max_bytes)
        }),
    decreases lines.len() - k,
{
    if k < lines.len() && k < max_lines && joined_bytes(lines.take(k as int + 1)) <= max_bytes {
        lemma_head_count(lines, max_lines, max_bytes, k + 1);
    }
}

proof fn lemma_tail_count(lines: Seq<Seq<char>>, max_lines: nat, max_bytes: nat, k: nat)
    requires
        k <= lines.len(),
        k <= max_lines,
        joined_bytes(lines.skip(lines.len() - k)) <= max_bytes,
    ensures
        ({
            let n = tail_count(lines, max_lines, max_bytes, k);
            &&& k <= n <= lines.len()
            &&& n <= max_lines
            &&& joined_bytes(lines.skip(lines.len() - n)) <= max_bytes
            &&& (n == lines.len() || n == max_lines || joined_bytes(
                lines.skip(lines.len() - n - 1),
            ) > max_bytes)
        }),
    decreases lines.len() - k,
{
    if k < lines.len() && k < max_lines && joined_bytes(lines.skip(lines.len() - k - 1))
        <= max_bytes {
        lemma_tail_count(lines, max_lines, max_bytes, k + 1);
    }
}

proof fn lemma_tail_chars(s: Seq<char>, max_bytes: nat, k: nat)
    requires
        k <= s.len(),
        text::byte_len(s.skip(s.len() - k)) <= max_bytes,
    ensures
        k <= tail_chars(s, max_bytes, k) <= s.len(),
        text::byte_len(s.skip(s.len() - tail_chars(s, max_bytes, k))) <= max_bytes,
    decreases s.len() - k,
{
    if k < s.len() && text::byte_len(s.skip(s.len() - k - 1)) <= max_bytes {
        lemma_tail_chars(s, max_bytes, k + 1);
    }
}

/// Head truncation stays within both bounds, says how much it kept, and keeps
/// as many first lines as fit.
pub proof fn law_head_is_bounded(content: Seq<char>, max_lines: nat, max_bytes: nat)
    ensures
        ({
            let r = head(content, max_lines, max_bytes);
            &&& r.output_lines <= max_lines
            &&& r.output_bytes <= max_bytes
            &&& r.output_bytes == text::byte_len(r.content)
            &&& !r.truncated ==> r.content == content
            &&& r.truncated <==> !within(content, max_lines, max_bytes)
        }),
{
    let lines = counted_lines(content);
    assert(lines.take(0) =~= Seq::<Seq<char>>::empty());
    assert(text::join(lines.take(0), "\n"@) =~= Seq::<char>::empty());
    assert(text::join(Seq::<Seq<char>>::empty(), "\n"@) =~= Seq::<char>::empty());
    lemma_head_count(lines, max_lines, max_bytes, 0);
}

/// Tail truncation stays within both bounds, says how much it kept, and keeps
/// as many last lines as fit.
pub proof fn law_tail_is_bounded(content: Seq<char>, max_lines: nat, max_bytes: nat)
    requires
        max_lines > 0,
    ensures
        ({
            let r = tail(content, max_lines, max_bytes);
            &&& r.output_lines <= max_lines
            &&& r.output_bytes <= max_bytes
            &&& r.output_bytes == text::byte_len(r.content)
            &&& !r.truncated ==> r.content == content
            &&& r.truncated <==> !within(content, max_lines, max_bytes)
        }),
{
    let lines = counted_lines(content);
    assert(lines.skip(lines.len() as int) =~= Seq::<Seq<char>>::empty());
    assert(text::join(lines.skip(lines.len() as int), "\n"@) =~= Seq::<char>::empty());
    lemma_tail_count(lines, max_lines, max_bytes, 0);
    if lines.len() > 0 {
        let last = lines.last();
        assert(last.skip(last.len() as int) =~= Seq::<char>::empty());
        lemma_tail_chars(last, max_bytes, 0);
        assert(text::join(seq![byte_tail(last, max_bytes)], "\n"@) == byte_tail(last, max_bytes));
    }
}

/// What a truncation names as its trigger is a bound that the text exceeds, so
/// that a text with few enough lines is never said to be cut for its lines.
pub proof fn law_trigger_is_exceeded(content: Seq<char>, max_lines: nat, max_bytes: nat)
    requires
        max_lines > 0,
        !within(content, max_lines, max_bytes),
    ensures
        ({
            let h = head(content, max_lines, max_bytes);
            let t = tail(content, max_lines, max_bytes);
            &&& h.truncated && t.truncated
            &&& h.total_lines <= max_lines ==> h.truncated_by == "bytes"@
            &&& t.total_lines <= max_lines ==> t.truncated_by == "bytes"@
            &&& h.total_bytes <= max_bytes ==> h.truncated_by == "lines"@
            &&& t.total_bytes <= max_bytes ==> t.truncated_by == "lines"@
        }),
{
    let lines = counted_lines(content);
    assert(lines.take(0) =~= Seq::<Seq<char>>::empty());
    assert(lines.skip(lines.len() as int) =~= Seq::<Seq<char>>::empty());
    assert(text::join(lines.take(0), "\n"@) =~= Seq::<char>::empty());
    lemma_lines_fit(content);
    lemma_head_count(lines, max_lines, max_bytes, 0);
    lemma_tail_count(lines, max_lines, max_bytes, 0);
    lemma_joined_prefix(lines, 0);
    lemma_joined_prefix(lines, head_count(lines, max_lines, max_bytes, 0) as int);
    lemma_joined_suffix(lines, tail_count(lines, max_lines, max_bytes, 0) as int);
}

/// Head truncation by lines alone keeps a beginning of the lines, tail
/// truncation an end of them.
pub proof fn law_kept_lines_are_contiguous(content: Seq<char>, max_lines: nat, max_bytes: nat)
    requires
        !within(content, max_lines, max_bytes),
    ensures
        ({
            let lines = counted_lines(content);
            let h = head(content, max_lines, max_bytes);
            let t = tail(content, max_lines, max_bytes);
            &&& !h.first_line_exceeds_limit ==> h.content == text::join(
                lines.take(h.output_lines as int),
                "\n"@,
            )
            &&& !t.last_line_partial ==> t.content == text::join(
                lines.skip(lines.len() - t.output_lines),
                "\n"@,
            )
        }),
{
    let lines = counted_lines(content);
    assert(lines.take(0) =~= Seq::<Seq<char>>::empty());
    assert(lines.skip(lines.len() as int) =~= Seq::<Seq<char>>::empty());
    assert(text::join(lines.take(0), "\n"@) =~= Seq::<char>::empty());
    lemma_head_count(lines, max_lines, max_bytes, 0);
    lemma_tail_count(lines, max_lines, max_bytes, 0);
}

} // verus!
