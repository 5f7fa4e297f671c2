//! Read-only lookup with the DuckDuckGo Instant Answer API.

use crate::json;
use crate::json::Json;
use crate::text;
use crate::text::{
    chars_of, find_from, is_blank, join_texts, same_text, starts_with, text_between,
    to_ascii_lower, trim,
};
use crate::truncate;
use crate::truncate::truncate_head;
use vstd::prelude::*;
use vstd::string::*;
use vstd::utf8::*;

verus! {

/// Hard cap on the number of results.
pub const MAX_RESULTS_CAP: i64 = 10;

pub const DEFAULT_MAX_RESULTS: i64 = 5;

/// Timeout for the request, in seconds. It covers connect and body.
pub const REQUEST_TIMEOUT_SECS: u64 = 15;

/// Output byte budget.
pub const OUTPUT_MAX_BYTES: usize = 4096;

/// One rendered search result.
#[derive(Debug, PartialEq, Eq)]
pub struct SearchResult {
    pub title: String,
    pub url: String,
    pub snippet: String,
}

/// The model of a result.
#[verifier::ext_equal]
pub struct ResultModel {
    pub title: Seq<char>,
    pub url: Seq<char>,
    pub snippet: Seq<char>,
}

impl View for SearchResult {
    type V = ResultModel;

    open spec fn view(&self) -> ResultModel {
        ResultModel { title: self.title@, url: self.url@, snippet: self.snippet@ }
    }
}

/// The models of results.
pub open spec fn models(v: Seq<SearchResult>) -> Seq<ResultModel> {
    v.map_values(|r: SearchResult| r@)
}

/// Whether a value of `PI_OFFLINE` switches the network off.
pub open spec fn offline(value: Option<Seq<char>>) -> bool {
    match value {
        Some(v) => {
            let word = text::ascii_lower(text::trimmed(v));
            word == "1"@ || word == "true"@ || word == "yes"@
        },
        None => false,
    }
}

/// Whether a value of `PI_OFFLINE` switches the network off: `1`, `true` and
/// `yes` do, in any case and with space around them.
pub fn offline_disabled_from(value: Option<&str>) -> (r: bool)
    ensures
        r == offline(
            match value {
                Some(v) => Some(v@),
                None => None,
            },
        ),
{
    match value {
        Some(v) => {
            let word = to_ascii_lower(trim(v).as_str());
            same_text(word.as_str(), "1") || same_text(word.as_str(), "true") || same_text(
                word.as_str(),
                "yes",
            )
        },
        None => false,
    }
}

// ---------------------------------------------------------------------------
// The request
// ---------------------------------------------------------------------------

/// Whether a byte stands for itself in a query string.
pub open spec fn unreserved(b: u8) -> bool {
    (65 <= b <= 90) || (97 <= b <= 122) || (48 <= b <= 57) || b == 45 || b == 95 || b == 46 || b
        == 126
}

/// The upper-case hexadecimal digit with the value `d`.
pub open spec fn hex_upper(d: nat) -> char {
    if d < 10 {
        ('0' as int + d) as char
    } else {
        ('A' as int + d - 10) as char
    }
}

/// A byte in a query string.
pub open spec fn escaped_byte(b: u8) -> Seq<char> {
    if unreserved(b) {
        seq![b as char]
    } else {
        seq!['%', hex_upper((b / 16) as nat), hex_upper((b % 16) as nat)]
    }
}

/// Bytes in a query string.
pub open spec fn escaped(bytes: Seq<u8>) -> Seq<char>
    decreases bytes.len(),
{
    if bytes.len() == 0 {
        Seq::empty()
    } else {
        escaped(bytes.drop_last()) + escaped_byte(bytes.last())
    }
}

fn hex_upper_char(d: u8) -> (c: char)
    requires
        d < 16,
    ensures
        c == hex_upper(d as nat),
{
    match d {
        0 => '0',
        1 => '1',
        2 => '2',
        3 => '3',
        4 => '4',
        5 => '5',
        6 => '6',
        7 => '7',
        8 => '8',
        9 => '9',
        10 => 'A',
        11 => 'B',
        12 => 'C',
        13 => 'D',
        14 => 'E',
        _ => 'F',
    }
}

/// Percent-encodes everything but letters, digits, `-`, `_`, `.` and `~`.
pub fn url_escape(input: &str) -> (r: String)
    ensures
        r@ == escaped(encode_utf8(input@)),
{
    let bytes = input.as_bytes();
    let mut out = String::new();
    let mut i: usize = 0;
    assert(bytes@.take(0) =~= Seq::<u8>::empty());
    while i < bytes.len()
        invariant
            i <= bytes@.len(),
            out@ == escaped(bytes@.take(i as int)),
        decreases bytes@.len() - i,
    {
        let b: u8 = bytes[i];
        let ghost before = out@;
        assert(bytes@.take(i + 1).drop_last() =~= bytes@.take(i as int));
        if (65 <= b && b <= 90) || (97 <= b && b <= 122) || (48 <= b && b <= 57) || b == 45 || b
            == 95 || b == 46 || b == 126 {
            out.push(b as char);
            assert(out@ =~= before + escaped_byte(b));
        } else {
            out.push('%');
            out.push(hex_upper_char(b / 16));
            out.push(hex_upper_char(b % 16));
            assert(out@ =~= before + escaped_byte(b));
        }
        i += 1;
    }
    assert(bytes@.take(bytes@.len() as int) =~= bytes@);
    out
}

/// The request for a query.
pub open spec fn request_url(query: Seq<char>) -> Seq<char> {
    "https://api.duckduckgo.com/?q="@ + escaped(encode_utf8(query))
        + "&format=json&no_html=1&skip_disambig=1&t=rpi"@
}

/// The request for a query.
pub fn build_url(query: &str) -> (r: String)
    ensures
        r@ == request_url(query@),
{
    "https://api.duckduckgo.com/?q=".to_owned().concat(url_escape(query).as_str()).concat(
        "&format=json&no_html=1&skip_disambig=1&t=rpi",
    )
}

/// A search that may go on the network.
#[derive(Debug, PartialEq, Eq)]
pub struct SearchPlan {
    pub url: String,
    pub max_results: usize,
}

/// The number of results that apply: at least one, at most the cap.
pub open spec fn clamped(max_results: Option<i64>) -> int {
    let n = match max_results {
        Some(n) => n,
        None => DEFAULT_MAX_RESULTS,
    };
    if n < 1 {
        1
    } else if n > MAX_RESULTS_CAP {
        MAX_RESULTS_CAP as int
    } else {
        n as int
    }
}

/// Why a search is not made, if it is not.
pub open spec fn search_fault(offline: bool, query: Seq<char>) -> Option<Seq<char>> {
    if offline {
        Some("web_search is disabled while PI_OFFLINE is set"@)
    } else if text::blank(query) {
        Some("query must not be empty"@)
    } else {
        None
    }
}

/// Checks a search before anything goes on the network.
pub fn plan_search(offline: bool, query: &str, max_results: Option<i64>) -> (r: Result<
    SearchPlan,
    String,
>)
    ensures
        r is Ok <==> search_fault(offline, query@) is None,
        r matches Err(e) ==> search_fault(offline, query@) == Some(e@),
        r is Ok <==> !offline && !text::blank(query@),
        match r {
            Ok(plan) => plan.url@ == request_url(query@) && plan.max_results == clamped(
                max_results,
            ),
            Err(e) => e@ == (if offline {
                "web_search is disabled while PI_OFFLINE is set"@
            } else {
                "query must not be empty"@
            }),
        },
{
    if offline {
        return Err("web_search is disabled while PI_OFFLINE is set".to_owned());
    }
    if is_blank(query) {
        return Err("query must not be empty".to_owned());
    }
    let n: i64 = match max_results {
        Some(n) => n,
        None => DEFAULT_MAX_RESULTS,
    };
    let max_results: usize = if n < 1 {
        1
    } else if n > MAX_RESULTS_CAP {
        MAX_RESULTS_CAP as usize
    } else {
        n as usize
    };
    Ok(SearchPlan { url: build_url(query), max_results })
}

// ---------------------------------------------------------------------------
// The response
// ---------------------------------------------------------------------------

/// The text under a key, or nothing.
pub open spec fn text_or_empty(v: Json, key: Seq<char>) -> Seq<char> {
    match json::text_field(v, key) {
        Some(s) => s,
        None => Seq::empty(),
    }
}

/// The list under a key.
pub open spec fn list_field(v: Json, key: Seq<char>) -> Option<Seq<Json>> {
    match json::field(v, key) {
        Some(Json::List(items)) => Some(items@),
        _ => None,
    }
}

/// Title and snippet of a text: what stands before and behind the first ` - `,
/// or no title.
pub open spec fn split_title(s: Seq<char>) -> (Seq<char>, Seq<char>) {
    let t = text::trimmed(s);
    match text::first_at(t, " - "@, 0) {
        Some(at) => (text::trimmed(t.take(at)), text::trimmed(t.skip(at + 3))),
        None => (Seq::empty(), t),
    }
}

/// A topic as a result.
pub open spec fn topic_result(topic: Json) -> ResultModel {
    let (title, snippet) = split_title(text_or_empty(topic, "Text"@));
    ResultModel { title, url: text_or_empty(topic, "FirstURL"@), snippet }
}

/// Results with those of the first `n` topics behind them, until there are
/// `max`. A group is entered, but not a group within a group. A topic without a
/// link, or with one that has no protocol, is passed over.
pub open spec fn collected(
    topics: Seq<Json>,
    n: nat,
    out: Seq<ResultModel>,
    max: nat,
    enter: bool,
) -> Seq<ResultModel>
    decreases
            if enter {
                1int
            } else {
                0
            },
            n,
{
    if n == 0 {
        out
    } else {
        let before = collected(topics, (n - 1) as nat, out, max, enter);
        let topic = topics[n - 1];
        let url = text_or_empty(topic, "FirstURL"@);
        if before.len() >= max {
            before
        } else if text_or_empty(topic, "Text"@).len() == 0 && url.len() == 0 {
            match list_field(topic, "Topics"@) {
                Some(inner) => if enter {
                    collected(inner, inner.len(), before, max, false)
                } else {
                    before
                },
                None => before,
            }
        } else if url.len() == 0 || "//"@.is_prefix_of(url) {
            before
        } else {
            before.push(topic_result(topic))
        }
    }
}

/// The abstract of a response, where it has one.
pub open spec fn abstract_results(body: Json) -> Seq<ResultModel> {
    let heading = text::trimmed(text_or_empty(body, "Heading"@));
    let summary = text::trimmed(text_or_empty(body, "AbstractText"@));
    let url = text::trimmed(text_or_empty(body, "AbstractURL"@));
    if summary.len() == 0 && url.len() == 0 {
        Seq::empty()
    } else {
        seq![
            ResultModel {
                title: if heading.len() == 0 {
                    url
                } else {
                    heading
                },
                url,
                snippet: summary,
            },
        ]
    }
}

/// The results of a response: the abstract first, then the related topics.
pub open spec fn parsed(body: Json, max_results: nat) -> Seq<ResultModel> {
    let max = if max_results < 1 {
        1
    } else {
        max_results
    };
    match list_field(body, "RelatedTopics"@) {
        Some(topics) => collected(topics, topics.len(), abstract_results(body), max, true),
        None => abstract_results(body),
    }
}

fn text_at(v: &Json, key: &str) -> (r: String)
    ensures
        r@ == text_or_empty(*v, key@),
{
    match v.text_at(key) {
        Some(s) => s.to_owned(),
        None => {
            let r = String::new();
            assert(r@ =~= Seq::<char>::empty());
            r
        },
    }
}

fn list_at<'a>(v: &'a Json, key: &str) -> (r: Option<&'a Vec<Json>>)
    ensures
        match r {
            Some(items) => list_field(*v, key@) == Some(items@),
            None => list_field(*v, key@) is None,
        },
{
    match v.get(key) {
        Some(Json::List(items)) => Some(items),
        _ => None,
    }
}

/// Splits a text into title and snippet at the first ` - `.
pub fn split_text(s: &str) -> (r: (String, String))
    ensures
        (r.0@, r.1@) == split_title(s@),
{
    let trimmed = trim(s);
    let chars = chars_of(trimmed.as_str());
    let needle = chars_of(" - ");
    proof {
        reveal_strlit(" - ");
    }
    match find_from(chars.as_slice(), needle.as_slice(), 0) {
        Some(at) => {
            proof {
                text::lemma_first_at(chars@, needle@, 0);
                assert(at + 3 <= chars@.len());
            }
            let end: usize = chars.len();
            let head = text_between(chars.as_slice(), 0, at);
            let tail = text_between(chars.as_slice(), at + 3, end);
            assert(head@ =~= chars@.take(at as int));
            assert(tail@ =~= chars@.skip(at + 3));
            (trim(head.as_str()), trim(tail.as_str()))
        },
        None => {
            let none = String::new();
            assert(none@ =~= Seq::<char>::empty());
            (none, trimmed)
        },
    }
}

fn collect_inner(topics: &Vec<Json>, out: &mut Vec<SearchResult>, max_results: usize)
    ensures
        models(final(out)@) == collected(
            topics@,
            topics@.len(),
            models(old(out)@),
            max_results as nat,
            false,
        ),
{
    let ghost start = models(out@);
    let mut i: usize = 0;
    while i < topics.len()
        invariant
            i <= topics@.len(),
            models(out@) == collected(topics@, i as nat, start, max_results as nat, false),
        decreases topics@.len() - i,
    {
        if out.len() < max_results {
            let topic = &topics[i];
            let text = text_at(topic, "Text");
            let url = text_at(topic, "FirstURL");
            if !(text.as_str().is_empty() && url.as_str().is_empty()) && !url.as_str().is_empty()
                && !starts_with(url.as_str(), "//") {
                let (title, snippet) = split_text(text.as_str());
                let ghost before = out@;
                let item = SearchResult { title, url, snippet };
                out.push(item);
                assert(models(out@) =~= models(before).push(item@));
            }
        }
        i += 1;
    }
}

fn collect_topics(topics: &Vec<Json>, out: &mut Vec<SearchResult>, max_results: usize)
    ensures
        models(final(out)@) == collected(
            topics@,
            topics@.len(),
            models(old(out)@),
            max_results as nat,
            true,
        ),
{
    let ghost start = models(out@);
    let mut i: usize = 0;
    while i < topics.len()
        invariant
            i <= topics@.len(),
            models(out@) == collected(topics@, i as nat, start, max_results as nat, true),
        decreases topics@.len() - i,
    {
        if out.len() < max_results {
            let topic = &topics[i];
            let text = text_at(topic, "Text");
            let url = text_at(topic, "FirstURL");
            if text.as_str().is_empty() && url.as_str().is_empty() {
                if let Some(inner) = list_at(topic, "Topics") {
                    collect_inner(inner, out, max_results);
                }
            } else if !url.as_str().is_empty() && !starts_with(url.as_str(), "//") {
                let (title, snippet) = split_text(text.as_str());
                let ghost before = out@;
                let item = SearchResult { title, url, snippet };
                out.push(item);
                assert(models(out@) =~= models(before).push(item@));
            }
        }
        i += 1;
    }
}

/// The results of a response: the abstract first, where there is one, then the
/// related topics, with the topics of a group in its place.
pub fn parse_ddg_response(body: &Json, max_results: usize) -> (r: Vec<SearchResult>)
    ensures
        models(r@) == parsed(*body, max_results as nat),
{
    let max: usize = if max_results < 1 {
        1
    } else {
        max_results
    };
    let mut out: Vec<SearchResult> = Vec::new();
    let heading = trim(text_at(body, "Heading").as_str());
    let summary = trim(text_at(body, "AbstractText").as_str());
    let url = trim(text_at(body, "AbstractURL").as_str());
    assert(models(out@) =~= Seq::<ResultModel>::empty());
    if !summary.as_str().is_empty() || !url.as_str().is_empty() {
        let title = if heading.as_str().is_empty() {
            url.clone()
        } else {
            heading
        };
        let item = SearchResult { title, url, snippet: summary };
        out.push(item);
        assert(models(out@) =~= abstract_results(*body));
    }
    if let Some(topics) = list_at(body, "RelatedTopics") {
        collect_topics(topics, &mut out, max);
    }
    out
}

/// The lines of a result; empty parts are left out.
pub open spec fn block_lines(r: ResultModel) -> Seq<Seq<char>> {
    let a = if r.title.len() > 0 {
        seq![r.title]
    } else {
        Seq::empty()
    };
    let b = if r.url.len() > 0 {
        a.push(r.url)
    } else {
        a
    };
    if r.snippet.len() > 0 {
        b.push(r.snippet)
    } else {
        b
    }
}

/// A result as a block of lines.
pub open spec fn block(r: ResultModel) -> Seq<char> {
    text::join(block_lines(r), "\n"@)
}

/// Results as blocks with a rule between them.
pub open spec fn rendered(results: Seq<ResultModel>) -> Seq<char> {
    if results.len() == 0 {
        "No results"@
    } else {
        text::join(results.map_values(|r: ResultModel| block(r)), "\n---\n"@)
    }
}

/// Results as blocks with a rule between them.
pub fn format_results(results: &Vec<SearchResult>) -> (r: String)
    ensures
        r@ == rendered(models(results@)),
{
    if results.len() == 0 {
        return "No results".to_owned();
    }
    let ghost wanted = models(results@).map_values(|r: ResultModel| block(r));
    let mut blocks: Vec<String> = Vec::new();
    let mut i: usize = 0;
    assert(text::texts(blocks@) =~= wanted.take(0));
    while i < results.len()
        invariant
            i <= results@.len(),
            wanted == models(results@).map_values(|r: ResultModel| block(r)),
            text::texts(blocks@) == wanted.take(i as int),
        decreases results@.len() - i,
    {
        let item = &results[i];
        let mut lines: Vec<String> = Vec::new();
        assert(text::texts(lines@) =~= Seq::<Seq<char>>::empty());
        if !item.title.as_str().is_empty() {
            text::push_text(&mut lines, item.title.as_str());
            assert(text::texts(lines@) =~= seq![item.title@]);
        }
        if !item.url.as_str().is_empty() {
            text::push_text(&mut lines, item.url.as_str());
        }
        if !item.snippet.as_str().is_empty() {
            text::push_text(&mut lines, item.snippet.as_str());
        }
        assert(text::texts(lines@) == block_lines(item@));
        let block = join_texts(&lines, "\n");
        text::push_text(&mut blocks, block.as_str());
        assert(wanted[i as int] == block@);
        assert(wanted.take(i as int).push(wanted[i as int]) =~= wanted.take(i + 1));
        i += 1;
    }
    assert(wanted.take(results@.len() as int) =~= wanted);
    join_texts(&blocks, "\n---\n")
}

/// What a search gives back: the results as blocks, within the byte budget.
pub fn render_search(body: &Json, max_results: usize) -> (r: String)
    ensures
        r@ == truncate::head(
            rendered(parsed(*body, max_results as nat)),
            usize::MAX as nat,
            OUTPUT_MAX_BYTES as nat,
        ).content,
{
    let results = parse_ddg_response(body, max_results);
    let output = format_results(&results);
    truncate_head(output.as_str(), usize::MAX, OUTPUT_MAX_BYTES).content
}

proof fn lemma_collected_bound(
    topics: Seq<Json>,
    n: nat,
    out: Seq<ResultModel>,
    max: nat,
    enter: bool,
)
    requires
        out.len() <= max,
    ensures
        collected(topics, n, out, max, enter).len() <= max,
    decreases
            if enter {
                1int
            } else {
                0
            },
            n,
{
    if n > 0 {
        lemma_collected_bound(topics, (n - 1) as nat, out, max, enter);
        let before = collected(topics, (n - 1) as nat, out, max, enter);
        match list_field(topics[n - 1], "Topics"@) {
            Some(inner) => {
                if enter {
                    lemma_collected_bound(inner, inner.len(), before, max, false);
                }
            },
            None => {},
        }
    }
}

/// A response never gives more results than were asked for, nor less than one
/// place.
pub proof fn law_results_are_bounded(body: Json, max_results: nat)
    ensures
        parsed(body, max_results).len() <= (if max_results < 1 {
            1
        } else {
            max_results
        }),
{
    let max = if max_results < 1 {
        1
    } else {
        max_results
    };
    match list_field(body, "RelatedTopics"@) {
        Some(topics) => {
            lemma_collected_bound(topics, topics.len(), abstract_results(body), max, true);
        },
        None => {},
    }
}

/// A query string holds nothing but unreserved characters and `%`.
pub proof fn law_escaped_is_safe(bytes: Seq<u8>, i: int)
    requires
        0 <= i < escaped(bytes).len(),
    ensures
        ({
            let c = escaped(bytes)[i];
            ('a' <= c <= 'z') || ('A' <= c <= 'Z') || ('0' <= c <= '9') || c == '-' || c == '_'
                || c == '.' || c == '~' || c == '%'
        }),
    decreases bytes.len(),
{
    if bytes.len() > 0 {
        let front = escaped(bytes.drop_last());
        if i < front.len() {
            law_escaped_is_safe(bytes.drop_last(), i);
        } else {
            let b = bytes.last();
            assert(escaped(bytes)[i] == escaped_byte(b)[i - front.len()]);
        }
    }
}

} // verus!
