//! How a path that a tool was given becomes the path of a file.

use crate::lexical_path;
use crate::lexical_path::{is_absolute, is_within, parent_path};
use crate::text;
use crate::text::{
    chars_of, join_texts, push_text, same_text, split, strip_prefix, text_between, to_lower_char,
};
use unicode_normalization::UnicodeNormalization;
use vstd::prelude::*;
use vstd::string::*;

verus! {

/// The space that stands before AM and PM in the names of macOS screenshots.
pub const NARROW_NO_BREAK_SPACE: char = '\u{202F}';

// ---------------------------------------------------------------------------
// Spaces and quotes
// ---------------------------------------------------------------------------

/// Whether a character counts as a space in a path.
pub open spec fn path_space(c: char) -> bool {
    c == ' ' || c == '\u{00A0}' || ('\u{2000}' <= c <= '\u{200A}') || c == '\u{202F}' || c
        == '\u{205F}' || c == '\u{3000}'
}

/// A text with plain spaces.
pub open spec fn folded(s: Seq<char>) -> Seq<char> {
    s.map_values(|c: char| if path_space(c) { ' ' } else { c })
}

/// Folds the Unicode spaces to a plain one.
pub fn fold_unicode_spaces(s: &str) -> (r: String)
    ensures
        r@ == folded(s@),
{
    let chars = chars_of(s);
    let mut r = String::new();
    let mut i: usize = 0;
    assert(r@ =~= folded(s@).take(0));
    while i < chars.len()
        invariant
            i <= chars@.len(),
            chars@ == s@,
            r@ == folded(s@).take(i as int),
        decreases chars@.len() - i,
    {
        let c = chars[i];
        if c == ' ' || c == '\u{00A0}' || ('\u{2000}' <= c && c <= '\u{200A}') || c == '\u{202F}'
            || c == '\u{205F}' || c == '\u{3000}' {
            r.push(' ');
        } else {
            r.push(c);
        }
        assert(folded(s@).take(i as int).push(folded(s@)[i as int]) =~= folded(s@).take(i + 1));
        i += 1;
    }
    assert(folded(s@).take(s@.len() as int) =~= folded(s@));
    r
}

/// A text with curly quotes.
pub open spec fn curled(s: Seq<char>) -> Seq<char> {
    s.map_values(|c: char| if c == '\'' { '\u{2019}' } else { c })
}

fn with_curly_quotes(s: &str) -> (r: String)
    ensures
        r@ == curled(s@),
{
    let chars = chars_of(s);
    let mut r = String::new();
    let mut i: usize = 0;
    assert(r@ =~= curled(s@).take(0));
    while i < chars.len()
        invariant
            i <= chars@.len(),
            chars@ == s@,
            r@ == curled(s@).take(i as int),
        decreases chars@.len() - i,
    {
        if chars[i] == '\'' {
            r.push('\u{2019}');
        } else {
            r.push(chars[i]);
        }
        assert(curled(s@).take(i as int).push(curled(s@)[i as int]) =~= curled(s@).take(i + 1));
        i += 1;
    }
    assert(curled(s@).take(s@.len() as int) =~= curled(s@));
    r
}

/// Whether ` AM.` or ` PM.` stands at a place, in any case.
pub open spec fn half_day_at(s: Seq<char>, i: int) -> bool {
    &&& 0 <= i
    &&& i + 4 <= s.len()
    &&& s[i] == ' '
    &&& text::lower_char(s[i + 1]) == 'a' || text::lower_char(s[i + 1]) == 'p'
    &&& text::lower_char(s[i + 2]) == 'm'
    &&& s[i + 3] == '.'
}

/// A text with the narrow space before AM and PM.
pub open spec fn narrowed(s: Seq<char>) -> Seq<char> {
    Seq::new(
        s.len(),
        |i: int|
            if half_day_at(s, i) {
                NARROW_NO_BREAK_SPACE
            } else {
                s[i]
            },
    )
}

/// The name that macOS gives a screenshot: a narrow no-break space stands before
/// `AM.` and `PM.`, in any case.
pub fn mac_ampm_variant(p: &str) -> (r: String)
    ensures
        r@ == narrowed(p@),
{
    let chars = chars_of(p);
    let mut r = String::new();
    let mut i: usize = 0;
    let n: usize = chars.len();
    assert(r@ =~= narrowed(p@).take(0));
    while i < n
        invariant
            i <= n,
            n == chars@.len(),
            chars@ == p@,
            r@ == narrowed(p@).take(i as int),
        decreases n - i,
    {
        let half_day: bool = n - i >= 4 && chars[i] == ' ' && (to_lower_char(chars[i + 1]) == 'a'
            || to_lower_char(chars[i + 1]) == 'p') && to_lower_char(chars[i + 2]) == 'm'
            && chars[i + 3] == '.';
        assert(half_day == half_day_at(p@, i as int));
        if half_day {
            r.push(NARROW_NO_BREAK_SPACE);
        } else {
            r.push(chars[i]);
        }
        assert(narrowed(p@).take(i as int).push(narrowed(p@)[i as int]) =~= narrowed(p@).take(
            i + 1,
        ));
        i += 1;
    }
    assert(narrowed(p@).take(n as int) =~= narrowed(p@));
    r
}

/// What `UnicodeNormalization::nfd` decomposes a text to.
pub uninterp spec fn nfd_of(s: Seq<char>) -> Seq<char>;

/// Canonical decomposition, as `UnicodeNormalization::nfd` of
/// `unicode-normalization` gives it. It depends on the text alone; the Unicode
/// tables behind it are left unsaid.
#[verifier::external_body]
pub(crate) fn nfd(s: &str) -> (r: String)
    ensures
        r@ == nfd_of(s@),
{
    s.nfd().collect()
}

// ---------------------------------------------------------------------------
// Cleaning
// ---------------------------------------------------------------------------

/// What is left of the first `n` pieces of a path: empty pieces and `.` go, and
/// `..` takes the piece before it with it. At the root it goes alone.
pub open spec fn climbed(pieces: Seq<Seq<char>>, n: nat, from_root: bool) -> Seq<Seq<char>>
    decreases n,
{
    if n == 0 {
        Seq::empty()
    } else {
        let before = climbed(pieces, (n - 1) as nat, from_root);
        let piece = pieces[n - 1];
        if piece.len() == 0 || piece == "."@ {
            before
        } else if piece == ".."@ {
            if before.len() > 0 && before.last() != ".."@ {
                before.drop_last()
            } else if from_root {
                before
            } else {
                before.push(piece)
            }
        } else {
            before.push(piece)
        }
    }
}

/// The components that cleaning leaves of a path.
pub open spec fn clean_parts(path: Seq<char>) -> Seq<Seq<char>> {
    let pieces = text::split_on(path, '/');
    climbed(pieces, pieces.len(), lexical_path::absolute(path))
}

/// The path with these components. Without any it is the root or `.`.
pub open spec fn spelled(from_root: bool, parts: Seq<Seq<char>>) -> Seq<char> {
    if parts.len() == 0 && !from_root {
        "."@
    } else {
        lexical_path::rendered(from_root, parts)
    }
}

/// The shortest path that is the same by its components alone.
pub open spec fn cleaned(path: Seq<char>) -> Seq<char> {
    spelled(lexical_path::absolute(path), clean_parts(path))
}

/// Cleans a path by its components alone: repeated separators and `.` go, and
/// `..` takes the component before it with it, without crossing the root. An
/// empty path gives `.`.
pub fn clean_path(input: &str) -> (r: String)
    ensures
        r@ == cleaned(input@),
{
    let from_root: bool = is_absolute(input);
    let pieces = split(input, '/');
    let mut stack: Vec<String> = Vec::new();
    let mut i: usize = 0;
    assert(text::texts(stack@) =~= Seq::<Seq<char>>::empty());
    while i < pieces.len()
        invariant
            i <= pieces@.len(),
            text::texts(stack@) == climbed(text::texts(pieces@), i as nat, from_root),
        decreases pieces@.len() - i,
    {
        let piece = pieces[i].as_str();
        assert(text::texts(pieces@)[i as int] == piece@);
        if piece.is_empty() || same_text(piece, ".") {
            proof {
                reveal_strlit(".");
            }
        } else if same_text(piece, "..") {
            let n: usize = stack.len();
            if n > 0 && !same_text(stack[n - 1].as_str(), "..") {
                let ghost before = text::texts(stack@);
                let _gone = stack.pop();
                assert(text::texts(stack@) =~= before.drop_last());
            } else {
                if n > 0 {
                    assert(text::texts(stack@).last() == stack@[n - 1]@);
                }
                if !from_root {
                    push_text(&mut stack, "..");
                }
            }
        } else {
            push_text(&mut stack, piece);
        }
        i += 1;
    }
    if stack.len() == 0 {
        if from_root {
            let r = "/".to_owned();
            assert(text::join(text::texts(stack@), "/"@) =~= Seq::<char>::empty());
            assert(r@ =~= cleaned(input@));
            return r;
        }
        return ".".to_owned();
    }
    let joined = join_texts(&stack, "/");
    if from_root {
        "/".to_owned().concat(joined.as_str())
    } else {
        joined
    }
}

/// Whether cleaning leaves these components as they are: none is empty or `.`,
/// and `..` stands only at the start of a relative path.
pub open spec fn clean(parts: Seq<Seq<char>>, from_root: bool) -> bool {
    forall|i: int|
        #![trigger parts[i]]
        0 <= i < parts.len() ==> lexical_path::plain_part(parts[i]) && (parts[i] == ".."@ ==> (
        !from_root && forall|j: int| 0 <= j < i ==> #[trigger] parts[j] == ".."@))
}

proof fn lemma_climbed_is_clean(pieces: Seq<Seq<char>>, n: nat, from_root: bool)
    requires
        n <= pieces.len(),
        forall|i: int| 0 <= i < pieces.len() ==> !(#[trigger] pieces[i]).contains('/'),
    ensures
        clean(climbed(pieces, n, from_root), from_root),
    decreases n,
{
    if n > 0 {
        lemma_climbed_is_clean(pieces, (n - 1) as nat, from_root);
        let before = climbed(pieces, (n - 1) as nat, from_root);
        let after = climbed(pieces, n, from_root);
        let piece = pieces[n - 1];
        assert(!piece.contains('/'));
        reveal_strlit(".");
        reveal_strlit("..");
        assert forall|i: int| #![trigger after[i]] 0 <= i < after.len() implies lexical_path::plain_part(
            after[i],
        ) && (after[i] == ".."@ ==> (!from_root && forall|j: int|
            0 <= j < i ==> #[trigger] after[j] == ".."@)) by {
            if i < before.len() {
                assert(after[i] == before[i]);
                assert(forall|j: int| 0 <= j < i ==> after[j] == before[j]);
            } else {
                assert(after[i] == piece);
                if piece == ".."@ {
                    assert(before.len() > 0 ==> before.last() == ".."@);
                    assert forall|j: int| 0 <= j < i implies #[trigger] after[j] == ".."@ by {
                        assert(after[j] == before[j]);
                        assert(before[before.len() - 1] == ".."@);
                    }
                }
            }
        }
    }
}

proof fn lemma_climb_of_clean(pieces: Seq<Seq<char>>, skip: int, n: nat, from_root: bool)
    requires
        0 <= skip <= 1,
        skip <= n <= pieces.len(),
        skip == 1 ==> pieces[0].len() == 0,
        clean(pieces.subrange(skip, pieces.len() as int), from_root),
    ensures
        climbed(pieces, n, from_root) == pieces.subrange(skip, n as int),
    decreases n,
{
    let parts = pieces.subrange(skip, pieces.len() as int);
    if n == skip {
        if skip == 1 {
            assert(climbed(pieces, 0, from_root) =~= Seq::<Seq<char>>::empty());
        }
        assert(climbed(pieces, n, from_root) =~= pieces.subrange(skip, n as int));
    } else {
        lemma_climb_of_clean(pieces, skip, (n - 1) as nat, from_root);
        let before = pieces.subrange(skip, n - 1);
        let piece = pieces[n - 1];
        assert(parts[n - 1 - skip] == piece);
        if piece == ".."@ && before.len() > 0 {
            assert(before.last() == parts[n - 2 - skip]);
        }
        assert(pieces.subrange(skip, n as int) =~= before.push(piece));
    }
}

/// Cleaning leaves a clean path with the components that it says it has.
pub proof fn lemma_cleaned_parts(path: Seq<char>)
    ensures
        clean(clean_parts(path), lexical_path::absolute(path)),
        clean_parts(cleaned(path)) == clean_parts(path),
        lexical_path::absolute(cleaned(path)) == lexical_path::absolute(path),
{
    let from_root = lexical_path::absolute(path);
    let pieces = text::split_on(path, '/');
    let parts = clean_parts(path);
    text::lemma_split_pieces(path, '/');
    lemma_climbed_is_clean(pieces, pieces.len(), from_root);
    reveal_strlit("/");
    assert("/"@ =~= seq!['/']);
    reveal_strlit(".");
    let joined = text::join(parts, "/"@);
    if parts.len() > 0 {
        assert forall|i: int| 0 <= i < parts.len() implies lexical_path::plain_part(
            #[trigger] parts[i],
        ) by {}
        assert forall|i: int| 0 <= i < parts.len() implies !(#[trigger] parts[i]).contains('/') by {
            assert(lexical_path::plain_part(parts[i]));
        }
        text::lemma_split_join(parts, '/');
        lexical_path::lemma_join_starts(parts);
        if from_root {
            lexical_path::lemma_split_root(joined);
            let again = text::split_on(cleaned(path), '/');
            assert(cleaned(path) =~= seq!['/'] + joined);
            assert(again == seq![Seq::<char>::empty()] + parts);
            assert(again.subrange(1, again.len() as int) =~= parts);
            lemma_climb_of_clean(again, 1, again.len(), from_root);
        } else {
            assert(parts.subrange(0, parts.len() as int) =~= parts);
            lemma_climb_of_clean(parts, 0, parts.len(), from_root);
        }
    } else if from_root {
        assert(joined =~= Seq::<char>::empty());
        lexical_path::lemma_split_root(joined);
        let again = text::split_on(cleaned(path), '/');
        assert(cleaned(path) =~= seq!['/'] + joined);
        assert(text::split_on(joined, '/') =~= seq![Seq::<char>::empty()]);
        assert(again =~= seq![Seq::<char>::empty(), Seq::<char>::empty()]);
        assert(climbed(again, 0, true) =~= parts);
        assert(climbed(again, 1, true) =~= parts);
        assert(climbed(again, 2, true) =~= parts);
    } else {
        let dot = "."@;
        assert(!dot.contains('/')) by {
            assert forall|i: int| 0 <= i < dot.len() implies dot[i] != '/' by {}
        }
        text::lemma_split_plain(dot, '/');
        assert(climbed(seq![dot], 0, false) =~= parts);
        assert(climbed(seq![dot], 1, false) =~= parts);
    }
}

/// Cleaning a clean path changes nothing.
pub proof fn law_cleaning_is_stable(path: Seq<char>)
    ensures
        cleaned(cleaned(path)) == cleaned(path),
{
    lemma_cleaned_parts(path);
}

/// A cleaned path that starts at the root holds no `..`.
pub proof fn law_cleaned_absolute_has_no_parents(path: Seq<char>)
    requires
        lexical_path::absolute(path),
    ensures
        lexical_path::absolute(cleaned(path)),
        !clean_parts(cleaned(path)).contains(".."@),
        lexical_path::components(cleaned(path)) == clean_parts(path),
{
    lemma_cleaned_parts(path);
    let parts = clean_parts(path);
    assert forall|i: int| 0 <= i < parts.len() implies lexical_path::plain_part(#[trigger] parts[i]) by {
    }
    lexical_path::lemma_components_of_rendered(true, parts);
}

// ---------------------------------------------------------------------------
// Resolving
// ---------------------------------------------------------------------------

/// The home directory that applies; an empty one counts as none.
pub open spec fn home_text(home: Option<&str>) -> Option<Seq<char>> {
    match home {
        Some(h) => if h@.len() == 0 {
            None
        } else {
            Some(h@)
        },
        None => None,
    }
}

/// A text without a leading `@`.
pub open spec fn without_at(s: Seq<char>) -> Seq<char> {
    if s.len() > 0 && s[0] == '@' {
        s.skip(1)
    } else {
        s
    }
}

/// A `file://` address as a path. The host is ignored; an address without a path
/// stays as it is.
pub open spec fn from_address(s: Seq<char>) -> Seq<char> {
    if "file://"@.is_prefix_of(s) {
        match text::first_at(s.skip(7), "/"@, 0) {
            Some(at) => cleaned(s.skip(7).skip(at)),
            None => s,
        }
    } else {
        s
    }
}

/// The path that a tool was given, spelled out.
pub open spec fn normalized(input: Seq<char>, home: Option<Seq<char>>) -> Seq<char> {
    let s = without_at(folded(input));
    match home {
        Some(h) => if s == "~"@ {
            h
        } else if "~/"@.is_prefix_of(s) {
            cleaned(h + "/"@ + s.skip(2))
        } else {
            from_address(s)
        },
        None => from_address(s),
    }
}

fn usable_home<'a>(home: Option<&'a str>) -> (r: Option<&'a str>)
    ensures
        match r {
            Some(h) => home_text(home) == Some(h@),
            None => home_text(home) is None,
        },
{
    match home {
        Some(h) => if h.is_empty() {
            None
        } else {
            Some(h)
        },
        None => None,
    }
}

fn strip_at(s: String) -> (r: String)
    ensures
        r@ == without_at(s@),
{
    proof {
        reveal_strlit("@");
    }
    match strip_prefix(s.as_str(), "@") {
        Some(rest) => {
            assert("@"@[0] == s@[0]);
            rest
        },
        None => {
            proof {
                if s@.len() > 0 && s@[0] == '@' {
                    assert("@"@ =~= s@.take(1));
                    assert("@"@.is_prefix_of(s@));
                }
            }
            s
        },
    }
}

fn address_path(s: String) -> (r: String)
    ensures
        r@ == from_address(s@),
{
    proof {
        reveal_strlit("file://");
    }
    match strip_prefix(s.as_str(), "file://") {
        Some(rest) => {
            let chars = chars_of(rest.as_str());
            let slash = chars_of("/");
            match text::find_from(chars.as_slice(), slash.as_slice(), 0) {
                Some(at) => {
                    proof {
                        text::lemma_first_at(chars@, slash@, 0);
                    }
                    let path = text_between(chars.as_slice(), at, chars.len());
                    assert(path@ =~= rest@.skip(at as int));
                    clean_path(path.as_str())
                },
                None => s,
            }
        },
        None => s,
    }
}

/// Spells out the path that a tool was given: Unicode spaces become plain ones, a
/// leading `@` goes, `~` becomes the home directory, and a `file://` address
/// becomes its path. Spaces at the ends stay.
pub fn normalize_path(input: &str, home: Option<&str>) -> (r: String)
    ensures
        r@ == normalized(input@, home_text(home)),
{
    let s = strip_at(fold_unicode_spaces(input));
    if let Some(home) = usable_home(home) {
        if same_text(s.as_str(), "~") {
            return home.to_owned();
        }
        proof {
            reveal_strlit("~/");
        }
        if let Some(rest) = strip_prefix(s.as_str(), "~/") {
            return clean_path(
                home.to_owned().concat("/").concat(rest.as_str()).as_str(),
            );
        }
    }
    address_path(s)
}

/// The working directory with `~` expanded.
pub open spec fn base_of(cwd: Seq<char>, home: Option<Seq<char>>) -> Seq<char> {
    match home {
        Some(h) => if cwd == "~"@ {
            h
        } else if "~/"@.is_prefix_of(cwd) {
            h + "/"@ + cwd.skip(2)
        } else {
            cwd
        },
        None => cwd,
    }
}

/// The path of the file that a tool was given the path of.
pub open spec fn resolved(
    path: Seq<char>,
    cwd: Seq<char>,
    home: Option<Seq<char>>,
) -> Seq<char> {
    let n = normalized(path, home);
    if lexical_path::absolute(n) {
        cleaned(n)
    } else {
        cleaned(base_of(cwd, home) + "/"@ + n)
    }
}

/// Resolves a path against the working directory. The outcome is clean.
pub fn resolve_to_cwd(path: &str, cwd: &str, home: Option<&str>) -> (r: String)
    ensures
        r@ == resolved(path@, cwd@, home_text(home)),
{
    let normalized = normalize_path(path, home);
    if is_absolute(normalized.as_str()) {
        return clean_path(normalized.as_str());
    }
    let mut base = cwd.to_owned();
    if let Some(home) = usable_home(home) {
        proof {
            reveal_strlit("~/");
        }
        if same_text(cwd, "~") {
            base = home.to_owned();
        } else if let Some(rest) = strip_prefix(cwd, "~/") {
            base = home.to_owned().concat("/").concat(rest.as_str());
        }
    }
    clean_path(base.concat("/").concat(normalized.as_str()).as_str())
}

/// What was found out about a path on disk.
#[derive(Debug, PartialEq, Eq)]
pub struct ScopedFacts {
    /// The real path of the working directory, where it has one.
    pub root: Option<Option<String>>,
    /// Whether the path exists, then its parent, and so on.
    pub exists: Vec<bool>,
    /// The real path of what exists.
    pub real_path: Option<Result<String, String>>,
}

/// What comes next in resolving a path.
#[derive(Debug, PartialEq, Eq)]
pub enum ScopedStep {
    /// Find the real path of the working directory.
    RealRoot(String),
    /// Find out whether a path exists. A link exists also where it leads nowhere.
    Exists(String),
    /// Find the real path of what exists.
    RealPath(String),
    Failed(String),
    Done(String),
}

/// The model of a step.
#[verifier::ext_equal]
pub enum ScopedModel {
    RealRoot(Seq<char>),
    Exists(Seq<char>),
    RealPath(Seq<char>),
    Failed(Seq<char>),
    Done(Seq<char>),
}

impl View for ScopedStep {
    type V = ScopedModel;

    open spec fn view(&self) -> ScopedModel {
        match self {
            ScopedStep::RealRoot(s) => ScopedModel::RealRoot(s@),
            ScopedStep::Exists(s) => ScopedModel::Exists(s@),
            ScopedStep::RealPath(s) => ScopedModel::RealPath(s@),
            ScopedStep::Failed(s) => ScopedModel::Failed(s@),
            ScopedStep::Done(s) => ScopedModel::Done(s@),
        }
    }
}

/// The nearest path that exists on the way up from a path.
#[verifier::ext_equal]
pub enum Nearest {
    /// This path was not looked at yet.
    Ask(Seq<char>),
    Found(Seq<char>),
    /// Nothing exists up to the top.
    Nothing,
}

/// The nearest path that exists, from `from` on with the facts from `i` on.
pub open spec fn nearest(from: Seq<char>, exists: Seq<bool>, i: nat) -> Nearest
    decreases exists.len() - i,
{
    if i >= exists.len() {
        Nearest::Ask(from)
    } else if exists[i as int] {
        Nearest::Found(from)
    } else {
        match lexical_path::parent_of(from) {
            Some(up) => nearest(up, exists, i + 1),
            None => Nearest::Nothing,
        }
    }
}

/// The message for a path outside the working directory.
pub open spec fn escapes(path: Seq<char>) -> Seq<char> {
    "Path escapes working directory: "@ + path
}

/// How the place that a path stands for is checked against the working directory.
pub open spec fn placed(
    path: Seq<char>,
    target: Seq<char>,
    cwd: Seq<char>,
    facts: ScopedFacts,
) -> ScopedModel {
    let root = cleaned(cwd);
    if !lexical_path::within(target, root) {
        ScopedModel::Failed(escapes(path))
    } else {
        match facts.root {
            None => ScopedModel::RealRoot(root),
            Some(real_root) => {
                let real_root = match real_root {
                    Some(r) => r@,
                    None => root,
                };
                match nearest(target, facts.exists@, 0) {
                    Nearest::Ask(p) => ScopedModel::Exists(p),
                    Nearest::Nothing => ScopedModel::Failed(escapes(path)),
                    Nearest::Found(p) => match facts.real_path {
                        None => ScopedModel::RealPath(p),
                        Some(Err(e)) => ScopedModel::Failed(
                            "Could not resolve path "@ + path + ": "@ + e@,
                        ),
                        Some(Ok(real_path)) => if lexical_path::within(real_path@, real_root) {
                            ScopedModel::Done(target)
                        } else {
                            ScopedModel::Failed(escapes(path))
                        },
                    },
                }
            },
        }
    }
}

/// How a path is resolved within the working directory.
pub open spec fn scoped(
    path: Seq<char>,
    cwd: Seq<char>,
    home: Option<Seq<char>>,
    facts: ScopedFacts,
) -> ScopedModel {
    placed(path, resolved(path, cwd, home), cwd, facts)
}

fn check_place(path: &str, target: String, cwd: &str, facts: &ScopedFacts) -> (r: ScopedStep)
    ensures
        r@ == placed(path@, target@, cwd@, *facts),
{
    let root = clean_path(cwd);
    let escape = "Path escapes working directory: ".to_owned().concat(path);
    if !is_within(target.as_str(), root.as_str()) {
        return ScopedStep::Failed(escape);
    }
    let real_root = match &facts.root {
        None => {
            return ScopedStep::RealRoot(root);
        },
        Some(Some(real_root)) => real_root.clone(),
        Some(None) => root,
    };
    let mut at = target.clone();
    let mut i: usize = 0;
    let ghost model = placed(path@, target@, cwd@, *facts);
    let ghost start = nearest(target@, facts.exists@, 0);
    while i < facts.exists.len() && !facts.exists[i]
        invariant
            i <= facts.exists@.len(),
            nearest(at@, facts.exists@, i as nat) == start,
            start is Nothing ==> model == ScopedModel::Failed(escape@),
            model == placed(path@, target@, cwd@, *facts),
        decreases facts.exists@.len() - i,
    {
        match parent_path(at.as_str()) {
            Some(up) => {
                at = up;
            },
            None => {
                return ScopedStep::Failed(escape);
            },
        }
        i += 1;
    }
    if i >= facts.exists.len() {
        return ScopedStep::Exists(at);
    }
    match &facts.real_path {
        None => ScopedStep::RealPath(at),
        Some(Err(e)) => ScopedStep::Failed(
            "Could not resolve path ".to_owned().concat(path).concat(": ").concat(e.as_str()),
        ),
        Some(Ok(real_path)) => if is_within(real_path.as_str(), real_root.as_str()) {
            ScopedStep::Done(target)
        } else {
            ScopedStep::Failed(escape)
        },
    }
}

/// Resolves a path and refuses one outside the working directory. What exists is
/// looked at by its real path, so that no link leads outside; for a new file this
/// is the nearest directory above it that exists.
pub fn resolve_scoped_path(
    path: &str,
    cwd: &str,
    home: Option<&str>,
    facts: &ScopedFacts,
) -> (r: ScopedStep)
    ensures
        r@ == scoped(path@, cwd@, home_text(home), *facts),
{
    check_place(path, resolve_to_cwd(path, cwd, home), cwd, facts)
}

/// A path that is resolved lies in the working directory, by its components and
/// by the real path of what exists of it.
pub proof fn law_scoped_path_stays_inside(
    path: Seq<char>,
    cwd: Seq<char>,
    home: Option<Seq<char>>,
    facts: ScopedFacts,
    done: Seq<char>,
)
    requires
        scoped(path, cwd, home, facts) == ScopedModel::Done(done),
    ensures
        done == resolved(path, cwd, home),
        lexical_path::within(done, cleaned(cwd)),
        facts.real_path matches Some(Ok(real_path)) && facts.root matches Some(root)
            && lexical_path::within(
            real_path@,
            match root {
                Some(r) => r@,
                None => cleaned(cwd),
            },
        ),
{
}

/// With a working directory that starts at the root, every path resolves to a
/// clean path that does.
pub proof fn law_resolved_is_absolute(path: Seq<char>, cwd: Seq<char>, home: Option<Seq<char>>)
    requires
        lexical_path::absolute(cwd),
    ensures
        lexical_path::absolute(resolved(path, cwd, home)),
        cleaned(resolved(path, cwd, home)) == resolved(path, cwd, home),
{
    let n = normalized(path, home);
    reveal_strlit("~");
    reveal_strlit("~/");
    assert("~"@[0] != cwd[0]);
    assert(!"~/"@.is_prefix_of(cwd)) by {
        if "~/"@.is_prefix_of(cwd) {
            assert("~/"@[0] == cwd[0]);
        }
    }
    assert(base_of(cwd, home) == cwd);
    let whole = if lexical_path::absolute(n) {
        n
    } else {
        cwd + "/"@ + n
    };
    assert(lexical_path::absolute(whole));
    lemma_cleaned_parts(whole);
    law_cleaning_is_stable(whole);
}

// ---------------------------------------------------------------------------
// Reading
// ---------------------------------------------------------------------------

/// The other names under which a file may stand on macOS, in the order in which
/// they are tried, from its path and the decomposition of its path.
pub open spec fn variants(target: Seq<char>, decomposed: Seq<char>) -> Seq<Seq<char>> {
    seq![narrowed(target), decomposed, curled(target), curled(decomposed)]
}

/// The other names under which a file may stand on macOS: with a narrow space
/// before AM and PM, decomposed, with curly quotes, and with both.
pub fn read_variants(target: &str, decomposed: &str) -> (r: Vec<String>)
    ensures
        text::texts(r@) == variants(target@, decomposed@),
{
    let mut r: Vec<String> = Vec::new();
    push_text(&mut r, mac_ampm_variant(target).as_str());
    push_text(&mut r, decomposed);
    push_text(&mut r, with_curly_quotes(target).as_str());
    push_text(&mut r, with_curly_quotes(decomposed).as_str());
    assert(text::texts(r@) =~= variants(target@, decomposed@));
    r
}

/// The outcome of looking for a file under its other names.
#[derive(Debug, PartialEq, Eq)]
pub enum VariantStep {
    /// Find out whether a path exists.
    Exists(String),
    /// The file stands under this name.
    Found(String),
    /// The file stands under none of the names.
    Nowhere,
}

/// The model of a step.
#[verifier::ext_equal]
pub enum VariantModel {
    Exists(Seq<char>),
    Found(Seq<char>),
    Nowhere,
}

impl View for VariantStep {
    type V = VariantModel;

    open spec fn view(&self) -> VariantModel {
        match self {
            VariantStep::Exists(s) => VariantModel::Exists(s@),
            VariantStep::Found(s) => VariantModel::Found(s@),
            VariantStep::Nowhere => VariantModel::Nowhere,
        }
    }
}

/// The first name that exists, from position `i` on with the facts from `k` on.
/// A name that equals the path is passed over.
pub open spec fn first_variant(
    names: Seq<Seq<char>>,
    i: nat,
    target: Seq<char>,
    exists: Seq<bool>,
    k: nat,
) -> VariantModel
    decreases names.len() - i,
{
    if i >= names.len() {
        VariantModel::Nowhere
    } else if names[i as int] == target {
        first_variant(names, i + 1, target, exists, k)
    } else if k >= exists.len() {
        VariantModel::Exists(names[i as int])
    } else if exists[k as int] {
        VariantModel::Found(names[i as int])
    } else {
        first_variant(names, i + 1, target, exists, k + 1)
    }
}

fn find_variant(names: &Vec<String>, target: &str, exists: &Vec<bool>, from: usize) -> (r:
    VariantStep)
    ensures
        r@ == first_variant(text::texts(names@), 0, target@, exists@, from as nat),
{
    let mut i: usize = 0;
    let mut k: usize = from;
    let ghost texts = text::texts(names@);
    let ghost model = first_variant(texts, 0, target@, exists@, from as nat);
    while i < names.len()
        invariant
            i <= names@.len(),
            texts == text::texts(names@),
            model == first_variant(texts, 0, target@, exists@, from as nat),
            first_variant(texts, i as nat, target@, exists@, k as nat) == model,
        decreases names@.len() - i,
    {
        assert(texts[i as int] == names@[i as int]@);
        if !same_text(names[i].as_str(), target) {
            if k >= exists.len() {
                return VariantStep::Exists(names[i].clone());
            }
            if exists[k] {
                return VariantStep::Found(names[i].clone());
            }
            k += 1;
        }
        i += 1;
    }
    VariantStep::Nowhere
}

/// What was found out about a path that is to be read.
#[derive(Debug, PartialEq, Eq)]
pub struct ReadFacts {
    /// About the path itself.
    pub target: ScopedFacts,
    /// Whether the path exists, and then its other names in turn.
    pub exists: Vec<bool>,
    /// About the other name that exists.
    pub variant: ScopedFacts,
}

/// How a path that is to be read is resolved, with the decomposition of the
/// target. A name that is found is taken as it stands.
pub open spec fn readable(
    target: Seq<char>,
    decomposed: Seq<char>,
    cwd: Seq<char>,
    facts: ReadFacts,
) -> ScopedModel {
    if facts.exists@.len() == 0 {
        ScopedModel::Exists(target)
    } else if facts.exists@[0] {
        ScopedModel::Done(target)
    } else {
        match first_variant(variants(target, decomposed), 0, target, facts.exists@, 1) {
            VariantModel::Exists(p) => ScopedModel::Exists(p),
            VariantModel::Found(p) => placed(p, p, cwd, facts.variant),
            VariantModel::Nowhere => ScopedModel::Done(target),
        }
    }
}

/// Resolves a path that lies in the working directory for reading: the path
/// where it exists, else the first of its other names that exists and lies in
/// the working directory too, else the path.
pub fn resolve_readable(
    target: String,
    decomposed: &str,
    cwd: &str,
    facts: &ReadFacts,
) -> (r: ScopedStep)
    ensures
        r@ == readable(target@, decomposed@, cwd@, *facts),
{
    if facts.exists.len() == 0 {
        return ScopedStep::Exists(target);
    }
    if facts.exists[0] {
        return ScopedStep::Done(target);
    }
    let names = read_variants(target.as_str(), decomposed);
    match find_variant(&names, target.as_str(), &facts.exists, 1) {
        VariantStep::Exists(p) => ScopedStep::Exists(p),
        VariantStep::Found(p) => {
            let name = p.clone();
            check_place(name.as_str(), p, cwd, &facts.variant)
        },
        VariantStep::Nowhere => ScopedStep::Done(target),
    }
}

/// A path that is resolved for reading lies in the working directory, also where
/// the file stands under another name.
pub proof fn law_read_path_stays_inside(
    path: Seq<char>,
    decomposed: Seq<char>,
    cwd: Seq<char>,
    home: Option<Seq<char>>,
    facts: ReadFacts,
    target: Seq<char>,
    done: Seq<char>,
)
    requires
        scoped(path, cwd, home, facts.target) == ScopedModel::Done(target),
        readable(target, decomposed, cwd, facts) == ScopedModel::Done(done),
    ensures
        lexical_path::within(done, cleaned(cwd)),
{
}

/// The path itself comes out where it exists. Else the first of its other names
/// that exists comes out, exactly as it was found, or the path where there is none.
pub proof fn law_read_path_is_the_name_found(
    target: Seq<char>,
    decomposed: Seq<char>,
    cwd: Seq<char>,
    facts: ReadFacts,
    done: Seq<char>,
)
    requires
        facts.exists@.len() > 0,
        readable(target, decomposed, cwd, facts) == ScopedModel::Done(done),
    ensures
        done == (if facts.exists@[0] {
            target
        } else {
            match first_variant(variants(target, decomposed), 0, target, facts.exists@, 1) {
                VariantModel::Found(p) => p,
                _ => target,
            }
        }),
{
}

/// Resolves a path for reading. It is resolved within the working directory
/// first, then the names under which macOS may keep the file are tried.
pub fn resolve_read_path(
    path: &str,
    cwd: &str,
    home: Option<&str>,
    facts: &ReadFacts,
) -> (r: ScopedStep)
    ensures
        r@ == match scoped(path@, cwd@, home_text(home), facts.target) {
            ScopedModel::Done(target) => readable(target, nfd_of(target), cwd@, *facts),
            other => other,
        },
{
    match resolve_scoped_path(path, cwd, home, &facts.target) {
        ScopedStep::Done(target) => {
            let decomposed = nfd(target.as_str());
            resolve_readable(target, decomposed.as_str(), cwd, facts)
        },
        other => other,
    }
}

} // verus!
