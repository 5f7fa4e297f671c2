//! Namespaces for durable workflow state.

use crate::text::{chars_of, same_text, text_of};
use crate::workflow_worktree::catalog;
use crate::workflow_worktree::manager;
use crate::workflow_worktree::manager::WorkflowWorktreeManager;
use crate::workflow_worktree::steps::{StepModel, WorktreeFacts, WorktreeStep};
use crate::workflow_worktree::RepoDiscovery;
use vstd::prelude::*;
use vstd::string::*;
use vstd::utf8::*;

verus! {

/// What SHA-256 digests the given bytes to.
pub uninterp spec fn sha256_of(bytes: Seq<u8>) -> Seq<u8>;

/// The digest that `sha2::Sha256::digest` gives: 32 bytes that depend on the
/// input alone. Which bytes they are is left unsaid.
#[verifier::external_body]
pub(crate) fn sha256(bytes: &[u8]) -> (r: Vec<u8>)
    ensures
        r@ == sha256_of(bytes@),
        r@.len() == 32,
{
    <sha2::Sha256 as sha2::Digest>::digest(bytes).to_vec()
}

/// The lower-case hexadecimal digit with the value `d`.
pub open spec fn hex_char(d: nat) -> char {
    if d < 10 {
        ('0' as int + d) as char
    } else {
        ('a' as int + d - 10) as char
    }
}

/// The two-digit lower-case hexadecimal form of each byte.
pub open spec fn hex_of(bytes: Seq<u8>) -> Seq<char>
    decreases bytes.len(),
{
    if bytes.len() == 0 {
        Seq::empty()
    } else {
        hex_of(bytes.drop_last()).push(hex_char((bytes.last() / 16) as nat)).push(
            hex_char((bytes.last() % 16) as nat),
        )
    }
}

fn hex_digit_char(d: u8) -> (c: char)
    requires
        d < 16,
    ensures
        c == hex_char(d as nat),
{
    match d {
        0 => '0',
        1 => '1',
        2 => '2',
        3 => '3',
        4 => '4',
        5 => '5',
        6 => '6',
        7 => '7',
        8 => '8',
        9 => '9',
        10 => 'a',
        11 => 'b',
        12 => 'c',
        13 => 'd',
        14 => 'e',
        _ => 'f',
    }
}

/// The hexadecimal form of the first `n` bytes.
pub fn hex_prefix(bytes: &[u8], n: usize) -> (r: String)
    requires
        n <= bytes@.len(),
    ensures
        r@ == hex_of(bytes@.take(n as int)),
{
    let mut r = String::new();
    let mut i: usize = 0;
    assert(bytes@.take(0) =~= Seq::<u8>::empty());
    while i < n
        invariant
            i <= n <= bytes@.len(),
            r@ == hex_of(bytes@.take(i as int)),
        decreases n - i,
    {
        r.push(hex_digit_char(bytes[i] / 16));
        r.push(hex_digit_char(bytes[i] % 16));
        assert(bytes@.take(i + 1).drop_last() =~= bytes@.take(i as int));
        i += 1;
    }
    r
}

proof fn lemma_hex(bytes: Seq<u8>)
    ensures
        hex_of(bytes).len() == 2 * bytes.len(),
        forall|i: int| 0 <= i < hex_of(bytes).len() ==> {
            let c = #[trigger] hex_of(bytes)[i];
            ('0' <= c <= '9') || ('a' <= c <= 'f')
        },
    decreases bytes.len(),
{
    if bytes.len() > 0 {
        lemma_hex(bytes.drop_last());
    }
}

/// The namespace of a repository: the first half of the digest of its common
/// git directory.
pub open spec fn repository_namespace_of(common_git_dir: Seq<char>) -> Seq<char> {
    hex_of(sha256_of(encode_utf8(common_git_dir)).take(16))
}

/// Whether `c` separates path segments on some platform.
pub open spec fn separator(c: char) -> bool {
    c == '/' || c == '\\' || c == ':'
}

/// Whether a session id holds a separator.
pub open spec fn has_separator(s: Seq<char>) -> bool {
    exists|i: int| 0 <= i < s.len() && separator(#[trigger] s[i])
}

/// A session id with its separators mapped to `-`.
pub open spec fn flattened(s: Seq<char>) -> Seq<char> {
    s.map_values(|c: char| if separator(c) { '-' } else { c })
}

/// Whether a text ends as an encoded id does: in `-` and six hexadecimal digits.
pub open spec fn ends_in_digest(s: Seq<char>) -> bool {
    s.len() >= 7 && s[s.len() - 7] == '-' && forall|i: int|
        s.len() - 6 <= i < s.len() ==> catalog::hex_digit(#[trigger] s[i])
}

/// Whether a session id is its own segment: it is a safe name, and cannot be
/// taken for the segment of another id.
pub open spec fn passes(s: Seq<char>) -> bool {
    s.len() > 0 && !has_separator(s) && s != "."@ && s != ".."@ && s != "session"@
        && !ends_in_digest(s)
}

/// The first three bytes of the digest of a session id.
pub open spec fn short_digest(s: Seq<char>) -> Seq<u8> {
    Seq::new(3, |i: int| sha256_of(encode_utf8(s))[i])
}

/// A session id as a single path segment. An id that cannot stand for itself is
/// flattened and told apart by a short digest of the raw id.
pub open spec fn session_segment(s: Seq<char>) -> Seq<char> {
    if s.len() == 0 {
        "session"@
    } else if passes(s) {
        s
    } else {
        flattened(s) + "-"@ + hex_of(short_digest(s))
    }
}

fn looks_encoded(chars: &Vec<char>) -> (r: bool)
    ensures
        r == ends_in_digest(chars@),
{
    let n: usize = chars.len();
    if n < 7 || chars[n - 7] != '-' {
        return false;
    }
    let mut i: usize = n - 6;
    while i < n
        invariant
            7 <= n == chars@.len(),
            n - 6 <= i <= n,
            forall|j: int| n - 6 <= j < i ==> catalog::hex_digit(#[trigger] chars@[j]),
        decreases n - i,
    {
        let c = chars[i];
        if !(('0' <= c && c <= '9') || ('a' <= c && c <= 'f')) {
            assert(!catalog::hex_digit(chars@[i as int]));
            return false;
        }
        i += 1;
    }
    true
}

/// A session id as a single path segment. Ids that are safe names pass through
/// unchanged.
pub fn encode_session_id(session_id: &str) -> (r: String)
    ensures
        r@ == session_segment(session_id@),
{
    let chars = chars_of(session_id);
    if chars.len() == 0 {
        return "session".to_owned();
    }
    let mut mapped: Vec<char> = Vec::new();
    let mut found = false;
    let mut i: usize = 0;
    while i < chars.len()
        invariant
            i <= chars@.len(),
            mapped@ == flattened(chars@.take(i as int)),
            found == (exists|j: int| 0 <= j < i && separator(#[trigger] chars@[j])),
        decreases chars@.len() - i,
    {
        let c = chars[i];
        if c == '/' || c == '\\' || c == ':' {
            found = true;
            assert(separator(chars@[i as int]));
            mapped.push('-');
        } else {
            assert(!separator(chars@[i as int]));
            mapped.push(c);
        }
        assert(mapped@ =~= flattened(chars@.take(i + 1)));
        i += 1;
    }
    assert(chars@.take(chars@.len() as int) =~= chars@);
    if !found && !same_text(session_id, ".") && !same_text(session_id, "..") && !same_text(
        session_id,
        "session",
    ) && !looks_encoded(&chars) {
        return session_id.to_owned();
    }
    let digest = sha256(session_id.as_bytes());
    assert(digest@.take(3) =~= short_digest(session_id@));
    text_of(mapped.as_slice()).concat("-").concat(hex_prefix(digest.as_slice(), 3).as_str())
}

proof fn lemma_encoded(s: Seq<char>)
    requires
        s.len() > 0,
        !passes(s),
    ensures
        session_segment(s).len() == s.len() + 7,
        session_segment(s).take(s.len() as int) == flattened(s),
        session_segment(s).skip(s.len() as int + 1) == hex_of(short_digest(s)),
        ends_in_digest(session_segment(s)),
        !has_separator(session_segment(s)),
{
    reveal_strlit("-");
    lemma_hex(short_digest(s));
    let r = session_segment(s);
    assert(r.take(s.len() as int) =~= flattened(s));
    assert(r.skip(s.len() as int + 1) =~= hex_of(short_digest(s)));
    assert forall|i: int| r.len() - 6 <= i < r.len() implies catalog::hex_digit(#[trigger] r[i]) by {
        assert(r[i] == hex_of(short_digest(s))[i - s.len() - 1]);
    }
    assert forall|i: int| 0 <= i < r.len() implies !separator(#[trigger] r[i]) by {
        if i < s.len() {
            assert(r[i] == flattened(s)[i]);
        } else if i > s.len() {
            assert(r[i] == hex_of(short_digest(s))[i - s.len() - 1]);
        }
    }
}

/// The segment of a session id names a direct child of a directory: it is not
/// empty, holds no separator, and is neither the directory itself nor its parent.
pub proof fn law_session_segment_is_plain(s: Seq<char>)
    ensures
        !has_separator(session_segment(s)),
        session_segment(s).len() > 0,
        session_segment(s) != "."@,
        session_segment(s) != ".."@,
{
    reveal_strlit("session");
    reveal_strlit(".");
    reveal_strlit("..");
    if s.len() > 0 && !passes(s) {
        lemma_encoded(s);
    }
}

/// Whether two session ids can only be told apart by more of their digests: both
/// are encoded, to the same text, and their short digests agree.
pub open spec fn digests_clash(a: Seq<char>, b: Seq<char>) -> bool {
    a.len() > 0 && b.len() > 0 && !passes(a) && !passes(b) && flattened(a) == flattened(b)
        && hex_of(short_digest(a)) == hex_of(short_digest(b))
}

/// Distinct session ids never share a segment, unless both are encoded and their
/// short digests clash.
pub proof fn law_session_ids_stay_distinct(a: Seq<char>, b: Seq<char>)
    requires
        session_segment(a) == session_segment(b),
    ensures
        a == b || digests_clash(a, b),
{
    reveal_strlit("session");
    if a.len() > 0 && !passes(a) {
        lemma_encoded(a);
    }
    if b.len() > 0 && !passes(b) {
        lemma_encoded(b);
    }
    assert(a.len() == 0 && b.len() == 0 ==> a =~= b);
}

/// The model of the session namespace: below that of the repository, or alone
/// outside of one.
pub open spec fn session_namespace_model(
    m: WorkflowWorktreeManager,
    session_id: Seq<char>,
    f: WorktreeFacts,
) -> StepModel<Seq<char>> {
    match manager::discovered(
        m,
        f,
        |d: RepoDiscovery| StepModel::Done(repository_namespace_of(d.common_git_dir@)),
    ) {
        StepModel::Need(w) => StepModel::Need(w),
        StepModel::Fail(_) => StepModel::Done(session_segment(session_id)),
        StepModel::Done(repo) => StepModel::Done(repo + "/"@ + session_segment(session_id)),
    }
}

/// A resumed session finds its namespace again and a distinct one gets its own:
/// in one repository, equal namespaces belong to one session, unless the short
/// digests of two encoded ids clash.
pub proof fn law_sessions_have_their_own_namespace(
    m: WorkflowWorktreeManager,
    a: Seq<char>,
    b: Seq<char>,
    f: WorktreeFacts,
)
    requires
        session_namespace_model(m, a, f) is Done,
        session_namespace_model(m, a, f) == session_namespace_model(m, b, f),
    ensures
        a == b || digests_clash(a, b),
{
    match manager::discovered(
        m,
        f,
        |d: RepoDiscovery| StepModel::Done(repository_namespace_of(d.common_git_dir@)),
    ) {
        StepModel::Done(repo) => {
            let base = repo + "/"@;
            assert((base + session_segment(a)).skip(base.len() as int) =~= session_segment(a));
            assert((base + session_segment(b)).skip(base.len() as int) =~= session_segment(b));
        },
        _ => {},
    }
    law_session_ids_stay_distinct(a, b);
}

impl WorkflowWorktreeManager {
    /// Stable local namespace for durable workflow state of this repository.
    pub fn repository_namespace(&self, f: &WorktreeFacts) -> (r: WorktreeStep<String>)
        ensures
            r@ == manager::discovered(
                *self,
                *f,
                |d: RepoDiscovery| StepModel::Done(repository_namespace_of(d.common_git_dir@)),
            ),
    {
        match self.discover(f) {
            WorktreeStep::Need(w) => WorktreeStep::Need(w),
            WorktreeStep::Fail(e) => WorktreeStep::Fail(e),
            WorktreeStep::Done(d) => {
                let digest = sha256(d.common_git_dir.as_str().as_bytes());
                WorktreeStep::Done(hex_prefix(digest.as_slice(), 16))
            },
        }
    }

    /// Per-session namespace: the repository namespace scoped by the session
    /// id. A directory without a repository falls back to the session alone.
    pub fn session_namespace(&self, session_id: &str, f: &WorktreeFacts) -> (r: WorktreeStep<String>)
        ensures
            r@ == session_namespace_model(*self, session_id@, *f),
    {
        let encoded = encode_session_id(session_id);
        match self.repository_namespace(f) {
            WorktreeStep::Need(w) => WorktreeStep::Need(w),
            WorktreeStep::Fail(_) => WorktreeStep::Done(encoded),
            WorktreeStep::Done(repo) => WorktreeStep::Done(
                repo.concat("/").concat(encoded.as_str()),
            ),
        }
    }
}

} // verus!
