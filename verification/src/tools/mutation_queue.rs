//! Per-file mutation serialization: who waits for which file.

use crate::text::chars_of;
use crate::text_map::TextMap;
use vstd::prelude::*;
use vstd::string::*;

verus! {

/// Why a path has no real path.
#[derive(Debug, PartialEq, Eq)]
pub enum RealPathError {
    /// The path does not exist, or lies below a file.
    Missing,
    Other(String),
}

/// A path with forward slashes.
pub open spec fn slashed(s: Seq<char>) -> Seq<char> {
    s.map_values(|c: char| if c == '\\' { '/' } else { c })
}

fn with_slashes(s: &str) -> (r: String)
    ensures
        r@ == slashed(s@),
{
    let chars = chars_of(s);
    let mut r = String::new();
    let mut i: usize = 0;
    assert(r@ =~= slashed(s@).take(0));
    while i < chars.len()
        invariant
            i <= chars@.len(),
            chars@ == s@,
            r@ == slashed(s@).take(i as int),
        decreases chars@.len() - i,
    {
        if chars[i] == '\\' {
            r.push('/');
        } else {
            r.push(chars[i]);
        }
        assert(slashed(s@).take(i as int).push(slashed(s@)[i as int]) =~= slashed(s@).take(i + 1));
        i += 1;
    }
    assert(slashed(s@).take(s@.len() as int) =~= slashed(s@));
    r
}

/// The queue key of a path.
pub open spec fn queue_key(
    absolute: Seq<char>,
    found: Result<String, RealPathError>,
) -> Result<Seq<char>, Seq<char>> {
    match found {
        Ok(path) => Ok(slashed(path@)),
        Err(RealPathError::Missing) => Ok(slashed(absolute)),
        Err(RealPathError::Other(error)) => Err(error@),
    }
}

/// The queue key of a path, from its absolute form and its real path. A file
/// that does not exist yet goes by its absolute path.
pub fn mutation_queue_key(absolute: &str, found: &Result<String, RealPathError>) -> (r: Result<
    String,
    String,
>)
    ensures
        match r {
            Ok(key) => queue_key(absolute@, *found) == Ok::<Seq<char>, Seq<char>>(key@),
            Err(e) => queue_key(absolute@, *found) == Err::<Seq<char>, Seq<char>>(e@),
        },
        match (*found, r) {
            (Ok(path), Ok(key)) => key@ == slashed(path@),
            (Err(RealPathError::Missing), Ok(key)) => key@ == slashed(absolute@),
            (Err(RealPathError::Other(error)), Err(e)) => e@ == error@,
            _ => false,
        },
{
    match found {
        Ok(path) => Ok(with_slashes(path.as_str())),
        Err(RealPathError::Missing) => Ok(with_slashes(absolute)),
        Err(RealPathError::Other(error)) => Err(error.clone()),
    }
}

/// How many operations hold or wait for each file.
pub struct MutationQueue {
    refs: TextMap<usize>,
}

impl View for MutationQueue {
    type V = Map<Seq<char>, usize>;

    closed spec fn view(&self) -> Map<Seq<char>, usize> {
        self.refs@
    }
}

/// The operations on a file.
pub open spec fn count(m: Map<Seq<char>, usize>, key: Seq<char>) -> usize {
    if m.contains_key(key) {
        m[key]
    } else {
        0
    }
}

/// The queue after an operation joined.
pub open spec fn joined(m: Map<Seq<char>, usize>, key: Seq<char>) -> Map<Seq<char>, usize> {
    m.insert(key, (count(m, key) + 1) as usize)
}

/// The queue after an operation left. A drained file leaves no entry.
pub open spec fn left(m: Map<Seq<char>, usize>, key: Seq<char>) -> Map<Seq<char>, usize> {
    if count(m, key) <= 1 {
        m.remove(key)
    } else {
        m.insert(key, (count(m, key) - 1) as usize)
    }
}

impl MutationQueue {
    /// A queue without operations.
    pub fn new() -> (r: Self)
        ensures
            r@ == Map::<Seq<char>, usize>::empty(),
    {
        MutationQueue { refs: TextMap::new() }
    }

    /// Number of operations that hold or wait for a file.
    pub fn waiting(&self, key: &str) -> (r: usize)
        ensures
            r == count(self@, key@),
    {
        match self.refs.get(key) {
            Some(n) => *n,
            None => 0,
        }
    }

    /// Whether no file has an operation.
    pub fn is_drained(&self) -> (r: bool)
        ensures
            r == (self@.dom() == Set::<Seq<char>>::empty()),
    {
        let n: usize = self.refs.len();
        proof {
            if n == 0 {
                assert forall|k: Seq<char>| !self.refs@.contains_key(k) by {
                    assert(!self.refs.keys().contains(k));
                }
                assert(self.refs@.dom() =~= Set::<Seq<char>>::empty());
            } else {
                assert(self.refs.keys().contains(self.refs.keys()[0]));
                assert(self.refs@.dom().contains(self.refs.keys()[0]));
            }
        }
        n == 0
    }

    /// An operation joins the queue of a file. It has the file to itself once
    /// those before it have left.
    pub fn join(&mut self, key: &str)
        requires
            count(old(self)@, key@) < usize::MAX,
        ensures
            final(self)@ == joined(old(self)@, key@),
    {
        let n: usize = self.waiting(key);
        self.refs.insert(key.to_owned(), n + 1);
    }

    /// An operation leaves the queue of a file.
    pub fn leave(&mut self, key: &str)
        ensures
            final(self)@ == left(old(self)@, key@),
    {
        let n: usize = self.waiting(key);
        if n <= 1 {
            self.refs.remove(key);
        } else {
            self.refs.insert(key.to_owned(), n - 1);
        }
    }
}

/// Whether every file in the queue has an operation.
pub open spec fn occupied(m: Map<Seq<char>, usize>) -> bool {
    forall|key: Seq<char>| m.contains_key(key) ==> (#[trigger] m[key]) > 0
}

/// Joining and leaving again restores the queue, so that it does not grow
/// without bound.
pub proof fn law_leaving_undoes_joining(m: Map<Seq<char>, usize>, key: Seq<char>)
    requires
        occupied(m),
        count(m, key) < usize::MAX,
    ensures
        left(joined(m, key), key) == m,
        occupied(joined(m, key)),
        occupied(left(m, key)),
{
    assert(left(joined(m, key), key) =~= m);
}

/// Operations on other files are not affected.
pub proof fn law_files_are_independent(m: Map<Seq<char>, usize>, a: Seq<char>, b: Seq<char>)
    requires
        a != b,
    ensures
        count(joined(m, a), b) == count(m, b),
        count(left(m, a), b) == count(m, b),
{
}

} // verus!
