//! A map keyed by texts, walked in code-point order of its keys.

use crate::sort;
use crate::sort::text_is_before;
use crate::text::same_text;
use vstd::prelude::*;

verus! {

/// A map keyed by texts. Each key occurs once, and keys are walked in
/// code-point order.
pub struct TextMap<V> {
    entries: Vec<(String, V)>,
}

/// Whether `k` is the key of entry `i`.
spec fn key_is<V>(entries: Seq<(String, V)>, i: int, k: Seq<char>) -> bool {
    0 <= i < entries.len() && entries[i].0@ == k
}

spec fn in_order<V>(entries: Seq<(String, V)>) -> bool {
    forall|i: int, j: int|
        0 <= i < j < entries.len() ==> sort::text_before(
            (#[trigger] entries[i]).0@,
            (#[trigger] entries[j]).0@,
        )
}

spec fn map_of<V>(entries: Seq<(String, V)>) -> Map<Seq<char>, V> {
    Map::new(
        |k: Seq<char>| exists|i: int| key_is(entries, i, k),
        |k: Seq<char>| entries[choose|i: int| key_is(entries, i, k)].1,
    )
}

/// Whether the two maps agree on `k`.
spec fn same_at<V>(m: Map<Seq<char>, V>, n: Map<Seq<char>, V>, k: Seq<char>) -> bool {
    m.contains_key(k) == n.contains_key(k) && (m.contains_key(k) ==> m[k] == n[k])
}

proof fn lemma_unique<V>(entries: Seq<(String, V)>, i: int, j: int, k: Seq<char>)
    requires
        in_order(entries),
        key_is(entries, i, k),
        key_is(entries, j, k),
    ensures
        i == j,
{
    sort::lemma_text_order(k, k, k);
    if i < j {
        assert(sort::text_before(entries[i].0@, entries[j].0@));
    } else if j < i {
        assert(sort::text_before(entries[j].0@, entries[i].0@));
    }
}

proof fn lemma_lookup<V>(entries: Seq<(String, V)>, i: int)
    requires
        in_order(entries),
        0 <= i < entries.len(),
    ensures
        map_of(entries).contains_key(entries[i].0@),
        map_of(entries)[entries[i].0@] == entries[i].1,
{
    let k = entries[i].0@;
    assert(key_is(entries, i, k));
    let c = choose|j: int| key_is(entries, j, k);
    lemma_unique(entries, i, c, k);
}

proof fn lemma_absent<V>(entries: Seq<(String, V)>, k: Seq<char>)
    requires
        forall|i: int| 0 <= i < entries.len() ==> (#[trigger] entries[i]).0@ != k,
    ensures
        !map_of(entries).contains_key(k),
{
    if exists|i: int| key_is(entries, i, k) {
        let i = choose|i: int| key_is(entries, i, k);
        assert(entries[i].0@ == k);
    }
}

/// A type whose values can be copied exactly.
pub trait Duplicate: Sized {
    fn duplicate(&self) -> (r: Self)
        ensures
            r == *self,
    ;
}

impl Duplicate for bool {
    fn duplicate(&self) -> (r: Self) {
        *self
    }
}

impl Duplicate for String {
    fn duplicate(&self) -> (r: Self) {
        self.clone()
    }
}

impl<V: Duplicate> TextMap<V> {
    /// A copy of the map.
    pub fn copied(&self) -> (r: Self)
        ensures
            r@ == self@,
            r.keys() == self.keys(),
    {
        proof {
            use_type_invariant(self);
        }
        let mut entries: Vec<(String, V)> = Vec::new();
        let mut i: usize = 0;
        while i < self.entries.len()
            invariant
                i <= self.entries@.len(),
                entries@ == self.entries@.take(i as int),
            decreases self.entries@.len() - i,
        {
            entries.push((self.entries[i].0.clone(), self.entries[i].1.duplicate()));
            assert(self.entries@.take(i as int).push(self.entries@[i as int])
                =~= self.entries@.take(i + 1));
            i += 1;
        }
        assert(self.entries@.take(self.entries@.len() as int) =~= self.entries@);
        TextMap { entries }
    }
}

impl<V> View for TextMap<V> {
    type V = Map<Seq<char>, V>;

    closed spec fn view(&self) -> Map<Seq<char>, V> {
        map_of(self.entries@)
    }
}

impl<V> TextMap<V> {
    #[verifier::type_invariant]
    spec fn ordered(&self) -> bool {
        in_order(self.entries@)
    }

    /// The keys in the order in which they are walked.
    pub closed spec fn keys(&self) -> Seq<Seq<char>> {
        Seq::new(self.entries@.len(), |i: int| self.entries@[i].0@)
    }

    /// The empty map.
    pub fn new() -> (r: Self)
        ensures
            r@ == Map::<Seq<char>, V>::empty(),
            r.keys().len() == 0,
    {
        let r = TextMap { entries: Vec::new() };
        proof {
            assert forall|k: Seq<char>| !r@.contains_key(k) by {
                lemma_absent(r.entries@, k);
            }
            assert(r@ =~= Map::<Seq<char>, V>::empty());
        }
        r
    }

    /// Number of keys. The keys are walked in strictly ascending order, and
    /// they are exactly the keys of the map.
    pub fn len(&self) -> (n: usize)
        ensures
            n == self.keys().len(),
            forall|i: int, j: int|
                0 <= i < j < self.keys().len() ==> sort::text_before(
                    #[trigger] self.keys()[i],
                    #[trigger] self.keys()[j],
                ),
            forall|k: Seq<char>| self.keys().contains(k) <==> #[trigger] self@.contains_key(k),
    {
        proof {
            use_type_invariant(self);
            assert forall|k: Seq<char>| self.keys().contains(k) <==> #[trigger] self@.contains_key(
                k,
            ) by {
                if self.keys().contains(k) {
                    let i = choose|i: int| 0 <= i < self.keys().len() && self.keys()[i] == k;
                    lemma_lookup(self.entries@, i);
                }
                if self@.contains_key(k) {
                    let i = choose|i: int| key_is(self.entries@, i, k);
                    assert(self.keys()[i] == k);
                }
            }
            assert forall|i: int, j: int| 0 <= i < j < self.keys().len() implies sort::text_before(
                #[trigger] self.keys()[i],
                #[trigger] self.keys()[j],
            ) by {
                assert(self.entries@[i].0@ == self.keys()[i]);
                assert(self.entries@[j].0@ == self.keys()[j]);
            }
        }
        self.entries.len()
    }

    /// The key at position `i` of the walk.
    pub fn key(&self, i: usize) -> (r: &str)
        requires
            i < self.keys().len(),
        ensures
            r@ == self.keys()[i as int],
            self@.contains_key(r@),
    {
        proof {
            use_type_invariant(self);
            lemma_lookup(self.entries@, i as int);
        }
        self.entries[i].0.as_str()
    }

    /// The value at position `i` of the walk.
    pub fn value(&self, i: usize) -> (r: &V)
        requires
            i < self.keys().len(),
        ensures
            self@.contains_key(self.keys()[i as int]),
            *r == self@[self.keys()[i as int]],
    {
        proof {
            use_type_invariant(self);
            lemma_lookup(self.entries@, i as int);
        }
        &self.entries[i].1
    }

    /// The value of `k`.
    pub fn get(&self, k: &str) -> (r: Option<&V>)
        ensures
            match r {
                Some(v) => self@.contains_key(k@) && *v == self@[k@],
                None => !self@.contains_key(k@),
            },
    {
        proof {
            use_type_invariant(self);
        }
        let mut i: usize = 0;
        while i < self.entries.len()
            invariant
                i <= self.entries@.len(),
                in_order(self.entries@),
                forall|j: int| 0 <= j < i ==> (#[trigger] self.entries@[j]).0@ != k@,
            decreases self.entries@.len() - i,
        {
            if same_text(self.entries[i].0.as_str(), k) {
                proof {
                    lemma_lookup(self.entries@, i as int);
                }
                return Some(&self.entries[i].1);
            }
            i += 1;
        }
        proof {
            lemma_absent(self.entries@, k@);
        }
        None
    }

    /// Whether `k` is a key.
    pub fn contains(&self, k: &str) -> (r: bool)
        ensures
            r == self@.contains_key(k@),
    {
        self.get(k).is_some()
    }

    /// Gives `k` the value `v`.
    pub fn insert(&mut self, k: String, v: V)
        ensures
            final(self)@ == old(self)@.insert(k@, v),
    {
        proof {
            use_type_invariant(&*self);
        }
        let mut entries: Vec<(String, V)> = Vec::new();
        std::mem::swap(&mut entries, &mut self.entries);
        let ghost before = entries@;
        let ghost key = k@;
        let mut i: usize = 0;
        while i < entries.len() && text_is_before(entries[i].0.as_str(), k.as_str())
            invariant
                i <= entries@.len(),
                entries@ == before,
                key == k@,
                forall|j: int| 0 <= j < i ==> sort::text_before((#[trigger] before[j]).0@, key),
            decreases entries@.len() - i,
        {
            i += 1;
        }
        if i < entries.len() && same_text(entries[i].0.as_str(), k.as_str()) {
            let _old = entries.remove(i);
        }
        let ghost rest = entries@;
        proof {
            assert forall|j: int| 0 <= j < i implies rest[j] == before[j] by {}
            assert forall|j: int| i <= j < rest.len() implies sort::text_before(
                key,
                (#[trigger] rest[j]).0@,
            ) by {
                sort::lemma_text_order(key, before[i as int].0@, rest[j].0@);
                if rest.len() == before.len() {
                    assert(rest[j] == before[j]);
                    if j > i {
                        assert(sort::text_before(before[i as int].0@, before[j].0@));
                    }
                } else {
                    assert(rest[j] == before[j + 1]);
                    assert(sort::text_before(before[i as int].0@, before[j + 1].0@));
                }
            }
        }
        entries.insert(i, (k, v));
        let ghost after = entries@;
        proof {
            assert forall|a: int, b: int| 0 <= a < b < after.len() implies sort::text_before(
                (#[trigger] after[a]).0@,
                (#[trigger] after[b]).0@,
            ) by {
                if b < i {
                    assert(after[a] == before[a] && after[b] == before[b]);
                } else if a < i && b == i {
                    assert(after[a] == before[a]);
                } else if a < i {
                    assert(after[a] == before[a]);
                    assert(after[b] == rest[b - 1]);
                    sort::lemma_text_order(before[a].0@, key, rest[b - 1].0@);
                } else if a == i {
                    assert(after[b] == rest[b - 1]);
                } else {
                    assert(after[a] == rest[a - 1] && after[b] == rest[b - 1]);
                    if rest.len() == before.len() {
                        assert(rest[a - 1] == before[a - 1] && rest[b - 1] == before[b - 1]);
                    } else {
                        assert(rest[a - 1] == before[a] && rest[b - 1] == before[b]);
                    }
                }
            }
            lemma_insert_model(before, rest, after, i as int, key, v);
        }
        self.entries = entries;
    }

    /// Takes `k` and its value out.
    pub fn remove(&mut self, k: &str)
        ensures
            final(self)@ == old(self)@.remove(k@),
    {
        proof {
            use_type_invariant(&*self);
        }
        let mut entries: Vec<(String, V)> = Vec::new();
        std::mem::swap(&mut entries, &mut self.entries);
        let ghost before = entries@;
        let mut i: usize = 0;
        while i < entries.len() && !same_text(entries[i].0.as_str(), k)
            invariant
                i <= entries@.len(),
                entries@ == before,
                forall|j: int| 0 <= j < i ==> (#[trigger] before[j]).0@ != k@,
            decreases entries@.len() - i,
        {
            i += 1;
        }
        if i < entries.len() {
            let _old = entries.remove(i);
        }
        proof {
            let after = entries@;
            assert forall|a: int, b: int| 0 <= a < b < after.len() implies sort::text_before(
                (#[trigger] after[a]).0@,
                (#[trigger] after[b]).0@,
            ) by {
                let x = if a < i {
                    a
                } else {
                    a + 1
                };
                let y = if b < i {
                    b
                } else {
                    b + 1
                };
                if i < before.len() {
                    assert(after[a] == before[x] && after[b] == before[y]);
                }
            }
            lemma_remove_model(before, after, i as int, k@);
        }
        self.entries = entries;
    }
}

proof fn lemma_insert_model<V>(
    before: Seq<(String, V)>,
    rest: Seq<(String, V)>,
    after: Seq<(String, V)>,
    at: int,
    key: Seq<char>,
    v: V,
)
    requires
        in_order(before),
        in_order(after),
        0 <= at < after.len(),
        after[at].0@ == key,
        after[at].1 == v,
        after.len() == rest.len() + 1,
        forall|j: int| 0 <= j < at ==> after[j] == rest[j],
        forall|j: int| at < j < after.len() ==> after[j] == rest[j - 1],
        rest == before || (at < before.len() && before[at].0@ == key && rest == before.remove(at)),
    ensures
        map_of(after) == map_of(before).insert(key, v),
{
    let m = map_of(after);
    let n = map_of(before).insert(key, v);
    lemma_lookup(after, at);
    assert forall|k: Seq<char>| same_at(m, n, k) by {
        if k != key {
            if m.contains_key(k) {
                let i = choose|i: int| key_is(after, i, k);
                lemma_lookup(after, i);
                let r = if i < at {
                    i
                } else {
                    i - 1
                };
                assert(rest[r] == after[i]);
                let p = if rest == before || r < at {
                    r
                } else {
                    r + 1
                };
                assert(before[p] == rest[r]);
                lemma_lookup(before, p);
            }
            if map_of(before).contains_key(k) {
                let p = choose|p: int| key_is(before, p, k);
                let r = if rest == before || p < at {
                    p
                } else {
                    p - 1
                };
                assert(rest[r] == before[p]);
                let i = if r < at {
                    r
                } else {
                    r + 1
                };
                assert(after[i] == rest[r]);
                assert(key_is(after, i, k));
            }
        }
    }
    assert forall|k: Seq<char>| m.dom().contains(k) == n.dom().contains(k) by {
        assert(same_at(m, n, k));
    }
    assert forall|k: Seq<char>| m.dom().contains(k) implies m[k] == n[k] by {
        assert(same_at(m, n, k));
    }
    assert(m.dom() =~= n.dom());
    assert(m =~= n);
}

proof fn lemma_remove_model<V>(
    before: Seq<(String, V)>,
    after: Seq<(String, V)>,
    at: int,
    key: Seq<char>,
)
    requires
        in_order(before),
        in_order(after),
        0 <= at <= before.len(),
        at == before.len() ==> after == before && forall|j: int|
            0 <= j < before.len() ==> (#[trigger] before[j]).0@ != key,
        at < before.len() ==> before[at].0@ == key && after == before.remove(at),
    ensures
        map_of(after) == map_of(before).remove(key),
{
    let m = map_of(after);
    let n = map_of(before).remove(key);
    assert forall|k: Seq<char>| same_at(m, n, k) by {
        if m.contains_key(k) {
            let i = choose|i: int| key_is(after, i, k);
            lemma_lookup(after, i);
            let p = if i < at {
                i
            } else {
                i + 1
            };
            if at < before.len() {
                assert(before[p] == after[i]);
                lemma_lookup(before, p);
                if k == key {
                    lemma_unique(before, at, p, k);
                }
            } else {
                lemma_lookup(before, i);
            }
        }
        if k != key && map_of(before).contains_key(k) {
            let p = choose|p: int| key_is(before, p, k);
            let i = if at == before.len() || p < at {
                p
            } else {
                p - 1
            };
            assert(after[i] == before[p]);
            assert(key_is(after, i, k));
        }
    }
    assert forall|k: Seq<char>| m.dom().contains(k) == n.dom().contains(k) by {
        assert(same_at(m, n, k));
    }
    assert forall|k: Seq<char>| m.dom().contains(k) implies m[k] == n[k] by {
        assert(same_at(m, n, k));
    }
    assert(m.dom() =~= n.dom());
    assert(m =~= n);
}

} // verus!
