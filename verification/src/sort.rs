//! Stable sorting by a strict weak order.

use vstd::prelude::*;
use vstd::seq_lib::*;

verus! {

broadcast use vstd::seq_lib::group_to_multiset_ensures;

/// A type whose values are ranked by a strict weak order.
pub trait Rank: Sized {
    /// Whether `self` ranks strictly before `other`.
    spec fn before(self, other: Self) -> bool;

    proof fn weak_order(a: Self, b: Self, c: Self)
        ensures
            !a.before(a),
            a.before(b) && b.before(c) ==> a.before(c),
            !a.before(b) && !b.before(c) ==> !a.before(c),
    ;
}

/// A ranked type whose values can be told apart by rank.
pub trait Ranked: Rank {
    /// Whether `self` ranks strictly before `other`.
    fn is_before(&self, other: &Self) -> (r: bool)
        ensures
            r == self.before(*other),
    ;
}

/// `s` with `x` put behind the last element that `x` does not rank before.
pub open spec fn insert_ranked<T: Rank>(s: Seq<T>, x: T) -> Seq<T>
    decreases s.len(),
{
    if s.len() > 0 && x.before(s.last()) {
        insert_ranked(s.drop_last(), x).push(s.last())
    } else {
        s.push(x)
    }
}

/// The elements of `s` in rank order, equally ranked ones in their order in `s`.
pub open spec fn stable_sorted<T: Rank>(s: Seq<T>) -> Seq<T>
    decreases s.len(),
{
    if s.len() == 0 {
        s
    } else {
        insert_ranked(stable_sorted(s.drop_last()), s.last())
    }
}

/// Whether no element ranks before one that stands to its left.
pub open spec fn in_rank_order<T: Rank>(s: Seq<T>) -> bool {
    forall|i: int, j: int| 0 <= i < j < s.len() ==> !(#[trigger] s[j]).before(#[trigger] s[i])
}

/// Whether `a` and `b` rank equally.
pub open spec fn same_rank<T: Rank>(a: T, b: T) -> bool {
    !a.before(b) && !b.before(a)
}

proof fn lemma_insert_ranked<T: Rank>(s: Seq<T>, x: T)
    requires
        in_rank_order(s),
    ensures
        in_rank_order(insert_ranked(s, x)),
        insert_ranked(s, x).to_multiset() == s.to_multiset().insert(x),
        insert_ranked(s, x).len() == s.len() + 1,
        forall|i: int|
            0 <= i < s.len() + 1 ==> #[trigger] insert_ranked(s, x)[i] == x || s.contains(
                insert_ranked(s, x)[i],
            ),
    decreases s.len(),
{
    let r = insert_ranked(s, x);
    if s.len() > 0 && x.before(s.last()) {
        let front = s.drop_last();
        lemma_insert_ranked(front, x);
        let rf = insert_ranked(front, x);
        assert(s =~= front.push(s.last()));
        assert(r.to_multiset() =~= s.to_multiset().insert(x));
        assert forall|i: int| 0 <= i < s.len() + 1 implies #[trigger] r[i] == x || s.contains(
            r[i],
        ) by {
            if i < s.len() {
                if rf[i] != x {
                    let k = choose|k: int| 0 <= k < front.len() && front[k] == rf[i];
                    assert(s[k] == rf[i]);
                }
            } else {
                assert(s[s.len() - 1] == r[i]);
            }
        }
        assert forall|i: int, j: int| 0 <= i < j < r.len() implies !(#[trigger] r[j]).before(
            #[trigger] r[i],
        ) by {
            if j < rf.len() {
                assert(rf[i] == r[i] && rf[j] == r[j]);
            } else {
                assert(r[i] == rf[i]);
                if rf[i] == x {
                    T::weak_order(s.last(), x, s.last());
                    T::weak_order(x, s.last(), x);
                } else {
                    let k = choose|k: int| 0 <= k < front.len() && front[k] == rf[i];
                    assert(s[k] == rf[i]);
                    assert(!s[s.len() - 1].before(s[k]));
                }
            }
        }
    } else {
        assert forall|i: int, j: int| 0 <= i < j < r.len() implies !(#[trigger] r[j]).before(
            #[trigger] r[i],
        ) by {
            if j == s.len() {
                assert(r[i] == s[i]);
                if i < s.len() - 1 {
                    assert(!s[s.len() - 1].before(s[i]));
                    T::weak_order(x, s.last(), s[i]);
                }
            } else {
                assert(s[i] == r[i] && s[j] == r[j]);
            }
        }
        assert forall|i: int| 0 <= i < s.len() + 1 implies #[trigger] r[i] == x || s.contains(
            r[i],
        ) by {
            if i < s.len() {
                assert(s[i] == r[i]);
            }
        }
    }
}

/// Sorting puts the elements in rank order and neither adds nor drops one.
pub proof fn lemma_stable_sorted<T: Rank>(s: Seq<T>)
    ensures
        in_rank_order(stable_sorted(s)),
        stable_sorted(s).to_multiset() == s.to_multiset(),
        stable_sorted(s).len() == s.len(),
    decreases s.len(),
{
    if s.len() > 0 {
        lemma_stable_sorted(s.drop_last());
        lemma_insert_ranked(stable_sorted(s.drop_last()), s.last());
        assert(s =~= s.drop_last().push(s.last()));
    }
}

proof fn lemma_insert_keeps_class<T: Rank>(s: Seq<T>, x: T, k: T)
    ensures
        insert_ranked(s, x).filter(|y: T| same_rank(y, k)) == s.push(x).filter(
            |y: T| same_rank(y, k),
        ),
    decreases s.len(),
{
    broadcast use Seq::lemma_filter_push;

    let p = |y: T| same_rank(y, k);
    if s.len() > 0 && x.before(s.last()) {
        let front = s.drop_last();
        lemma_insert_keeps_class(front, x, k);
        assert(s =~= front.push(s.last()));
        if p(x) && p(s.last()) {
            T::weak_order(x, k, s.last());
        }
        assert(insert_ranked(s, x).filter(p) =~= s.push(x).filter(p));
    }
}

/// Sorting is stable: equally ranked elements keep their relative order.
pub proof fn lemma_sort_is_stable<T: Rank>(s: Seq<T>, k: T)
    ensures
        stable_sorted(s).filter(|y: T| same_rank(y, k)) == s.filter(|y: T| same_rank(y, k)),
    decreases s.len(),
{
    broadcast use Seq::lemma_filter_push;

    if s.len() > 0 {
        let front = s.drop_last();
        lemma_sort_is_stable(front, k);
        lemma_insert_keeps_class(stable_sorted(front), s.last(), k);
        assert(s =~= front.push(s.last()));
    }
}

proof fn lemma_insert_position<T: Rank>(s: Seq<T>, x: T, at: int)
    requires
        0 <= at <= s.len(),
        forall|i: int| at <= i < s.len() ==> x.before(#[trigger] s[i]),
        at == 0 || !x.before(s[at - 1]),
    ensures
        insert_ranked(s, x) == s.take(at).push(x) + s.skip(at),
    decreases s.len(),
{
    if at < s.len() {
        assert(x.before(s[s.len() - 1]));
        lemma_insert_position(s.drop_last(), x, at);
        assert(s.take(at).push(x) + s.skip(at) =~= (s.drop_last().take(at).push(x)
            + s.drop_last().skip(at)).push(s.last()));
    } else {
        assert(s.take(at).push(x) + s.skip(at) =~= s.push(x));
    }
}

/// Whether the models of a type are ranked as its values are.
pub open spec fn ranked_as_viewed<T: Rank + View>() -> bool where T::V: Rank {
    forall|a: T, b: T| #[trigger] a.before(b) == a@.before(b@)
}

/// The models of the elements.
pub open spec fn views<T: View>(s: Seq<T>) -> Seq<T::V> {
    s.map_values(|x: T| x@)
}

proof fn lemma_insert_views<T: Rank + View>(s: Seq<T>, x: T) where T::V: Rank
    requires
        ranked_as_viewed::<T>(),
    ensures
        views(insert_ranked(s, x)) == insert_ranked(views(s), x@),
    decreases s.len(),
{
    assert(views(s).len() == s.len());
    if s.len() > 0 {
        assert(views(s).last() == s.last()@);
        assert(x.before(s.last()) == x@.before(s.last()@));
    }
    if s.len() > 0 && x.before(s.last()) {
        lemma_insert_views(s.drop_last(), x);
        assert(views(s).drop_last() =~= views(s.drop_last()));
        assert(views(insert_ranked(s, x)) =~= insert_ranked(views(s), x@));
    } else {
        assert(views(s.push(x)) =~= views(s).push(x@));
    }
}

/// Sorting values sorts their models.
pub proof fn lemma_sorted_views<T: Rank + View>(s: Seq<T>) where T::V: Rank
    requires
        ranked_as_viewed::<T>(),
    ensures
        views(stable_sorted(s)) == stable_sorted(views(s)),
    decreases s.len(),
{
    if s.len() > 0 {
        lemma_sorted_views(s.drop_last());
        lemma_insert_views(stable_sorted(s.drop_last()), s.last());
        assert(views(s).drop_last() =~= views(s.drop_last()));
        assert(views(s).last() == s.last()@);
    } else {
        assert(views(s) =~= Seq::<T::V>::empty());
    }
}

/// Puts the elements of `v` in rank order; equally ranked ones keep their order.
pub fn stable_sort<T: Ranked>(v: &mut Vec<T>)
    ensures
        final(v)@ == stable_sorted(old(v)@),
{
    let n: usize = v.len();
    let ghost all = v@;
    let mut i: usize = 0;
    assert(stable_sorted(all.take(0)) + all.skip(0) =~= all);
    while i < n
        invariant
            i <= n == all.len(),
            v@ == stable_sorted(all.take(i as int)) + all.skip(i as int),
            stable_sorted(all.take(i as int)).len() == i,
        decreases n - i,
    {
        let ghost done = stable_sorted(all.take(i as int));
        let ghost item = all[i as int];
        assert(v@[i as int] == item);
        let x = v.remove(i);
        assert(v@ =~= done + all.skip(i + 1));
        let mut at: usize = i;
        while at > 0 && x.is_before(&v[at - 1])
            invariant
                at <= i < n,
                n == all.len(),
                x == item,
                done.len() == i,
                v@ == done + all.skip(i + 1),
                forall|k: int| at <= k < done.len() ==> x.before(#[trigger] done[k]),
            decreases at,
        {
            assert(v@[at - 1] == done[at - 1]);
            at -= 1;
        }
        proof {
            if at > 0 {
                assert(v@[at - 1] == done[at - 1]);
            }
            lemma_insert_position(done, item, at as int);
            assert(all.take(i + 1).drop_last() =~= all.take(i as int));
            lemma_stable_sorted(all.take(i + 1));
        }
        v.insert(at, x);
        assert(v@ =~= stable_sorted(all.take(i + 1)) + all.skip(i + 1));
        i += 1;
    }
    assert(all.take(n as int) =~= all);
    assert(v@ =~= stable_sorted(all));
}

/// Whether text `a` stands before text `b` in code-point order.
pub open spec fn text_before(a: Seq<char>, b: Seq<char>) -> bool
    decreases a.len(),
{
    if b.len() == 0 {
        false
    } else if a.len() == 0 {
        true
    } else if a[0] != b[0] {
        a[0] < b[0]
    } else {
        text_before(a.drop_first(), b.drop_first())
    }
}

pub proof fn lemma_text_order(a: Seq<char>, b: Seq<char>, c: Seq<char>)
    ensures
        !text_before(a, a),
        text_before(a, b) && text_before(b, c) ==> text_before(a, c),
        !text_before(a, b) && !text_before(b, c) ==> !text_before(a, c),
        text_before(a, b) ==> !text_before(b, a),
        !text_before(a, b) && !text_before(b, a) ==> a == b,
    decreases a.len() + b.len() + c.len(),
{
    if a.len() > 0 {
        if b.len() > 0 && c.len() > 0 {
            lemma_text_order(a.drop_first(), b.drop_first(), c.drop_first());
        } else if b.len() > 0 {
            lemma_text_order(a.drop_first(), b.drop_first(), c);
        } else {
            lemma_text_order(a.drop_first(), b, c);
        }
        if b.len() > 0 && a[0] == b[0] && a.drop_first() == b.drop_first() {
            assert(a =~= seq![a[0]] + a.drop_first());
            assert(b =~= seq![b[0]] + b.drop_first());
        }
    } else if b.len() == 0 {
        assert(a =~= b);
    }
}

/// Whether text `a` stands before text `b` in code-point order.
pub fn text_is_before(a: &str, b: &str) -> (r: bool)
    ensures
        r == text_before(a@, b@),
{
    let x = crate::text::chars_of(a);
    let y = crate::text::chars_of(b);
    let mut i: usize = 0;
    assert(x@.skip(0) =~= x@);
    assert(y@.skip(0) =~= y@);
    while i < x.len() && i < y.len() && x[i] == y[i]
        invariant
            i <= x@.len(),
            i <= y@.len(),
            text_before(x@, y@) == text_before(x@.skip(i as int), y@.skip(i as int)),
        decreases x@.len() - i,
    {
        assert(x@.skip(i as int).drop_first() =~= x@.skip(i + 1));
        assert(y@.skip(i as int).drop_first() =~= y@.skip(i + 1));
        i += 1;
    }
    if i >= y.len() {
        false
    } else if i >= x.len() {
        true
    } else {
        assert(x@.skip(i as int)[0] == x@[i as int]);
        assert(y@.skip(i as int)[0] == y@[i as int]);
        x[i] < y[i]
    }
}

} // verus!
