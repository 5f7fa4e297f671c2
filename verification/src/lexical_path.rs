//! Paths as texts, taken apart the way `std::path` takes them apart on Unix.

use crate::text;
use crate::text::{chars_of, join_texts, push_text, same_text, split, text_of};
use vstd::prelude::*;
use vstd::string::*;

verus! {

/// Whether a path starts at the root.
pub open spec fn absolute(path: Seq<char>) -> bool {
    path.len() > 0 && path[0] == '/'
}

/// Whether the piece at position `i` between separators is a component: empty
/// pieces are none, and `.` is one only at the very start of a relative path.
pub open spec fn is_component(pieces: Seq<Seq<char>>, i: int) -> bool {
    pieces[i].len() > 0 && (pieces[i] != "."@ || i == 0)
}

/// The components among the first `n` pieces.
pub open spec fn components_of(pieces: Seq<Seq<char>>, n: nat) -> Seq<Seq<char>>
    decreases n,
{
    if n == 0 {
        Seq::empty()
    } else {
        let before = components_of(pieces, (n - 1) as nat);
        if is_component(pieces, n - 1) {
            before.push(pieces[n - 1])
        } else {
            before
        }
    }
}

/// The components of a path below its root.
pub open spec fn components(path: Seq<char>) -> Seq<Seq<char>> {
    components_of(text::split_on(path, '/'), text::split_on(path, '/').len())
}

/// The path with the given components.
pub open spec fn rendered(from_root: bool, parts: Seq<Seq<char>>) -> Seq<char> {
    if from_root {
        "/"@ + text::join(parts, "/"@)
    } else {
        text::join(parts, "/"@)
    }
}

/// The path as its components spell it: paths with the same components share
/// this form.
pub open spec fn respelled(path: Seq<char>) -> Seq<char> {
    rendered(absolute(path), components(path))
}

/// The path without the separators and `.` pieces at its end. The root stays.
pub open spec fn trimmed(path: Seq<char>) -> Seq<char>
    decreases path.len(),
{
    if path.len() <= 1 {
        path
    } else if path.last() == '/' || (path.last() == '.' && path[path.len() - 2] == '/') {
        trimmed(path.drop_last())
    } else {
        path
    }
}

/// The path up to its last separator.
pub open spec fn through_separator(path: Seq<char>) -> Seq<char>
    decreases path.len(),
{
    if path.len() == 0 || path.last() == '/' {
        path
    } else {
        through_separator(path.drop_last())
    }
}

/// The path without its last component, spelled as it stands in the path; a
/// root or an empty path has none.
pub open spec fn parent_of(path: Seq<char>) -> Option<Seq<char>> {
    if components(path).len() == 0 {
        None
    } else {
        Some(trimmed(through_separator(trimmed(path))))
    }
}

/// The last component of a path, where it is a name.
pub open spec fn file_name_of(path: Seq<char>) -> Option<Seq<char>> {
    let parts = components(path);
    if parts.len() == 0 || parts.last() == "."@ || parts.last() == ".."@ {
        None
    } else {
        Some(parts.last())
    }
}

/// Whether `path` is `root` or lies below it, component by component.
pub open spec fn within(path: Seq<char>, root: Seq<char>) -> bool {
    absolute(path) == absolute(root) && components(root).is_prefix_of(components(path))
}

/// Whether the two paths have the same components.
pub open spec fn same_path(a: Seq<char>, b: Seq<char>) -> bool {
    absolute(a) == absolute(b) && components(a) == components(b)
}

/// Whether `path` starts at the root.
pub fn is_absolute(path: &str) -> (r: bool)
    ensures
        r == absolute(path@),
{
    let chars = chars_of(path);
    chars.len() > 0 && chars[0] == '/'
}

/// The components of a path below its root.
pub fn path_components(path: &str) -> (r: Vec<String>)
    ensures
        text::texts(r@) == components(path@),
{
    let pieces = split(path, '/');
    let ghost all = text::texts(pieces@);
    let mut r: Vec<String> = Vec::new();
    let mut i: usize = 0;
    assert(text::texts(r@) =~= Seq::<Seq<char>>::empty());
    while i < pieces.len()
        invariant
            i <= pieces@.len(),
            all == text::texts(pieces@),
            text::texts(r@) == components_of(all, i as nat),
        decreases pieces@.len() - i,
    {
        let piece = &pieces[i];
        assert(all[i as int] == piece@);
        if !piece.as_str().is_empty() && (!same_text(piece.as_str(), ".") || i == 0) {
            push_text(&mut r, piece.as_str());
        }
        i += 1;
    }
    r
}

/// The path with the given components.
pub fn render_path(from_root: bool, parts: &Vec<String>) -> (r: String)
    ensures
        r@ == rendered(from_root, text::texts(parts@)),
{
    let joined = join_texts(parts, "/");
    if from_root {
        "/".to_owned().concat(joined.as_str())
    } else {
        joined
    }
}

/// The path as its components spell it.
pub fn respell(path: &str) -> (r: String)
    ensures
        r@ == respelled(path@),
{
    render_path(is_absolute(path), &path_components(path))
}

fn trim_chars(chars: &mut Vec<char>)
    ensures
        final(chars)@ == trimmed(old(chars)@),
{
    let ghost all = chars@;
    while chars.len() > 1 && (chars[chars.len() - 1] == '/' || (chars[chars.len() - 1] == '.'
        && chars[chars.len() - 2] == '/'))
        invariant
            trimmed(chars@) == trimmed(all),
        decreases chars@.len(),
    {
        let ghost before = chars@;
        let _last = chars.pop();
        assert(chars@ =~= before.drop_last());
    }
}

/// The path without its last component, spelled as it stands in the path; a
/// root or an empty path has none.
pub fn parent_path(path: &str) -> (r: Option<String>)
    ensures
        match r {
            Some(p) => parent_of(path@) == Some(p@),
            None => parent_of(path@) is None,
        },
{
    let parts = path_components(path);
    assert(text::texts(parts@).len() == parts@.len());
    if parts.len() == 0 {
        return None;
    }
    let mut chars = chars_of(path);
    trim_chars(&mut chars);
    let ghost whole = chars@;
    while chars.len() > 0 && chars[chars.len() - 1] != '/'
        invariant
            through_separator(chars@) == through_separator(whole),
        decreases chars@.len(),
    {
        let ghost before = chars@;
        let _last = chars.pop();
        assert(chars@ =~= before.drop_last());
    }
    trim_chars(&mut chars);
    Some(text_of(&chars))
}

/// The last component of a path, where it is a name.
pub fn file_name(path: &str) -> (r: Option<String>)
    ensures
        text::opt_text(r) == file_name_of(path@),
{
    let parts = path_components(path);
    let ghost all = text::texts(parts@);
    assert(all.len() == parts@.len());
    if parts.len() == 0 {
        return None;
    }
    let last = &parts[parts.len() - 1];
    assert(all.last() == last@);
    if same_text(last.as_str(), ".") || same_text(last.as_str(), "..") {
        None
    } else {
        Some(last.clone())
    }
}

/// Whether `path` is `root` or lies below it.
pub fn is_within(path: &str, root: &str) -> (r: bool)
    ensures
        r == within(path@, root@),
{
    let a = path_components(path);
    let b = path_components(root);
    if is_absolute(path) != is_absolute(root) || b.len() > a.len() {
        assert(text::texts(b@).len() == b@.len() && text::texts(a@).len() == a@.len());
        return false;
    }
    let mut i: usize = 0;
    while i < b.len()
        invariant
            i <= b@.len() <= a@.len(),
            text::texts(a@) == components(path@),
            text::texts(b@) == components(root@),
            forall|j: int| 0 <= j < i ==> a@[j]@ == b@[j]@,
        decreases b@.len() - i,
    {
        if !same_text(a[i].as_str(), b[i].as_str()) {
            assert(components(path@).subrange(0, b@.len() as int)[i as int] == a@[i as int]@);
            assert(components(root@)[i as int] == b@[i as int]@);
            return false;
        }
        i += 1;
    }
    assert(components(root@) =~= components(path@).subrange(0, b@.len() as int));
    true
}

/// Whether the two paths have the same components.
pub fn paths_agree(a: &str, b: &str) -> (r: bool)
    ensures
        r == same_path(a@, b@),
{
    is_absolute(a) == is_absolute(b) && text::same_texts(&path_components(a), &path_components(b))
}

/// A path lies within itself, and lying within is transitive.
pub proof fn law_within_is_a_preorder(a: Seq<char>, b: Seq<char>, c: Seq<char>)
    ensures
        within(a, a),
        within(a, b) && within(b, c) ==> within(a, c),
{
    assert(components(a) =~= components(a).subrange(0, components(a).len() as int));
    if within(a, b) && within(b, c) {
        assert(components(c) =~= components(a).subrange(0, components(c).len() as int)) by {
            assert forall|i: int| 0 <= i < components(c).len() implies components(c)[i]
                == components(a).subrange(0, components(c).len() as int)[i] by {
                assert(components(c)[i] == components(b).subrange(
                    0,
                    components(c).len() as int,
                )[i]);
                assert(components(b)[i] == components(a).subrange(
                    0,
                    components(b).len() as int,
                )[i]);
            }
        }
    }
}

/// Lying within one another means to be the same path.
pub proof fn law_within_both_ways_is_same(a: Seq<char>, b: Seq<char>)
    requires
        within(a, b),
        within(b, a),
    ensures
        same_path(a, b),
{
    assert(components(a) =~= components(b));
}

proof fn lemma_components_front(a: Seq<Seq<char>>, b: Seq<Seq<char>>, n: nat)
    requires
        n <= a.len(),
        n <= b.len(),
        a.take(n as int) == b.take(n as int),
    ensures
        components_of(a, n) == components_of(b, n),
    decreases n,
{
    if n > 0 {
        let k = n - 1;
        assert(a[k] == a.take(n as int)[k] && b[k] == b.take(n as int)[k]);
        assert(a.take(k) =~= a.take(n as int).take(k));
        assert(b.take(k) =~= b.take(n as int).take(k));
        lemma_components_front(a, b, k as nat);
    }
}

proof fn lemma_components_behind(path: Seq<char>, piece: Seq<char>)
    requires
        !piece.contains('/'),
    ensures
        components(path.push('/') + piece) == (if piece.len() > 0 && piece != "."@ {
            components(path).push(piece)
        } else {
            components(path)
        }),
{
    let front = text::split_on(path, '/');
    let whole = front.push(piece);
    text::lemma_split_append(path, '/', piece);
    text::lemma_split_nonempty(path, '/');
    assert(whole.take(front.len() as int) =~= front.take(front.len() as int));
    lemma_components_front(whole, front, front.len());
    assert(components_of(whole, whole.len()) == if is_component(whole, whole.len() - 1) {
        components_of(whole, front.len()).push(piece)
    } else {
        components_of(whole, front.len())
    });
}

proof fn lemma_trimmed(path: Seq<char>)
    ensures
        components(trimmed(path)) == components(path),
        absolute(trimmed(path)) == absolute(path),
        trimmed(path).len() > 1 ==> trimmed(path).last() != '/' && !(trimmed(path).last() == '.'
            && trimmed(path)[trimmed(path).len() - 2] == '/'),
    decreases path.len(),
{
    if path.len() > 1 {
        let front = path.drop_last();
        if path.last() == '/' {
            lemma_trimmed(front);
            lemma_components_behind(front, Seq::empty());
            assert(path =~= front.push('/') + Seq::<char>::empty());
        } else if path.last() == '.' && path[path.len() - 2] == '/' {
            lemma_trimmed(front);
            reveal_strlit(".");
            let stem = front.drop_last();
            assert("."@ =~= seq!['.']);
            lemma_components_behind(stem, "."@);
            lemma_components_behind(stem, Seq::empty());
            assert(path =~= stem.push('/') + "."@);
            assert(front =~= stem.push('/') + Seq::<char>::empty());
        }
    }
}

proof fn lemma_through_separator(path: Seq<char>) -> (rest: Seq<char>)
    ensures
        path == through_separator(path) + rest,
        !rest.contains('/'),
        through_separator(path).len() > 0 ==> through_separator(path).last() == '/',
    decreases path.len(),
{
    if path.len() == 0 || path.last() == '/' {
        assert(path =~= path + Seq::<char>::empty());
        Seq::empty()
    } else {
        let before = lemma_through_separator(path.drop_last());
        let rest = before.push(path.last());
        assert(path =~= path.drop_last().push(path.last()));
        assert(path =~= through_separator(path.drop_last()) + rest);
        assert forall|i: int| 0 <= i < rest.len() implies rest[i] != '/' by {
            if i < before.len() {
                assert(before.contains(before[i]));
            }
        }
        rest
    }
}

/// The parent has the components of the path but the last.
pub proof fn law_parent_lacks_the_last_component(path: Seq<char>)
    ensures
        components(path).len() > 0 ==> {
            &&& parent_of(path) is Some
            &&& components(parent_of(path)->0) == components(path).drop_last()
            &&& absolute(parent_of(path)->0) == absolute(path)
        },
{
    if components(path).len() > 0 {
        reveal_strlit(".");
        let whole = trimmed(path);
        lemma_trimmed(path);
        let up = through_separator(whole);
        let rest = lemma_through_separator(whole);
        lemma_trimmed(up);
        if up.len() > 0 {
            let stem = up.drop_last();
            assert(up =~= stem.push('/') + Seq::<char>::empty());
            assert(whole =~= stem.push('/') + rest);
            lemma_components_behind(stem, Seq::empty());
            lemma_components_behind(stem, rest);
            if rest.len() == 0 {
                assert(whole =~= up);
                assert(whole.len() == 1);
                assert(stem =~= Seq::<char>::empty());
                text::lemma_split_plain(stem, '/');
                assert(components_of(seq![stem], 1) == components_of(seq![stem], 0));
                assert(false);
            }
            if rest == "."@ {
                assert(whole.last() == '.' && whole[whole.len() - 2] == '/');
                assert(false);
            }
            assert(components(path) =~= components(stem).push(rest));
            assert(components(path).drop_last() =~= components(stem));
        } else {
            assert(whole =~= rest);
            text::lemma_split_plain(rest, '/');
            text::lemma_split_plain(up, '/');
            assert(up =~= Seq::<char>::empty());
            assert(components_of(seq![up], 1) == components_of(seq![up], 0));
            assert(components_of(seq![rest], 0) =~= Seq::<Seq<char>>::empty());
            if absolute(whole) {
                assert(rest.contains(rest[0]));
            }
            assert(components(path).drop_last() =~= components(up));
        }
    }
}

/// Whether a text can be a component below the start of a path.
pub open spec fn plain_part(part: Seq<char>) -> bool {
    part.len() > 0 && !part.contains('/') && part != "."@
}

proof fn lemma_components_tail(pieces: Seq<Seq<char>>, skip: int, n: nat)
    requires
        0 <= skip <= n <= pieces.len(),
        skip <= 1,
        skip == 1 ==> pieces[0].len() == 0,
        forall|i: int| skip <= i < n ==> plain_part(#[trigger] pieces[i]),
    ensures
        components_of(pieces, n) == pieces.subrange(skip, n as int),
    decreases n,
{
    if n > skip {
        lemma_components_tail(pieces, skip, (n - 1) as nat);
        assert(plain_part(pieces[n - 1]));
        assert(pieces.subrange(skip, n as int) =~= pieces.subrange(skip, n - 1).push(
            pieces[n - 1],
        ));
    } else if n == 1 {
        assert(components_of(pieces, 0) =~= Seq::<Seq<char>>::empty());
        assert(pieces.subrange(1, 1) =~= Seq::<Seq<char>>::empty());
    } else {
        assert(pieces.subrange(0, 0) =~= Seq::<Seq<char>>::empty());
    }
}

/// A path that is put together from plain components has these components.
pub proof fn lemma_components_of_rendered(from_root: bool, parts: Seq<Seq<char>>)
    requires
        forall|i: int| 0 <= i < parts.len() ==> plain_part(#[trigger] parts[i]),
    ensures
        components(rendered(from_root, parts)) == parts,
        absolute(rendered(from_root, parts)) == from_root,
{
    reveal_strlit("/");
    assert("/"@ =~= seq!['/']);
    let joined = text::join(parts, "/"@);
    let path = rendered(from_root, parts);
    if parts.len() > 0 {
        assert forall|i: int| 0 <= i < parts.len() implies !(#[trigger] parts[i]).contains('/') by {
            assert(plain_part(parts[i]));
        }
        text::lemma_split_join(parts, '/');
        lemma_join_starts(parts);
    } else {
        assert(joined =~= Seq::<char>::empty());
    }
    if from_root {
        lemma_split_root(joined);
        let pieces = text::split_on(path, '/');
        assert(path =~= seq!['/'] + joined);
        if parts.len() > 0 {
            assert(pieces == seq![Seq::<char>::empty()] + parts);
            assert forall|i: int| 1 <= i < pieces.len() implies plain_part(#[trigger] pieces[i]) by {
                assert(pieces[i] == parts[i - 1]);
            }
            lemma_components_tail(pieces, 1, pieces.len());
            assert(pieces.subrange(1, pieces.len() as int) =~= parts);
        } else {
            assert(pieces =~= seq![Seq::<char>::empty(), Seq::<char>::empty()]);
            assert(components_of(pieces, 0) =~= Seq::<Seq<char>>::empty());
            assert(components_of(pieces, 1) =~= Seq::<Seq<char>>::empty());
            assert(components_of(pieces, 2) =~= parts);
        }
    } else {
        if parts.len() > 0 {
            lemma_components_tail(parts, 0, parts.len());
            assert(parts.subrange(0, parts.len() as int) =~= parts);
        } else {
            let pieces = text::split_on(path, '/');
            assert(pieces =~= seq![Seq::<char>::empty()]);
            assert(components_of(pieces, 0) =~= Seq::<Seq<char>>::empty());
            assert(components_of(pieces, 1) =~= parts);
        }
    }
}

/// What plain components are joined to starts as the first of them.
pub proof fn lemma_join_starts(parts: Seq<Seq<char>>)
    requires
        parts.len() > 0,
        forall|i: int| 0 <= i < parts.len() ==> plain_part(#[trigger] parts[i]),
    ensures
        text::join(parts, "/"@).len() > 0,
        text::join(parts, "/"@)[0] == parts[0][0],
        parts[0][0] != '/',
    decreases parts.len(),
{
    assert(plain_part(parts[0]));
    assert(parts[0].contains(parts[0][0]));
    if parts.len() > 1 {
        let front = parts.drop_last();
        assert forall|i: int| 0 <= i < front.len() implies plain_part(#[trigger] front[i]) by {
            assert(front[i] == parts[i]);
        }
        lemma_join_starts(front);
    }
}

/// A leading separator stands behind an empty piece.
pub proof fn lemma_split_root(rest: Seq<char>)
    ensures
        text::split_on(seq!['/'] + rest, '/') == seq![Seq::<char>::empty()] + text::split_on(
            rest,
            '/',
        ),
    decreases rest.len(),
{
    let whole = seq!['/'] + rest;
    text::lemma_split_nonempty(rest, '/');
    if rest.len() == 0 {
        assert(whole.drop_last() =~= Seq::<char>::empty());
        assert(text::split_on(Seq::<char>::empty(), '/') == seq![Seq::<char>::empty()]);
        assert(rest =~= Seq::<char>::empty());
        assert(text::split_on(whole, '/') =~= seq![Seq::<char>::empty()] + text::split_on(
            rest,
            '/',
        ));
    } else {
        lemma_split_root(rest.drop_last());
        text::lemma_split_nonempty(rest.drop_last(), '/');
        assert(whole.drop_last() =~= seq!['/'] + rest.drop_last());
        let front = text::split_on(rest.drop_last(), '/');
        let wide = seq![Seq::<char>::empty()] + front;
        assert(wide.drop_last() =~= seq![Seq::<char>::empty()] + front.drop_last());
        assert(text::split_on(whole, '/') =~= seq![Seq::<char>::empty()] + text::split_on(
            rest,
            '/',
        ));
    }
}

/// Every component but a leading `.` is plain.
pub proof fn lemma_components_are_plain(path: Seq<char>)
    ensures
        forall|i: int|
            0 <= i < components(path).len() ==> (#[trigger] components(path)[i]).len() > 0
                && !components(path)[i].contains('/') && (plain_part(components(path)[i]) || i
                == 0),
{
    let pieces = text::split_on(path, '/');
    text::lemma_split_pieces(path, '/');
    lemma_components_below(pieces, pieces.len());
}

proof fn lemma_components_below(pieces: Seq<Seq<char>>, n: nat)
    requires
        n <= pieces.len(),
        forall|i: int| 0 <= i < pieces.len() ==> !(#[trigger] pieces[i]).contains('/'),
    ensures
        forall|i: int|
            0 <= i < components_of(pieces, n).len() ==> (#[trigger] components_of(
                pieces,
                n,
            )[i]).len() > 0 && !components_of(pieces, n)[i].contains('/') && (plain_part(
                components_of(pieces, n)[i],
            ) || i == 0),
        components_of(pieces, n).len() <= n,
    decreases n,
{
    if n > 0 {
        lemma_components_below(pieces, (n - 1) as nat);
        assert(!pieces[n - 1].contains('/'));
    }
}

proof fn lemma_components_past_root(pieces: Seq<Seq<char>>, n: nat)
    requires
        0 < pieces.len(),
        n <= pieces.len(),
        pieces[0].len() == 0,
        forall|i: int| 0 <= i < pieces.len() ==> !(#[trigger] pieces[i]).contains('/'),
    ensures
        forall|i: int|
            0 <= i < components_of(pieces, n).len() ==> plain_part(
                #[trigger] components_of(pieces, n)[i],
            ),
    decreases n,
{
    if n > 0 {
        lemma_components_past_root(pieces, (n - 1) as nat);
        let before = components_of(pieces, (n - 1) as nat);
        let now = components_of(pieces, n);
        assert forall|i: int| 0 <= i < now.len() implies plain_part(#[trigger] now[i]) by {
            if i < before.len() {
                assert(now[i] == before[i]);
            } else {
                assert(now[i] == pieces[n - 1]);
            }
        }
    }
}

/// A path that starts at the root has plain components only.
pub proof fn lemma_components_of_absolute(path: Seq<char>)
    requires
        absolute(path),
    ensures
        forall|i: int|
            0 <= i < components(path).len() ==> plain_part(#[trigger] components(path)[i]),
{
    let pieces = text::split_on(path, '/');
    assert(path =~= seq!['/'] + path.skip(1));
    lemma_split_root(path.skip(1));
    text::lemma_split_pieces(path, '/');
    lemma_components_past_root(pieces, pieces.len());
}

/// Two paths from the root have one common spelling exactly when they have the
/// same components.
pub proof fn law_spelling_tells_paths_apart(a: Seq<char>, b: Seq<char>)
    requires
        absolute(a),
        absolute(b),
    ensures
        respelled(a) == respelled(b) <==> same_path(a, b),
{
    lemma_components_of_absolute(a);
    lemma_components_of_absolute(b);
    lemma_components_of_rendered(true, components(a));
    lemma_components_of_rendered(true, components(b));
}

} // verus!
