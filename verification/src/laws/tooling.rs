//! What the tools for files, images and searches promise.

use crate::json::Json;
use crate::lexical_path;
use crate::text;
use crate::tools::definition;
use crate::tools::definition::{DefinitionModel, KindModel, ParameterModel};
use crate::tools::mime;
use crate::tools::mutation_queue;
use crate::tools::notebook::ToolCapability;
use crate::tools::paths;
use crate::tools::paths::{Nearest, ReadFacts, ScopedFacts, ScopedModel, VariantModel};
use crate::tools::web_search;
use crate::tools::web_search::ResultModel;
use vstd::prelude::*;
use vstd::string::*;

verus! {

// ---------------------------------------------------------------------------
// Paths
// ---------------------------------------------------------------------------

/// Every kind of space becomes a plain one, in place, and nothing else changes.
pub proof fn law_spaces_are_folded(s: Seq<char>, i: int)
    requires
        0 <= i < s.len(),
    ensures
        paths::folded(s).len() == s.len(),
        (s[i] == '\u{00A0}' || s[i] == '\u{202F}' || s[i] == '\u{205F}' || s[i] == '\u{3000}' || (
        '\u{2000}' <= s[i] <= '\u{200A}')) ==> paths::folded(s)[i] == ' ',
        !(s[i] == '\u{00A0}' || s[i] == '\u{202F}' || s[i] == '\u{205F}' || s[i] == '\u{3000}' || (
        '\u{2000}' <= s[i] <= '\u{200A}')) ==> paths::folded(s)[i] == s[i],
{
}

/// A straight apostrophe becomes a curly one, in place, and nothing else
/// changes.
pub proof fn law_apostrophes_are_curled(s: Seq<char>, i: int)
    requires
        0 <= i < s.len(),
    ensures
        paths::curled(s).len() == s.len(),
        s[i] == '\'' ==> paths::curled(s)[i] == '\u{2019}',
        s[i] != '\'' ==> paths::curled(s)[i] == s[i],
{
}

/// The space before `AM.` or `PM.`, in any case, becomes a narrow one, in place,
/// and nothing else changes.
pub proof fn law_half_days_are_narrowed(s: Seq<char>, i: int)
    requires
        0 <= i < s.len(),
    ensures
        ({
            let half = s[i] == ' ' && i + 3 < s.len() && s[i + 3] == '.' && (s[i + 2] == 'm'
                || s[i + 2] == 'M') && (s[i + 1] == 'a' || s[i + 1] == 'A' || s[i + 1] == 'p'
                || s[i + 1] == 'P');
            &&& paths::narrowed(s).len() == s.len()
            &&& half ==> paths::narrowed(s)[i] == '\u{202F}'
            &&& !half ==> paths::narrowed(s)[i] == s[i]
        }),
{
}

/// Of the pieces of a path, empty ones and dots change nothing, a name is taken,
/// and two dots take the name before them back; at the root they are dropped,
/// and elsewhere they stay where there is no name.
pub proof fn law_pieces_are_climbed(pieces: Seq<Seq<char>>, n: nat, from_root: bool)
    requires
        n < pieces.len(),
    ensures
        ({
            let before = paths::climbed(pieces, n, from_root);
            let after = paths::climbed(pieces, n + 1, from_root);
            let piece = pieces[n as int];
            let named = before.len() > 0 && before.last() != ".."@;
            &&& piece.len() == 0 || piece == "."@ ==> after == before
            &&& piece.len() > 0 && piece != "."@ && piece != ".."@ ==> after == before.push(piece)
            &&& piece == ".."@ && named ==> after == before.drop_last()
            &&& piece == ".."@ && !named && from_root ==> after == before
            &&& piece == ".."@ && !named && !from_root ==> after == before.push(".."@)
            &&& paths::climbed(pieces, 0, from_root).len() == 0
        }),
{
    reveal_strlit(".");
    reveal_strlit("..");
    assert("."@.len() == 1 && ".."@.len() == 2);
}

/// A cleaned path has the cleaned parts between single separators; where nothing
/// is left it is the root or a dot.
pub proof fn law_cleaned_paths_are_spelled(path: Seq<char>)
    ensures
        ({
            let parts = paths::clean_parts(path);
            let rooted = path.len() > 0 && path[0] == '/';
            &&& parts.len() == 0 && !rooted ==> paths::cleaned(path) == "."@
            &&& rooted ==> paths::cleaned(path) == "/"@ + text::join(parts, "/"@)
            &&& parts.len() > 0 && !rooted ==> paths::cleaned(path) == text::join(parts, "/"@)
        }),
{
}

/// A leading at-sign is dropped, once.
pub proof fn law_at_signs_are_dropped(s: Seq<char>)
    ensures
        paths::without_at(seq!['@'] + s) == s,
        s.len() > 0 && s[0] != '@' ==> paths::without_at(s) == s,
        paths::without_at(Seq::empty()).len() == 0,
{
    assert((seq!['@'] + s).skip(1) =~= s);
}

/// A tilde stands for the home directory, alone or before a separator; without a
/// home it stands for itself.
pub proof fn law_tildes_stand_for_home(input: Seq<char>, home: Seq<char>)
    ensures
        ({
            let s = paths::without_at(paths::folded(input));
            &&& s == "~"@ ==> paths::normalized(input, Some(home)) == home
            &&& "~/"@.is_prefix_of(s) ==> paths::normalized(input, Some(home)) == paths::cleaned(
                home + "/"@ + s.skip(2),
            )
            &&& s != "~"@ && !"~/"@.is_prefix_of(s) ==> paths::normalized(input, Some(home))
                == paths::from_address(s)
            &&& paths::normalized(input, None) == paths::from_address(s)
        }),
{
    reveal_strlit("~");
    reveal_strlit("~/");
    assert("~"@.len() == 1 && "~/"@.len() == 2);
}

/// A file address stands for the path behind its host; anything else for itself.
pub proof fn law_file_addresses_stand_for_paths(s: Seq<char>, host: Seq<char>, path: Seq<char>)
    requires
        !host.contains('/'),
        path.len() > 0,
        path[0] == '/',
    ensures
        paths::from_address("file://"@ + host + path) == paths::cleaned(path),
        !"file://"@.is_prefix_of(s) ==> paths::from_address(s) == s,
{
    let all = "file://"@ + host + path;
    reveal_strlit("file://");
    reveal_strlit("/");
    assert("file://"@.len() == 7);
    assert(all.take(7) =~= "file://"@);
    let rest = all.skip(7);
    assert(rest =~= host + path);
    text::lemma_first_at(rest, "/"@, 0);
    let at = host.len() as int;
    assert(rest.subrange(at, at + 1) =~= "/"@);
    assert(text::occurs_at(rest, "/"@, at));
    assert forall|j: int| 0 <= j < at implies !#[trigger] text::occurs_at(rest, "/"@, j) by {
        if text::occurs_at(rest, "/"@, j) {
            assert(rest.subrange(j, j + 1)[0] == host[j]);
            assert(host.contains(host[j]));
        }
    }
    assert(text::first_at(rest, "/"@, 0) == Some(at));
    assert(rest.skip(at) =~= path);
}

/// A path is resolved from the root where it starts there, and from the working
/// directory where it does not.
pub proof fn law_paths_are_resolved_from_the_working_directory(
    path: Seq<char>,
    cwd: Seq<char>,
    home: Option<Seq<char>>,
)
    ensures
        ({
            let n = paths::normalized(path, home);
            let r = paths::resolved(path, cwd, home);
            &&& n.len() > 0 && n[0] == '/' ==> r == paths::cleaned(n)
            &&& !(n.len() > 0 && n[0] == '/') && cwd.len() > 0 && cwd[0] == '/' ==> r
                == paths::cleaned(cwd + "/"@ + n)
        }),
{
    reveal_strlit("~");
    reveal_strlit("~/");
    assert("~"@[0] == '~' && "~/"@[0] == '~');
    if cwd.len() > 0 && cwd[0] == '/' {
        assert(cwd != "~"@);
        if "~/"@.is_prefix_of(cwd) {
            assert("~/"@[0] == cwd[0]);
        }
    }
}

/// The nearest path that exists is the path itself or the first of its parents
/// that does; the first that was not looked at is asked for.
pub proof fn law_the_nearest_existing_path_is_found(from: Seq<char>, exists: Seq<bool>, i: nat)
    ensures
        i >= exists.len() ==> paths::nearest(from, exists, i) == Nearest::Ask(from),
        i < exists.len() && exists[i as int] ==> paths::nearest(from, exists, i) == Nearest::Found(
            from,
        ),
        i < exists.len() && !exists[i as int] ==> match lexical_path::parent_of(from) {
            Some(up) => paths::nearest(from, exists, i) == paths::nearest(up, exists, i + 1),
            None => paths::nearest(from, exists, i) == Nearest::Nothing,
        },
{
}

/// A path that leads out of the working directory is refused before anything is
/// looked at, and one whose real path does once that is known; any other is
/// given as it was resolved.
pub proof fn law_paths_that_escape_are_refused(
    path: Seq<char>,
    target: Seq<char>,
    cwd: Seq<char>,
    facts: ScopedFacts,
    real_root: String,
    real_path: String,
    found: Seq<char>,
)
    ensures
        !lexical_path::within(target, paths::cleaned(cwd)) ==> paths::placed(
            path,
            target,
            cwd,
            facts,
        ) == ScopedModel::Failed("Path escapes working directory: "@ + path),
        lexical_path::within(target, paths::cleaned(cwd)) && facts.root is None ==> paths::placed(
            path,
            target,
            cwd,
            facts,
        ) == ScopedModel::RealRoot(paths::cleaned(cwd)),
        lexical_path::within(target, paths::cleaned(cwd)) && facts.root == Some(
            Some(real_root),
        ) && paths::nearest(target, facts.exists@, 0) == Nearest::Found(found)
            && facts.real_path == Some(Ok::<String, String>(real_path)) ==> {
            let step = paths::placed(path, target, cwd, facts);
            &&& lexical_path::within(real_path@, real_root@) ==> step == ScopedModel::Done(target)
            &&& !lexical_path::within(real_path@, real_root@) ==> step == ScopedModel::Failed(
                "Path escapes working directory: "@ + path,
            )
        },
        lexical_path::within(target, paths::cleaned(cwd)) && facts.root is Some && paths::nearest(
            target,
            facts.exists@,
            0,
        ) == Nearest::Found(found) && facts.real_path is None ==> paths::placed(
            path,
            target,
            cwd,
            facts,
        ) == ScopedModel::RealPath(found),
{
}

/// The other names of a file are tried in a fixed order: with a narrow space,
/// decomposed, with a curly apostrophe, and with both of the last; names that
/// are the file's own are passed over.
pub proof fn law_other_names_are_tried_in_order(
    target: Seq<char>,
    decomposed: Seq<char>,
    i: nat,
    exists: Seq<bool>,
    k: nat,
)
    ensures
        ({
            let names = paths::variants(target, decomposed);
            let step = paths::first_variant(names, i, target, exists, k);
            &&& names.len() == 4
            &&& names[0] == paths::narrowed(target)
            &&& names[1] == decomposed
            &&& names[2] == paths::curled(target)
            &&& names[3] == paths::curled(decomposed)
            &&& i >= 4 ==> step == VariantModel::Nowhere
            &&& i < 4 && names[i as int] == target ==> step == paths::first_variant(
                names,
                i + 1,
                target,
                exists,
                k,
            )
            &&& i < 4 && names[i as int] != target && k >= exists.len() ==> step
                == VariantModel::Exists(names[i as int])
            &&& i < 4 && names[i as int] != target && k < exists.len() && exists[k as int] ==> step
                == VariantModel::Found(names[i as int])
            &&& i < 4 && names[i as int] != target && k < exists.len() && !exists[k as int]
                ==> step == paths::first_variant(names, i + 1, target, exists, k + 1)
        }),
{
}

/// A file that exists is read under its own name, and only one that does not is
/// looked for under other names; where none exists its own name stays.
pub proof fn law_own_names_come_first(
    target: Seq<char>,
    decomposed: Seq<char>,
    cwd: Seq<char>,
    facts: ReadFacts,
)
    ensures
        ({
            let step = paths::readable(target, decomposed, cwd, facts);
            let other = paths::first_variant(
                paths::variants(target, decomposed),
                0,
                target,
                facts.exists@,
                1,
            );
            &&& facts.exists@.len() == 0 ==> step == ScopedModel::Exists(target)
            &&& facts.exists@.len() > 0 && facts.exists@[0] ==> step == ScopedModel::Done(target)
            &&& facts.exists@.len() > 0 && !facts.exists@[0] ==> match other {
                VariantModel::Exists(p) => step == ScopedModel::Exists(p),
                VariantModel::Found(p) => step == paths::placed(p, p, cwd, facts.variant),
                VariantModel::Nowhere => step == ScopedModel::Done(target),
            }
        }),
{
}

// ---------------------------------------------------------------------------
// Paths by component
// ---------------------------------------------------------------------------

/// A path lies within a root if and only if both start alike and the components
/// of the root come first; paths are the same if and only if they start alike
/// and have the same components.
pub proof fn law_paths_are_told_by_components(path: Seq<char>, root: Seq<char>)
    ensures
        ({
            let a = lexical_path::components(path);
            let b = lexical_path::components(root);
            let alike = (path.len() > 0 && path[0] == '/') == (root.len() > 0 && root[0] == '/');
            &&& lexical_path::within(path, root) <==> alike && b.len() <= a.len() && forall|i: int|
                0 <= i < b.len() ==> a[i] == #[trigger] b[i]
            &&& lexical_path::same_path(path, root) <==> alike && a == b
        }),
{
    let a = lexical_path::components(path);
    let b = lexical_path::components(root);
    if b.len() <= a.len() && (forall|i: int| 0 <= i < b.len() ==> a[i] == #[trigger] b[i]) {
        assert(b =~= a.subrange(0, b.len() as int));
    }
    if b.is_prefix_of(a) {
        assert forall|i: int| 0 <= i < b.len() implies a[i] == #[trigger] b[i] by {
            assert(a.subrange(0, b.len() as int)[i] == a[i]);
        }
    }
}

/// The components of a path are its pieces between separators that are not
/// empty, dots left out but for one at the start.
pub proof fn law_components_are_pieces(pieces: Seq<Seq<char>>, n: nat)
    requires
        n < pieces.len(),
    ensures
        ({
            let before = lexical_path::components_of(pieces, n);
            let after = lexical_path::components_of(pieces, n + 1);
            let piece = pieces[n as int];
            &&& piece.len() == 0 ==> after == before
            &&& piece == "."@ && n > 0 ==> after == before
            &&& piece == "."@ && n == 0 ==> after == before.push(piece)
            &&& piece.len() > 0 && piece != "."@ ==> after == before.push(piece)
            &&& lexical_path::components_of(pieces, 0).len() == 0
        }),
{
    reveal_strlit(".");
    assert("."@.len() == 1);
}

/// The name of a file is the last component of its path, unless that is a dot or
/// two.
pub proof fn law_file_names_are_last_components(path: Seq<char>)
    ensures
        ({
            let parts = lexical_path::components(path);
            &&& lexical_path::file_name_of(path) matches Some(name) ==> parts.len() > 0 && name
                == parts[parts.len() - 1] && name != "."@ && name != ".."@
            &&& lexical_path::file_name_of(path) is None ==> parts.len() == 0 || parts[parts.len()
                - 1] == "."@ || parts[parts.len() - 1] == ".."@
        }),
{
}

// ---------------------------------------------------------------------------
// The mutation queue
// ---------------------------------------------------------------------------

/// Joining a queue makes it one longer and leaving one shorter, and other queues
/// stay as they are; a queue that nobody waits in is forgotten.
pub proof fn law_queues_are_counted(
    m: Map<Seq<char>, usize>,
    key: Seq<char>,
    other: Seq<char>,
)
    requires
        mutation_queue::count(m, key) < usize::MAX,
    ensures
        mutation_queue::count(mutation_queue::joined(m, key), key) == mutation_queue::count(m, key)
            + 1,
        mutation_queue::count(m, key) > 0 ==> mutation_queue::count(
            mutation_queue::left(m, key),
            key,
        ) == mutation_queue::count(m, key) - 1,
        other != key ==> mutation_queue::count(mutation_queue::joined(m, key), other)
            == mutation_queue::count(m, other),
        other != key ==> mutation_queue::count(mutation_queue::left(m, key), other)
            == mutation_queue::count(m, other),
        mutation_queue::count(m, key) <= 1 ==> !mutation_queue::left(m, key).contains_key(key),
{
}

/// The key of a queue is spelled with forward separators.
pub proof fn law_keys_have_forward_separators(s: Seq<char>, i: int)
    requires
        0 <= i < s.len(),
    ensures
        mutation_queue::slashed(s).len() == s.len(),
        s[i] == '\\' ==> mutation_queue::slashed(s)[i] == '/',
        s[i] != '\\' ==> mutation_queue::slashed(s)[i] == s[i],
{
}

// ---------------------------------------------------------------------------
// Images
// ---------------------------------------------------------------------------

/// Whether a file begins with the given bytes.
pub open spec fn begins(buf: Seq<u8>, bytes: Seq<u8>) -> bool {
    bytes.len() <= buf.len() && forall|i: int| 0 <= i < bytes.len() ==> #[trigger] bytes[i] == buf[i]
}

/// A JPEG begins with its marker, unless it is a lossless one.
pub proof fn law_jpegs_are_told_by_their_marker(buf: Seq<u8>)
    ensures
        begins(buf, seq![0xffu8, 0xd8, 0xff]) ==> (mime::image_type(buf) == Some("image/jpeg"@)
            <==> !(buf.len() > 3 && buf[3] == 0xf7)),
        begins(buf, seq![0xffu8, 0xd8, 0xff]) && buf.len() > 3 && buf[3] == 0xf7
            ==> mime::image_type(buf) is None,
{
    if begins(buf, seq![0xffu8, 0xd8, 0xff]) {
        assert(seq![0xffu8, 0xd8, 0xff] =~= buf.subrange(0, 3)) by {
            let tag = seq![0xffu8, 0xd8, 0xff];
            assert forall|i: int| 0 <= i < 3 implies tag[i] == buf.subrange(0, 3)[i] by {
                assert(tag[i] == buf[i]);
            }
        }
        assert(seq![0xffu8, 0xd8, 0xff].is_prefix_of(buf));
    }
}

/// A still PNG has the signature, a header first, and no animation before its
/// first image data.
pub proof fn law_pngs_are_still(buf: Seq<u8>)
    ensures
        mime::image_type(buf) == Some("image/png"@) ==> begins(
            buf,
            seq![0x89u8, 0x50, 0x4e, 0x47, 0x0d, 0x0a, 0x1a, 0x0a],
        ) && buf.len() >= 16 && begins(buf.skip(8), seq![0u8, 0, 0, 13, 0x49, 0x48, 0x44, 0x52])
            && !mime::animated_from(buf, 8),
{
    reveal_strlit("image/jpeg");
    reveal_strlit("image/png");
    reveal_strlit("image/gif");
    reveal_strlit("image/webp");
    reveal_strlit("image/bmp");
    reveal_strlit("IHDR");
    if mime::image_type(buf) == Some("image/png"@) {
        assert("image/png"@[6] == 'p' && "image/gif"@[6] == 'g' && "image/bmp"@[6] == 'b'
            && "image/jpeg"@.len() == 10 && "image/webp"@.len() == 10 && "image/png"@.len() == 9);
        let sig = mime::png_signature();
        assert(sig.is_prefix_of(buf));
        assert forall|i: int| 0 <= i < 8 implies #[trigger] sig[i] == buf[i] by {
            assert(buf.subrange(0, 8)[i] == buf[i]);
        }
        assert(mime::has_png_header(buf));
        assert("IHDR"@[0] == 'I' && "IHDR"@[1] == 'H' && "IHDR"@[2] == 'D' && "IHDR"@[3] == 'R');
        assert(buf[12int + 0] as char == "IHDR"@[0]);
        assert(buf[12int + 1] as char == "IHDR"@[1]);
        assert(buf[12int + 2] as char == "IHDR"@[2]);
        assert(buf[12int + 3] as char == "IHDR"@[3]);
        let head = seq![0u8, 0, 0, 13, 0x49, 0x48, 0x44, 0x52];
        assert forall|i: int| 0 <= i < 8 implies #[trigger] head[i] == buf.skip(8)[i] by {}
    }
}

/// An animation is told by its chunk before the first image data, chunk by
/// chunk; a chunk that runs past the end stops the search.
pub proof fn law_animations_are_told_by_their_chunk(buf: Seq<u8>, offset: int)
    requires
        0 <= offset,
    ensures
        ({
            let next = offset + 12 + mime::u32_be(buf, offset);
            let data = mime::tag_at(buf, offset + 4, "IDAT"@);
            let animated = mime::tag_at(buf, offset + 4, "acTL"@);
            &&& offset + 8 > buf.len() ==> !mime::animated_from(buf, offset)
            &&& offset + 8 <= buf.len() && animated ==> mime::animated_from(buf, offset)
            &&& offset + 8 <= buf.len() && !animated && (data || next > buf.len())
                ==> !mime::animated_from(buf, offset)
            &&& offset + 8 <= buf.len() && !animated && !data && next <= buf.len() ==> (
            mime::animated_from(buf, offset) <==> mime::animated_from(buf, next))
        }),
{
}

/// Numbers are read with the low byte first or the high byte first, as the format
/// has it.
pub proof fn law_numbers_are_read_by_byte(buf: Seq<u8>, i: int)
    requires
        0 <= i,
        i + 4 <= buf.len(),
    ensures
        mime::u16_le(buf, i) == buf[i] + 256 * buf[i + 1],
        mime::u32_le(buf, i) == buf[i] + 256 * buf[i + 1] + 65536 * buf[i + 2] + 16777216 * buf[i
            + 3],
        mime::u32_be(buf, i) == 16777216 * buf[i] + 65536 * buf[i + 1] + 256 * buf[i + 2] + buf[i
            + 3],
{
}

/// A GIF, a WebP and a bitmap are told by their tags, and a bitmap by a header
/// that makes sense too.
pub proof fn law_other_images_are_told_by_their_tags(buf: Seq<u8>)
    requires
        buf.len() > 0,
        buf[0] != 0xff,
        buf[0] != 0x89,
    ensures
        ({
            let gif = mime::tag_at(buf, 0, "GIF"@);
            let webp = mime::tag_at(buf, 0, "RIFF"@) && mime::tag_at(buf, 8, "WEBP"@);
            let bmp = mime::tag_at(buf, 0, "BM"@) && mime::bmp_header(buf);
            &&& gif ==> mime::image_type(buf) == Some("image/gif"@)
            &&& !gif && webp ==> mime::image_type(buf) == Some("image/webp"@)
            &&& !gif && !webp && bmp ==> mime::image_type(buf) == Some("image/bmp"@)
            &&& !gif && !webp && !bmp ==> mime::image_type(buf) is None
        }),
{
    let jpeg = seq![0xffu8, 0xd8, 0xff];
    if jpeg.is_prefix_of(buf) {
        assert(jpeg[0] == buf.subrange(0, 3)[0]);
    }
    let png = mime::png_signature();
    if png.is_prefix_of(buf) {
        assert(png[0] == buf.subrange(0, 8)[0]);
    }
}

/// A bitmap's header makes sense if and only if its sizes fit each other, it has
/// one plane, and a depth that bitmaps have.
pub proof fn law_bitmap_headers_make_sense(buf: Seq<u8>)
    requires
        buf.len() >= 30,
    ensures
        mime::bmp_header(buf) <==> {
            let size = mime::u32_le(buf, 2);
            let pixels = mime::u32_le(buf, 10);
            let header = mime::u32_le(buf, 14);
            let at: int = if header == 12 {
                22
            } else {
                26
            };
            let depth = mime::u16_le(buf, at + 2);
            &&& header == 12 || (header >= 40 && header <= 124)
            &&& size == 0 || (size >= 26 && pixels < size)
            &&& pixels >= 14 + header
            &&& mime::u16_le(buf, at) == 1
            &&& depth == 1 || depth == 4 || depth == 8 || depth == 16 || depth == 24 || depth == 32
        },
{
}

// ---------------------------------------------------------------------------
// Searches
// ---------------------------------------------------------------------------

/// Searches are off if and only if the setting says one, true or yes, in any case
/// and with any space around it.
pub proof fn law_searches_are_off_when_told(v: Seq<char>)
    ensures
        web_search::offline(Some(v)) <==> {
            let word = text::ascii_lower(text::trimmed(v));
            word == "1"@ || word == "true"@ || word == "yes"@
        },
        !web_search::offline(None),
{
}

/// A query is escaped byte by byte: letters, digits, hyphen, underscore, dot and
/// tilde stay, every other byte becomes a percent sign and two capital digits.
pub proof fn law_queries_are_escaped_by_byte(bytes: Seq<u8>, b: u8)
    ensures
        ({
            let kept = (b >= 0x30 && b <= 0x39) || (b >= 0x41 && b <= 0x5a) || (b >= 0x61 && b
                <= 0x7a) || b == 0x2d || b == 0x2e || b == 0x5f || b == 0x7e;
            &&& web_search::escaped(Seq::empty()).len() == 0
            &&& kept ==> web_search::escaped(bytes.push(b)) == web_search::escaped(bytes) + seq![
                b as char,
            ]
            &&& !kept ==> web_search::escaped(bytes.push(b)) == web_search::escaped(bytes) + seq![
                '%',
                web_search::hex_upper((b / 16) as nat),
                web_search::hex_upper((b % 16) as nat),
            ]
            &&& web_search::hex_upper(0) == '0'
            &&& web_search::hex_upper(9) == '9'
            &&& web_search::hex_upper(10) == 'A'
            &&& web_search::hex_upper(15) == 'F'
        }),
{
    assert(bytes.push(b).drop_last() =~= bytes);
}

/// The number of results is the one asked for, within one and ten, and five
/// where none is.
pub proof fn law_result_numbers_are_clamped(n: i64)
    ensures
        web_search::clamped(None) == 5,
        n < 1 ==> web_search::clamped(Some(n)) == 1,
        1 <= n <= 10 ==> web_search::clamped(Some(n)) == n,
        n > 10 ==> web_search::clamped(Some(n)) == 10,
{
}

/// A text is split at its first dash between spaces into title and snippet, both
/// trimmed; without one it is all snippet.
pub proof fn law_titles_stand_before_the_first_dash(s: Seq<char>, at: int)
    ensures
        ({
            let t = text::trimmed(s);
            &&& text::occurs_at(t, " - "@, at) && (forall|j: int|
                0 <= j < at ==> !#[trigger] text::occurs_at(t, " - "@, j))
                ==> web_search::split_title(s) == (
                text::trimmed(t.take(at)),
                text::trimmed(t.skip(at + 3)),
            )
            &&& (forall|j: int| !#[trigger] text::occurs_at(t, " - "@, j))
                ==> web_search::split_title(s).0.len() == 0 && web_search::split_title(s).1 == t
        }),
{
    let t = text::trimmed(s);
    text::lemma_first_at(t, " - "@, 0);
}

/// A topic gives its title and snippet from its text, and its own address.
pub proof fn law_topics_are_results(topic: Json)
    ensures
        ({
            let r = web_search::topic_result(topic);
            let parts = web_search::split_title(web_search::text_or_empty(topic, "Text"@));
            &&& r.title == parts.0
            &&& r.snippet == parts.1
            &&& r.url == web_search::text_or_empty(topic, "FirstURL"@)
        }),
{
}

/// Topics are collected in order until there are enough: one with an address is
/// a result, one without text or address is a group whose topics are collected,
/// one level deep, and any other is passed over.
pub proof fn law_topics_are_collected_in_order(
    topics: Seq<Json>,
    n: nat,
    out: Seq<ResultModel>,
    max: nat,
    enter: bool,
)
    requires
        n < topics.len(),
    ensures
        ({
            let before = web_search::collected(topics, n, out, max, enter);
            let after = web_search::collected(topics, n + 1, out, max, enter);
            let topic = topics[n as int];
            let words = web_search::text_or_empty(topic, "Text"@);
            let url = web_search::text_or_empty(topic, "FirstURL"@);
            let group = words.len() == 0 && url.len() == 0;
            let inner = web_search::list_field(topic, "Topics"@);
            &&& web_search::collected(topics, 0, out, max, enter) == out
            &&& before.len() >= max ==> after == before
            &&& before.len() < max && !group && url.len() > 0 && !"//"@.is_prefix_of(url) ==> after
                == before.push(web_search::topic_result(topic))
            &&& before.len() < max && !group && (url.len() == 0 || "//"@.is_prefix_of(url))
                ==> after == before
            &&& before.len() < max && group && enter && inner is Some ==> after
                == web_search::collected(inner->0, inner->0.len(), before, max, false)
            &&& before.len() < max && group && (!enter || inner is None) ==> after == before
        }),
{
}

/// A summary comes first where there is one: under its heading, or its address
/// where it has none.
pub proof fn law_summaries_come_first(body: Json)
    ensures
        ({
            let heading = text::trimmed(web_search::text_or_empty(body, "Heading"@));
            let summary = text::trimmed(web_search::text_or_empty(body, "AbstractText"@));
            let url = text::trimmed(web_search::text_or_empty(body, "AbstractURL"@));
            let r = web_search::abstract_results(body);
            &&& summary.len() == 0 && url.len() == 0 <==> r.len() == 0
            &&& r.len() <= 1
            &&& r.len() == 1 ==> r[0].url == url && r[0].snippet == summary && (heading.len() > 0
                ==> r[0].title == heading) && (heading.len() == 0 ==> r[0].title == url)
        }),
{
}

/// A result is shown as the lines that it has, its title, its address and its
/// snippet, in this order; results are parted by a rule, and none is told.
pub proof fn law_results_are_shown(r: ResultModel, results: Seq<ResultModel>)
    ensures
        web_search::rendered(Seq::empty()) == "No results"@,
        web_search::rendered(seq![r]) == web_search::block(r),
        results.len() > 0 ==> web_search::rendered(results.push(r)) == web_search::rendered(results)
            + "\n---\n"@ + web_search::block(r),
        r.title.len() > 0 && r.url.len() > 0 && r.snippet.len() > 0 ==> web_search::block(r)
            == r.title + "\n"@ + r.url + "\n"@ + r.snippet,
        r.title.len() == 0 && r.url.len() > 0 && r.snippet.len() > 0 ==> web_search::block(r)
            == r.url + "\n"@ + r.snippet,
        r.title.len() > 0 && r.url.len() > 0 && r.snippet.len() == 0 ==> web_search::block(r)
            == r.title + "\n"@ + r.url,
{
    let f = |r: ResultModel| web_search::block(r);
    assert(seq![r].map_values(f) =~= seq![web_search::block(r)]);
    if results.len() > 0 {
        let blocks = results.map_values(f);
        assert(results.push(r).map_values(f) =~= blocks.push(web_search::block(r)));
        text::lemma_join_push(blocks, web_search::block(r), "\n---\n"@);
    }
    let lines = web_search::block_lines(r);
    reveal_with_fuel(text::join, 4);
    if r.title.len() > 0 && r.url.len() > 0 && r.snippet.len() > 0 {
        assert(lines =~= seq![r.title, r.url, r.snippet]);
        assert(lines.drop_last() =~= seq![r.title, r.url]);
        assert(lines.drop_last().drop_last() =~= seq![r.title]);
    } else if r.title.len() == 0 && r.url.len() > 0 && r.snippet.len() > 0 {
        assert(lines =~= seq![r.url, r.snippet]);
        assert(lines.drop_last() =~= seq![r.url]);
    } else if r.title.len() > 0 && r.url.len() > 0 && r.snippet.len() == 0 {
        assert(lines =~= seq![r.title, r.url]);
        assert(lines.drop_last() =~= seq![r.title]);
    }
}

/// A result is shown without the parts that it lacks, and without lines for them.
pub proof fn law_missing_parts_of_results_take_no_line(a: Seq<char>, b: Seq<char>)
    requires
        a.len() > 0,
        b.len() > 0,
    ensures
        ({
            let none = Seq::<char>::empty();
            &&& web_search::block(ResultModel { title: a, url: none, snippet: none }) == a
            &&& web_search::block(ResultModel { title: none, url: a, snippet: none }) == a
            &&& web_search::block(ResultModel { title: none, url: none, snippet: a }) == a
            &&& web_search::block(ResultModel { title: a, url: none, snippet: b }) == a + "\n"@ + b
            &&& web_search::block(ResultModel { title: a, url: b, snippet: none }) == a + "\n"@ + b
            &&& web_search::block(ResultModel { title: none, url: a, snippet: b }) == a + "\n"@ + b
            &&& web_search::block(ResultModel { title: none, url: none, snippet: none }) == none
        }),
{
    let none = Seq::<char>::empty();
    reveal_with_fuel(text::join, 3);
    assert(Seq::<Seq<char>>::empty().push(a) =~= seq![a]);
    assert(seq![a].push(b) =~= seq![a, b]);
    assert(seq![a, b].drop_last() =~= seq![a]);
}

// ---------------------------------------------------------------------------
// Definitions
// ---------------------------------------------------------------------------

/// The names of the parameters of a tool, in order.
pub open spec fn parameter_names(d: DefinitionModel) -> Seq<Seq<char>> {
    d.parameters.map_values(|p: ParameterModel| p.name)
}

/// A search takes a query, which it needs, and a number of results, and reads.
pub proof fn law_searches_take_a_query()
    ensures
        ({
            let d = definition::web_search_definition();
            &&& d.name == "web_search"@
            &&& parameter_names(d) == seq!["query"@, "max_results"@]
            &&& d.parameters[0].kind is Text
            &&& d.parameters[1].kind is Number
            &&& d.required == seq!["query"@]
            &&& d.capability == ToolCapability::Read
        }),
{
    let d = definition::web_search_definition();
    assert(parameter_names(d) =~= seq!["query"@, "max_results"@]);
}

/// The language tool takes an action, which it needs, and what its actions take;
/// it writes, since renaming does.
pub proof fn law_language_calls_take_an_action()
    ensures
        ({
            let d = definition::lsp_definition();
            &&& d.name == "lsp"@
            &&& parameter_names(d) == seq![
                "action"@,
                "path"@,
                "query"@,
                "symbol"@,
                "line"@,
                "character"@,
                "end_line"@,
                "end_character"@,
                "new_name"@,
                "lang"@,
            ]
            &&& forall|i: int|
                0 <= i < 10 ==> (#[trigger] d.parameters[i]).kind == (if 4 <= i <= 7 {
                    KindModel::Number
                } else {
                    KindModel::Text
                })
            &&& d.required == seq!["action"@]
            &&& d.capability == ToolCapability::Write
        }),
{
    let d = definition::lsp_definition();
    assert(parameter_names(d) =~= seq![
        "action"@,
        "path"@,
        "query"@,
        "symbol"@,
        "line"@,
        "character"@,
        "end_line"@,
        "end_character"@,
        "new_name"@,
        "lang"@,
    ]);
}

/// The notebook tool takes an action and a path, which it needs, and what its
/// actions take; it runs code, since executing does.
pub proof fn law_notebook_calls_take_an_action_and_a_path()
    ensures
        ({
            let d = definition::notebook_definition();
            &&& d.name == "notebook"@
            &&& parameter_names(d) == seq![
                "action"@,
                "path"@,
                "cell"@,
                "write"@,
                "cell_type"@,
                "source"@,
                "timeout"@,
            ]
            &&& d.parameters[0].kind is Text
            &&& d.parameters[1].kind is Text
            &&& d.parameters[2].kind is Number
            &&& d.parameters[3].kind is Boolean
            &&& d.parameters[4].kind is Text
            &&& d.parameters[5].kind is TextOrLines
            &&& d.parameters[6].kind is Number
            &&& d.required == seq!["action"@, "path"@]
            &&& d.capability == ToolCapability::Exec
        }),
{
    let d = definition::notebook_definition();
    assert(parameter_names(d) =~= seq![
        "action"@,
        "path"@,
        "cell"@,
        "write"@,
        "cell_type"@,
        "source"@,
        "timeout"@,
    ]);
}

/// A byte is read where there is one. Behind the end of a file there are zeros.
pub proof fn law_bytes_behind_the_end_are_zero(buf: Seq<u8>, i: int)
    ensures
        0 <= i < buf.len() ==> mime::byte_at(buf, i) == buf[i],
        i >= buf.len() || i < 0 ==> mime::byte_at(buf, i) == 0,
{
}

/// A tag is found where its bytes stand, up to the very end of what was read, and
/// bytes behind it change nothing.
pub proof fn law_tags_may_end_the_file(buf: Seq<u8>, more: Seq<u8>, at: int, tag: Seq<char>)
    requires
        0 <= at,
    ensures
        at + tag.len() > buf.len() ==> !mime::tag_at(buf, at, tag),
        at + tag.len() <= buf.len() ==> (mime::tag_at(buf, at, tag) <==> mime::tag_at(
            buf + more,
            at,
            tag,
        )),
{
    let longer = buf + more;
    if at + tag.len() <= buf.len() {
        if mime::tag_at(longer, at, tag) {
            assert forall|i: int| 0 <= i < tag.len() implies buf[at + i] as char
                == #[trigger] tag[i] by {
                assert(longer[at + i] as char == tag[i]);
            }
        }
    }
}

} // verus!
