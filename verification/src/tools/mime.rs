//! Image type sniffing from magic bytes.

use crate::text::chars_of;
use vstd::prelude::*;
use vstd::string::*;

verus! {

/// How much of a file is looked at.
pub const IMAGE_TYPE_SNIFF_BYTES: usize = 4100;

/// The first bytes of a PNG file.
pub open spec fn png_signature() -> Seq<u8> {
    seq![0x89, 0x50, 0x4e, 0x47, 0x0d, 0x0a, 0x1a, 0x0a]
}

/// A byte, or zero behind the end.
pub open spec fn byte_at(buf: Seq<u8>, i: int) -> nat {
    if 0 <= i < buf.len() {
        buf[i] as nat
    } else {
        0
    }
}

pub open spec fn u16_le(buf: Seq<u8>, i: int) -> nat {
    byte_at(buf, i) + byte_at(buf, i + 1) * 0x100
}

pub open spec fn u32_le(buf: Seq<u8>, i: int) -> nat {
    u16_le(buf, i) + u16_le(buf, i + 2) * 0x10000
}

pub open spec fn u32_be(buf: Seq<u8>, i: int) -> nat {
    byte_at(buf, i) * 0x1000000 + byte_at(buf, i + 1) * 0x10000 + byte_at(buf, i + 2) * 0x100
        + byte_at(buf, i + 3)
}

/// Whether an ASCII tag stands at a place.
pub open spec fn tag_at(buf: Seq<u8>, at: int, tag: Seq<char>) -> bool {
    at + tag.len() <= buf.len() && forall|i: int|
        0 <= i < tag.len() ==> buf[at + i] as char == #[trigger] tag[i]
}

/// Whether a header chunk of the right length follows the signature.
pub open spec fn has_png_header(buf: Seq<u8>) -> bool {
    buf.len() >= 16 && u32_be(buf, 8) == 13 && tag_at(buf, 12, "IHDR"@)
}

/// Whether an animation chunk stands before the image data, looking at the
/// chunks from `offset` on.
pub open spec fn animated_from(buf: Seq<u8>, offset: int) -> bool
    decreases buf.len() - offset,
{
    let next = offset + 12 + u32_be(buf, offset);
    if offset + 8 > buf.len() {
        false
    } else if tag_at(buf, offset + 4, "acTL"@) {
        true
    } else if tag_at(buf, offset + 4, "IDAT"@) || next > buf.len() {
        false
    } else {
        animated_from(buf, next)
    }
}

/// Whether a BMP header is sound: its sizes and offsets agree, it has one colour
/// plane, and a depth that exists.
pub open spec fn bmp_header(buf: Seq<u8>) -> bool {
    let file_size = u32_le(buf, 2);
    let pixels = u32_le(buf, 10);
    let header = u32_le(buf, 14);
    let old_style = header == 12;
    let planes = if old_style {
        u16_le(buf, 22)
    } else {
        u16_le(buf, 26)
    };
    let depth = if old_style {
        u16_le(buf, 24)
    } else {
        u16_le(buf, 28)
    };
    &&& buf.len() >= 26
    &&& file_size == 0 || file_size >= 26
    &&& pixels >= 14 + header
    &&& file_size == 0 || pixels < file_size
    &&& old_style || (40 <= header <= 124 && buf.len() >= 30)
    &&& planes == 1
    &&& depth == 1 || depth == 4 || depth == 8 || depth == 16 || depth == 24 || depth == 32
}

/// The supported image type of a file, from its first bytes.
pub open spec fn image_type(buf: Seq<u8>) -> Option<Seq<char>> {
    if seq![0xffu8, 0xd8, 0xff].is_prefix_of(buf) {
        if byte_at(buf, 3) == 0xf7 {
            None
        } else {
            Some("image/jpeg"@)
        }
    } else if png_signature().is_prefix_of(buf) {
        if has_png_header(buf) && !animated_from(buf, 8) {
            Some("image/png"@)
        } else {
            None
        }
    } else if tag_at(buf, 0, "GIF"@) {
        Some("image/gif"@)
    } else if tag_at(buf, 0, "RIFF"@) && tag_at(buf, 8, "WEBP"@) {
        Some("image/webp"@)
    } else if tag_at(buf, 0, "BM"@) && bmp_header(buf) {
        Some("image/bmp"@)
    } else {
        None
    }
}

fn read_byte(buf: &[u8], i: usize) -> (b: u64)
    ensures
        b == byte_at(buf@, i as int),
        b < 0x100,
{
    if i < buf.len() {
        buf[i] as u64
    } else {
        0
    }
}

fn read_uint16_le(buf: &[u8], i: usize) -> (n: u64)
    requires
        i < usize::MAX,
    ensures
        n == u16_le(buf@, i as int),
        n < 0x10000,
{
    read_byte(buf, i) + read_byte(buf, i + 1) * 0x100
}

fn read_uint32_le(buf: &[u8], i: usize) -> (n: u64)
    requires
        i + 3 <= usize::MAX,
    ensures
        n == u32_le(buf@, i as int),
        n < 0x100000000,
{
    read_uint16_le(buf, i) + read_uint16_le(buf, i + 2) * 0x10000
}

fn read_uint32_be(buf: &[u8], i: usize) -> (n: u64)
    requires
        i + 3 <= usize::MAX,
    ensures
        n == u32_be(buf@, i as int),
        n < 0x100000000,
{
    read_byte(buf, i) * 0x1000000 + read_byte(buf, i + 1) * 0x10000 + read_byte(buf, i + 2) * 0x100
        + read_byte(buf, i + 3)
}

fn bytes_start_with(buf: &[u8], prefix: &[u8]) -> (r: bool)
    ensures
        r == prefix@.is_prefix_of(buf@),
{
    if buf.len() < prefix.len() {
        return false;
    }
    let mut i: usize = 0;
    while i < prefix.len()
        invariant
            i <= prefix@.len() <= buf@.len(),
            forall|k: int| 0 <= k < i ==> buf@[k] == prefix@[k],
        decreases prefix@.len() - i,
    {
        if buf[i] != prefix[i] {
            return false;
        }
        i += 1;
    }
    true
}

fn starts_with_ascii(buf: &[u8], offset: usize, tag: &str) -> (r: bool)
    ensures
        r == tag_at(buf@, offset as int, tag@),
{
    let chars = chars_of(tag);
    if offset > buf.len() || buf.len() - offset < chars.len() {
        return false;
    }
    let mut i: usize = 0;
    while i < chars.len()
        invariant
            i <= chars@.len(),
            chars@ == tag@,
            offset + chars@.len() <= buf@.len() <= usize::MAX,
            forall|k: int| 0 <= k < i ==> buf@[offset + k] as char == #[trigger] tag@[k],
        decreases chars@.len() - i,
    {
        if buf[offset + i] as char != chars[i] {
            return false;
        }
        i += 1;
    }
    true
}

fn is_png(buf: &[u8]) -> (r: bool)
    ensures
        r == has_png_header(buf@),
{
    buf.len() >= 16 && read_uint32_be(buf, 8) == 13 && starts_with_ascii(buf, 12, "IHDR")
}

fn is_animated_png(buf: &[u8]) -> (r: bool)
    ensures
        r == animated_from(buf@, 8),
{
    let mut offset: usize = 8;
    while offset < buf.len() && buf.len() - offset >= 8
        invariant
            animated_from(buf@, 8) == animated_from(buf@, offset as int),
        decreases buf@.len() - offset,
    {
        let length: u64 = read_uint32_be(buf, offset);
        if starts_with_ascii(buf, offset + 4, "acTL") {
            return true;
        }
        if starts_with_ascii(buf, offset + 4, "IDAT") {
            return false;
        }
        let rest: u64 = (buf.len() - offset) as u64;
        if 12 + length > rest {
            return false;
        }
        offset = offset + 12 + length as usize;
    }
    false
}

fn is_bmp(buf: &[u8]) -> (r: bool)
    ensures
        r == bmp_header(buf@),
{
    if buf.len() < 26 {
        return false;
    }
    let file_size: u64 = read_uint32_le(buf, 2);
    let pixels: u64 = read_uint32_le(buf, 10);
    let header: u64 = read_uint32_le(buf, 14);
    if file_size != 0 && file_size < 26 {
        return false;
    }
    if pixels < 14 + header {
        return false;
    }
    if file_size != 0 && pixels >= file_size {
        return false;
    }
    let planes: u64;
    let depth: u64;
    if header == 12 {
        planes = read_uint16_le(buf, 22);
        depth = read_uint16_le(buf, 24);
    } else if header >= 40 && header <= 124 {
        if buf.len() < 30 {
            return false;
        }
        planes = read_uint16_le(buf, 26);
        depth = read_uint16_le(buf, 28);
    } else {
        return false;
    }
    planes == 1 && (depth == 1 || depth == 4 || depth == 8 || depth == 16 || depth == 24 || depth
        == 32)
}

/// The supported image type of a file, from its first bytes.
pub fn detect_supported_image_mime_type(buf: &[u8]) -> (r: Option<String>)
    ensures
        match r {
            Some(s) => image_type(buf@) == Some(s@),
            None => image_type(buf@) is None,
        },
{
    let jpeg: [u8; 3] = [0xff, 0xd8, 0xff];
    let png: [u8; 8] = [0x89, 0x50, 0x4e, 0x47, 0x0d, 0x0a, 0x1a, 0x0a];
    assert(jpeg@ =~= seq![0xffu8, 0xd8, 0xff]);
    assert(png@ =~= png_signature());
    if bytes_start_with(buf, jpeg.as_slice()) {
        if buf.len() > 3 && buf[3] == 0xf7 {
            return None;
        }
        return Some("image/jpeg".to_owned());
    }
    if bytes_start_with(buf, png.as_slice()) {
        if is_png(buf) && !is_animated_png(buf) {
            return Some("image/png".to_owned());
        }
        return None;
    }
    if starts_with_ascii(buf, 0, "GIF") {
        return Some("image/gif".to_owned());
    }
    if starts_with_ascii(buf, 0, "RIFF") && starts_with_ascii(buf, 8, "WEBP") {
        return Some("image/webp".to_owned());
    }
    if starts_with_ascii(buf, 0, "BM") && is_bmp(buf) {
        return Some("image/bmp".to_owned());
    }
    None
}

/// What one read gave.
#[derive(Debug, PartialEq, Eq)]
pub enum ReadReply {
    /// Some bytes; none of them at the end of the file.
    Bytes(Vec<u8>),
    Interrupted,
    Failed,
}

/// Whether a window needs another read.
#[derive(Debug, PartialEq, Eq, Structural, Clone, Copy)]
pub enum FillStep {
    More,
    Done,
    Failed,
}

/// A window that is filled across short reads.
pub struct SniffWindow {
    cap: usize,
    filled: Vec<u8>,
    ended: bool,
}

impl SniffWindow {
    /// The size of the window.
    pub closed spec fn cap(&self) -> nat {
        self.cap as nat
    }

    /// The bytes that were read.
    pub closed spec fn filled(&self) -> Seq<u8> {
        self.filled@
    }

    /// Whether the file ended.
    pub closed spec fn ended(&self) -> bool {
        self.ended
    }

    /// Whether the window holds no more than its size.
    pub open spec fn wf(&self) -> bool {
        self.filled().len() <= self.cap()
    }

    /// The bytes that the next read may give.
    pub open spec fn wanted(&self) -> nat {
        if self.ended() {
            0
        } else {
            (self.cap() - self.filled().len()) as nat
        }
    }

    /// An empty window.
    pub fn new(cap: usize) -> (r: Self)
        ensures
            r.wf(),
            r.cap() == cap,
            r.filled() == Seq::<u8>::empty(),
            !r.ended(),
    {
        SniffWindow { cap, filled: Vec::new(), ended: false }
    }

    /// How many bytes the next read may give. Zero when the window is full or the
    /// file ended.
    pub fn space(&self) -> (r: usize)
        requires
            self.wf(),
        ensures
            r == self.wanted(),
    {
        if self.ended {
            0
        } else {
            self.cap - self.filled.len()
        }
    }

    /// The bytes that were read.
    pub fn bytes(&self) -> (r: &Vec<u8>)
        ensures
            r@ == self.filled(),
    {
        &self.filled
    }

    /// Takes what a read gave. Short reads add up until the window is full or the
    /// file ends; an interrupted read is made again.
    pub fn read_to_cap(&mut self, reply: &ReadReply) -> (r: FillStep)
        requires
            old(self).wf(),
        ensures
            final(self).wf(),
            final(self).cap() == old(self).cap(),
            match reply {
                ReadReply::Bytes(chunk) => {
                    let n = if chunk@.len() <= old(self).wanted() {
                        chunk@.len()
                    } else {
                        old(self).wanted()
                    };
                    &&& final(self).filled() == old(self).filled() + chunk@.take(n as int)
                    &&& final(self).ended() == (old(self).ended() || chunk@.len() == 0)
                },
                _ => final(self).filled() == old(self).filled() && final(self).ended() == old(
                    self).ended(),
            },
            r == (if reply is Failed {
                FillStep::Failed
            } else if final(self).wanted() == 0 {
                FillStep::Done
            } else {
                FillStep::More
            }),
    {
        match reply {
            ReadReply::Bytes(chunk) => {
                let n: usize = self.space();
                let n: usize = if chunk.len() <= n {
                    chunk.len()
                } else {
                    n
                };
                let ghost before = self.filled@;
                let mut i: usize = 0;
                assert(self.filled@ =~= before + chunk@.take(0));
                while i < n
                    invariant
                        i <= n <= chunk@.len(),
                        self.filled@ == before + chunk@.take(i as int),
                        self.cap == old(self).cap,
                        self.ended == old(self).ended,
                    decreases n - i,
                {
                    self.filled.push(chunk[i]);
                    i += 1;
                    assert(self.filled@ =~= before + chunk@.take(i as int));
                }
                if chunk.len() == 0 {
                    self.ended = true;
                }
            },
            ReadReply::Interrupted => {},
            ReadReply::Failed => {
                return FillStep::Failed;
            },
        }
        if self.space() == 0 {
            FillStep::Done
        } else {
            FillStep::More
        }
    }
}

/// A CMYK JPEG, an animated PNG and a PNG without a header chunk are not
/// supported.
pub proof fn law_unsupported_images(buf: Seq<u8>)
    requires
        seq![0xffu8, 0xd8, 0xff, 0xf7].is_prefix_of(buf) || (png_signature().is_prefix_of(buf) && (
        !has_png_header(buf) || animated_from(buf, 8))),
    ensures
        image_type(buf) is None,
{
    if seq![0xffu8, 0xd8, 0xff, 0xf7].is_prefix_of(buf) {
        let four = seq![0xffu8, 0xd8, 0xff, 0xf7];
        assert(four[0] == buf[0] && four[1] == buf[1] && four[2] == buf[2] && four[3] == buf[3]);
        assert(seq![0xffu8, 0xd8, 0xff].is_prefix_of(buf));
    } else {
        assert(png_signature()[0] == buf[0]);
        if seq![0xffu8, 0xd8, 0xff].is_prefix_of(buf) {
            assert(seq![0xffu8, 0xd8, 0xff][0] == buf[0]);
        }
    }
}

} // verus!
