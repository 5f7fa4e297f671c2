use pi_coding::tools::mime::{
    detect_supported_image_mime_type, FillStep, ReadReply, SniffWindow, IMAGE_TYPE_SNIFF_BYTES,
};

const PNG_SIGNATURE: [u8; 8] = [0x89, 0x50, 0x4e, 0x47, 0x0d, 0x0a, 0x1a, 0x0a];

/// Gives at most `chunk` bytes per read.
struct Chunked<'a> {
    data: &'a [u8],
    pos: usize,
    chunk: usize,
}

impl Chunked<'_> {
    fn read(&mut self, space: usize) -> ReadReply {
        let n = self.chunk.min(space).min(self.data.len() - self.pos);
        let bytes = self.data[self.pos..self.pos + n].to_vec();
        self.pos += n;
        ReadReply::Bytes(bytes)
    }
}

fn fill(reader: &mut Chunked<'_>) -> Vec<u8> {
    let mut window = SniffWindow::new(IMAGE_TYPE_SNIFF_BYTES);
    loop {
        let reply = reader.read(window.space());
        match window.read_to_cap(&reply) {
            FillStep::More => {}
            FillStep::Done => return window.bytes().clone(),
            FillStep::Failed => panic!("no read fails"),
        }
    }
}

fn minimal_png() -> Vec<u8> {
    let mut buf = PNG_SIGNATURE.to_vec();
    buf.extend_from_slice(&[0, 0, 0, 13]);
    buf.extend_from_slice(b"IHDR");
    buf.extend_from_slice(&[0; 4]);
    buf
}

#[test]
fn detect_png() {
    assert_eq!(detect_supported_image_mime_type(&minimal_png()).as_deref(), Some("image/png"));
}

#[test]
fn detect_jpeg() {
    assert_eq!(
        detect_supported_image_mime_type(&[0xff, 0xd8, 0xff, 0xe0]).as_deref(),
        Some("image/jpeg")
    );
    assert_eq!(detect_supported_image_mime_type(&[0xff, 0xd8, 0xff, 0xf7]), None);
}

#[test]
fn detect_gif_webp() {
    assert_eq!(detect_supported_image_mime_type(b"GIF89a").as_deref(), Some("image/gif"));
    let mut webp = b"RIFF".to_vec();
    webp.extend_from_slice(&[0; 4]);
    webp.extend_from_slice(b"WEBP");
    assert_eq!(detect_supported_image_mime_type(&webp).as_deref(), Some("image/webp"));
}

#[test]
fn detect_unknown() {
    assert_eq!(detect_supported_image_mime_type(b"plain text"), None);
}

#[test]
fn read_to_cap_fills_across_short_reads() {
    let data = minimal_png();
    let mut r = Chunked { data: &data, pos: 0, chunk: 1 };
    let buf = fill(&mut r);
    assert_eq!(buf.len(), data.len());
    assert_eq!(buf.as_slice(), data.as_slice());
    assert_eq!(detect_supported_image_mime_type(&buf).as_deref(), Some("image/png"));
}

#[test]
fn short_reads_fill_full_sniff_window_when_larger() {
    let data: Vec<u8> = (0..IMAGE_TYPE_SNIFF_BYTES).map(|i| (i % 251) as u8).collect();
    let mut r = Chunked { data: &data, pos: 0, chunk: 3 };
    let buf = fill(&mut r);
    assert_eq!(buf.len(), IMAGE_TYPE_SNIFF_BYTES);
    assert_eq!(buf, data);
}

#[test]
fn interrupted_reads_are_made_again_and_failures_end() {
    let mut window = SniffWindow::new(4);
    assert_eq!(window.read_to_cap(&ReadReply::Interrupted), FillStep::More);
    assert_eq!(window.read_to_cap(&ReadReply::Bytes(vec![1, 2])), FillStep::More);
    assert_eq!(window.read_to_cap(&ReadReply::Failed), FillStep::Failed);
    assert_eq!(window.read_to_cap(&ReadReply::Bytes(vec![])), FillStep::Done);
    assert_eq!(window.bytes(), &vec![1, 2]);
}

#[test]
fn animated_and_headless_pngs_are_not_supported() {
    let mut animated = PNG_SIGNATURE.to_vec();
    animated.extend_from_slice(&[0, 0, 0, 13]);
    animated.extend_from_slice(b"IHDR");
    animated.extend_from_slice(&[0; 17]);
    let plain = animated.clone();
    animated.extend_from_slice(&[0, 0, 0, 8]);
    animated.extend_from_slice(b"acTL");
    assert_eq!(detect_supported_image_mime_type(&animated), None);
    let mut still = plain;
    still.extend_from_slice(&[0, 0, 0, 8]);
    still.extend_from_slice(b"IDAT");
    assert_eq!(detect_supported_image_mime_type(&still).as_deref(), Some("image/png"));
    let mut headless = PNG_SIGNATURE.to_vec();
    headless.extend_from_slice(&[0; 12]);
    assert_eq!(detect_supported_image_mime_type(&headless), None);
}

#[test]
fn bitmap_headers_are_checked() {
    let mut bmp = vec![0u8; 30];
    bmp[0] = b'B';
    bmp[1] = b'M';
    bmp[2] = 100;
    bmp[10] = 54;
    bmp[14] = 40;
    bmp[26] = 1;
    bmp[28] = 24;
    assert_eq!(detect_supported_image_mime_type(&bmp).as_deref(), Some("image/bmp"));
    let mut two_planes = bmp.clone();
    two_planes[26] = 2;
    assert_eq!(detect_supported_image_mime_type(&two_planes), None);
    let mut odd_depth = bmp.clone();
    odd_depth[28] = 7;
    assert_eq!(detect_supported_image_mime_type(&odd_depth), None);
    let mut pixels_behind_end = bmp;
    pixels_behind_end[2] = 54;
    assert_eq!(detect_supported_image_mime_type(&pixels_behind_end), None);
}
