use base64::Engine;
use snipcore::{
    after_capture, after_overlay, cancel, crop_rect, data_url, encode_png, encode_transport,
    finish, query, transport_from_png, CropRect, PixelBuffer, Selection, SnipError, SnipSession, StartStep, Viewport,
};

fn pattern(width: u32, height: u32) -> Vec<u8> {
    let mut v = Vec::with_capacity((width * height * 4) as usize);
    for y in 0..height {
        for x in 0..width {
            v.push((x % 251) as u8);
            v.push((y % 241) as u8);
            v.push(((x + y) % 239) as u8);
            v.push(((x * 3 + y * 5) % 256) as u8);
        }
    }
    v
}

fn buffer(width: u32, height: u32) -> PixelBuffer {
    PixelBuffer::new(width, height, pattern(width, height)).expect("consistent size")
}

fn live_session(width: u32, height: u32) -> SnipSession {
    let mut s = SnipSession::new();
    s.put(buffer(width, height));
    s
}

fn expected_crop(width: u32, height: u32, r: CropRect) -> Vec<u8> {
    let src = pattern(width, height);
    let mut out = Vec::new();
    for row in r.y..r.y + r.height {
        let start = ((row * width + r.x) * 4) as usize;
        out.extend_from_slice(&src[start..start + (r.width * 4) as usize]);
    }
    out
}

fn decode(url: &str) -> (u32, u32, Vec<u8>) {
    let b64 = url.strip_prefix("data:image/png;base64,").expect("data URL prefix");
    let bytes = base64::engine::general_purpose::STANDARD.decode(b64).expect("base64");
    decode_png(bytes)
}

fn decode_png(bytes: Vec<u8>) -> (u32, u32, Vec<u8>) {
    let decoder = png::Decoder::new(std::io::Cursor::new(bytes));
    let mut reader = decoder.read_info().expect("png header");
    let mut buf = vec![0; reader.output_buffer_size()];
    let info = reader.next_frame(&mut buf).expect("png frame");
    assert_eq!(info.color_type, png::ColorType::Rgba);
    assert_eq!(info.bit_depth, png::BitDepth::Eight);
    buf.truncate(info.buffer_size());
    (info.width, info.height, buf)
}

fn sel(x: i32, y: i32, width: i32, height: i32) -> Selection {
    Selection { x, y, width, height }
}

fn vp(width: u32, height: u32) -> Viewport {
    Viewport { width, height }
}

#[test]
fn crop_at_native_scale() {
    let r = crop_rect(1920, 1080, sel(100, 100, 200, 150), vp(1920, 1080));
    assert_eq!(r, Ok(CropRect { x: 100, y: 100, width: 200, height: 150 }));

    let mut s = SnipSession::new();
    assert_eq!(after_capture(&mut s, Ok(buffer(1920, 1080))), StartStep::ShowOverlay);
    assert_eq!(after_overlay(&mut s, Ok(())), StartStep::Ready);
    let url = finish(&mut s, sel(100, 100, 200, 150), vp(1920, 1080)).expect("finish");
    let (w, h, px) = decode(&url);
    assert_eq!((w, h), (200, 150));
    assert_eq!(px, expected_crop(1920, 1080, CropRect { x: 100, y: 100, width: 200, height: 150 }));
    assert!(!s.is_active());
}

#[test]
fn crop_at_double_scale() {
    let r = crop_rect(3840, 2160, sel(100, 100, 200, 150), vp(1920, 1080));
    assert_eq!(r, Ok(CropRect { x: 200, y: 200, width: 400, height: 300 }));

    let mut s = live_session(3840, 2160);
    let url = finish(&mut s, sel(100, 100, 200, 150), vp(1920, 1080)).expect("finish");
    let (w, h, px) = decode(&url);
    assert_eq!((w, h), (400, 300));
    assert_eq!(px, expected_crop(3840, 2160, CropRect { x: 200, y: 200, width: 400, height: 300 }));
}

#[test]
fn zero_width_is_invalid() {
    let mut s = live_session(64, 32);
    assert_eq!(finish(&mut s, sel(10, 10, 0, 10), vp(64, 32)), Err(SnipError::InvalidSelection));
    assert!(!s.is_active());
    assert_eq!(crop_rect(64, 32, sel(10, 10, 10, -1), vp(64, 32)), Err(SnipError::InvalidSelection));
}

#[test]
fn edge_selection_clamped_to_one_pixel() {
    let r = crop_rect(1920, 1080, sel(1919, 1079, 10, 10), vp(1920, 1080));
    assert_eq!(r, Ok(CropRect { x: 1919, y: 1079, width: 1, height: 1 }));

    let mut s = live_session(1920, 1080);
    let url = finish(&mut s, sel(1919, 1079, 10, 10), vp(1920, 1080)).expect("finish");
    let (w, h, px) = decode(&url);
    assert_eq!((w, h), (1, 1));
    assert_eq!(px, expected_crop(1920, 1080, CropRect { x: 1919, y: 1079, width: 1, height: 1 }));
}

#[test]
fn origin_at_far_corner_is_too_small() {
    let r = crop_rect(1920, 1080, sel(1920, 1080, 10, 10), vp(1920, 1080));
    assert_eq!(r, Err(SnipError::SelectionTooSmall));
    let mut s = live_session(64, 32);
    assert_eq!(finish(&mut s, sel(64, 0, 10, 10), vp(64, 32)), Err(SnipError::SelectionTooSmall));
}

#[test]
fn finish_without_start_fails() {
    let mut s = SnipSession::new();
    assert_eq!(finish(&mut s, sel(1, 1, 5, 5), vp(100, 100)), Err(SnipError::NoActiveSnip));
}

#[test]
fn finish_after_cancel_fails() {
    let mut s = live_session(16, 16);
    cancel(&mut s);
    assert_eq!(finish(&mut s, sel(1, 1, 5, 5), vp(16, 16)), Err(SnipError::NoActiveSnip));
}

#[test]
fn second_finish_fails() {
    let mut s = live_session(16, 16);
    assert!(finish(&mut s, sel(1, 1, 5, 5), vp(16, 16)).is_ok());
    assert_eq!(finish(&mut s, sel(1, 1, 5, 5), vp(16, 16)), Err(SnipError::NoActiveSnip));
}

#[test]
fn query_twice_gives_the_same_image() {
    let s = live_session(24, 10);
    let first = query(&s).expect("first query");
    let second = query(&s).expect("second query");
    assert_eq!(first, second);
    let (w, h, px) = decode(&first);
    assert_eq!((w, h), (24, 10));
    assert_eq!(px, pattern(24, 10));
    assert!(s.is_active());
}

#[test]
fn query_without_session() {
    let s = SnipSession::new();
    assert_eq!(query(&s), Err(SnipError::NoActiveSnip));
}

#[test]
fn cancel_twice_succeeds() {
    let mut s = live_session(8, 8);
    cancel(&mut s);
    cancel(&mut s);
    assert!(!s.is_active());
    let mut idle = SnipSession::new();
    cancel(&mut idle);
    assert!(!idle.is_active());
}

#[test]
fn encode_then_decode_is_lossless() {
    let b = buffer(37, 19);
    let bytes = encode_png(&b).expect("encode");
    let (w, h, px) = decode_png(bytes);
    assert_eq!((w, h), (37, 19));
    assert_eq!(px, pattern(37, 19));

    let url = encode_transport(&b).expect("transport");
    assert_eq!(decode(&url), (37, 19, pattern(37, 19)));
}

#[test]
fn encoding_is_deterministic() {
    let a = encode_transport(&buffer(12, 7)).expect("first");
    let b = encode_transport(&buffer(12, 7)).expect("second");
    assert_eq!(a, b);
}

#[test]
fn png_output_has_png_signature() {
    let bytes = encode_png(&buffer(3, 2)).expect("encode");
    assert_eq!(&bytes[..8], &[0x89, b'P', b'N', b'G', 0x0d, 0x0a, 0x1a, 0x0a]);
}

#[test]
fn data_url_encodes_in_base64() {
    assert_eq!(data_url(&vec![1, 2, 3]), "data:image/png;base64,AQID");
    assert_eq!(data_url(&vec![0xff, 0xfe]), "data:image/png;base64,//4=");
    assert_eq!(data_url(&Vec::new()), "data:image/png;base64,");
}

#[test]
fn buffer_size_must_match() {
    assert!(PixelBuffer::new(2, 2, vec![0; 15]).is_none());
    assert!(PixelBuffer::new(2, 2, vec![0; 17]).is_none());
    let b = PixelBuffer::new(2, 2, vec![7; 16]).expect("exact size");
    assert_eq!((b.width(), b.height(), b.pixels().len()), (2, 2, 16));
    assert!(PixelBuffer::new(0, 5, Vec::new()).is_some());
}

#[test]
fn crop_copies_with_source_stride() {
    let b = buffer(10, 6);
    let c = b.crop(CropRect { x: 3, y: 2, width: 4, height: 3 });
    assert_eq!((c.width(), c.height()), (4, 3));
    assert_eq!(c.pixels(), &expected_crop(10, 6, CropRect { x: 3, y: 2, width: 4, height: 3 }));
}

#[test]
fn independent_axis_scales() {
    // 100x100 capture shown on a 50x200 overlay: x doubles, y quarters.
    let r = crop_rect(100, 100, sel(10, 40, 20, 80), vp(50, 200));
    assert_eq!(r, Ok(CropRect { x: 20, y: 20, width: 40, height: 40 }));
}

#[test]
fn scaling_truncates() {
    // 3 source pixels per 2 viewport units: 5 * 1.5 = 7.5 -> 7, 3 * 1.5 = 4.5 -> 4.
    let r = crop_rect(30, 30, sel(5, 5, 3, 3), vp(20, 20));
    assert_eq!(r, Ok(CropRect { x: 7, y: 7, width: 4, height: 4 }));
}

#[test]
fn negative_origin_clamps_to_zero() {
    let r = crop_rect(100, 80, sel(-10, -5, 30, 20), vp(100, 80));
    assert_eq!(r, Ok(CropRect { x: 0, y: 0, width: 30, height: 20 }));
}

#[test]
fn extent_clamped_to_remaining_capture() {
    let r = crop_rect(100, 80, sel(90, 70, 50, 50), vp(100, 80));
    assert_eq!(r, Ok(CropRect { x: 90, y: 70, width: 10, height: 10 }));
}

#[test]
fn empty_viewport_is_invalid() {
    assert_eq!(crop_rect(100, 80, sel(1, 1, 5, 5), vp(0, 80)), Err(SnipError::InvalidSelection));
    assert_eq!(crop_rect(100, 80, sel(1, 1, 5, 5), vp(100, 0)), Err(SnipError::InvalidSelection));
}

#[test]
fn tiny_selection_rounds_to_nothing() {
    // Half a viewport unit per source pixel: a width of 1 maps to 0 pixels.
    let r = crop_rect(50, 50, sel(10, 10, 1, 10), vp(100, 100));
    assert_eq!(r, Err(SnipError::SelectionTooSmall));
}

#[test]
fn failed_capture_rolls_back_and_clears() {
    let mut s = live_session(4, 4);
    let step = after_capture(&mut s, Err(SnipError::Capture("no display".to_string())));
    assert_eq!(step, StartStep::RollBack(SnipError::Capture("no display".to_string())));
    assert!(!s.is_active());
}

#[test]
fn failed_overlay_rolls_back_and_clears() {
    let mut s = SnipSession::new();
    assert_eq!(after_capture(&mut s, Ok(buffer(4, 4))), StartStep::ShowOverlay);
    assert!(s.is_active());
    let step = after_overlay(&mut s, Err("overlay show failed".to_string()));
    assert_eq!(step, StartStep::RollBack(SnipError::WindowOp("overlay show failed".to_string())));
    assert!(!s.is_active());
    assert_eq!(query(&s), Err(SnipError::NoActiveSnip));
}

#[test]
fn later_start_replaces_capture() {
    let mut s = live_session(4, 4);
    s.put(buffer(6, 2));
    let b = s.peek().expect("live");
    assert_eq!((b.width(), b.height()), (6, 2));
    let taken = s.take().expect("taken");
    assert_eq!(taken.width(), 6);
    assert!(s.take().is_none());
}

#[test]
fn error_messages() {
    assert_eq!(SnipError::NoActiveSnip.message(), "No snip state");
    assert_eq!(SnipError::InvalidSelection.message(), "Invalid selection");
    assert_eq!(SnipError::SelectionTooSmall.message(), "Selection too small");
    assert_eq!(SnipError::Encode("bad".to_string()).message(), "image encoding failed: bad");
    assert_eq!(SnipError::Capture("gone".to_string()).message(), "capture failed: gone");
    assert_eq!(SnipError::WindowOp("Overlay window missing".to_string()).message(), "Overlay window missing");
}

#[test]
fn snapshot_answers_like_the_session() {
    let mut s = live_session(5, 3);
    let snap = s.snapshot();
    assert_eq!(query(&snap), query(&s));
    cancel(&mut s);
    assert!(snap.is_active());
    assert_eq!(query(&SnipSession::new().snapshot()), Err(SnipError::NoActiveSnip));
}

#[test]
fn transport_from_png_outcomes() {
    assert_eq!(transport_from_png(Ok(vec![1, 2, 3])), Ok("data:image/png;base64,AQID".to_string()));
    let refused = SnipError::Encode("zero width".to_string());
    assert_eq!(transport_from_png(Err(SnipError::Encode("zero width".to_string()))), Err(refused));
}

#[test]
fn extreme_values_stay_in_range() {
    let big = 4_000_000_000u32;
    let r = crop_rect(big, 3, sel(i32::MIN, 0, i32::MAX, 3), vp(1, 3));
    assert_eq!(r, Ok(CropRect { x: 0, y: 0, width: big, height: 3 }));
    let r = crop_rect(big, big, sel(i32::MAX, i32::MAX, i32::MAX, i32::MAX), vp(1, 1));
    assert_eq!(r, Err(SnipError::SelectionTooSmall));
}

#[test]
fn empty_image_cannot_be_encoded() {
    let empty = PixelBuffer::new(0, 5, Vec::new()).expect("consistent size");
    assert!(matches!(encode_png(&empty), Err(SnipError::Encode(_))));
    assert!(matches!(encode_transport(&empty), Err(SnipError::Encode(_))));
    let mut s = SnipSession::new();
    s.put(PixelBuffer::new(3, 0, Vec::new()).expect("consistent size"));
    assert!(matches!(query(&s), Err(SnipError::Encode(_))));
}

#[test]
fn live_capture_query_succeeds() {
    let s = live_session(1, 1);
    let url = query(&s).expect("query");
    assert!(url.starts_with("data:image/png;base64,"));
    assert_eq!(decode(&url), (1, 1, pattern(1, 1)));
}
