use image::AnimationDecoder;
use bubble_relay::compositor::{composite_overlay, fit_frame};
use bubble_relay::frames::{keep_decoded, still_sequence, AnimatedFrame, FrameDelay};
use bubble_relay::geometry::placement_geometry;
use bubble_relay::pipeline::{
    decode_sequence, encode_animation, finish_frame, is_rgba_len, prepare_frame, still_delay,
    PipelineError,
};
use bubble_relay::raster::{overlay_canvas, RasterImage};

fn solid(width: u32, height: u32, px: [u8; 4]) -> RasterImage {
    let mut data = Vec::new();
    for _ in 0..(width * height) {
        data.extend_from_slice(&px);
    }
    RasterImage { width, height, data }
}

fn frame(width: u32, height: u32, px: [u8; 4], delay_ms: u32) -> AnimatedFrame {
    AnimatedFrame {
        image: solid(width, height, px),
        delay: FrameDelay { numer_ms: delay_ms, denom_ms: 1 },
    }
}

fn decode_gif(bytes: &[u8]) -> Vec<image::Frame> {
    let dec = image::codecs::gif::GifDecoder::new(std::io::Cursor::new(bytes)).unwrap();
    dec.into_frames().collect::<Result<Vec<_>, _>>().unwrap()
}

#[test]
fn portrait_geometry_values() {
    let g = placement_geometry(261, 300);
    assert_eq!((g.scale_x.numer, g.scale_x.denom), (261, 261));
    assert_eq!((g.scale_y.numer, g.scale_y.denom), (7 * 261, 2610));
    assert_eq!(g.offset_y, 20);
    assert_eq!(g.band_rows, 20);
}

#[test]
fn landscape_geometry_values() {
    let g = placement_geometry(400, 200);
    assert_eq!((g.scale_x.numer, g.scale_x.denom), (400, 261));
    assert_eq!((g.scale_y.numer, g.scale_y.denom), (56 * 200, 26100));
    assert_eq!(g.offset_y, 0);
    assert_eq!(g.band_rows, 0);
}

#[test]
fn geometry_same_size_same_result() {
    assert_eq!(placement_geometry(123, 456), placement_geometry(123, 456));
    assert_eq!(placement_geometry(456, 123), placement_geometry(456, 123));
}

#[test]
fn square_gets_band_landscape_does_not() {
    assert_eq!(placement_geometry(100, 100).band_rows, 7);
    assert_eq!(placement_geometry(101, 100).band_rows, 0);
    assert_eq!(placement_geometry(13, 100).band_rows, 0);
    assert_eq!(placement_geometry(14, 100).band_rows, 1);
}

#[test]
fn canvas_has_header_band() {
    let g = placement_geometry(261, 300);
    let c = overlay_canvas(&g);
    assert_eq!((c.width, c.height), (261, 300));
    assert_eq!(c.data.len(), 4 * 261 * 300);
    assert_eq!(&c.data[0..4], &[53, 57, 63, 255]);
    let last_band = 4 * 261 * 20 - 4;
    assert_eq!(&c.data[last_band..last_band + 4], &[53, 57, 63, 255]);
    assert_eq!(&c.data[last_band + 4..last_band + 8], &[0, 0, 0, 0]);
    let landscape = overlay_canvas(&placement_geometry(300, 100));
    assert!(landscape.data.iter().all(|b| *b == 0));
}

#[test]
fn large_frame_is_shrunk_to_fit() {
    let r = fit_frame(solid(1000, 500, [1, 2, 3, 255]));
    assert_eq!((r.width, r.height), (500, 250));
    assert_eq!(r.data.len(), 4 * 500 * 250);
    assert_eq!(&r.data[0..4], &[1, 2, 3, 255]);
    let tall = fit_frame(solid(40, 800, [0, 0, 0, 255]));
    assert_eq!((tall.width, tall.height), (25, 500));
}

#[test]
fn small_frame_is_untouched() {
    let img = solid(500, 300, [9, 8, 7, 6]);
    let r = fit_frame(img);
    assert_eq!((r.width, r.height), (500, 300));
    assert!(r.data.chunks(4).all(|p| p == [9, 8, 7, 6]));
}

#[test]
fn opaque_overlay_covers_frame() {
    let base = solid(2, 2, [0, 0, 255, 255]);
    let top = solid(2, 2, [255, 0, 0, 255]);
    let r = composite_overlay(base, &top);
    assert_eq!((r.width, r.height), (2, 2));
    assert!(r.data.chunks(4).all(|p| p == [255, 0, 0, 255]));
}

#[test]
fn transparent_overlay_keeps_frame() {
    let base = solid(3, 1, [10, 20, 30, 255]);
    let top = solid(3, 1, [0, 0, 0, 0]);
    let r = composite_overlay(base, &top);
    assert!(r.data.chunks(4).all(|p| p == [10, 20, 30, 255]));
}

#[test]
fn compositing_twice_gives_same_pixels() {
    let a = composite_overlay(solid(4, 4, [1, 2, 3, 255]), &solid(4, 4, [200, 0, 0, 128]));
    let b = composite_overlay(solid(4, 4, [1, 2, 3, 255]), &solid(4, 4, [200, 0, 0, 128]));
    assert_eq!(a.data, b.data);
}

#[test]
fn failed_frames_are_dropped_in_order() {
    let decoded = vec![
        Some(frame(2, 2, [1, 0, 0, 255], 10)),
        Some(frame(2, 2, [2, 0, 0, 255], 20)),
        None,
        Some(frame(2, 2, [4, 0, 0, 255], 40)),
        Some(frame(2, 2, [5, 0, 0, 255], 50)),
    ];
    let kept = keep_decoded(decoded);
    assert_eq!(kept.len(), 4);
    let delays: Vec<u32> = kept.iter().map(|f| f.delay.numer_ms).collect();
    assert_eq!(delays, vec![10, 20, 40, 50]);
    let reds: Vec<u8> = kept.iter().map(|f| f.image.data[0]).collect();
    assert_eq!(reds, vec![1, 2, 4, 5]);
}

#[test]
fn nothing_decoded_gives_nothing() {
    let kept: Vec<u32> = keep_decoded(vec![None, None]);
    assert!(kept.is_empty());
    let empty: Vec<u32> = keep_decoded(Vec::new());
    assert!(empty.is_empty());
}

#[test]
fn still_image_is_one_frame() {
    let d = still_delay();
    assert_eq!((d.numer_ms, d.denom_ms), (1, 1));
    let s = still_sequence(solid(3, 3, [0, 0, 0, 255]), d);
    assert_eq!(s.len(), 1);
    assert_eq!(s[0].delay, d);
}

#[test]
fn empty_animation_is_refused() {
    assert_eq!(encode_animation(&Vec::new()), Err(PipelineError::NoFrames));
}

#[test]
fn prepared_frame_keeps_delay_and_fits() {
    let p = prepare_frame(frame(800, 600, [0, 0, 0, 255], 70));
    assert_eq!(p.frame.delay.numer_ms, 70);
    assert_eq!((p.frame.image.width, p.frame.image.height), (500, 375));
    assert_eq!(p.geometry, placement_geometry(500, 375));
    assert_eq!((p.canvas.width, p.canvas.height), (500, 375));
}

#[test]
fn still_png_becomes_single_frame_gif() {
    let p = prepare_frame(AnimatedFrame { image: solid(600, 900, [0, 255, 0, 255]), delay: still_delay() });
    let rendered = p.canvas;
    let done = finish_frame(p.frame, &rendered);
    assert_eq!((done.image.width, done.image.height), (333, 500));
    // the header band is drawn over the top rows
    assert_eq!(&done.image.data[0..4], &[53, 57, 63, 255]);
    let bytes = encode_animation(&still_sequence(done.image, done.delay)).unwrap();
    assert_eq!(&bytes[0..6], b"GIF89a");
    let frames = decode_gif(&bytes);
    assert_eq!(frames.len(), 1);
    assert_eq!(frames[0].buffer().dimensions(), (333, 500));
}

#[test]
fn animation_with_corrupt_frame_keeps_four_timed_frames() {
    let decoded = vec![
        Some(frame(8, 8, [255, 0, 0, 255], 100)),
        Some(frame(8, 8, [0, 255, 0, 255], 200)),
        None,
        Some(frame(8, 8, [0, 0, 255, 255], 300)),
        Some(frame(8, 8, [255, 255, 0, 255], 400)),
    ];
    let done: Vec<AnimatedFrame> = keep_decoded(decoded)
        .into_iter()
        .map(|f| {
            let p = prepare_frame(f);
            finish_frame(p.frame, &p.canvas)
        })
        .collect();
    let bytes = encode_animation(&done).unwrap();
    let frames = decode_gif(&bytes);
    assert_eq!(frames.len(), 4);
    let delays: Vec<(u32, u32)> = frames.iter().map(|f| f.delay().numer_denom_ms()).collect();
    assert_eq!(delays, vec![(100, 1), (200, 1), (300, 1), (400, 1)]);
}

fn png_bytes(width: u32, height: u32) -> Vec<u8> {
    let img = image::RgbaImage::from_pixel(width, height, image::Rgba([10, 20, 30, 255]));
    let mut out = std::io::Cursor::new(Vec::new());
    img.write_to(&mut out, image::ImageFormat::Png).unwrap();
    out.into_inner()
}

#[test]
fn still_bytes_decode_to_one_frame() {
    let frames = decode_sequence(&png_bytes(7, 5), false).unwrap();
    assert_eq!(frames.len(), 1);
    assert_eq!((frames[0].image.width, frames[0].image.height), (7, 5));
    assert_eq!(&frames[0].image.data[0..4], &[10, 20, 30, 255]);
    assert_eq!((frames[0].delay.numer_ms, frames[0].delay.denom_ms), (1, 1));
}

#[test]
fn gif_bytes_decode_to_timed_frames() {
    let frames = vec![
        frame(4, 4, [255, 0, 0, 255], 100),
        frame(4, 4, [0, 255, 0, 255], 200),
        frame(4, 4, [0, 0, 255, 255], 300),
    ];
    let bytes = encode_animation(&frames).unwrap();
    let decoded = decode_sequence(&bytes, true).unwrap();
    let delays: Vec<(u32, u32)> =
        decoded.iter().map(|f| (f.delay.numer_ms, f.delay.denom_ms)).collect();
    assert_eq!(delays, vec![(100, 1), (200, 1), (300, 1)]);
    assert!(decoded.iter().all(|f| (f.image.width, f.image.height) == (4, 4)));
}

#[test]
fn junk_bytes_are_undecodable() {
    let junk = vec![1u8, 2, 3, 4, 5];
    assert_eq!(decode_sequence(&junk, true).unwrap_err(), PipelineError::Undecodable);
    assert_eq!(decode_sequence(&junk, false).unwrap_err(), PipelineError::Undecodable);
}

#[test]
fn rgba_length_check() {
    assert!(is_rgba_len(3, 2, 24));
    assert!(!is_rgba_len(3, 2, 23));
    assert!(!is_rgba_len(3, 2, 28));
}

#[test]
fn truncated_gif_decode_returns() {
    let frames = vec![
        frame(4, 4, [255, 0, 0, 255], 100),
        frame(4, 4, [0, 255, 0, 255], 200),
        frame(4, 4, [0, 0, 255, 255], 300),
    ];
    let bytes = encode_animation(&frames).unwrap();
    let no_trailer = bytes[..bytes.len() - 1].to_vec();
    let decoded = decode_sequence(&no_trailer, true).unwrap();
    let delays: Vec<u32> = decoded.iter().map(|f| f.delay.numer_ms).collect();
    assert_eq!(delays, vec![100, 200, 300]);
    let cut = bytes[..bytes.len() - 6].to_vec();
    let decoded = decode_sequence(&cut, true).unwrap();
    let delays: Vec<u32> = decoded.iter().map(|f| f.delay.numer_ms).collect();
    assert_eq!(delays, vec![100, 200]);
}

#[test]
fn nonempty_animation_encodes() {
    let one = vec![frame(1, 1, [0, 0, 0, 255], 10)];
    assert!(encode_animation(&one).is_ok());
}
