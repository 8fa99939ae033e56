use vstd::prelude::*;
use image::codecs::gif::{GifEncoder, Repeat};
use image::{AnimationDecoder, Delay, Frame, ImageReader, RgbaImage};
use crate::compositor::{composite_overlay, composited, fit_frame, keeps_aspect, nearest_fit_of};
use crate::frames::{keep_decoded, still_sequence, surviving, AnimatedFrame, FrameDelay};
use crate::geometry::{geometry_of, placement_geometry, PlacementGeometry};
use crate::raster::{canvas_bytes, overlay_canvas, RasterImage, MAX_SIDE};

verus! {

/// GIF encoder effort: the fastest setting.
pub const ENCODE_SPEED: i32 = 30;

/// An image descriptor alone takes ten bytes, so no GIF holds more frames than a tenth of its
/// length.
pub const MIN_GIF_FRAME_BYTES: usize = 10;

/// Largest width or height of a GIF frame.
pub const GIF_MAX_SIDE: u32 = 65535;

/// Display delay given to a still image, in milliseconds.
pub const STILL_DELAY_MS: u64 = 1;

/// Why an animation could not be produced.
#[derive(Clone, Copy, Debug, PartialEq, Eq, Structural)]
pub enum PipelineError {
    /// Nothing decoded, so there is no frame to emit.
    NoFrames,
    /// The encoder refused the frames.
    EncodeFailed,
    /// The input bytes are not an image that can be read.
    Undecodable,
}

/// A frame brought within size limits, with its placement and the canvas that the overlay is
/// rendered onto.
#[derive(Debug)]
pub struct PreparedFrame {
    pub frame: AnimatedFrame,
    pub geometry: PlacementGeometry,
    pub canvas: RasterImage,
}

/// The image crate's GIF encoding of frames given as (width, height, RGBA bytes, delay
/// numerator, delay denominator), with the encoder's speed, loop count (`None`: forever) and
/// each frame's left and top offset.
pub uninterp spec fn gif_bytes_of(
    frames: Seq<(nat, nat, Seq<u8>, nat, nat)>,
    speed: int,
    loops: Option<u16>,
    left: nat,
    top: nat,
) -> Seq<u8>;

pub open spec fn frame_parts(frames: Seq<AnimatedFrame>) -> Seq<(nat, nat, Seq<u8>, nat, nat)> {
    frames.map_values(|f: AnimatedFrame| frame_view(f))
}

/// The first `limit` results of the image crate's GIF frame iterator on `bytes`, each as
/// (width, height, RGBA bytes, delay numerator, delay denominator) or `None` where that frame
/// failed; `None` as a whole when the decoder cannot start.
pub uninterp spec fn gif_frames_of(bytes: Seq<u8>, limit: nat) -> Option<
    Seq<Option<(nat, nat, Seq<u8>, nat, nat)>>,
>;

/// The RGBA image that the image crate reads from `bytes`, guessing the format from the
/// content, as (width, height, RGBA bytes); `None` when it cannot.
pub uninterp spec fn still_image_of(bytes: Seq<u8>) -> Option<(nat, nat, Seq<u8>)>;

pub open spec fn frame_view(f: AnimatedFrame) -> (nat, nat, Seq<u8>, nat, nat) {
    (
        f.image.width as nat,
        f.image.height as nat,
        f.image.data@,
        f.delay.numer_ms as nat,
        f.delay.denom_ms as nat,
    )
}

pub open spec fn image_view(img: RasterImage) -> (nat, nat, Seq<u8>) {
    (img.width as nat, img.height as nat, img.data@)
}

pub open spec fn decoded_views(frames: Seq<Option<AnimatedFrame>>) -> Seq<Option<(nat, nat, Seq<u8>, nat, nat)>> {
    frames.map_values(
        |o: Option<AnimatedFrame>|
            match o {
                Some(f) => Some(frame_view(f)),
                None => None,
            },
    )
}

/// A decoded frame is used only when it has pixels, a byte count that matches its size and a
/// non-zero delay denominator.
pub open spec fn usable(t: (nat, nat, Seq<u8>, nat, nat)) -> bool {
    t.0 > 0 && t.1 > 0 && t.2.len() == 4 * t.0 * t.1 && t.4 > 0
}

pub open spec fn screened<T>(frames: Seq<Option<T>>, ok: spec_fn(T) -> bool) -> Seq<Option<T>> {
    frames.map_values(
        |o: Option<T>|
            match o {
                Some(f) => if ok(f) {
                    Some(f)
                } else {
                    None
                },
                None => None,
            },
    )
}

/// The decoded frames with every unusable one marked as failed.
pub open spec fn usable_frames(d: Seq<Option<AnimatedFrame>>) -> Seq<Option<AnimatedFrame>> {
    screened(d, |f: AnimatedFrame| f.wf())
}

/// Relies on `image::codecs::gif::GifDecoder::new` and `AnimationDecoder::into_frames`, with
/// `Frame::delay`, `Frame::into_buffer` and `ImageBuffer::into_raw` for each frame. At most
/// `limit` results are drawn: once the iterator cannot get past a broken frame it repeats the
/// failure without end. A decoded frame's buffer is allocated at its exact RGBA size, and its
/// delay is a ratio whose denominator is never zero.
#[verifier::external_body]
fn decode_gif_frames(bytes: &Vec<u8>, limit: usize) -> (r: Option<Vec<Option<AnimatedFrame>>>)
    ensures
        r matches Some(v) ==> gif_frames_of(bytes@, limit as nat) == Some(decoded_views(v@)),
        r matches Some(v) ==> v@.len() <= limit,
        r matches Some(v) ==> forall|i: int|
            0 <= i < v@.len() && (#[trigger] v@[i]) is Some ==> {
                &&& v@[i]->0.image.data@.len() == 4 * (v@[i]->0.image.width as int) * (
                v@[i]->0.image.height as int)
                &&& v@[i]->0.delay.denom_ms > 0
            },
        r is None ==> gif_frames_of(bytes@, limit as nat) is None,
{
    let dec = image::codecs::gif::GifDecoder::new(std::io::Cursor::new(bytes.as_slice())).ok()?;
    Some(dec.into_frames().take(limit).map(|f| f.ok().map(|f| {
        let (numer_ms, denom_ms) = f.delay().numer_denom_ms();
        let buf = f.into_buffer();
        let image = RasterImage { width: buf.width(), height: buf.height(), data: buf.into_raw() };
        AnimatedFrame { image, delay: FrameDelay { numer_ms, denom_ms } }
    })).collect())
}

/// Relies on `image::ImageReader::with_guessed_format`, `ImageReader::decode` and
/// `DynamicImage::to_rgba8`; the decoded buffer is allocated at its exact RGBA size.
#[verifier::external_body]
fn decode_still_image(bytes: &Vec<u8>) -> (r: Option<RasterImage>)
    ensures
        r matches Some(img) ==> img.data@.len() == 4 * (img.width as int) * (img.height as int),
        r matches Some(img) ==> still_image_of(bytes@) == Some(image_view(img)),
        r is None ==> still_image_of(bytes@) is None,
{
    let reader = ImageReader::new(std::io::Cursor::new(bytes.as_slice())).with_guessed_format();
    let buf = reader.ok()?.decode().ok()?.to_rgba8();
    Some(RasterImage { width: buf.width(), height: buf.height(), data: buf.into_raw() })
}

/// Whether `len` is the byte count of a `width` by `height` RGBA image.
pub fn is_rgba_len(width: u32, height: u32, len: usize) -> (r: bool)
    ensures
        r == (len as int == 4 * (width as int) * (height as int)),
{
    let w = width as u64;
    let h = height as u64;
    assert(w * h <= 0xffff_ffff * 0xffff_ffffu64) by (nonlinear_arith)
        requires w <= 0xffff_ffff, h <= 0xffff_ffff;
    let area = w * h;
    let n = len as u64;
    assert(4 * (width as int) * (height as int) == 4 * (area as int)) by (nonlinear_arith)
        requires area == w * h, w == width, h == height;
    n % 4 == 0 && n / 4 == area
}

/// Whether a frame has the shape the compositor needs.
pub fn frame_is_usable(f: &AnimatedFrame) -> (r: bool)
    ensures
        r == usable(frame_view(*f)),
        r == f.wf(),
{
    f.image.width > 0 && f.image.height > 0 && f.delay.denom_ms > 0 && is_rgba_len(
        f.image.width,
        f.image.height,
        f.image.data.len(),
    )
}

/// Turns every decoded frame that is not usable into a failed one.
pub fn screen_frames(decoded: Vec<Option<AnimatedFrame>>) -> (r: Vec<Option<AnimatedFrame>>)
    ensures
        r@ == usable_frames(decoded@),
{
    let ghost whole = decoded@;
    let mut rest = decoded;
    let mut out: Vec<Option<AnimatedFrame>> = Vec::new();
    while rest.len() > 0
        invariant
            out@.len() + rest@.len() == whole.len(),
            rest@ == whole.subrange(out@.len() as int, whole.len() as int),
            out@ == usable_frames(whole).subrange(0, out@.len() as int),
        decreases rest@.len(),
    {
        let entry = rest.remove(0);
        let kept = match entry {
            Some(f) => if frame_is_usable(&f) {
                Some(f)
            } else {
                None
            },
            None => None,
        };
        out.push(kept);
        assert(rest@ =~= whole.subrange(out@.len() as int, whole.len() as int));
        assert(out@ =~= usable_frames(whole).subrange(0, out@.len() as int));
    }
    assert(out@ =~= usable_frames(whole));
    out
}

/// Decodes the input into frames in presentation order. An animation keeps every frame that
/// decodes into a usable image, with its own delay, and drops the others; anything else gives
/// exactly one frame with the still delay.
pub fn decode_sequence(bytes: &Vec<u8>, animated: bool) -> (r: Result<Vec<AnimatedFrame>, PipelineError>)
    ensures
        r matches Ok(v) ==> forall|i: int| 0 <= i < v@.len() ==> (#[trigger] v@[i]).wf(),
        animated ==> match gif_frames_of(bytes@, bytes@.len() / MIN_GIF_FRAME_BYTES as nat) {
            None => r == Err::<Vec<AnimatedFrame>, PipelineError>(PipelineError::Undecodable),
            Some(s) => r matches Ok(v) && v@.map_values(|f: AnimatedFrame| frame_view(f))
                == surviving(screened(s, |t: (nat, nat, Seq<u8>, nat, nat)| usable(t))),
        },
        !animated ==> match still_image_of(bytes@) {
            Some(t) => if t.0 > 0 && t.1 > 0 {
                r matches Ok(v) && v@.len() == 1 && image_view(v@[0].image) == t
                    && v@[0].delay == (FrameDelay { numer_ms: STILL_DELAY_MS as u32, denom_ms: 1 })
            } else {
                r == Err::<Vec<AnimatedFrame>, PipelineError>(PipelineError::Undecodable)
            },
            None => r == Err::<Vec<AnimatedFrame>, PipelineError>(PipelineError::Undecodable),
        },
{
    if animated {
        match decode_gif_frames(bytes, bytes.len() / MIN_GIF_FRAME_BYTES) {
            None => Err(PipelineError::Undecodable),
            Some(decoded) => {
                let ghost views = decoded_views(decoded@);
                let screened_frames = screen_frames(decoded);
                proof {
                    lemma_views_commute(decoded@);
                }
                let kept = keep_decoded(screened_frames);
                proof {
                    lemma_surviving_views(usable_frames(decoded@));
                    lemma_surviving_screened_wf(decoded@);
                }
                Ok(kept)
            },
        }
    } else {
        match decode_still_image(bytes) {
            None => Err(PipelineError::Undecodable),
            Some(img) => {
                if img.width > 0 && img.height > 0 && is_rgba_len(img.width, img.height, img.data.len()) {
                    Ok(still_sequence(img, still_delay()))
                } else {
                    Err(PipelineError::Undecodable)
                }
            },
        }
    }
}

proof fn lemma_views_commute(d: Seq<Option<AnimatedFrame>>)
    ensures
        decoded_views(usable_frames(d)) == screened(
            decoded_views(d),
            |t: (nat, nat, Seq<u8>, nat, nat)| usable(t),
        ),
{
    assert(decoded_views(usable_frames(d)) =~= screened(
        decoded_views(d),
        |t: (nat, nat, Seq<u8>, nat, nat)| usable(t),
    ));
}

proof fn lemma_surviving_views(s: Seq<Option<AnimatedFrame>>)
    ensures
        surviving(s).map_values(|f: AnimatedFrame| frame_view(f)) == surviving(decoded_views(s)),
    decreases s.len(),
{
    if s.len() > 0 {
        lemma_surviving_views(s.drop_first());
        assert(decoded_views(s).drop_first() =~= decoded_views(s.drop_first()));
        let rest = surviving(s.drop_first());
        match s[0] {
            Some(f) => {
                assert((seq![f] + rest).map_values(|f: AnimatedFrame| frame_view(f)) =~= seq![
                    frame_view(f)] + rest.map_values(|f: AnimatedFrame| frame_view(f)));
            },
            None => {},
        }
    } else {
        assert(surviving(s).map_values(|f: AnimatedFrame| frame_view(f)) =~= surviving(decoded_views(s)));
    }
}

proof fn lemma_surviving_screened_wf(d: Seq<Option<AnimatedFrame>>)
    ensures
        forall|i: int|
            0 <= i < surviving(usable_frames(d)).len() ==> (#[trigger] surviving(
                usable_frames(d),
            )[i]).wf(),
{
    let sc = usable_frames(d);
    crate::frames::lemma_surviving_frames(sc);
    assert forall|i: int| 0 <= i < surviving(sc).len() implies (#[trigger] surviving(sc)[i]).wf() by {
        let k = choose|k: int| 0 <= k < sc.len() && #[trigger] sc[k] == Some(surviving(sc)[i]);
        assert(sc[k] is Some);
    }
}

/// Every frame fits the GIF format's 16-bit width and height.
pub open spec fn gif_sized(frames: Seq<AnimatedFrame>) -> bool {
    forall|i: int|
        0 <= i < frames.len() ==> (#[trigger] frames[i]).image.width <= GIF_MAX_SIDE
            && frames[i].image.height <= GIF_MAX_SIDE
}

/// Relies on `image::Delay::from_saturating_duration` and `Delay::numer_denom_ms`: a whole number
/// of milliseconds, capped at `u32::MAX`, is kept exactly, over a denominator of one.
#[verifier::external_body]
fn delay_from_millis(ms: u64) -> (r: FrameDelay)
    ensures
        r.wf(),
        r.numer_ms == (if ms <= u32::MAX as u64 {
            ms as u32
        } else {
            u32::MAX
        }),
        r.denom_ms == 1,
{
    let d = image::Delay::from_saturating_duration(std::time::Duration::from_millis(ms));
    let (numer_ms, denom_ms) = d.numer_denom_ms();
    FrameDelay { numer_ms, denom_ms }
}

/// Relies on `image::codecs::gif::GifEncoder` (`new_with_speed`, `set_repeat`, `encode_frames`):
/// writes every frame, in order, into a byte buffer. The encoder refuses only a frame with a side
/// above 65535; writing into a `Vec` does not fail.
#[verifier::external_body]
fn encode_gif(frames: &Vec<AnimatedFrame>, speed: i32, loops: Option<u16>, left: u32, top: u32)
    -> (r: Option<Vec<u8>>)
    requires
        1 <= speed <= 30,
        forall|i: int| 0 <= i < frames@.len() ==> (#[trigger] frames@[i]).wf(),
    ensures
        r matches Some(b) ==> b@ == gif_bytes_of(
            frame_parts(frames@),
            speed as int,
            loops,
            left as nat,
            top as nat,
        ),
        gif_sized(frames@) ==> r is Some,
{
    let repeat = match loops {
        Some(n) => Repeat::Finite(n),
        None => Repeat::Infinite,
    };
    let parts = frames.iter().map(|f| Frame::from_parts(
        RgbaImage::from_raw(f.image.width, f.image.height, f.image.data.clone()).unwrap(),
        left, top, Delay::from_numer_denom_ms(f.delay.numer_ms, f.delay.denom_ms)));
    let mut out: Vec<u8> = Vec::new();
    let mut enc = GifEncoder::new_with_speed(&mut out, speed);
    let done = enc.set_repeat(repeat).and_then(|_| enc.encode_frames(parts));
    drop(enc);
    done.ok().map(|_| out)
}

/// The delay that a still image is shown with.
pub fn still_delay() -> (r: FrameDelay)
    ensures
        r.wf(),
        r == (FrameDelay { numer_ms: STILL_DELAY_MS as u32, denom_ms: 1 }),
{
    delay_from_millis(STILL_DELAY_MS)
}

/// Shrinks the frame if needed, computes its placement and builds its overlay canvas. The
/// delay is carried over unchanged.
pub fn prepare_frame(frame: AnimatedFrame) -> (r: PreparedFrame)
    requires
        frame.wf(),
    ensures
        r.frame.wf(),
        r.frame.delay == frame.delay,
        r.frame.image.width <= MAX_SIDE,
        r.frame.image.height <= MAX_SIDE,
        frame.image.longest_side() > MAX_SIDE ==> (r.frame.image.width == MAX_SIDE
            || r.frame.image.height == MAX_SIDE),
        frame.image.longest_side() > MAX_SIDE ==> keeps_aspect(
            frame.image.width as nat,
            frame.image.height as nat,
            r.frame.image.width as nat,
            r.frame.image.height as nat,
        ),
        frame.image.longest_side() > MAX_SIDE ==> (
        r.frame.image.width as nat,
        r.frame.image.height as nat,
        r.frame.image.data@,
        ) == nearest_fit_of(
            frame.image.width as nat,
            frame.image.height as nat,
            frame.image.data@,
            MAX_SIDE as nat,
            MAX_SIDE as nat,
        ),
        frame.image.longest_side() <= MAX_SIDE ==> {
            &&& r.frame.image.width == frame.image.width
            &&& r.frame.image.height == frame.image.height
            &&& r.frame.image.data@ == frame.image.data@
        },
        r.geometry == geometry_of(r.frame.image.width, r.frame.image.height),
        r.canvas.wf(),
        r.canvas.width == r.frame.image.width,
        r.canvas.height == r.frame.image.height,
        r.canvas.data@ == canvas_bytes(
            r.geometry.width as nat,
            r.geometry.height as nat,
            r.geometry.band_rows as nat,
        ),
{
    let delay = frame.delay;
    let image = fit_frame(frame.image);
    let geometry = placement_geometry(image.width, image.height);
    assert(4 * (image.width as int) * (image.height as int) <= 4 * 500 * 500) by (nonlinear_arith)
        requires image.width <= 500, image.height <= 500;
    let canvas = overlay_canvas(&geometry);
    PreparedFrame { frame: AnimatedFrame { image, delay }, geometry, canvas }
}

/// Blends the rendered overlay over a prepared frame; the delay is kept.
pub fn finish_frame(frame: AnimatedFrame, rendered: &RasterImage) -> (r: AnimatedFrame)
    requires
        frame.wf(),
        rendered.wf(),
        rendered.width == frame.image.width,
        rendered.height == frame.image.height,
    ensures
        r.wf(),
        r.delay == frame.delay,
        r.image.width == frame.image.width,
        r.image.height == frame.image.height,
        r.image.data@ == composited(&frame.image, rendered),
{
    let delay = frame.delay;
    let image = composite_overlay(frame.image, rendered);
    AnimatedFrame { image, delay }
}

/// Encodes the frames, in order, as a GIF that loops forever, each frame at the origin with
/// its own delay. An empty sequence is refused rather than encoded.
pub fn encode_animation(frames: &Vec<AnimatedFrame>) -> (r: Result<Vec<u8>, PipelineError>)
    requires
        forall|i: int| 0 <= i < frames@.len() ==> (#[trigger] frames@[i]).wf(),
    ensures
        frames@.len() == 0 <==> r == Err::<Vec<u8>, PipelineError>(PipelineError::NoFrames),
        r matches Ok(b) ==> b@ == gif_bytes_of(frame_parts(frames@), ENCODE_SPEED as int, None, 0, 0),
        frames@.len() > 0 && gif_sized(frames@) ==> r is Ok,
{
    if frames.len() == 0 {
        return Err(PipelineError::NoFrames);
    }
    match encode_gif(frames, ENCODE_SPEED, None, 0, 0) {
        Some(b) => Ok(b),
        None => Err(PipelineError::EncodeFailed),
    }
}

} // verus!
