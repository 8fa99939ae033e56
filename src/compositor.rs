use vstd::prelude::*;
use crate::raster::{RasterImage, MAX_SIDE};

verus! {

/// What the image crate's aspect-preserving nearest-neighbour resize yields for an RGBA
/// image: new width, new height and pixel bytes.
pub uninterp spec fn nearest_fit_of(
    width: nat,
    height: nat,
    data: Seq<u8>,
    max_width: nat,
    max_height: nat,
) -> (nat, nat, Seq<u8>);

/// What the image crate's overlay yields for the bottom image's bytes once the top image is
/// blended over it (source-over) at `(x, y)`.
pub uninterp spec fn blended_over_of(
    width: nat,
    height: nat,
    bottom: Seq<u8>,
    top_width: nat,
    top_height: nat,
    top: Seq<u8>,
    x: int,
    y: int,
) -> Seq<u8>;

/// Whether `(w2, h2)` has the proportions of `(w, h)` up to rounding of the shorter side.
pub open spec fn keeps_aspect(w: nat, h: nat, w2: nat, h2: nat) -> bool {
    let d = w2 * h - h2 * w;
    let m = if w >= h {
        w
    } else {
        h
    };
    -m <= d <= m
}

/// Relies on `image::DynamicImage::resize` with the nearest-neighbour filter: the aspect ratio
/// is kept and the result is the largest that fits within the bounds, so one side reaches its
/// bound and the other is rounded, at least one pixel.
#[verifier::external_body]
fn resize_nearest(img: &RasterImage, max_width: u32, max_height: u32) -> (r: RasterImage)
    requires
        img.wf(),
        max_width > 0,
        max_height > 0,
    ensures
        r.wf(),
        1 <= r.width <= max_width,
        1 <= r.height <= max_height,
        r.width == max_width || r.height == max_height,
        keeps_aspect(img.width as nat, img.height as nat, r.width as nat, r.height as nat),
        (r.width as nat, r.height as nat, r.data@) == nearest_fit_of(
            img.width as nat,
            img.height as nat,
            img.data@,
            max_width as nat,
            max_height as nat,
        ),
{
    let buf = image::RgbaImage::from_raw(img.width, img.height, img.data.clone()).unwrap();
    let out = image::DynamicImage::ImageRgba8(buf).resize(
        max_width,
        max_height,
        image::imageops::FilterType::Nearest,
    ).into_rgba8();
    RasterImage { width: out.width(), height: out.height(), data: out.into_raw() }
}

/// Relies on `image::imageops::overlay`: blends `top` over `bottom` at `(x, y)`; the bottom
/// image keeps its size.
#[verifier::external_body]
fn overlay_at(bottom: RasterImage, top: &RasterImage, x: i64, y: i64) -> (r: RasterImage)
    requires
        bottom.wf(),
        top.wf(),
    ensures
        r.wf(),
        r.width == bottom.width,
        r.height == bottom.height,
        r.data@ == blended_over_of(
            bottom.width as nat,
            bottom.height as nat,
            bottom.data@,
            top.width as nat,
            top.height as nat,
            top.data@,
            x as int,
            y as int,
        ),
{
    let mut b = image::RgbaImage::from_raw(bottom.width, bottom.height, bottom.data).unwrap();
    let t = image::RgbaImage::from_raw(top.width, top.height, top.data.clone()).unwrap();
    image::imageops::overlay(&mut b, &t, x, y);
    RasterImage { width: bottom.width, height: bottom.height, data: b.into_raw() }
}

/// Shrinks a frame whose longer side exceeds the limit so that it fits in a square of that
/// side; a frame within the limit is returned untouched.
pub fn fit_frame(image: RasterImage) -> (r: RasterImage)
    requires
        image.wf(),
    ensures
        r.wf(),
        r.width <= MAX_SIDE,
        r.height <= MAX_SIDE,
        image.longest_side() > MAX_SIDE ==> {
            &&& (r.width == MAX_SIDE || r.height == MAX_SIDE)
            &&& keeps_aspect(image.width as nat, image.height as nat, r.width as nat, r.height as nat)
            &&& (r.width as nat, r.height as nat, r.data@) == nearest_fit_of(
                image.width as nat,
                image.height as nat,
                image.data@,
                MAX_SIDE as nat,
                MAX_SIDE as nat,
            )
        },
        image.longest_side() <= MAX_SIDE ==> {
            &&& r.width == image.width
            &&& r.height == image.height
            &&& r.data@ == image.data@
        },
{
    let longest = if image.width >= image.height {
        image.width
    } else {
        image.height
    };
    if longest > MAX_SIDE {
        resize_nearest(&image, MAX_SIDE, MAX_SIDE)
    } else {
        image
    }
}

/// The bytes of `frame` with `overlay` blended over it from the top-left corner.
pub open spec fn composited(frame: &RasterImage, overlay: &RasterImage) -> Seq<u8> {
    blended_over_of(
        frame.width as nat,
        frame.height as nat,
        frame.data@,
        overlay.width as nat,
        overlay.height as nat,
        overlay.data@,
        0,
        0,
    )
}

/// Blends a rendered overlay of the frame's own size over the frame, anchored at the origin.
pub fn composite_overlay(frame: RasterImage, overlay: &RasterImage) -> (r: RasterImage)
    requires
        frame.wf(),
        overlay.wf(),
        overlay.width == frame.width,
        overlay.height == frame.height,
    ensures
        r.wf(),
        r.width == frame.width,
        r.height == frame.height,
        r.data@ == composited(&frame, overlay),
{
    overlay_at(frame, overlay, 0, 0)
}

/// Compositing is a function of the frame and the overlay alone: equal inputs give equal
/// pixels, whichever frame is handled first.
pub proof fn lemma_compositing_is_deterministic(
    f1: &RasterImage,
    o1: &RasterImage,
    f2: &RasterImage,
    o2: &RasterImage,
)
    requires
        f1.width == f2.width,
        f1.height == f2.height,
        f1.data@ == f2.data@,
        o1.width == o2.width,
        o1.height == o2.height,
        o1.data@ == o2.data@,
    ensures
        composited(f1, o1) == composited(f2, o2),
{
}

} // verus!
