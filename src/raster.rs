use vstd::prelude::*;
use crate::geometry::PlacementGeometry;

verus! {

/// Frames larger than this on either side are shrunk before the overlay is drawn.
pub const MAX_SIDE: u32 = 500;

/// Colour of the header band: red, green, blue, alpha.
pub const BAND_RED: u8 = 53;
pub const BAND_GREEN: u8 = 57;
pub const BAND_BLUE: u8 = 63;
pub const BAND_ALPHA: u8 = 255;

/// A grid of RGBA pixels, row by row, four bytes per pixel.
#[derive(Debug)]
pub struct RasterImage {
    pub width: u32,
    pub height: u32,
    pub data: Vec<u8>,
}

impl RasterImage {
    pub open spec fn wf(&self) -> bool {
        &&& self.width > 0
        &&& self.height > 0
        &&& self.data@.len() == 4 * (self.width as int) * (self.height as int)
    }

    pub open spec fn longest_side(&self) -> u32 {
        if self.width >= self.height {
            self.width
        } else {
            self.height
        }
    }
}

/// The byte at `i` of a fresh transparent `width`-wide canvas whose first `band_rows`
/// rows are painted with the header colour.
pub open spec fn canvas_byte(width: nat, band_rows: nat, i: int) -> u8 {
    if i < 4 * width * band_rows {
        band_channel(i % 4)
    } else {
        0
    }
}

pub open spec fn band_channel(c: int) -> u8 {
    if c == 0 {
        BAND_RED
    } else if c == 1 {
        BAND_GREEN
    } else if c == 2 {
        BAND_BLUE
    } else {
        BAND_ALPHA
    }
}

pub open spec fn canvas_bytes(width: nat, height: nat, band_rows: nat) -> Seq<u8> {
    Seq::new(4 * width * height, |i: int| canvas_byte(width, band_rows, i))
}

/// Builds the canvas the overlay is rendered onto: transparent, of the geometry's size,
/// with the header band painted across the full width of its top rows.
pub fn overlay_canvas(g: &PlacementGeometry) -> (r: RasterImage)
    requires
        g.width > 0,
        g.height > 0,
        g.band_rows <= g.height,
        4 * (g.width as int) * (g.height as int) <= usize::MAX,
    ensures
        r.wf(),
        r.width == g.width,
        r.height == g.height,
        r.data@ == canvas_bytes(g.width as nat, g.height as nat, g.band_rows as nat),
{
    let w = g.width as usize;
    assert(4 * (g.width as int) * (g.band_rows as int) <= 4 * (g.width as int) * (g.height as int))
        by (nonlinear_arith)
        requires g.band_rows <= g.height;
    assert(4 * (g.width as int) <= 4 * (g.width as int) * (g.height as int)) by (nonlinear_arith)
        requires g.height >= 1, g.width >= 0;
    let total: usize = 4 * w * (g.height as usize);
    let band_len: usize = 4 * w * (g.band_rows as usize);
    let mut data: Vec<u8> = Vec::with_capacity(total);
    let mut i: usize = 0;
    while i < total
        invariant
            total == 4 * (g.width as int) * (g.height as int),
            band_len == 4 * (g.width as int) * (g.band_rows as int),
            i <= total,
            data@.len() == i,
            forall|j: int| 0 <= j < i ==> data@[j] == canvas_byte(g.width as nat, g.band_rows as nat, j),
        decreases total - i,
    {
        let b: u8 = if i < band_len {
            let c: usize = i % 4;
            if c == 0 {
                BAND_RED
            } else if c == 1 {
                BAND_GREEN
            } else if c == 2 {
                BAND_BLUE
            } else {
                BAND_ALPHA
            }
        } else {
            0
        };
        data.push(b);
        i = i + 1;
    }
    assert(data@ =~= canvas_bytes(g.width as nat, g.height as nat, g.band_rows as nat));
    RasterImage { width: g.width, height: g.height, data }
}

} // verus!
