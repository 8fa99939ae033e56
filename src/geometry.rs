use vstd::prelude::*;

verus! {

/// Width of the overlay's own coordinate space.
pub const REFERENCE_WIDTH: u64 = 261;

/// A non-negative rational number `numer / denom`.
#[derive(Clone, Copy, Debug, PartialEq, Eq, Structural)]
pub struct Ratio {
    pub numer: u64,
    pub denom: u64,
}

impl Ratio {
    pub open spec fn le(self, other: Ratio) -> bool {
        self.numer * other.denom <= other.numer * self.denom
    }

    pub open spec fn same_value(self, numer: int, denom: int) -> bool {
        self.numer * denom == numer * self.denom
    }
}

/// Where and how large the overlay is drawn on a target of a given size.
#[derive(Clone, Copy, Debug, PartialEq, Eq, Structural)]
pub struct PlacementGeometry {
    pub width: u32,
    pub height: u32,
    /// Horizontal scale: `width / 261`.
    pub scale_x: Ratio,
    /// Vertical scale: the smaller of `scale_x` and the adjusted vertical scale.
    pub scale_y: Ratio,
    /// Vertical translation of the overlay, in whole pixels.
    pub offset_y: u32,
    /// Number of rows at the top that are painted with the header colour.
    pub band_rows: u32,
}

/// Aspect ratio `width / height` at most one.
pub open spec fn is_portrait(width: nat, height: nat) -> bool {
    width <= height
}

/// The vertical scale before it is capped by the horizontal one:
/// `0.7 * w / 261` for portrait targets, `0.7 * 0.8 * (w / 261) / (w / h)` for landscape ones.
pub open spec fn vertical_scale(width: nat, height: nat) -> (int, int) {
    if is_portrait(width, height) {
        ((7 * width) as int, 2610)
    } else {
        ((56 * height) as int, 26100)
    }
}

/// Whole-pixel header offset `trunc(20 * w / 261)` for portrait targets.
pub open spec fn header_offset(width: nat, height: nat) -> nat {
    if is_portrait(width, height) {
        (20 * width) / 261
    } else {
        0
    }
}

/// The geometry for a target of `width` by `height` pixels.
pub open spec fn geometry_of(width: u32, height: u32) -> PlacementGeometry {
    let v = vertical_scale(width as nat, height as nat);
    PlacementGeometry {
        width,
        height,
        scale_x: Ratio { numer: width as u64, denom: REFERENCE_WIDTH },
        scale_y: Ratio { numer: v.0 as u64, denom: v.1 as u64 },
        offset_y: header_offset(width as nat, height as nat) as u32,
        band_rows: header_offset(width as nat, height as nat) as u32,
    }
}

/// Computes the overlay placement for a target of the given positive size.
pub fn placement_geometry(width: u32, height: u32) -> (r: PlacementGeometry)
    requires
        width > 0,
        height > 0,
    ensures
        r == geometry_of(width, height),
        r.scale_x.same_value(width as int, 261),
        r.scale_y.same_value(vertical_scale(width as nat, height as nat).0,
            vertical_scale(width as nat, height as nat).1),
        r.scale_y.le(r.scale_x),
        r.band_rows <= height,
{
    let w = width as u64;
    let h = height as u64;
    if width <= height {
        let offset = (20 * w / REFERENCE_WIDTH) as u32;
        assert((20 * w) / 261 <= w) by {
            assert(20 * w <= 261 * w) by (nonlinear_arith);
            vstd::arithmetic::div_mod::lemma_div_is_ordered(20 * w as int, 261 * w as int, 261);
            vstd::arithmetic::div_mod::lemma_div_multiples_vanish(w as int, 261);
        }
        assert((7 * w) * 261 <= w * 2610) by (nonlinear_arith);
        PlacementGeometry {
            width,
            height,
            scale_x: Ratio { numer: w, denom: REFERENCE_WIDTH },
            scale_y: Ratio { numer: 7 * w, denom: 2610 },
            offset_y: offset,
            band_rows: offset,
        }
    } else {
        assert((56 * h) * 261 <= w * 26100) by (nonlinear_arith)
            requires h < w;
        PlacementGeometry {
            width,
            height,
            scale_x: Ratio { numer: w, denom: REFERENCE_WIDTH },
            scale_y: Ratio { numer: 56 * h, denom: 26100 },
            offset_y: 0,
            band_rows: 0,
        }
    }
}

/// The placement depends on the target's width and height alone: two targets of the
/// same size get the same scales, offset and header band.
pub proof fn lemma_geometry_depends_only_on_size(w1: u32, h1: u32, w2: u32, h2: u32)
    requires
        w1 == w2,
        h1 == h2,
    ensures
        geometry_of(w1, h1) == geometry_of(w2, h2),
{
}

/// Portrait and square targets get a header band of `trunc(20 * w / 261)` rows, which is
/// non-empty once the target is at least 14 pixels wide; landscape targets get none.
pub proof fn lemma_header_band_iff_portrait(width: u32, height: u32)
    requires
        width > 0,
        height > 0,
    ensures
        is_portrait(width as nat, height as nat) ==> geometry_of(width, height).band_rows == (20
            * width) / 261,
        is_portrait(width as nat, height as nat) && width >= 14 ==> geometry_of(
            width,
            height,
        ).band_rows > 0,
        !is_portrait(width as nat, height as nat) ==> geometry_of(width, height).band_rows == 0,
{
    if width >= 14 {
        assert(20 * (width as int) >= 280);
        vstd::arithmetic::div_mod::lemma_div_is_ordered(261, 20 * width as int, 261);
    }
    if is_portrait(width as nat, height as nat) {
        assert((20 * width as int) / 261 <= width) by {
            vstd::arithmetic::div_mod::lemma_div_is_ordered(20 * width as int, 261 * width as int, 261);
            vstd::arithmetic::div_mod::lemma_div_multiples_vanish(width as int, 261);
        }
    }
}

} // verus!
