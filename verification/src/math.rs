//! Coordinate mapper: pixel positions to normalized coordinates, in exact
//! arithmetic.

use vstd::prelude::*;

verus! {

/// An exact fraction `num / den`.
#[derive(Clone, Copy, Debug, PartialEq, Eq, Structural)]
pub struct Ratio {
    pub num: i128,
    pub den: u32,
}

impl Ratio {
    /// A fraction is well formed when its denominator is positive.
    pub open spec fn wf(self) -> bool {
        self.den > 0
    }

    /// The fraction denotes the whole number `k`.
    pub open spec fn is_whole(self, k: int) -> bool {
        self.num == k * self.den
    }

    /// The fraction denotes a smaller number than `other`.
    pub open spec fn less_than(self, other: Ratio) -> bool {
        self.num * other.den < other.num * self.den
    }

    /// The fraction denotes a number between -1 and 1, both included.
    pub open spec fn in_unit_range(self) -> bool {
        -self.den <= self.num <= self.den
    }
}

/// `2 * pos / extent - 1`, as the fraction `(2 * pos - extent) / extent`.
pub open spec fn normalized(pos: i64, extent: u32) -> Ratio {
    Ratio { num: (2 * pos - extent) as i128, den: extent }
}

/// Maps one coordinate of a pointer position to the normalized range of a
/// viewport extent. Positions outside the viewport extrapolate linearly.
pub fn normalize_axis(pos: i64, extent: u32) -> (n: Ratio)
    requires
        extent > 0,
    ensures
        n == normalized(pos, extent),
        n.wf(),
        n.num == 2 * pos - extent,
        n.den == extent,
        0 <= pos <= extent ==> n.in_unit_range(),
{
    let twice: i128 = 2 * (pos as i128);
    Ratio { num: twice - (extent as i128), den: extent }
}

/// Maps a pointer position in pixels to normalized coordinates of a viewport
/// of `width` by `height` pixels: `(2 * pos_x / width - 1, 2 * pos_y / height - 1)`.
pub fn normalize(pos_x: i64, pos_y: i64, width: u32, height: u32) -> (n: (Ratio, Ratio))
    requires
        width > 0,
        height > 0,
    ensures
        n.0 == normalized(pos_x, width),
        n.1 == normalized(pos_y, height),
        n.0.wf(),
        n.1.wf(),
        (0 <= pos_x <= width && 0 <= pos_y <= height) ==> (n.0.in_unit_range()
            && n.1.in_unit_range()),
{
    (normalize_axis(pos_x, width), normalize_axis(pos_y, height))
}

/// The origin of a viewport maps to (-1, -1).
pub proof fn lemma_normalize_origin(width: u32, height: u32)
    requires
        width > 0,
        height > 0,
    ensures
        normalized(0, width).is_whole(-1),
        normalized(0, height).is_whole(-1),
{
}

/// The far corner of a viewport maps to (1, 1).
pub proof fn lemma_normalize_far_corner(width: u32, height: u32)
    requires
        width > 0,
        height > 0,
    ensures
        normalized(width as i64, width).is_whole(1),
        normalized(height as i64, height).is_whole(1),
{
}

/// A position at exactly half of each extent maps to (0, 0).
pub proof fn lemma_normalize_centre(mid_x: i64, mid_y: i64, width: u32, height: u32)
    requires
        width > 0,
        height > 0,
        2 * mid_x == width,
        2 * mid_y == height,
    ensures
        normalized(mid_x, width).is_whole(0),
        normalized(mid_y, height).is_whole(0),
{
}

/// Positions inside the viewport, its border included, map into [-1, 1].
pub proof fn lemma_normalize_range(pos: i64, extent: u32)
    requires
        extent > 0,
        0 <= pos <= extent,
    ensures
        normalized(pos, extent).in_unit_range(),
{
}

/// For a fixed positive extent the mapping is strictly increasing in the
/// position.
pub proof fn lemma_normalize_increasing(pos_a: i64, pos_b: i64, extent: u32)
    requires
        extent > 0,
        pos_a < pos_b,
    ensures
        normalized(pos_a, extent).less_than(normalized(pos_b, extent)),
        normalized(pos_a, extent).num < normalized(pos_b, extent).num,
{
    let a = 2 * pos_a - extent;
    let b = 2 * pos_b - extent;
    let e = extent as int;
    assert(a * e < b * e) by (nonlinear_arith)
        requires
            a < b,
            e > 0,
    ;
}

/// `normalize` is strictly increasing in `pos_x` and in `pos_y`,
/// independently.
pub proof fn lemma_normalize_monotone(
    x_a: i64,
    x_b: i64,
    y_a: i64,
    y_b: i64,
    width: u32,
    height: u32,
)
    requires
        width > 0,
        height > 0,
    ensures
        x_a < x_b ==> normalized(x_a, width).less_than(normalized(x_b, width)),
        y_a < y_b ==> normalized(y_a, height).less_than(normalized(y_b, height)),
{
    if x_a < x_b {
        lemma_normalize_increasing(x_a, x_b, width);
    }
    if y_a < y_b {
        lemma_normalize_increasing(y_a, y_b, height);
    }
}

} // verus!
