//! The viewport: a geographic center point and a degrees-per-pixel scale.
//!
//! Coordinates are fixed-point map units: a signed 64-bit count of a fixed
//! fraction of a degree (the surrounding program uses nanodegrees). The
//! viewport derives the geographic bounding box of the visible region from
//! its center, its pixel size and the output size, and applies pointer-drag
//! deltas to the center.

use vstd::prelude::*;

verus! {

/// Magnitude bound on geographic coordinates in map units. Keeping
/// coordinates within this bound guarantees that the difference of any two
/// of them fits in an `i64`.
pub const COORD_LIMIT: i64 = 0x2000_0000_0000_0000;

/// Axis-aligned geographic rectangle in map units, bounding the visible
/// region. Computed fresh for every frame from the viewport.
pub struct BoundingBox {
    pub xmin: i64,
    pub ymin: i64,
    pub xmax: i64,
    pub ymax: i64,
}

/// The current view: geographic center, map units per pixel on each axis,
/// and the output surface size in pixels.
pub struct Viewport {
    pub center_x: i64,
    pub center_y: i64,
    pub pixel_size_x: i64,
    pub pixel_size_y: i64,
    pub output_w: i32,
    pub output_h: i32,
}

/// Half of the visible extent along one axis: half the output size times
/// the pixel size, in map units.
pub open spec fn half_extent(output: int, pixel_size: int) -> int {
    (output * pixel_size) / 2
}

/// The center after one pan by `(dx, dy)` pixels. Pointer y and
/// geographic y increase in opposite directions, hence the asymmetry.
pub open spec fn pan_center(
    cx: int,
    cy: int,
    sx: int,
    sy: int,
    dx: int,
    dy: int,
) -> (int, int) {
    (cx - dx * sx, cy + dy * sy)
}

impl Viewport {
    /// Both pixel sizes are strictly positive and the output surface is
    /// nonempty; everything stays well clear of the `i64` range so that
    /// the bounding-box arithmetic cannot overflow.
    pub open spec fn wf(self) -> bool {
        &&& 1 <= self.pixel_size_x
        &&& 1 <= self.pixel_size_y
        &&& 1 <= self.output_w
        &&& 1 <= self.output_h
        &&& self.output_w * self.pixel_size_x <= COORD_LIMIT
        &&& self.output_h * self.pixel_size_y <= COORD_LIMIT
    }

    pub fn new(
        center_x: i64,
        center_y: i64,
        pixel_size_x: i64,
        pixel_size_y: i64,
        output_w: i32,
        output_h: i32,
    ) -> (v: Viewport)
        requires
            1 <= pixel_size_x,
            1 <= pixel_size_y,
            1 <= output_w,
            1 <= output_h,
            output_w * pixel_size_x <= COORD_LIMIT,
            output_h * pixel_size_y <= COORD_LIMIT,
        ensures
            v == (Viewport {
                center_x,
                center_y,
                pixel_size_x,
                pixel_size_y,
                output_w,
                output_h,
            }),
            v.wf(),
    {
        Viewport { center_x, center_y, pixel_size_x, pixel_size_y, output_w, output_h }
    }

    /// The geographic rectangle visible around the current center:
    /// `center ± output_size / 2 * pixel_size` on each axis. Recomputed
    /// every frame, never cached, because the center moves between frames.
    ///
    /// The box is always centered on the current center, `xmin <= xmax`
    /// and `ymin <= ymax`, strictly so as soon as the visible extent is at
    /// least two map units wide.
    pub fn bounding_box(&self) -> (r: BoundingBox)
        requires
            self.wf(),
            self.center_x - half_extent(self.output_w as int, self.pixel_size_x as int)
                >= i64::MIN,
            self.center_x + half_extent(self.output_w as int, self.pixel_size_x as int)
                <= i64::MAX,
            self.center_y - half_extent(self.output_h as int, self.pixel_size_y as int)
                >= i64::MIN,
            self.center_y + half_extent(self.output_h as int, self.pixel_size_y as int)
                <= i64::MAX,
        ensures
            r.xmin == self.center_x - half_extent(self.output_w as int, self.pixel_size_x as int),
            r.xmax == self.center_x + half_extent(self.output_w as int, self.pixel_size_x as int),
            r.ymin == self.center_y - half_extent(self.output_h as int, self.pixel_size_y as int),
            r.ymax == self.center_y + half_extent(self.output_h as int, self.pixel_size_y as int),
            r.xmin + r.xmax == 2 * self.center_x,
            r.ymin + r.ymax == 2 * self.center_y,
            r.xmin <= r.xmax,
            r.ymin <= r.ymax,
            self.output_w * self.pixel_size_x >= 2 ==> r.xmin < r.xmax,
            self.output_h * self.pixel_size_y >= 2 ==> r.ymin < r.ymax,
    {
        let ext_x: i64 = self.output_w as i64 * self.pixel_size_x;
        let ext_y: i64 = self.output_h as i64 * self.pixel_size_y;
        let half_x: i64 = ext_x / 2;
        let half_y: i64 = ext_y / 2;
        BoundingBox {
            xmin: self.center_x - half_x,
            ymin: self.center_y - half_y,
            xmax: self.center_x + half_x,
            ymax: self.center_y + half_y,
        }
    }

    /// Apply a pointer-drag delta of `(dx, dy)` pixels to the center. The
    /// center may leave the valid geographic range; that is accepted
    /// behavior, not an error, so no clamping is performed.
    pub fn pan(&mut self, dx: i32, dy: i32)
        requires
            i64::MIN <= dx * old(self).pixel_size_x <= i64::MAX,
            i64::MIN <= dy * old(self).pixel_size_y <= i64::MAX,
            i64::MIN <= old(self).center_x - dx * old(self).pixel_size_x,
            old(self).center_x - dx * old(self).pixel_size_x <= i64::MAX,
            i64::MIN <= old(self).center_y + dy * old(self).pixel_size_y,
            old(self).center_y + dy * old(self).pixel_size_y <= i64::MAX,
        ensures
            (final(self).center_x as int, final(self).center_y as int) == pan_center(
                old(self).center_x as int,
                old(self).center_y as int,
                old(self).pixel_size_x as int,
                old(self).pixel_size_y as int,
                dx as int,
                dy as int,
            ),
            final(self).pixel_size_x == old(self).pixel_size_x,
            final(self).pixel_size_y == old(self).pixel_size_y,
            final(self).output_w == old(self).output_w,
            final(self).output_h == old(self).output_h,
    {
        self.center_x = self.center_x - dx as i64 * self.pixel_size_x;
        self.center_y = self.center_y + dy as i64 * self.pixel_size_y;
    }
}

/// Panning by `(dx, dy)` and then by `(-dx, -dy)` restores the original
/// center exactly: the round-trip law for drags.
pub proof fn lemma_pan_round_trip(cx: int, cy: int, sx: int, sy: int, dx: int, dy: int)
    ensures
        ({
            let (cx1, cy1) = pan_center(cx, cy, sx, sy, dx, dy);
            pan_center(cx1, cy1, sx, sy, -dx, -dy)
        }) == (cx, cy),
{
    assert((-dx) * sx == -(dx * sx)) by (nonlinear_arith);
    assert((-dy) * sy == -(dy * sy)) by (nonlinear_arith);
}

} // verus!
