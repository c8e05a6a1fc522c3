//! The per-frame pipeline: one frame is bounding box → spatially filtered
//! query → streaming projection → rasterization → statistics overlay, the
//! stages strictly sequential so that every measured duration belongs to
//! exactly one stage.
//!
//! The query, the streaming decode and the GPU work are the outside
//! world's; this module fixes the decisions: the box a frame queries, the
//! projector the frame drains every feature through, and the timer that
//! attributes the elapsed time. A feature without geometry is skipped and
//! the frame goes on — an unreadable source, by contrast, is fatal to the
//! frame and propagated.

use vstd::prelude::*;

use crate::project::{FillRule, PathDrawer};
use crate::stats::{FrameStage, FrameTimer};
use crate::viewport::{half_extent, BoundingBox, Viewport, COORD_LIMIT};

verus! {

/// Whether this viewport's visible box stays within the coordinate range
/// the projector accepts. Panning is unclamped, so a center dragged
/// absurdly far could violate it; the event loop checks before a frame.
pub open spec fn frame_fits(v: Viewport) -> bool {
    &&& -COORD_LIMIT <= v.center_x - half_extent(v.output_w as int, v.pixel_size_x as int)
    &&& v.center_x + half_extent(v.output_w as int, v.pixel_size_x as int) <= COORD_LIMIT
    &&& -COORD_LIMIT <= v.center_y - half_extent(v.output_h as int, v.pixel_size_y as int)
    &&& v.center_y + half_extent(v.output_h as int, v.pixel_size_y as int) <= COORD_LIMIT
}

/// Start one frame at clock reading `now`: compute the bounding box from
/// the current viewport — recomputed every frame, since the center moves
/// between frames — and bind a fresh projector to that box and the
/// viewport's pixel size, with the frame timer running on the query
/// phase.
pub fn begin_frame(viewport: &Viewport, fill_rule: FillRule, now: u64) -> (r: (
    FrameTimer,
    BoundingBox,
    PathDrawer,
))
    requires
        viewport.wf(),
        frame_fits(*viewport),
    ensures
        r.0.t_begin == now,
        r.0.stage == FrameStage::QueryRunning,
        r.0.wf(),
        r.1.xmin == viewport.center_x - half_extent(
            viewport.output_w as int,
            viewport.pixel_size_x as int,
        ),
        r.1.xmax == viewport.center_x + half_extent(
            viewport.output_w as int,
            viewport.pixel_size_x as int,
        ),
        r.1.ymin == viewport.center_y - half_extent(
            viewport.output_h as int,
            viewport.pixel_size_y as int,
        ),
        r.1.ymax == viewport.center_y + half_extent(
            viewport.output_h as int,
            viewport.pixel_size_y as int,
        ),
        r.2.xmin == r.1.xmin,
        r.2.ymax == r.1.ymax,
        r.2.pixel_size_x == viewport.pixel_size_x,
        r.2.pixel_size_y == viewport.pixel_size_y,
        r.2.fill_rule == fill_rule,
        r.2.model().current.len() == 0,
        r.2.model().paths.len() == 0,
        r.2.wf(),
{
    let timer = FrameTimer::new(now);
    let bbox = viewport.bounding_box();
    let drawer = PathDrawer::new(&bbox, viewport.pixel_size_x, viewport.pixel_size_y, fill_rule);
    (timer, bbox, drawer)
}

} // verus!
