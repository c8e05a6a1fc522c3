//! The geometry projector: a streaming visitor that receives ring and point
//! events in geographic coordinates (map units, y up) and builds
//! device-space path geometry (pixels, y down), emitting one closed path
//! per ring.
//!
//! The projector keeps a single in-progress path, reset on every
//! `RingBegin`, and moves it into the accumulated path list on every
//! `RingEnd`. Multiple rings of one feature (for example polygon holes)
//! each become an independently emitted closed path; hole handling is
//! delegated entirely to the rasterizer's fill rule.

use vstd::arithmetic::div_mod::{lemma_fundamental_div_mod, lemma_fundamental_div_mod_converse};
use vstd::prelude::*;

use crate::viewport::{BoundingBox, COORD_LIMIT};

verus! {

/// Winding rule used by the rasterizer to decide inside/outside for
/// overlapping paths. Fixed per drawer instance, not per ring.
#[derive(Clone, Copy, Debug, PartialEq, Eq, Structural)]
pub enum FillRule {
    Winding,
    EvenOdd,
}

/// One event of the streaming geometry protocol, in geographic map units.
/// For one ring the source sends `RingBegin`, then its points in order
/// (`point_index` counting from zero), then `RingEnd`.
#[derive(Clone, Copy, Debug, PartialEq, Eq, Structural)]
pub enum GeometryEvent {
    RingBegin { size_hint: usize, ring_index: usize },
    PointXY { x: i64, y: i64, point_index: usize },
    RingEnd { ring_index: usize },
}

/// One closed ring in device space: its vertices in order, plus the
/// implicit closing segment from the last vertex back to the first.
pub struct DevicePath {
    pub points: Vec<(i64, i64)>,
    pub closed: bool,
}

/// The streaming visitor. `xmin` and `ymax` come from the current
/// bounding box; `pixel_size_*` from the viewport.
pub struct PathDrawer {
    pub xmin: i64,
    pub ymax: i64,
    pub pixel_size_x: i64,
    pub pixel_size_y: i64,
    pub fill_rule: FillRule,
    pub current: Vec<(i64, i64)>,
    pub paths: Vec<DevicePath>,
}

/// The mathematical state of a projector: the in-progress ring and the
/// finished rings, as sequences of device-space points.
#[verifier::ext_equal]
pub ghost struct DrawerModel {
    pub current: Seq<(int, int)>,
    pub paths: Seq<Seq<(int, int)>>,
}

/// The device-space x coordinate of geographic x: its offset from the left
/// edge of the box, in pixels (floor of the exact quotient).
pub open spec fn project_x(xmin: int, sx: int, x: int) -> int {
    (x - xmin) / sx
}

/// The device-space y coordinate of geographic y: its offset below the top
/// edge of the box, in pixels. Geographic y grows northward while device y
/// grows downward, hence the flip.
pub open spec fn project_y(ymax: int, sy: int, y: int) -> int {
    (ymax - y) / sy
}

/// The degree-to-pixel transform of one frame.
#[verifier::ext_equal]
pub ghost struct Projection {
    pub xmin: int,
    pub ymax: int,
    pub sx: int,
    pub sy: int,
}

impl Projection {
    pub open spec fn point(self, p: (i64, i64)) -> (int, int) {
        (project_x(self.xmin, self.sx, p.0 as int), project_y(self.ymax, self.sy, p.1 as int))
    }

    /// A whole ring of geographic points, projected in order.
    pub open spec fn ring(self, pts: Seq<(i64, i64)>) -> Seq<(int, int)> {
        Seq::new(pts.len(), |i: int| self.point(pts[i]))
    }

    /// How one geometry event transforms the projector state.
    pub open spec fn step(self, m: DrawerModel, e: GeometryEvent) -> DrawerModel {
        match e {
            GeometryEvent::RingBegin { .. } => DrawerModel {
                current: Seq::empty(),
                paths: m.paths,
            },
            GeometryEvent::PointXY { x, y, point_index } => {
                let p = self.point((x, y));
                if point_index == 0 {
                    DrawerModel { current: seq![p], paths: m.paths }
                } else {
                    DrawerModel { current: m.current.push(p), paths: m.paths }
                }
            },
            GeometryEvent::RingEnd { .. } => DrawerModel {
                current: Seq::empty(),
                paths: m.paths.push(m.current),
            },
        }
    }

    /// The projector state after consuming a whole event sequence.
    pub open spec fn run(self, m: DrawerModel, events: Seq<GeometryEvent>) -> DrawerModel
        decreases events.len(),
    {
        if events.len() == 0 {
            m
        } else {
            self.run(self.step(m, events[0]), events.drop_first())
        }
    }
}

/// A sequence of device points as mathematical pairs.
pub open spec fn points_view(v: Seq<(i64, i64)>) -> Seq<(int, int)> {
    Seq::new(v.len(), |i: int| (v[i].0 as int, v[i].1 as int))
}

impl PathDrawer {
    /// The transform this drawer was built with.
    pub open spec fn projection(self) -> Projection {
        Projection {
            xmin: self.xmin as int,
            ymax: self.ymax as int,
            sx: self.pixel_size_x as int,
            sy: self.pixel_size_y as int,
        }
    }

    /// The mathematical state held in the drawer's buffers.
    pub open spec fn model(self) -> DrawerModel {
        DrawerModel {
            current: points_view(self.current@),
            paths: Seq::new(self.paths@.len(), |i: int| points_view(self.paths@[i].points@)),
        }
    }

    /// Pixel sizes are strictly positive and the box corner is an
    /// in-range geographic coordinate.
    pub open spec fn wf(self) -> bool {
        &&& 1 <= self.pixel_size_x
        &&& 1 <= self.pixel_size_y
        &&& -COORD_LIMIT <= self.xmin <= COORD_LIMIT
        &&& -COORD_LIMIT <= self.ymax <= COORD_LIMIT
    }

    /// The frame-independent configuration: everything but the path
    /// buffers.
    pub open spec fn same_config(self, other: PathDrawer) -> bool {
        &&& self.xmin == other.xmin
        &&& self.ymax == other.ymax
        &&& self.pixel_size_x == other.pixel_size_x
        &&& self.pixel_size_y == other.pixel_size_y
        &&& self.fill_rule == other.fill_rule
    }

    /// A fresh drawer bound to one frame's bounding box and the
    /// viewport's pixel size, with empty buffers.
    pub fn new(bbox: &BoundingBox, pixel_size_x: i64, pixel_size_y: i64, fill_rule: FillRule) -> (d:
        PathDrawer)
        requires
            1 <= pixel_size_x,
            1 <= pixel_size_y,
            -COORD_LIMIT <= bbox.xmin <= COORD_LIMIT,
            -COORD_LIMIT <= bbox.ymax <= COORD_LIMIT,
        ensures
            d.xmin == bbox.xmin,
            d.ymax == bbox.ymax,
            d.pixel_size_x == pixel_size_x,
            d.pixel_size_y == pixel_size_y,
            d.fill_rule == fill_rule,
            d.model() == (DrawerModel { current: Seq::<(int, int)>::empty(), paths: Seq::<Seq<(int, int)>>::empty() }),
            d.wf(),
    {
        let d = PathDrawer {
            xmin: bbox.xmin,
            ymax: bbox.ymax,
            pixel_size_x,
            pixel_size_y,
            fill_rule,
            current: Vec::new(),
            paths: Vec::new(),
        };
        proof {
            assert(d.model() =~~= DrawerModel {
                current: Seq::<(int, int)>::empty(),
                paths: Seq::<Seq<(int, int)>>::empty(),
            });
        }
        d
    }

    /// Discard any in-progress path and start a new empty one.
    pub fn ring_begin(&mut self, size_hint: usize, ring_index: usize)
        ensures
            final(self).model() == old(self).projection().step(
                old(self).model(),
                GeometryEvent::RingBegin { size_hint, ring_index },
            ),
            final(self).same_config(*old(self)),
            final(self).paths == old(self).paths,
    {
        self.current = Vec::new();
        proof {
            assert(final(self).model() =~~= old(self).projection().step(
                old(self).model(),
                GeometryEvent::RingBegin { size_hint, ring_index },
            ));
        }
    }

    /// Project one geographic point and append it to the in-progress
    /// path; the point with index zero starts the path.
    pub fn pointxy(&mut self, x: i64, y: i64, point_index: usize)
        requires
            old(self).wf(),
            -COORD_LIMIT <= x <= COORD_LIMIT,
            -COORD_LIMIT <= y <= COORD_LIMIT,
        ensures
            final(self).model() == old(self).projection().step(
                old(self).model(),
                GeometryEvent::PointXY { x, y, point_index },
            ),
            final(self).same_config(*old(self)),
            final(self).paths == old(self).paths,
    {
        let px = div_floor(x - self.xmin, self.pixel_size_x);
        let py = div_floor(self.ymax - y, self.pixel_size_y);
        if point_index == 0 {
            self.current = Vec::new();
        }
        self.current.push((px, py));
        proof {
            assert(final(self).model() =~~= old(self).projection().step(
                old(self).model(),
                GeometryEvent::PointXY { x, y, point_index },
            ));
        }
    }

    /// Close the in-progress path and move it into the finished list.
    /// A ring with zero points yields an empty closed path.
    pub fn ring_end(&mut self, ring_index: usize)
        ensures
            final(self).model() == old(self).projection().step(
                old(self).model(),
                GeometryEvent::RingEnd { ring_index },
            ),
            final(self).same_config(*old(self)),
            final(self).paths@.len() == old(self).paths@.len() + 1,
            final(self).paths@.last().points@ == old(self).current@,
            final(self).paths@.last().closed,
            final(self).current@.len() == 0,
    {
        let mut finished: Vec<(i64, i64)> = Vec::new();
        core::mem::swap(&mut finished, &mut self.current);
        self.paths.push(DevicePath { points: finished, closed: true });
        proof {
            assert(final(self).model() =~~= old(self).projection().step(
                old(self).model(),
                GeometryEvent::RingEnd { ring_index },
            ));
        }
    }

    /// Whether every point event in a stream carries in-range
    /// coordinates.
    pub open spec fn events_in_bounds(events: Seq<GeometryEvent>) -> bool {
        forall|i: int|
            0 <= i < events.len() ==> match #[trigger] events[i] {
                GeometryEvent::PointXY { x, y, .. } => {
                    &&& -COORD_LIMIT <= x <= COORD_LIMIT
                    &&& -COORD_LIMIT <= y <= COORD_LIMIT
                },
                _ => true,
            }
    }

    /// Drain one feature's whole event stream through the drawer, in
    /// order.
    pub fn process_events(&mut self, events: &Vec<GeometryEvent>)
        requires
            old(self).wf(),
            PathDrawer::events_in_bounds(events@),
        ensures
            final(self).model() == old(self).projection().run(old(self).model(), events@),
            final(self).same_config(*old(self)),
    {
        let ghost pj = self.projection();
        let ghost m0 = self.model();
        proof {
            assert(events@.take(0) =~= Seq::<GeometryEvent>::empty());
        }
        let n = events.len();
        let mut i: usize = 0;
        while i < n
            invariant
                n == events@.len(),
                0 <= i <= n,
                self.wf(),
                PathDrawer::events_in_bounds(events@),
                self.projection() == pj,
                self.model() == pj.run(m0, events@.take(i as int)),
                self.same_config(*old(self)),
                pj == old(self).projection(),
                m0 == old(self).model(),
            decreases n - i,
        {
            let e = events[i];
            match e {
                GeometryEvent::RingBegin { size_hint, ring_index } => {
                    self.ring_begin(size_hint, ring_index);
                },
                GeometryEvent::PointXY { x, y, point_index } => {
                    self.pointxy(x, y, point_index);
                },
                GeometryEvent::RingEnd { ring_index } => {
                    self.ring_end(ring_index);
                },
            }
            proof {
                lemma_run_step(pj, m0, events@, i as int);
            }
            i = i + 1;
        }
        proof {
            assert(events@.take(n as int) =~= events@);
        }
    }
}

/// Floor division of `a` by positive `b`: the quotient rounded toward
/// negative infinity, which agrees with the mathematical `/` on `int`.
pub fn div_floor(a: i64, b: i64) -> (r: i64)
    requires
        1 <= b,
        -0x4000_0000_0000_0000 <= a <= 0x4000_0000_0000_0000,
    ensures
        r == a as int / b as int,
{
    if a >= 0 {
        a / b
    } else {
        let m = -a;
        let q = (m - 1) / b;
        proof {
            let mi = m as int;
            let bi = b as int;
            let qq = (mi - 1) / bi;
            let rr = (mi - 1) % bi;
            lemma_fundamental_div_mod(mi - 1, bi);
            assert(0 <= rr < bi);
            assert(mi - 1 == bi * qq + rr);
            assert(qq >= 0) by (nonlinear_arith)
                requires
                    mi - 1 >= 0,
                    bi >= 1,
                    0 <= rr < bi,
                    mi - 1 == bi * qq + rr,
            ;
            assert(bi * qq >= qq) by (nonlinear_arith)
                requires
                    bi >= 1,
                    qq >= 0,
            ;
            assert(a as int == (-qq - 1) * bi + (bi - rr - 1)) by (nonlinear_arith)
                requires
                    a as int == -mi,
                    mi - 1 == bi * qq + rr,
            ;
            lemma_fundamental_div_mod_converse(a as int, bi, -qq - 1, bi - rr - 1);
        }
        -q - 1
    }
}

/// One more event extends a run by one step: consuming the first `i + 1`
/// events is consuming the first `i` and then stepping on event `i`.
pub proof fn lemma_run_step(pj: Projection, m: DrawerModel, events: Seq<GeometryEvent>, i: int)
    requires
        0 <= i < events.len(),
    ensures
        pj.run(m, events.take(i + 1)) == pj.step(pj.run(m, events.take(i)), events[i]),
{
    assert(events.take(i + 1) =~= events.take(i).push(events[i]));
    lemma_run_push(pj, m, events.take(i), events[i]);
}

/// Appending one event to a stream appends one step to its run.
pub proof fn lemma_run_push(pj: Projection, m: DrawerModel, events: Seq<GeometryEvent>, e: GeometryEvent)
    ensures
        pj.run(m, events.push(e)) == pj.step(pj.run(m, events), e),
    decreases events.len(),
{
    if events.len() == 0 {
        assert(events.push(e)[0] == e);
        assert(events.push(e).drop_first() =~= Seq::<GeometryEvent>::empty());
        assert(pj.run(m, events.push(e)) == pj.run(pj.step(m, e), events.push(e).drop_first()));
        assert(pj.run(pj.step(m, e), Seq::<GeometryEvent>::empty()) == pj.step(m, e));
        assert(pj.run(m, events) == m);
    } else {
        assert(events.push(e)[0] == events[0]);
        assert(events.push(e).drop_first() =~= events.drop_first().push(e));
        lemma_run_push(pj, pj.step(m, events[0]), events.drop_first(), e);
        assert(pj.run(m, events.push(e)) == pj.run(
            pj.step(m, events[0]),
            events.drop_first().push(e),
        ));
        assert(pj.run(m, events) == pj.run(pj.step(m, events[0]), events.drop_first()));
    }
}

/// A run over a concatenation is the run over the first part followed by
/// the run over the second.
pub proof fn lemma_run_concat(pj: Projection, m: DrawerModel, a: Seq<GeometryEvent>, b: Seq<GeometryEvent>)
    ensures
        pj.run(m, a + b) == pj.run(pj.run(m, a), b),
    decreases a.len(),
{
    if a.len() == 0 {
        assert(a + b =~= b);
    } else {
        assert((a + b)[0] == a[0]);
        assert((a + b).drop_first() =~= a.drop_first() + b);
        lemma_run_concat(pj, pj.step(m, a[0]), a.drop_first(), b);
    }
}

/// The event stream of one ring: its points in order, with
/// `point_index` counting from zero.
pub open spec fn point_events(pts: Seq<(i64, i64)>) -> Seq<GeometryEvent> {
    Seq::new(
        pts.len(),
        |i: int| GeometryEvent::PointXY { x: pts[i].0, y: pts[i].1, point_index: i as usize },
    )
}

/// The full event stream of one single-ring feature: `RingBegin`, the
/// points in order, `RingEnd`.
pub open spec fn ring_events(pts: Seq<(i64, i64)>) -> Seq<GeometryEvent> {
    seq![GeometryEvent::RingBegin { size_hint: pts.len() as usize, ring_index: 0 }]
        + point_events(pts) + seq![GeometryEvent::RingEnd { ring_index: 0 }]
}

/// The concatenated event stream of a sequence of single-ring features,
/// one feature fully drained before the next begins.
pub open spec fn feature_stream(rings: Seq<Seq<(i64, i64)>>) -> Seq<GeometryEvent>
    decreases rings.len(),
{
    if rings.len() == 0 {
        Seq::empty()
    } else {
        ring_events(rings.first()) + feature_stream(rings.drop_first())
    }
}

/// Every ring of a sequence, projected in order.
pub open spec fn projected_rings(pj: Projection, rings: Seq<Seq<(i64, i64)>>) -> Seq<
    Seq<(int, int)>,
> {
    Seq::new(rings.len(), |i: int| pj.ring(rings[i]))
}

/// A run over a single event is one step.
pub proof fn lemma_run_one(pj: Projection, m: DrawerModel, e: GeometryEvent)
    ensures
        pj.run(m, seq![e]) == pj.step(m, e),
{
    assert(seq![e].drop_first() =~= Seq::<GeometryEvent>::empty());
    assert(pj.run(m, seq![e]) == pj.run(pj.step(m, seq![e][0]), seq![e].drop_first()));
    assert(seq![e][0] == e);
    assert(pj.run(pj.step(m, e), seq![e].drop_first()) == pj.step(m, e));
}

/// After the first `j` point events of a ring, the in-progress path holds
/// exactly the first `j` projected points; the finished paths are
/// untouched.
pub proof fn lemma_point_events_prefix(
    pj: Projection,
    m: DrawerModel,
    pts: Seq<(i64, i64)>,
    j: int,
)
    requires
        0 <= j <= pts.len(),
        pts.len() <= usize::MAX,
    ensures
        pj.run(m, point_events(pts).take(j)) == if j == 0 {
            m
        } else {
            DrawerModel { current: pj.ring(pts).take(j), paths: m.paths }
        },
    decreases j,
{
    if j == 0 {
        assert(point_events(pts).take(0) =~= Seq::<GeometryEvent>::empty());
    } else {
        lemma_point_events_prefix(pj, m, pts, j - 1);
        lemma_run_step(pj, m, point_events(pts), j - 1);
        assert(point_events(pts)[j - 1] == GeometryEvent::PointXY {
            x: pts[j - 1].0,
            y: pts[j - 1].1,
            point_index: (j - 1) as usize,
        });
        if j == 1 {
            assert(pj.ring(pts).take(1) =~= seq![pj.point(pts[0])]);
            assert(pj.run(m, point_events(pts).take(1)) =~~= DrawerModel {
                current: pj.ring(pts).take(1),
                paths: m.paths,
            });
        } else {
            assert((j - 1) as usize != 0);
            assert(pj.ring(pts).take(j - 1).push(pj.point(pts[j - 1])) =~= pj.ring(pts).take(j));
            assert(pj.run(m, point_events(pts).take(j)) =~~= DrawerModel {
                current: pj.ring(pts).take(j),
                paths: m.paths,
            });
        }
    }
}

/// One ring's event stream leaves the in-progress path empty and emits
/// exactly one finished path: the projected ring.
pub proof fn lemma_ring_events(pj: Projection, m: DrawerModel, pts: Seq<(i64, i64)>)
    requires
        pts.len() <= usize::MAX,
    ensures
        pj.run(m, ring_events(pts)) == (DrawerModel {
            current: Seq::empty(),
            paths: m.paths.push(pj.ring(pts)),
        }),
{
    let rb = seq![GeometryEvent::RingBegin { size_hint: pts.len() as usize, ring_index: 0 }];
    let re = seq![GeometryEvent::RingEnd { ring_index: 0 }];
    let pe = point_events(pts);
    lemma_run_concat(pj, m, rb + pe, re);
    lemma_run_concat(pj, m, rb, pe);
    let m1 = pj.step(m, rb[0]);
    lemma_run_one(pj, m, rb[0]);
    assert(rb =~= seq![rb[0]]);
    assert(pj.run(m, rb) == m1);
    assert(pe.take(pts.len() as int) =~= pe);
    lemma_point_events_prefix(pj, m1, pts, pts.len() as int);
    let m2 = pj.run(m1, pe);
    lemma_run_one(pj, m2, re[0]);
    assert(re =~= seq![re[0]]);
    assert(pj.run(m2, re) == pj.step(m2, re[0]));
    if pts.len() == 0 {
        assert(pj.ring(pts) =~= Seq::<(int, int)>::empty());
        assert(pj.run(m, ring_events(pts)) =~~= DrawerModel {
            current: Seq::empty(),
            paths: m.paths.push(pj.ring(pts)),
        });
    } else {
        assert(pj.ring(pts).take(pts.len() as int) =~= pj.ring(pts));
        assert(pj.run(m, ring_events(pts)) =~~= DrawerModel {
            current: Seq::empty(),
            paths: m.paths.push(pj.ring(pts)),
        });
    }
}

/// Draining N single-ring features appends exactly their N projected
/// rings to the finished paths, in order.
pub proof fn lemma_feature_stream_run(pj: Projection, m: DrawerModel, rings: Seq<Seq<(i64, i64)>>)
    requires
        forall|i: int| 0 <= i < rings.len() ==> (#[trigger] rings[i]).len() <= usize::MAX,
    ensures
        pj.run(m, feature_stream(rings)) == (DrawerModel {
            current: if rings.len() == 0 {
                m.current
            } else {
                Seq::empty()
            },
            paths: m.paths + projected_rings(pj, rings),
        }),
    decreases rings.len(),
{
    if rings.len() == 0 {
        assert(m.paths + projected_rings(pj, rings) =~= m.paths);
        assert(pj.run(m, feature_stream(rings)) =~~= DrawerModel {
            current: m.current,
            paths: m.paths + projected_rings(pj, rings),
        });
    } else {
        lemma_run_concat(pj, m, ring_events(rings.first()), feature_stream(rings.drop_first()));
        assert(rings[0].len() <= usize::MAX);
        lemma_ring_events(pj, m, rings.first());
        let m1 = DrawerModel { current: Seq::empty(), paths: m.paths.push(pj.ring(rings[0])) };
        assert(forall|i: int|
            0 <= i < rings.drop_first().len() ==> (#[trigger] rings.drop_first()[i]).len()
                <= usize::MAX);
        lemma_feature_stream_run(pj, m1, rings.drop_first());
        assert(m1.paths + projected_rings(pj, rings.drop_first()) =~~= m.paths + projected_rings(
            pj,
            rings,
        ));
        assert(pj.run(m, feature_stream(rings)) =~~= DrawerModel {
            current: Seq::empty(),
            paths: m.paths + projected_rings(pj, rings),
        });
    }
}

/// Feeding N features, each with one ring of M points, emits exactly N
/// paths, the i-th holding exactly the M projected vertices of the i-th
/// ring, in order. (Each emitted path carries the implicit closing
/// segment: `ring_end` marks it closed.)
pub proof fn lemma_one_path_per_feature(pj: Projection, m: DrawerModel, rings: Seq<Seq<(i64, i64)>>)
    requires
        forall|i: int| 0 <= i < rings.len() ==> (#[trigger] rings[i]).len() <= usize::MAX,
    ensures
        pj.run(m, feature_stream(rings)).paths.len() == m.paths.len() + rings.len(),
        forall|i: int|
            0 <= i < rings.len() ==> pj.run(m, feature_stream(rings)).paths[m.paths.len() + i]
                == pj.ring(rings[i]),
        forall|i: int|
            0 <= i < rings.len() ==> (#[trigger] pj.run(m, feature_stream(rings)).paths[m.paths.len()
                + i]).len() == rings[i].len(),
{
    lemma_feature_stream_run(pj, m, rings);
}

} // verus!
