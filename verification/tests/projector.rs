use fgb_viewer::project::{div_floor, FillRule, GeometryEvent, PathDrawer};
use fgb_viewer::viewport::BoundingBox;

fn drawer(xmin: i64, ymax: i64, sx: i64, sy: i64) -> PathDrawer {
    let bbox = BoundingBox { xmin, ymin: 0, xmax: 0, ymax };
    PathDrawer::new(&bbox, sx, sy, FillRule::Winding)
}

#[test]
fn triangle_ring_projects_with_y_flip() {
    let mut d = drawer(0, 10, 1, 1);
    d.ring_begin(3, 0);
    d.pointxy(0, 0, 0);
    d.pointxy(10, 0, 1);
    d.pointxy(10, 10, 2);
    d.ring_end(0);
    assert_eq!(d.paths.len(), 1);
    let path = &d.paths[0];
    assert_eq!(path.points, vec![(0, 10), (10, 10), (10, 0)]);
    assert!(path.closed);
}

#[test]
fn triangle_ring_via_event_stream() {
    let mut d = drawer(0, 10, 1, 1);
    let events = vec![
        GeometryEvent::RingBegin { size_hint: 3, ring_index: 0 },
        GeometryEvent::PointXY { x: 0, y: 0, point_index: 0 },
        GeometryEvent::PointXY { x: 10, y: 0, point_index: 1 },
        GeometryEvent::PointXY { x: 10, y: 10, point_index: 2 },
        GeometryEvent::RingEnd { ring_index: 0 },
    ];
    d.process_events(&events);
    assert_eq!(d.paths.len(), 1);
    assert_eq!(d.paths[0].points, vec![(0, 10), (10, 10), (10, 0)]);
    assert!(d.paths[0].closed);
}

#[test]
fn degenerate_ring_yields_empty_closed_path() {
    let mut d = drawer(0, 10, 1, 1);
    d.ring_begin(0, 0);
    d.ring_end(0);
    assert_eq!(d.paths.len(), 1);
    assert_eq!(d.paths[0].points.len(), 0);
    assert!(d.paths[0].closed);
}

#[test]
fn three_features_of_four_points_emit_three_paths() {
    let mut d = drawer(0, 100, 1, 1);
    for f in 0..3 {
        d.ring_begin(4, 0);
        d.pointxy(f, 0, 0);
        d.pointxy(f + 10, 0, 1);
        d.pointxy(f + 10, 10, 2);
        d.pointxy(f, 10, 3);
        d.ring_end(0);
    }
    assert_eq!(d.paths.len(), 3);
    for path in &d.paths {
        assert_eq!(path.points.len(), 4);
        assert!(path.closed);
    }
    assert_eq!(d.paths[2].points[0], (2, 100));
}

#[test]
fn ring_begin_discards_an_unfinished_path() {
    let mut d = drawer(0, 10, 1, 1);
    d.ring_begin(2, 0);
    d.pointxy(1, 1, 0);
    d.pointxy(2, 2, 1);
    // A new ring begins before the first ended: the two points above are
    // dropped.
    d.ring_begin(1, 1);
    d.pointxy(5, 5, 0);
    d.ring_end(1);
    assert_eq!(d.paths.len(), 1);
    assert_eq!(d.paths[0].points, vec![(5, 5)]);
}

#[test]
fn point_index_zero_starts_the_path_anew() {
    let mut d = drawer(0, 10, 1, 1);
    d.ring_begin(1, 0);
    d.pointxy(1, 1, 0);
    d.pointxy(2, 2, 1);
    d.pointxy(3, 3, 0);
    d.ring_end(0);
    assert_eq!(d.paths[0].points, vec![(3, 7)]);
}

#[test]
fn projection_divides_by_pixel_size_and_floors() {
    let mut d = drawer(0, 0, 2, 3);
    d.ring_begin(1, 0);
    d.pointxy(-5, -7, 0);
    d.ring_end(0);
    // px = floor(-5 / 2) = -3; py = floor((0 - (-7)) / 3) = floor(7 / 3) = 2.
    assert_eq!(d.paths[0].points, vec![(-3, 2)]);
}

#[test]
fn projection_offsets_by_the_box_corner() {
    let mut d = drawer(1000, 3000, 10, 10);
    d.ring_begin(1, 0);
    d.pointxy(1250, 2900, 0);
    d.ring_end(0);
    assert_eq!(d.paths[0].points, vec![(25, 10)]);
}

#[test]
fn div_floor_matches_mathematical_floor() {
    assert_eq!(div_floor(7, 2), 3);
    assert_eq!(div_floor(-7, 2), -4);
    assert_eq!(div_floor(-8, 2), -4);
    assert_eq!(div_floor(0, 5), 0);
    assert_eq!(div_floor(-1, 1_000_000), -1);
    assert_eq!(div_floor(999_999, 1_000_000), 0);
}
