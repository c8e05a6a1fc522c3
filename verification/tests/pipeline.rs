use fgb_viewer::pipeline::begin_frame;
use fgb_viewer::project::FillRule;
use fgb_viewer::stats::FrameStage;
use fgb_viewer::viewport::Viewport;

#[test]
fn begin_frame_binds_the_drawer_to_the_current_box() {
    let v = Viewport::new(8_530_000_000, 47_370_000_000, 30_000, 30_000, 1067, 800);
    let (timer, bbox, drawer) = begin_frame(&v, FillRule::Winding, 123);
    assert_eq!(timer.t_begin, 123);
    assert_eq!(timer.stage, FrameStage::QueryRunning);
    assert_eq!(bbox.xmin, 8_530_000_000 - 16_005_000);
    assert_eq!(bbox.xmax, 8_530_000_000 + 16_005_000);
    assert_eq!(bbox.ymin, 47_370_000_000 - 12_000_000);
    assert_eq!(bbox.ymax, 47_370_000_000 + 12_000_000);
    assert_eq!(drawer.xmin, bbox.xmin);
    assert_eq!(drawer.ymax, bbox.ymax);
    assert_eq!(drawer.pixel_size_x, 30_000);
    assert_eq!(drawer.pixel_size_y, 30_000);
    assert_eq!(drawer.fill_rule, FillRule::Winding);
    assert_eq!(drawer.current.len(), 0);
    assert_eq!(drawer.paths.len(), 0);
}

#[test]
fn a_projected_frame_lands_inside_the_output() {
    // Project the four corners of the queried box: they map to the four
    // corners of the output surface.
    let v = Viewport::new(0, 0, 10, 10, 100, 80);
    let (_, bbox, mut drawer) = begin_frame(&v, FillRule::Winding, 0);
    drawer.ring_begin(4, 0);
    drawer.pointxy(bbox.xmin, bbox.ymax, 0);
    drawer.pointxy(bbox.xmax, bbox.ymax, 1);
    drawer.pointxy(bbox.xmax, bbox.ymin, 2);
    drawer.pointxy(bbox.xmin, bbox.ymin, 3);
    drawer.ring_end(0);
    assert_eq!(
        drawer.paths[0].points,
        vec![(0, 0), (100, 0), (100, 80), (0, 80)]
    );
}
