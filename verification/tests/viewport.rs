use fgb_viewer::viewport::Viewport;

#[test]
fn bounding_box_is_centered_on_the_viewport() {
    let v = Viewport::new(100, 200, 1, 1, 10, 10);
    let b = v.bounding_box();
    assert_eq!(b.xmin, 95);
    assert_eq!(b.xmax, 105);
    assert_eq!(b.ymin, 195);
    assert_eq!(b.ymax, 205);
    assert_eq!(b.xmin + b.xmax, 2 * v.center_x);
    assert_eq!(b.ymin + b.ymax, 2 * v.center_y);
    assert!(b.xmin < b.xmax);
    assert!(b.ymin < b.ymax);
}

#[test]
fn bounding_box_scales_with_pixel_size() {
    // A 1067 x 800 output at 30000 map units per pixel, centered where the
    // viewer starts.
    let v = Viewport::new(8_530_000_000, 47_370_000_000, 30_000, 30_000, 1067, 800);
    let b = v.bounding_box();
    // Half extents: 1067 * 30000 / 2 = 16_005_000; 800 * 30000 / 2 = 12_000_000.
    assert_eq!(b.xmin, 8_530_000_000 - 16_005_000);
    assert_eq!(b.xmax, 8_530_000_000 + 16_005_000);
    assert_eq!(b.ymin, 47_370_000_000 - 12_000_000);
    assert_eq!(b.ymax, 47_370_000_000 + 12_000_000);
}

#[test]
fn bounding_box_odd_extent_still_centered() {
    // 9 pixels at 3 units each: extent 27, half extent 13.
    let v = Viewport::new(0, 0, 3, 3, 9, 9);
    let b = v.bounding_box();
    assert_eq!(b.xmin, -13);
    assert_eq!(b.xmax, 13);
    assert!(b.xmin < b.xmax);
}

#[test]
fn pan_moves_against_pointer_x_and_with_pointer_y() {
    let mut v = Viewport::new(1000, 2000, 10, 20, 100, 100);
    v.pan(3, 4);
    // Dragging right moves the map west; pointer y grows downward while
    // geographic y grows northward.
    assert_eq!(v.center_x, 1000 - 3 * 10);
    assert_eq!(v.center_y, 2000 + 4 * 20);
}

#[test]
fn pan_round_trip_restores_the_center() {
    let mut v = Viewport::new(123_456, -789, 7, 11, 640, 480);
    v.pan(25, -13);
    v.pan(-25, 13);
    assert_eq!(v.center_x, 123_456);
    assert_eq!(v.center_y, -789);
}

#[test]
fn many_small_pans_equal_one_large_pan() {
    let mut a = Viewport::new(0, 0, 5, 5, 64, 64);
    for _ in 0..6 {
        a.pan(1, 0);
    }
    let mut b = Viewport::new(0, 0, 5, 5, 64, 64);
    b.pan(6, 0);
    assert_eq!(a.center_x, b.center_x);
    assert_eq!(a.center_y, b.center_y);
}
