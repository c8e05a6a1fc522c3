use fgb_viewer::overlay::{
    duration_ms_tenths, stats_window_height, stats_window_rect, text_line_origin,
    STATS_WINDOW_WIDTH,
};

#[test]
fn panel_sits_in_the_bottom_right_corner() {
    // A 1067 x 800 framebuffer with 12 px padding and 20 px line height.
    let height = stats_window_height(20, 12);
    assert_eq!(height, 20 * 4 + 12 + 2);
    let (origin, size) = stats_window_rect(1067, 800, 12, 20);
    assert_eq!(origin, (1067 - 12 - STATS_WINDOW_WIDTH, 800 - 2 * 12 - height));
    assert_eq!(size, (STATS_WINDOW_WIDTH, height));
}

#[test]
fn text_lines_stack_below_each_other() {
    let line0 = text_line_origin((725, 682), 12, 9, 20, 0);
    assert_eq!(line0, (737, 682 + 12 + 9));
    let line3 = text_line_origin((725, 682), 12, 9, 20, 3);
    assert_eq!(line3, (737, 682 + 12 + 9 + 60));
}

#[test]
fn durations_read_in_milliseconds_with_one_decimal() {
    assert_eq!(duration_ms_tenths(0), (0, 0));
    assert_eq!(duration_ms_tenths(1_500_000), (1, 5));
    assert_eq!(duration_ms_tenths(23_400_000), (23, 4));
    // Rounded to the nearest tenth of a millisecond, ties upward.
    assert_eq!(duration_ms_tenths(1_949_999), (1, 9));
    assert_eq!(duration_ms_tenths(1_950_000), (2, 0));
    assert_eq!(duration_ms_tenths(99_999), (0, 1));
    assert_eq!(duration_ms_tenths(49_999), (0, 0));
}
