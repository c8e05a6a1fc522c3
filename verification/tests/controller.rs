use fgb_viewer::controller::{handle_event, AppEvent, InputEvent};
use fgb_viewer::viewport::Viewport;

fn viewport() -> Viewport {
    Viewport::new(0, 0, 2, 2, 100, 100)
}

#[test]
fn close_request_quits() {
    let mut v = viewport();
    assert_eq!(handle_event(&mut v, &InputEvent::Quit), AppEvent::Quit);
    assert_eq!(v.center_x, 0);
    assert_eq!(v.center_y, 0);
}

#[test]
fn cancel_key_quits_other_keys_idle() {
    let mut v = viewport();
    assert_eq!(handle_event(&mut v, &InputEvent::KeyDown { cancel: true }), AppEvent::Quit);
    assert_eq!(handle_event(&mut v, &InputEvent::KeyDown { cancel: false }), AppEvent::Idle);
    assert_eq!(v.center_x, 0);
}

#[test]
fn drag_pans_and_stays_idle() {
    let mut v = viewport();
    let o = handle_event(&mut v, &InputEvent::MouseMotion { xrel: 3, yrel: -2, left: true });
    assert_eq!(o, AppEvent::Idle);
    assert_eq!(v.center_x, -6);
    assert_eq!(v.center_y, -4);
}

#[test]
fn motion_without_button_does_not_pan() {
    let mut v = viewport();
    let o = handle_event(&mut v, &InputEvent::MouseMotion { xrel: 3, yrel: -2, left: false });
    assert_eq!(o, AppEvent::Idle);
    assert_eq!(v.center_x, 0);
    assert_eq!(v.center_y, 0);
}

#[test]
fn button_release_redraws_without_moving() {
    let mut v = viewport();
    assert_eq!(handle_event(&mut v, &InputEvent::MouseButtonUp), AppEvent::Redraw);
    assert_eq!(v.center_x, 0);
    assert_eq!(v.center_y, 0);
}

#[test]
fn other_events_idle() {
    let mut v = viewport();
    assert_eq!(handle_event(&mut v, &InputEvent::Other), AppEvent::Idle);
    assert_eq!(v.center_x, 0);
}

#[test]
fn drag_sequence_accumulates_like_one_pan() {
    // Five unit drags, all idle; the release commits them with one redraw.
    let mut dragged = viewport();
    for _ in 0..5 {
        let o = handle_event(
            &mut dragged,
            &InputEvent::MouseMotion { xrel: 1, yrel: 0, left: true },
        );
        assert_eq!(o, AppEvent::Idle);
    }
    let mut panned = viewport();
    panned.pan(5, 0);
    assert_eq!(dragged.center_x, panned.center_x);
    assert_eq!(dragged.center_y, panned.center_y);
    assert_eq!(handle_event(&mut dragged, &InputEvent::MouseButtonUp), AppEvent::Redraw);
    assert_eq!(dragged.center_x, panned.center_x);
}
