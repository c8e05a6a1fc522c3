//! The interaction controller: a state machine translating raw input
//! events into {Idle, Redraw, Quit} outcomes.
//!
//! A pointer move with the primary button held pans the viewport and stays
//! idle — re-querying and re-rasterizing on every motion sample would stall
//! input responsiveness — and the button release is the single point at
//! which the accumulated pan is committed to a new query and render cycle.

use vstd::prelude::*;

use crate::viewport::{pan_center, Viewport};

verus! {

/// One raw input event, as the windowing layer reports it. A key press of
/// the designated cancel key arrives with `cancel` set.
#[derive(Clone, Copy, Debug, PartialEq, Eq, Structural)]
pub enum InputEvent {
    Quit,
    KeyDown { cancel: bool },
    MouseMotion { xrel: i32, yrel: i32, left: bool },
    MouseButtonUp,
    Other,
}

/// What the outer loop does with one event: nothing, one full render
/// cycle, or exit.
#[derive(Clone, Copy, Debug, PartialEq, Eq, Structural)]
pub enum AppEvent {
    Idle,
    Redraw,
    Quit,
}

/// The outcome of one event. It depends on the event alone: an explicit
/// close request or the cancel key quits, a button release redraws,
/// everything else (panning included) stays idle.
pub open spec fn outcome_of(e: InputEvent) -> AppEvent {
    match e {
        InputEvent::Quit => AppEvent::Quit,
        InputEvent::KeyDown { cancel } => if cancel {
            AppEvent::Quit
        } else {
            AppEvent::Idle
        },
        InputEvent::MouseMotion { .. } => AppEvent::Idle,
        InputEvent::MouseButtonUp => AppEvent::Redraw,
        InputEvent::Other => AppEvent::Idle,
    }
}

/// The viewport center after one event: only a drag (motion with the
/// primary button held) moves it.
pub open spec fn center_after(cx: int, cy: int, sx: int, sy: int, e: InputEvent) -> (int, int) {
    match e {
        InputEvent::MouseMotion { xrel, yrel, left } => if left {
            pan_center(cx, cy, sx, sy, xrel as int, yrel as int)
        } else {
            (cx, cy)
        },
        _ => (cx, cy),
    }
}

/// The viewport center after a whole event sequence, applied in order.
pub open spec fn center_after_all(
    cx: int,
    cy: int,
    sx: int,
    sy: int,
    events: Seq<InputEvent>,
) -> (int, int)
    decreases events.len(),
{
    if events.len() == 0 {
        (cx, cy)
    } else {
        let (cx1, cy1) = center_after(cx, cy, sx, sy, events[0]);
        center_after_all(cx1, cy1, sx, sy, events.drop_first())
    }
}

/// Whether panning by this event's delta stays within the `i64` range for
/// this viewport (the windowing layer's deltas and any realistic pixel
/// size are far inside it).
pub open spec fn pan_fits(v: Viewport, e: InputEvent) -> bool {
    match e {
        InputEvent::MouseMotion { xrel, yrel, left } => left ==> {
            &&& i64::MIN <= xrel * v.pixel_size_x <= i64::MAX
            &&& i64::MIN <= yrel * v.pixel_size_y <= i64::MAX
            &&& i64::MIN <= v.center_x - xrel * v.pixel_size_x <= i64::MAX
            &&& i64::MIN <= v.center_y + yrel * v.pixel_size_y <= i64::MAX
        },
        _ => true,
    }
}

/// Consume one raw event: pan the viewport during a drag, and report
/// whether the outer loop should idle, redraw or quit.
pub fn handle_event(viewport: &mut Viewport, event: &InputEvent) -> (outcome: AppEvent)
    requires
        pan_fits(*old(viewport), *event),
    ensures
        outcome == outcome_of(*event),
        (final(viewport).center_x as int, final(viewport).center_y as int) == center_after(
            old(viewport).center_x as int,
            old(viewport).center_y as int,
            old(viewport).pixel_size_x as int,
            old(viewport).pixel_size_y as int,
            *event,
        ),
        final(viewport).pixel_size_x == old(viewport).pixel_size_x,
        final(viewport).pixel_size_y == old(viewport).pixel_size_y,
        final(viewport).output_w == old(viewport).output_w,
        final(viewport).output_h == old(viewport).output_h,
{
    match *event {
        InputEvent::Quit => AppEvent::Quit,
        InputEvent::KeyDown { cancel } => {
            if cancel {
                AppEvent::Quit
            } else {
                AppEvent::Idle
            }
        },
        InputEvent::MouseMotion { xrel, yrel, left } => {
            if left {
                viewport.pan(xrel, yrel);
            }
            AppEvent::Idle
        },
        InputEvent::MouseButtonUp => AppEvent::Redraw,
        InputEvent::Other => AppEvent::Idle,
    }
}

/// A drag of `k` motion events, each with delta `(dx, dy)` and the button
/// held, stays idle throughout and shifts the center exactly as one pan
/// by `(k * dx, k * dy)` would; the button release that follows redraws
/// and leaves the center alone.
pub proof fn lemma_drag_then_release(cx: int, cy: int, sx: int, sy: int, dx: i32, dy: i32, k: nat)
    ensures
        ({
            let moves = Seq::new(k, |i: int| InputEvent::MouseMotion { xrel: dx, yrel: dy, left: true });
            &&& center_after_all(cx, cy, sx, sy, moves) == pan_center(
                cx,
                cy,
                sx,
                sy,
                k * (dx as int),
                k * (dy as int),
            )
            &&& forall|i: int| 0 <= i < k ==> outcome_of(#[trigger] moves[i]) == AppEvent::Idle
        }),
        outcome_of(InputEvent::MouseButtonUp) == AppEvent::Redraw,
        center_after(cx, cy, sx, sy, InputEvent::MouseButtonUp) == (cx, cy),
    decreases k,
{
    let moves = Seq::new(k, |i: int| InputEvent::MouseMotion { xrel: dx, yrel: dy, left: true });
    if k == 0 {
        assert(center_after_all(cx, cy, sx, sy, moves) == (cx, cy));
        assert(k * (dx as int) == 0 && k * (dy as int) == 0) by (nonlinear_arith)
            requires
                k == 0,
        ;
    } else {
        let (cx1, cy1) = center_after(cx, cy, sx, sy, moves[0]);
        assert((cx1, cy1) == pan_center(cx, cy, sx, sy, dx as int, dy as int));
        lemma_drag_then_release(cx1, cy1, sx, sy, dx, dy, (k - 1) as nat);
        let rest = Seq::new((k - 1) as nat, |i: int| InputEvent::MouseMotion { xrel: dx, yrel: dy, left: true });
        assert(moves.drop_first() =~= rest);
        assert(center_after_all(cx, cy, sx, sy, moves) == center_after_all(cx1, cy1, sx, sy, rest));
        assert(cx1 - ((k - 1) as int) * (dx as int) * sx == cx - dx as int * sx - ((k - 1) as int)
            * (dx as int) * sx);
        assert(cx - (k * (dx as int)) * sx == cx - dx as int * sx - (((k - 1) as int) * (dx as int))
            * sx) by (nonlinear_arith);
        assert(cy + (k * (dy as int)) * sy == cy + dy as int * sy + (((k - 1) as int) * (dy as int))
            * sy) by (nonlinear_arith);
    }
}

} // verus!
