//! Per-frame input dispatch for the render loop.
//!
//! Each frame the loop drains its pending window events and feeds them one
//! by one to [`handle_event`], which owns every decision: close on Escape,
//! start or stop rotating on the primary mouse button, forward cursor
//! motion and scroll offsets to the camera.  The loop outside this crate
//! only translates raw window events into [`InputEvent`] values and then
//! carries out what the outcome says: request the window close, or apply
//! an orbit step to the eye.

use vstd::prelude::*;
use crate::camera::{Camera, OrbitDelta, COORD_LIMIT_MILLI};
use crate::camera::{mouse_step, orbit_delta_of, scroll_step};

verus! {

/// One window event, reduced to what the viewer reacts to.  Cursor
/// coordinates are in millipixels and scroll offsets in hundredths of a
/// wheel unit; anything the viewer ignores arrives as `Ignored`.
#[derive(Clone, Copy, Debug, PartialEq)]
pub enum InputEvent {
    /// The Escape key was pressed.
    EscapePressed,
    /// The primary mouse button was pressed.
    PrimaryMousePressed,
    /// The primary mouse button was released.
    PrimaryMouseReleased,
    /// The cursor moved to `(x_milli, y_milli)` millipixels.
    CursorMoved { x_milli: i64, y_milli: i64 },
    /// The scroll wheel moved by `yoffset_centi` hundredths.
    ScrollMoved { yoffset_centi: i64 },
    /// Any event the viewer does not react to.
    Ignored,
}

/// What the loop must do after one event: close the window, and/or apply
/// an orbit step to the eye.
#[derive(Clone, Copy, Debug, PartialEq)]
pub struct EventOutcome {
    /// True exactly when the event asks the viewer to close.
    pub close_requested: bool,
    /// The orbit step a drag asked for, if any.
    pub orbit: Option<OrbitDelta>,
}

/// Whether an event's payload is within the coordinate bounds the camera
/// accepts.
pub open spec fn event_in_range(ev: InputEvent) -> bool {
    match ev {
        InputEvent::CursorMoved { x_milli, y_milli } => {
            &&& -COORD_LIMIT_MILLI <= x_milli <= COORD_LIMIT_MILLI
            &&& -COORD_LIMIT_MILLI <= y_milli <= COORD_LIMIT_MILLI
        },
        _ => true,
    }
}

/// The camera after one event: the button toggles the rotating flag,
/// cursor motion updates the stored cursor position, scrolling moves the
/// zoom, and everything else leaves the camera alone.  No event moves the
/// camera's position.
pub open spec fn event_step(cam: Camera, ev: InputEvent) -> Camera {
    match ev {
        InputEvent::EscapePressed => cam,
        InputEvent::PrimaryMousePressed => Camera { is_rotating: true, ..cam },
        InputEvent::PrimaryMouseReleased => Camera { is_rotating: false, ..cam },
        InputEvent::CursorMoved { x_milli, y_milli } => mouse_step(cam, x_milli, y_milli),
        InputEvent::ScrollMoved { yoffset_centi } => scroll_step(cam, yoffset_centi),
        InputEvent::Ignored => cam,
    }
}

/// Whether one event asks the viewer to close: exactly the Escape press.
pub open spec fn event_close(ev: InputEvent) -> bool {
    ev is EscapePressed
}

/// The orbit step one event asks for: only a cursor report while rotating
/// yields one.
pub open spec fn event_orbit(cam: Camera, ev: InputEvent) -> Option<OrbitDelta> {
    match ev {
        InputEvent::CursorMoved { x_milli, y_milli } => orbit_delta_of(cam, x_milli, y_milli),
        _ => None,
    }
}

/// Dispatch one event against the camera, exactly as the render loop
/// does: Escape requests a close; the primary button starts and stops
/// rotation; cursor motion goes to the camera and may ask for an orbit
/// step; scrolling goes to the camera's zoom.  The camera's position never
/// moves here, whatever the event.
pub fn handle_event(camera: &mut Camera, ev: &InputEvent) -> (r: EventOutcome)
    requires
        old(camera).well_formed(),
        event_in_range(*ev),
    ensures
        *final(camera) == event_step(*old(camera), *ev),
        r.close_requested == event_close(*ev),
        r.orbit == event_orbit(*old(camera), *ev),
        final(camera).position == old(camera).position,
        final(camera).well_formed(),
{
    match ev {
        InputEvent::EscapePressed => EventOutcome { close_requested: true, orbit: None },
        InputEvent::PrimaryMousePressed => {
            camera.is_rotating = true;
            EventOutcome { close_requested: false, orbit: None }
        },
        InputEvent::PrimaryMouseReleased => {
            camera.is_rotating = false;
            EventOutcome { close_requested: false, orbit: None }
        },
        InputEvent::CursorMoved { x_milli, y_milli } => {
            let orbit = camera.process_mouse(*x_milli, *y_milli);
            EventOutcome { close_requested: false, orbit }
        },
        InputEvent::ScrollMoved { yoffset_centi } => {
            camera.process_scroll(*yoffset_centi);
            EventOutcome { close_requested: false, orbit: None }
        },
        InputEvent::Ignored => EventOutcome { close_requested: false, orbit: None },
    }
}

/// The camera after a whole sequence of events, dispatched in order.
pub open spec fn events_fold(cam: Camera, evs: Seq<InputEvent>) -> Camera
    decreases evs.len(),
{
    if evs.len() == 0 {
        cam
    } else {
        events_fold(event_step(cam, evs[0]), evs.subrange(1, evs.len() as int))
    }
}

/// No sequence of input events ever moves the camera's position: dispatch
/// changes the rotating flag, the stored cursor and the zoom, while the eye
/// moves only through the orbit steps the caller carries out separately.
pub proof fn lemma_events_never_move_position(cam: Camera, evs: Seq<InputEvent>)
    ensures
        events_fold(cam, evs).position == cam.position,
    decreases evs.len(),
{
    if evs.len() > 0 {
        lemma_events_never_move_position(event_step(cam, evs[0]), evs.subrange(1, evs.len() as int));
    }
}

/// A window size forced to at least one pixel on each side, so that an
/// aspect ratio computed from it is always defined: each side is kept as
/// it is when positive and raised to one otherwise.
pub fn effective_viewport(width: i32, height: i32) -> (r: (i32, i32))
    ensures
        r.0 == if width < 1 { 1i32 } else { width },
        r.1 == if height < 1 { 1i32 } else { height },
        r.0 >= 1 && r.1 >= 1,
{
    let w = if width < 1 { 1 } else { width };
    let h = if height < 1 { 1 } else { height };
    (w, h)
}

} // verus!
