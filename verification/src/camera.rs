//! Orbit camera state and its input-event arithmetic.
//!
//! The camera looks at a fixed target from a position that the user rotates
//! by dragging and scales by scrolling.  All state is kept in scaled
//! integers: world lengths and the zoom factor in thousandths ("milli"
//! units, so `1000` is `1.0`), cursor coordinates in thousandths of a
//! pixel, and orbit angles in millionths of a radian.  A drag of one pixel
//! turns into `0.005` radians of rotation, which is five microradians per
//! millipixel.

use vstd::prelude::*;

verus! {

/// Zoom factor lower bound, in milli units (`0.1`).
pub const ZOOM_MIN_MILLI: i64 = 100;

/// Zoom factor upper bound, in milli units (`5.0`).
pub const ZOOM_MAX_MILLI: i64 = 5000;

/// Drag sensitivity: microradians of orbit per millipixel of cursor travel
/// (`0.005` radians per pixel).
pub const SENSITIVITY_MICRORAD_PER_MILLIPIXEL: i64 = 5;

/// Bound on the magnitude of any stored coordinate, in milli units.  It is
/// far beyond anything a window or a scene here produces and exists only so
/// that the fixed-point products below fit in 64 bits.
pub const COORD_LIMIT_MILLI: i64 = 1_000_000_000_000;

/// A point or vector with coordinates in thousandths of a world unit.
#[derive(Clone, Copy, Debug, PartialEq, Eq, Structural)]
pub struct Vec3Milli {
    pub x: i64,
    pub y: i64,
    pub z: i64,
}

/// One orbit step requested by a drag, in millionths of a radian.
/// A positive yaw turns the camera around the fixed up axis; a positive
/// pitch turns it around its current right axis.
#[derive(Clone, Copy, Debug, PartialEq, Eq, Structural)]
pub struct OrbitDelta {
    pub yaw_microrad: i64,
    pub pitch_microrad: i64,
}

/// The orbit camera's state: where it stands, what it looks at, which way
/// is up, how far it is zoomed, and what it last saw of the cursor.
#[derive(Clone, Copy, Debug, PartialEq, Eq, Structural)]
pub struct Camera {
    /// Eye position, in milli units.
    pub position: Vec3Milli,
    /// Point the camera always looks at, in milli units.
    pub target: Vec3Milli,
    /// Up direction, in milli units.
    pub up: Vec3Milli,
    /// Zoom factor in milli units, kept within
    /// [`ZOOM_MIN_MILLI`, `ZOOM_MAX_MILLI`].
    pub zoom_milli: i64,
    /// Cursor position last reported to the camera, in millipixels.
    pub last_mouse_x_milli: i64,
    /// Cursor position last reported to the camera, in millipixels.
    pub last_mouse_y_milli: i64,
    /// True while the primary mouse button is held down.
    pub is_rotating: bool,
}

/// Whether every coordinate of `v` is within [`COORD_LIMIT_MILLI`].
pub open spec fn coords_in_range(v: Vec3Milli) -> bool {
    &&& -COORD_LIMIT_MILLI <= v.x <= COORD_LIMIT_MILLI
    &&& -COORD_LIMIT_MILLI <= v.y <= COORD_LIMIT_MILLI
    &&& -COORD_LIMIT_MILLI <= v.z <= COORD_LIMIT_MILLI
}

/// The camera the viewer starts with: eye at `(2, 2, 2)`, target at the
/// origin, up along positive `y`, zoom `1.0`, cursor at the origin, not
/// rotating.
pub open spec fn initial_camera() -> Camera {
    Camera {
        position: Vec3Milli { x: 2000, y: 2000, z: 2000 },
        target: Vec3Milli { x: 0, y: 0, z: 0 },
        up: Vec3Milli { x: 0, y: 1000, z: 0 },
        zoom_milli: 1000,
        last_mouse_x_milli: 0,
        last_mouse_y_milli: 0,
        is_rotating: false,
    }
}

/// `z` forced into the zoom bounds.
pub open spec fn clamped_zoom(z: int) -> int {
    if z < ZOOM_MIN_MILLI {
        ZOOM_MIN_MILLI as int
    } else if z > ZOOM_MAX_MILLI {
        ZOOM_MAX_MILLI as int
    } else {
        z
    }
}

/// The camera after a scroll of `yoffset_centi` hundredths: the zoom drops
/// by one milli unit per hundredth scrolled (that is, by a tenth of the
/// scroll offset) and is clamped; nothing else moves.
pub open spec fn scroll_step(cam: Camera, yoffset_centi: i64) -> Camera {
    Camera { zoom_milli: clamped_zoom(cam.zoom_milli - yoffset_centi) as i64, ..cam }
}

/// The camera after a cursor report at `(x_milli, y_milli)`: only the
/// stored cursor position changes, whatever the rotating flag says.
pub open spec fn mouse_step(cam: Camera, x_milli: i64, y_milli: i64) -> Camera {
    Camera { last_mouse_x_milli: x_milli, last_mouse_y_milli: y_milli, ..cam }
}

/// The orbit step a cursor report asks for: while rotating, five
/// microradians per millipixel of travel, yaw from horizontal travel and
/// pitch from vertical travel (upward cursor motion pitches positively);
/// otherwise none.
pub open spec fn orbit_delta_of(cam: Camera, x_milli: i64, y_milli: i64) -> Option<OrbitDelta> {
    if cam.is_rotating {
        Some(
            OrbitDelta {
                yaw_microrad: ((x_milli - cam.last_mouse_x_milli)
                    * SENSITIVITY_MICRORAD_PER_MILLIPIXEL) as i64,
                pitch_microrad: ((cam.last_mouse_y_milli - y_milli)
                    * SENSITIVITY_MICRORAD_PER_MILLIPIXEL) as i64,
            },
        )
    } else {
        None
    }
}

/// Division of `t` by one thousand, rounded toward zero.
pub open spec fn div_1000_toward_zero(t: int) -> int {
    if t >= 0 {
        t / 1000
    } else {
        -((-t) / 1000)
    }
}

/// A coordinate scaled by a milli-unit zoom factor: `c * zoom / 1000`,
/// rounded toward zero.
pub open spec fn scaled_coord(c: int, zoom: int) -> int {
    div_1000_toward_zero(c * zoom)
}

/// The eye position handed to the view transform: the camera's position
/// with each coordinate scaled by the zoom factor.  Zoom therefore moves
/// the eye along the line through the origin, a deliberate stand-in for a
/// true dolly.
pub open spec fn view_eye_of(cam: Camera) -> Vec3Milli {
    Vec3Milli {
        x: scaled_coord(cam.position.x as int, cam.zoom_milli as int) as i64,
        y: scaled_coord(cam.position.y as int, cam.zoom_milli as int) as i64,
        z: scaled_coord(cam.position.z as int, cam.zoom_milli as int) as i64,
    }
}

impl Camera {
    /// The camera's standing invariant: zoom within bounds, coordinates
    /// small enough for the fixed-point products, and the eye never on top
    /// of the target.
    pub open spec fn well_formed(self) -> bool {
        &&& ZOOM_MIN_MILLI <= self.zoom_milli <= ZOOM_MAX_MILLI
        &&& coords_in_range(self.position)
        &&& coords_in_range(self.target)
        &&& self.position != self.target
        &&& -COORD_LIMIT_MILLI <= self.last_mouse_x_milli <= COORD_LIMIT_MILLI
        &&& -COORD_LIMIT_MILLI <= self.last_mouse_y_milli <= COORD_LIMIT_MILLI
    }

    /// A camera in its starting state.
    pub fn new() -> (cam: Camera)
        ensures
            cam == initial_camera(),
            cam.well_formed(),
    {
        Camera {
            position: Vec3Milli { x: 2000, y: 2000, z: 2000 },
            target: Vec3Milli { x: 0, y: 0, z: 0 },
            up: Vec3Milli { x: 0, y: 1000, z: 0 },
            zoom_milli: 1000,
            last_mouse_x_milli: 0,
            last_mouse_y_milli: 0,
            is_rotating: false,
        }
    }

    /// Apply a scroll of `yoffset_centi` hundredths of a wheel unit.  The
    /// zoom factor drops by a tenth of the offset and is clamped into
    /// [`ZOOM_MIN_MILLI`, `ZOOM_MAX_MILLI`], whatever the offset's sign or
    /// size; nothing else changes.
    pub fn process_scroll(&mut self, yoffset_centi: i64)
        requires
            old(self).well_formed(),
        ensures
            *final(self) == scroll_step(*old(self), yoffset_centi),
            ZOOM_MIN_MILLI <= final(self).zoom_milli <= ZOOM_MAX_MILLI,
            final(self).well_formed(),
    {
        let z = self.zoom_milli;
        if yoffset_centi >= z - ZOOM_MIN_MILLI {
            self.zoom_milli = ZOOM_MIN_MILLI;
        } else if yoffset_centi <= z - ZOOM_MAX_MILLI {
            self.zoom_milli = ZOOM_MAX_MILLI;
        } else {
            self.zoom_milli = z - yoffset_centi;
        }
    }

    /// Record a cursor report at `(x_milli, y_milli)` millipixels.  The
    /// stored cursor position always follows the report; the camera's
    /// position never moves here.  While the rotating flag is set the
    /// orbit step the drag asks for is returned, to be applied to the eye
    /// by the caller; otherwise nothing is returned.
    pub fn process_mouse(&mut self, x_milli: i64, y_milli: i64) -> (r: Option<OrbitDelta>)
        requires
            old(self).well_formed(),
            -COORD_LIMIT_MILLI <= x_milli <= COORD_LIMIT_MILLI,
            -COORD_LIMIT_MILLI <= y_milli <= COORD_LIMIT_MILLI,
        ensures
            *final(self) == mouse_step(*old(self), x_milli, y_milli),
            r == orbit_delta_of(*old(self), x_milli, y_milli),
            final(self).position == old(self).position,
            final(self).zoom_milli == old(self).zoom_milli,
            !old(self).is_rotating ==> r is None,
            final(self).well_formed(),
    {
        let r: Option<OrbitDelta> = if self.is_rotating {
            let dx = x_milli - self.last_mouse_x_milli;
            let dy = self.last_mouse_y_milli - y_milli;
            Some(
                OrbitDelta {
                    yaw_microrad: dx * SENSITIVITY_MICRORAD_PER_MILLIPIXEL,
                    pitch_microrad: dy * SENSITIVITY_MICRORAD_PER_MILLIPIXEL,
                },
            )
        } else {
            None
        };
        self.last_mouse_x_milli = x_milli;
        self.last_mouse_y_milli = y_milli;
        r
    }

    /// Move the eye, as the caller does after carrying out an orbit step.
    /// The new position must stay within coordinate bounds and off the
    /// target; nothing else changes.
    pub fn set_position(&mut self, p: Vec3Milli)
        requires
            old(self).well_formed(),
            coords_in_range(p),
            p != old(self).target,
        ensures
            *final(self) == (Camera { position: p, ..*old(self) }),
            final(self).well_formed(),
    {
        self.position = p;
    }

    /// The eye position for the view transform: the camera position with
    /// each coordinate scaled by the zoom factor.
    pub fn view_eye_milli(&self) -> (r: Vec3Milli)
        requires
            self.well_formed(),
        ensures
            r == view_eye_of(*self),
    {
        Vec3Milli {
            x: scale_coord(self.position.x, self.zoom_milli),
            y: scale_coord(self.position.y, self.zoom_milli),
            z: scale_coord(self.position.z, self.zoom_milli),
        }
    }
}

/// `c * zoom / 1000` rounded toward zero, for a bounded coordinate and an
/// in-range zoom factor.
fn scale_coord(c: i64, zoom: i64) -> (r: i64)
    requires
        -COORD_LIMIT_MILLI <= c <= COORD_LIMIT_MILLI,
        ZOOM_MIN_MILLI <= zoom <= ZOOM_MAX_MILLI,
    ensures
        r == scaled_coord(c as int, zoom as int),
{
    proof {
        assert(-COORD_LIMIT_MILLI * ZOOM_MAX_MILLI <= c * zoom <= COORD_LIMIT_MILLI * ZOOM_MAX_MILLI)
            by (nonlinear_arith)
            requires
                -COORD_LIMIT_MILLI <= c <= COORD_LIMIT_MILLI,
                ZOOM_MIN_MILLI <= zoom <= ZOOM_MAX_MILLI,
        ;
    }
    let t: i64 = c * zoom;
    if t >= 0 {
        ((t as u64) / 1000u64) as i64
    } else {
        let m: u64 = (-t) as u64;
        -((m / 1000u64) as i64)
    }
}

/// The zoom factor is always within its bounds after a scroll: for every
/// well-formed camera and every scroll offset, the stepped camera's zoom
/// lies in [`ZOOM_MIN_MILLI`, `ZOOM_MAX_MILLI`].
pub proof fn lemma_zoom_always_clamped(cam: Camera, yoffset_centi: i64)
    requires
        cam.well_formed(),
    ensures
        ZOOM_MIN_MILLI <= scroll_step(cam, yoffset_centi).zoom_milli <= ZOOM_MAX_MILLI,
        scroll_step(cam, yoffset_centi).well_formed(),
{
}

/// Once rotation is released, cursor motion changes nothing but the stored
/// cursor position: a camera that is not rotating keeps its position, its
/// zoom and its axes through any cursor report, and the report asks for no
/// orbit step.
pub proof fn lemma_release_then_move_keeps_position(cam: Camera, x_milli: i64, y_milli: i64)
    requires
        !cam.is_rotating,
    ensures
        mouse_step(cam, x_milli, y_milli) == (Camera {
            last_mouse_x_milli: x_milli,
            last_mouse_y_milli: y_milli,
            ..cam
        }),
        mouse_step(cam, x_milli, y_milli).position == cam.position,
        mouse_step(cam, x_milli, y_milli).zoom_milli == cam.zoom_milli,
        orbit_delta_of(cam, x_milli, y_milli) is None,
{
}

/// At the starting state the view eye is the starting position itself:
/// zoom `1.0` scales `(2, 2, 2)` to `(2, 2, 2)`.
pub proof fn lemma_default_view_eye()
    ensures
        view_eye_of(initial_camera()) == (Vec3Milli { x: 2000, y: 2000, z: 2000 }),
{
}

} // verus!
