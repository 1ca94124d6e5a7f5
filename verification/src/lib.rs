//! Core logic of a small interactive 3D cube viewer.
//!
//! The viewer opens a window, renders one lit cube, and lets the user orbit
//! the camera with a mouse drag and zoom with the scroll wheel.  Everything
//! that can be stated and checked as plain arithmetic lives here: the orbit
//! camera's state machine, the cube's vertex table, the shader build
//! outcomes, and the per-frame event dispatch.  Window management and the
//! graphics calls themselves sit outside this crate and only hand plain
//! values in and out.
//!
//! Quantities are carried as scaled integers so that the contracts are
//! exact: lengths and zoom factors in thousandths of a unit, cursor
//! coordinates in thousandths of a pixel, angles in millionths of a radian.

pub mod camera;
pub mod events;
pub mod geometry;
pub mod shader;
