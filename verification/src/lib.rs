//! Core of a minimal X11 window manager.
//!
//! The crate keeps an in-memory model of every top-level client window,
//! decodes raw wire events into typed domain events, applies fixed
//! lifecycle transition rules to the window table, and reconciles the
//! desired window state into a minimal list of protocol requests.
//! All protocol I/O (the actual connection) lives outside this library;
//! the library works on plain values and produces request descriptions.
use vstd::prelude::*;

verus! {

/// A position in pixels, relative to some origin.
#[derive(Debug, Clone, Copy, PartialEq, Eq, Structural)]
pub struct Point {
    pub x: i32,
    pub y: i32,
}

/// A rectangular area of the screen: origin and extent in pixels.
///
/// Width and height are unsigned; a region with zero width or height
/// is considered empty.
#[derive(Debug, PartialEq, Eq, Clone, Copy, Default, Structural)]
pub struct Region {
    pub x: i32,
    pub y: i32,
    pub w: u32,
    pub h: u32,
}

impl Region {
    /// True exactly when the region covers no pixels.
    pub fn is_empty(&self) -> (r: bool)
        ensures
            r == (self.w == 0 || self.h == 0),
    {
        self.w == 0 || self.h == 0
    }

    /// The center of the region in coordinates relative to its own origin.
    pub fn relative_center(&self) -> (p: Point)
        ensures
            p.x == self.w as int / 2,
            p.y == self.h as int / 2,
    {
        Point { x: (self.w / 2) as i32, y: (self.h / 2) as i32 }
    }
}

} // verus!

pub mod atom;
pub mod component;
pub mod decode;
pub mod event;
pub mod lifecycle;
pub mod pipeline;
pub mod reconcile;
pub mod request;
pub mod xcb_event_type;
pub mod xconn;
