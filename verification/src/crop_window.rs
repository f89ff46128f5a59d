//! A live piece of a foreign window: a content window that shows the piece and
//! a strip over its top edge to move, pin, minimize and close it by.

use vstd::prelude::*;

pub mod conduct;
pub mod drag;
pub mod geometry;
pub mod laws;
pub mod messages;
pub mod paint;
pub mod pin;
pub mod plan;
pub mod state;

pub use drag::{DragTracker, DragUpdate};
pub use geometry::{hit_test_strip, resize_hit, strip_rect};
pub use plan::{CropWindowError, CropWindowOptions, WINDOW_CLASS};

verus! {

/// The piece, in pixels of the window that it is taken from.
#[derive(Debug, Clone, Copy, PartialEq, Eq, Structural)]
pub struct SourceRect {
    pub x: i32,
    pub y: i32,
    pub w: u32,
    pub h: u32,
}

/// A point in physical pixels of the virtual desktop.
#[derive(Debug, Clone, Copy, PartialEq, Eq, Structural)]
pub struct Point {
    pub x: i32,
    pub y: i32,
}

/// What a press on the strip hits.
#[derive(Debug, Clone, Copy, PartialEq, Eq, Structural)]
pub enum StripHit {
    Nothing,
    Drag,
    /// The pin that keeps the piece above all windows.
    Pin,
    Minimize,
    Close,
}

/// What a piece's windows report to the rest of the application.
#[derive(Debug, Clone, Copy, PartialEq, Eq, Structural)]
pub enum CropWindowEvent {
    /// The piece has a new place or size: dragged by its strip, or moved by
    /// something outside. A drag reports once, at its end.
    Geometry { x: i32, y: i32, w: u32, h: u32 },
    /// The close button was pressed, or the system asked the window to close.
    CloseClicked,
    /// The minimize button was pressed.
    MinimizeClicked,
    /// The square of a minimized piece was pressed.
    RestoreClicked,
    /// The pin was pressed; the windows have already taken the new state.
    AlwaysOnTopToggled(bool),
    /// The source window is gone, or its preview can no longer be updated.
    SourceGone,
}

} // verus!
