//! The window-handle model for the message-window platform: a raw window
//! handle held as a plain value, and the geometry read from a queried
//! window rectangle.
//!
//! The rectangle itself comes from a native query that the unverified rim
//! performs; the conversions from a rectangle to a size and a position are
//! the computing half and live here, verified.

use vstd::prelude::*;

use crate::window::Position;
use crate::window::Size;

verus! {

/// A window rectangle as the native side reports it: edges, not extent.
#[derive(Clone, Copy, Debug, PartialEq, Eq, Structural)]
pub struct Rect {
    /// The x-coordinate of the left edge.
    pub left: i32,
    /// The y-coordinate of the top edge.
    pub top: i32,
    /// The x-coordinate of the right edge.
    pub right: i32,
    /// The y-coordinate of the bottom edge.
    pub bottom: i32,
}

/// A window on the message-window platform, identified by its raw handle
/// value.
#[derive(Clone, Copy, Debug, PartialEq, Eq, Structural)]
pub struct WindowsWindow {
    /// The raw window handle value.
    pub hwnd: isize,
}

impl WindowsWindow {
    /// Creates a new `WindowsWindow` from a raw window handle value.
    pub fn new(hwnd: isize) -> (r: Self)
        ensures
            r.hwnd == hwnd,
    {
        WindowsWindow { hwnd }
    }

    /// The raw window handle value.
    pub fn hwnd(&self) -> (r: isize)
        ensures
            r == self.hwnd,
    {
        self.hwnd
    }

    /// The size of the window whose queried rectangle is `rect`: width and
    /// height as edge differences.
    pub fn get_size(&self, rect: &Rect) -> (r: Size)
        ensures
            r.width == rect.right - rect.left,
            r.height == rect.bottom - rect.top,
    {
        Size {
            width: rect.right as i64 - rect.left as i64,
            height: rect.bottom as i64 - rect.top as i64,
        }
    }

    /// The position of the window whose queried rectangle is `rect`: its
    /// top-left corner.
    pub fn get_position(&self, rect: &Rect) -> (r: Position)
        ensures
            r.x == rect.left,
            r.y == rect.top,
    {
        Position { x: rect.left as i64, y: rect.top as i64 }
    }
}

} // verus!
