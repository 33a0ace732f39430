//! The window-handle model: a stable per-process window identifier, the
//! window value that events carry, and integer geometry.
//!
//! A native window handle is opaque; what the event-interpretation logic
//! reads from it is its stable identity and, on demand, its bounds.  Those
//! are held here as plain values.  The code that talks to the native window
//! system queries the real handle and converts.

use vstd::prelude::*;

verus! {

/// A process-scoped stable window identifier.
///
/// Valid only for comparing windows of the same observed process; the native
/// side must not reuse an id within one session's lifetime, or closed-window
/// detection becomes unreliable.
#[derive(Clone, Copy, Debug, PartialEq, Eq, Structural)]
pub struct WindowId {
    /// The raw identifier value.
    pub raw: u64,
}

impl WindowId {
    /// Wraps a raw identifier.
    pub fn new(raw: u64) -> (r: Self)
        ensures
            r.raw == raw,
    {
        WindowId { raw }
    }
}

/// A window as the event stream reports it: the stable identity of one
/// native window.  Equality is structural on the identity, never recomputed
/// from queried attributes, since equality drives "same window" decisions.
#[derive(Clone, Copy, Debug, PartialEq, Eq, Structural)]
pub struct Window {
    /// The stable identity of the native window.
    pub id: WindowId,
}

impl Window {
    /// Creates a new `Window` from a stable identifier.
    pub fn new(id: WindowId) -> (r: Self)
        ensures
            r.id == id,
    {
        Window { id }
    }

    /// The stable identifier of this window.
    pub fn id(&self) -> (r: WindowId)
        ensures
            r == self.id,
    {
        self.id
    }
}

/// A window's bounds: top-left corner and extent, in integral screen units.
#[derive(Clone, Copy, Debug, PartialEq, Eq, Structural)]
pub struct Bounds {
    /// The x-coordinate of the top-left corner.
    pub x: i64,
    /// The y-coordinate of the top-left corner.
    pub y: i64,
    /// The width of the window.
    pub width: i64,
    /// The height of the window.
    pub height: i64,
}

impl Bounds {
    /// Whether `other` has the same top-left corner.
    pub open spec fn same_origin(self, other: Bounds) -> bool {
        self.x == other.x && self.y == other.y
    }

    /// Whether `other` has the same extent.
    pub open spec fn same_extent(self, other: Bounds) -> bool {
        self.width == other.width && self.height == other.height
    }
}

/// The size of a window.
#[derive(Clone, Copy, Debug, PartialEq, Eq, Structural)]
pub struct Size {
    /// The width of the window.
    pub width: i64,
    /// The height of the window.
    pub height: i64,
}

/// The position of a window.
#[derive(Clone, Copy, Debug, PartialEq, Eq, Structural)]
pub struct Position {
    /// The x-coordinate of the window.
    pub x: i64,
    /// The y-coordinate of the window.
    pub y: i64,
}

impl Size {
    /// The size part of `bounds`.
    pub fn from_bounds(bounds: &Bounds) -> (r: Self)
        ensures
            r.width == bounds.width,
            r.height == bounds.height,
    {
        Size { width: bounds.width, height: bounds.height }
    }
}

impl Position {
    /// The position part of `bounds`.
    pub fn from_bounds(bounds: &Bounds) -> (r: Self)
        ensures
            r.x == bounds.x,
            r.y == bounds.y,
    {
        Position { x: bounds.x, y: bounds.y }
    }
}

} // verus!
