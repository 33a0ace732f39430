//! Observes one process's windows and turns raw, platform-specific window
//! notifications into a single stream of semantic window events.
//!
//! The heart of the crate is the [`interpreter::EventInterpreter`]: a stateful
//! translator that receives one native notification at a time (already reduced
//! to plain values: window identifiers, integer bounds, window lists) and
//! emits zero or more [`Event`]s, in a fixed documented order, filtered by an
//! [`EventFilter`].  The [`lifecycle`] module holds the state machine that
//! governs one observation session: idempotent start and stop, and a native
//! handle that is released exactly once.

use vstd::prelude::*;

pub mod interpreter;
pub mod laws;
pub mod lifecycle;
pub mod os_error;
pub mod registration;
pub mod semantics;
pub mod window;
pub mod windows_window;

pub use interpreter::{EventInterpreter, Notification};
pub use lifecycle::{SessionPhase, WindowObserver};
pub use os_error::OSError;
pub use window::{Bounds, Position, Size, Window, WindowId};
pub use windows_window::{Rect, WindowsWindow};

verus! {

/// Errors that the library reports.
#[derive(Clone, Copy, Debug, PartialEq, Eq, Structural)]
pub enum Error {
    /// The process id is invalid for observing windows (a zero pid where the
    /// platform defines no "whole system" process).
    InvalidProcessId(u32),
    /// The target application is not ready, or no application has the pid.
    SomethingWentWrong,
    /// The application does not support observing window events.
    NotSupported,
    /// The OS-level accessibility consent was not granted.
    PermissionDenied,
    /// An opaque native error code, passed through for diagnostics.
    PlatformSpecificError(i32),
    /// `start` was called on a session that is already running.
    AlreadyStarted,
    /// `stop` was called on a session that was already stopped.
    AlreadyStopped,
}

/// The closed set of semantic window event kinds, without payloads.
///
/// [`EventFilter`] is keyed by kind: closed windows carry no window payload
/// after destruction, so the filter cannot be keyed by window.
#[derive(Clone, Copy, Debug, PartialEq, Eq, Structural)]
pub enum EventKind {
    Created,
    Resized,
    Moved,
    Foregrounded,
    Backgrounded,
    Focused,
    Unfocused,
    Hidden,
    Showed,
    Closed,
}

/// A semantic window event.
#[derive(Clone, Copy, Debug, PartialEq, Eq, Structural)]
pub enum Event {
    /// The window was created.
    Created,
    /// The window was resized.
    Resized,
    /// The window was moved.
    Moved,
    /// The window was brought to the foreground.  This does not mean the
    /// window gained input focus.
    Foregrounded,
    /// The window was backgrounded; the opposite of [`Event::Foregrounded`].
    Backgrounded,
    /// The window gained input focus.
    Focused,
    /// The window lost input focus.
    Unfocused,
    /// The window was hidden (miniaturized).
    Hidden,
    /// The window was shown (deminiaturized).
    Showed,
    /// The window was closed.  Only the stable id survives destruction.
    Closed { window_id: WindowId },
}

impl Event {
    /// The kind of this event, which is what the filter is keyed by.
    pub open spec fn kind(self) -> EventKind {
        match self {
            Event::Created => EventKind::Created,
            Event::Resized => EventKind::Resized,
            Event::Moved => EventKind::Moved,
            Event::Foregrounded => EventKind::Foregrounded,
            Event::Backgrounded => EventKind::Backgrounded,
            Event::Focused => EventKind::Focused,
            Event::Unfocused => EventKind::Unfocused,
            Event::Hidden => EventKind::Hidden,
            Event::Showed => EventKind::Showed,
            Event::Closed { .. } => EventKind::Closed,
        }
    }
}

/// A per-kind boolean filter deciding which events are worth dispatching.
///
/// The flag for a kind is consulted every time an event of that kind is about
/// to be forwarded to the consumer; see [`EventFilter::should_dispatch`].
#[derive(Clone, Copy, Debug, Default, PartialEq, Eq, Structural)]
pub struct EventFilter {
    /// Whether to observe [`Event::Foregrounded`] events.
    pub foregrounded: bool,
    /// Whether to observe [`Event::Backgrounded`] events.
    pub backgrounded: bool,
    /// Whether to observe [`Event::Focused`] events.
    pub focused: bool,
    /// Whether to observe [`Event::Unfocused`] events.
    pub unfocused: bool,
    /// Whether to observe [`Event::Created`] events.
    pub created: bool,
    /// Whether to observe [`Event::Resized`] events.
    pub resized: bool,
    /// Whether to observe [`Event::Moved`] events.
    pub moved: bool,
    /// Whether to observe [`Event::Hidden`] events.
    pub hidden: bool,
    /// Whether to observe [`Event::Showed`] events.
    pub showed: bool,
    /// Whether to observe [`Event::Closed`] events.
    pub closed: bool,
}

impl EventFilter {
    /// The flag of this filter for the given kind.
    pub open spec fn allows_kind(self, kind: EventKind) -> bool {
        match kind {
            EventKind::Created => self.created,
            EventKind::Resized => self.resized,
            EventKind::Moved => self.moved,
            EventKind::Foregrounded => self.foregrounded,
            EventKind::Backgrounded => self.backgrounded,
            EventKind::Focused => self.focused,
            EventKind::Unfocused => self.unfocused,
            EventKind::Hidden => self.hidden,
            EventKind::Showed => self.showed,
            EventKind::Closed => self.closed,
        }
    }

    /// Whether an event of the given kind is forwarded to the consumer.
    pub open spec fn allows(self, event: Event) -> bool {
        self.allows_kind(event.kind())
    }

    /// The filter equal to `self` except that the flag for `kind` is `value`.
    pub open spec fn spec_with_kind(self, kind: EventKind, value: bool) -> EventFilter {
        match kind {
            EventKind::Created => EventFilter { created: value, ..self },
            EventKind::Resized => EventFilter { resized: value, ..self },
            EventKind::Moved => EventFilter { moved: value, ..self },
            EventKind::Foregrounded => EventFilter { foregrounded: value, ..self },
            EventKind::Backgrounded => EventFilter { backgrounded: value, ..self },
            EventKind::Focused => EventFilter { focused: value, ..self },
            EventKind::Unfocused => EventFilter { unfocused: value, ..self },
            EventKind::Hidden => EventFilter { hidden: value, ..self },
            EventKind::Showed => EventFilter { showed: value, ..self },
            EventKind::Closed => EventFilter { closed: value, ..self },
        }
    }

    /// Creates a new `EventFilter` with all events enabled.
    pub fn all() -> (r: Self)
        ensures
            forall|kind: EventKind| r.allows_kind(kind),
    {
        Self {
            foregrounded: true,
            backgrounded: true,
            focused: true,
            unfocused: true,
            created: true,
            resized: true,
            moved: true,
            hidden: true,
            showed: true,
            closed: true,
        }
    }

    /// Creates a new `EventFilter` with no events enabled.
    pub fn empty() -> (r: Self)
        ensures
            forall|kind: EventKind| !r.allows_kind(kind),
    {
        Self {
            foregrounded: false,
            backgrounded: false,
            focused: false,
            unfocused: false,
            created: false,
            resized: false,
            moved: false,
            hidden: false,
            showed: false,
            closed: false,
        }
    }

    /// Enables observing events of the given kind.
    pub fn add_event(&mut self, kind: EventKind)
        ensures
            *final(self) == old(self).spec_with_kind(kind, true),
    {
        self.set_kind(kind, true);
    }

    /// Disables observing events of the given kind.
    pub fn remove_event(&mut self, kind: EventKind)
        ensures
            *final(self) == old(self).spec_with_kind(kind, false),
    {
        self.set_kind(kind, false);
    }

    fn set_kind(&mut self, kind: EventKind, value: bool)
        ensures
            *final(self) == old(self).spec_with_kind(kind, value),
    {
        match kind {
            EventKind::Created => self.created = value,
            EventKind::Resized => self.resized = value,
            EventKind::Moved => self.moved = value,
            EventKind::Foregrounded => self.foregrounded = value,
            EventKind::Backgrounded => self.backgrounded = value,
            EventKind::Focused => self.focused = value,
            EventKind::Unfocused => self.unfocused = value,
            EventKind::Hidden => self.hidden = value,
            EventKind::Showed => self.showed = value,
            EventKind::Closed => self.closed = value,
        }
    }

    /// Decides whether `event` is forwarded to the consumer: a pure function
    /// of the event's kind and this filter's flags.
    pub fn should_dispatch(&self, event: &Event) -> (r: bool)
        ensures
            r == self.allows(*event),
    {
        match *event {
            Event::Created => self.created,
            Event::Resized => self.resized,
            Event::Moved => self.moved,
            Event::Foregrounded => self.foregrounded,
            Event::Backgrounded => self.backgrounded,
            Event::Focused => self.focused,
            Event::Unfocused => self.unfocused,
            Event::Hidden => self.hidden,
            Event::Showed => self.showed,
            Event::Closed { .. } => self.closed,
        }
    }
}

/// An event together with the window it concerns, when that window may
/// already have been destroyed by the time of delivery.
#[derive(Clone, Copy, Debug, PartialEq, Eq, Structural)]
pub enum MaybeWindowAvailable {
    /// The window is available.
    Available { window: Window, event: Event },
    /// The window is not available.  This happens when the window is closed.
    NotAvailable { event: Event },
}

impl MaybeWindowAvailable {
    /// The event carried by this emission.
    pub open spec fn event(self) -> Event {
        match self {
            MaybeWindowAvailable::Available { event, .. } => event,
            MaybeWindowAvailable::NotAvailable { event } => event,
        }
    }
}

} // verus!
