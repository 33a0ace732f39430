//! The static mapping from filter flags to native notification kinds, and
//! the interpretation of the native registration answers.
//!
//! Registering an observation means subscribing to one native notification
//! kind per relevant signal.  The mapping is total: every filter flag maps
//! to one or more kinds, and distinct flags may map to overlapping kinds
//! (the interpreter de-duplicates at the semantic level, so registering a
//! kind twice is answered as already registered and treated as success).

use vstd::prelude::*;

use crate::os_error::AX_ERROR_CANNOT_COMPLETE;
use crate::os_error::AX_ERROR_NOTIFICATION_ALREADY_REGISTERED;
use crate::os_error::AX_ERROR_NOTIFICATION_UNSUPPORTED;
use crate::os_error::AX_ERROR_SUCCESS;
use crate::Error;
use crate::EventFilter;

verus! {

/// The native notification kinds an observation can subscribe to.
#[derive(Clone, Copy, Debug, PartialEq, Eq, Structural)]
pub enum AxNotificationKind {
    /// A window of the application was created.
    WindowCreated,
    /// Some element of the application was destroyed; the element itself may
    /// already be invalid when the notification is delivered.
    UiElementDestroyed,
    /// A window was moved.
    WindowMoved,
    /// A window was resized.
    WindowResized,
    /// The application was activated.
    ApplicationActivated,
    /// The application was deactivated.
    ApplicationDeactivated,
    /// The application's focused window changed.
    FocusedWindowChanged,
    /// A window was miniaturized.
    WindowMiniaturized,
    /// A window was deminiaturized.
    WindowDeminiaturized,
}

impl AxNotificationKind {
    /// The name under which the native accessibility API knows this kind.
    pub open spec fn spec_name(self) -> Seq<char> {
        match self {
            AxNotificationKind::WindowCreated => "AXWindowCreated"@,
            AxNotificationKind::UiElementDestroyed => "AXUIElementDestroyed"@,
            AxNotificationKind::WindowMoved => "AXWindowMoved"@,
            AxNotificationKind::WindowResized => "AXWindowResized"@,
            AxNotificationKind::ApplicationActivated => "AXApplicationActivated"@,
            AxNotificationKind::ApplicationDeactivated => "AXApplicationDeactivated"@,
            AxNotificationKind::FocusedWindowChanged => "AXFocusedWindowChanged"@,
            AxNotificationKind::WindowMiniaturized => "AXWindowMiniaturized"@,
            AxNotificationKind::WindowDeminiaturized => "AXWindowDeminiaturized"@,
        }
    }

    /// The name under which the native accessibility API knows this kind.
    pub fn name(&self) -> (r: &'static str)
        ensures
            r@ == self.spec_name(),
    {
        match *self {
            AxNotificationKind::WindowCreated => "AXWindowCreated",
            AxNotificationKind::UiElementDestroyed => "AXUIElementDestroyed",
            AxNotificationKind::WindowMoved => "AXWindowMoved",
            AxNotificationKind::WindowResized => "AXWindowResized",
            AxNotificationKind::ApplicationActivated => "AXApplicationActivated",
            AxNotificationKind::ApplicationDeactivated => "AXApplicationDeactivated",
            AxNotificationKind::FocusedWindowChanged => "AXFocusedWindowChanged",
            AxNotificationKind::WindowMiniaturized => "AXWindowMiniaturized",
            AxNotificationKind::WindowDeminiaturized => "AXWindowDeminiaturized",
        }
    }
}

/// One unit of the registration mapping: the single kind `kind` when
/// `flag` is set, nothing otherwise.
pub open spec fn seg(flag: bool, kind: AxNotificationKind) -> Seq<AxNotificationKind> {
    if flag {
        seq![kind]
    } else {
        Seq::empty()
    }
}

/// Every notification kind implied by `filter`, flag by flag, in the fixed
/// registration order.  Kinds may repeat where flags overlap.
pub open spec fn spec_kinds_for(filter: EventFilter) -> Seq<AxNotificationKind> {
    seg(filter.focused, AxNotificationKind::FocusedWindowChanged) + seg(
        filter.unfocused,
        AxNotificationKind::FocusedWindowChanged,
    ) + seg(filter.foregrounded, AxNotificationKind::ApplicationActivated) + seg(
        filter.foregrounded,
        AxNotificationKind::FocusedWindowChanged,
    ) + seg(filter.foregrounded, AxNotificationKind::WindowDeminiaturized) + seg(
        filter.backgrounded,
        AxNotificationKind::ApplicationDeactivated,
    ) + seg(filter.backgrounded, AxNotificationKind::FocusedWindowChanged) + seg(
        filter.hidden,
        AxNotificationKind::WindowMiniaturized,
    ) + seg(filter.showed, AxNotificationKind::WindowDeminiaturized) + seg(
        filter.moved,
        AxNotificationKind::WindowMoved,
    ) + seg(filter.resized, AxNotificationKind::WindowResized) + seg(
        filter.created,
        AxNotificationKind::WindowCreated,
    ) + seg(filter.closed, AxNotificationKind::UiElementDestroyed)
}

/// Appends `kind` when `flag` is set.
fn append_kind(out: &mut Vec<AxNotificationKind>, flag: bool, kind: AxNotificationKind)
    ensures
        final(out)@ == old(out)@ + seg(flag, kind),
{
    if flag {
        out.push(kind);
        assert(final(out)@ =~= old(out)@ + seg(flag, kind));
    } else {
        assert(final(out)@ =~= old(out)@ + seg(flag, kind));
    }
}

/// Lists the native notification kinds to register for `filter`, flag by
/// flag, in the fixed registration order.
pub fn notification_kinds_for(filter: &EventFilter) -> (r: Vec<AxNotificationKind>)
    ensures
        r@ == spec_kinds_for(*filter),
{
    let mut out: Vec<AxNotificationKind> = Vec::new();
    append_kind(&mut out, filter.focused, AxNotificationKind::FocusedWindowChanged);
    assert(out@ =~= seg(filter.focused, AxNotificationKind::FocusedWindowChanged));
    append_kind(&mut out, filter.unfocused, AxNotificationKind::FocusedWindowChanged);
    append_kind(&mut out, filter.foregrounded, AxNotificationKind::ApplicationActivated);
    append_kind(&mut out, filter.foregrounded, AxNotificationKind::FocusedWindowChanged);
    append_kind(&mut out, filter.foregrounded, AxNotificationKind::WindowDeminiaturized);
    append_kind(&mut out, filter.backgrounded, AxNotificationKind::ApplicationDeactivated);
    append_kind(&mut out, filter.backgrounded, AxNotificationKind::FocusedWindowChanged);
    append_kind(&mut out, filter.hidden, AxNotificationKind::WindowMiniaturized);
    append_kind(&mut out, filter.showed, AxNotificationKind::WindowDeminiaturized);
    append_kind(&mut out, filter.moved, AxNotificationKind::WindowMoved);
    append_kind(&mut out, filter.resized, AxNotificationKind::WindowResized);
    append_kind(&mut out, filter.created, AxNotificationKind::WindowCreated);
    append_kind(&mut out, filter.closed, AxNotificationKind::UiElementDestroyed);
    assert(out@ == spec_kinds_for(*filter));
    out
}

/// What one native registration answer means for `start`, given the pid the
/// registration was for.
pub open spec fn spec_registration_outcome(pid: u32, code: i32) -> Result<(), Error> {
    if code == AX_ERROR_SUCCESS {
        Ok(())
    } else if code == AX_ERROR_NOTIFICATION_ALREADY_REGISTERED {
        Ok(())
    } else if code == AX_ERROR_CANNOT_COMPLETE {
        Err(Error::InvalidProcessId(pid))
    } else if code == AX_ERROR_NOTIFICATION_UNSUPPORTED {
        Err(Error::NotSupported)
    } else {
        Err(Error::PlatformSpecificError(code))
    }
}

/// Interprets the native answer to one notification registration.
///
/// Success and an already-registered answer both count as registered; a
/// cannot-complete answer means the pid does not name a live observable
/// process; an unsupported answer means the application does not implement
/// the introspection interface for that kind; anything else passes through
/// as a platform-specific code.
pub fn registration_outcome(pid: u32, code: i32) -> (r: Result<(), Error>)
    ensures
        r == spec_registration_outcome(pid, code),
{
    if code == AX_ERROR_SUCCESS || code == AX_ERROR_NOTIFICATION_ALREADY_REGISTERED {
        Ok(())
    } else if code == AX_ERROR_CANNOT_COMPLETE {
        Err(Error::InvalidProcessId(pid))
    } else if code == AX_ERROR_NOTIFICATION_UNSUPPORTED {
        Err(Error::NotSupported)
    } else {
        Err(Error::PlatformSpecificError(code))
    }
}

} // verus!
