//! The accessibility framework's error codes, as plain values.
//!
//! The native accessibility API reports every failure as one `i32` code.
//! This module holds the documented code values, the structured error type
//! they decode to, and the total conversions the rest of the library and its
//! unverified rim rely on.

use vstd::prelude::*;

use crate::Error;

verus! {

/// The code reported on success.
pub const AX_ERROR_SUCCESS: i32 = 0;

/// A fundamental failure, such as a failure to allocate memory.
pub const AX_ERROR_FAILURE: i32 = -25200;

/// An illegal argument value for the attribute or parameter.
pub const AX_ERROR_ILLEGAL_ARGUMENT: i32 = -25201;

/// The accessibility object received is invalid.
pub const AX_ERROR_INVALID_UI_ELEMENT: i32 = -25202;

/// The observer for the accessibility object received is invalid.
pub const AX_ERROR_INVALID_UI_ELEMENT_OBSERVER: i32 = -25203;

/// A fundamental error occurred while processing the request.
pub const AX_ERROR_CANNOT_COMPLETE: i32 = -25204;

/// The referenced attribute is not supported.
pub const AX_ERROR_ATTRIBUTE_UNSUPPORTED: i32 = -25205;

/// The referenced action is not supported.
pub const AX_ERROR_ACTION_UNSUPPORTED: i32 = -25206;

/// The notification is not supported by the element.
pub const AX_ERROR_NOTIFICATION_UNSUPPORTED: i32 = -25207;

/// The function or method is not implemented by the process.
pub const AX_ERROR_NOT_IMPLEMENTED: i32 = -25208;

/// The notification has already been registered.
pub const AX_ERROR_NOTIFICATION_ALREADY_REGISTERED: i32 = -25209;

/// The notification is not registered yet.
pub const AX_ERROR_NOTIFICATION_NOT_REGISTERED: i32 = -25210;

/// Assistive applications are not enabled in system settings.
pub const AX_ERROR_API_DISABLED: i32 = -25211;

/// The requested value does not exist.
pub const AX_ERROR_NO_VALUE: i32 = -25212;

/// The parameterized attribute is not supported.
pub const AX_ERROR_PARAMETERIZED_ATTRIBUTE_UNSUPPORTED: i32 = -25213;

/// Not enough precision.
pub const AX_ERROR_NOT_ENOUGH_PRECISION: i32 = -25214;

/// A structured view of one accessibility error code.  Each variant carries
/// the raw code it was decoded from.
#[derive(Clone, Copy, Debug, PartialEq, Eq, Structural)]
pub enum OSError {
    /// Assistive applications are not enabled in system settings.
    APIDisabled(i32),
    /// The referenced action is not supported.
    ActionUnsupported(i32),
    /// The referenced attribute is not supported.
    AttributeUnsupported(i32),
    /// A fundamental error occurred, such as a failure to allocate memory.
    CannotComplete(i32),
    /// A system error occurred, such as the failure to allocate an object.
    Failure(i32),
    /// The value received is invalid for this attribute or parameter.
    IllegalArgument(i32),
    /// The accessibility object received is invalid.
    InvalidUIElement(i32),
    /// The observer for the accessibility object received is invalid.
    InvalidUIElementObserver(i32),
    /// The requested value does not exist.
    NoValue(i32),
    /// Not enough precision.
    NotEnoughPrecision(i32),
    /// The function or method is not implemented by the process.
    NotImplemented(i32),
    /// This notification has already been registered.
    NotificationAlreadyRegistered(i32),
    /// The notification is not registered yet.
    NotificationNotRegistered(i32),
    /// The notification is not supported by the element.
    NotificationUnsupported(i32),
    /// The parameterized attribute is not supported.
    ParameterizedAttributeUnsupported(i32),
}

/// Whether `value` is one of the documented accessibility error codes,
/// success included.
pub open spec fn is_recognized_ax_code(value: i32) -> bool {
    value == AX_ERROR_SUCCESS || (AX_ERROR_NOT_ENOUGH_PRECISION <= value <= AX_ERROR_FAILURE)
}

/// The structured error a recognized code decodes to, with `None` for
/// success.
pub open spec fn spec_os_error_of(value: i32) -> Option<OSError> {
    if value == AX_ERROR_SUCCESS {
        None
    } else if value == AX_ERROR_API_DISABLED {
        Some(OSError::APIDisabled(value))
    } else if value == AX_ERROR_ACTION_UNSUPPORTED {
        Some(OSError::ActionUnsupported(value))
    } else if value == AX_ERROR_ATTRIBUTE_UNSUPPORTED {
        Some(OSError::AttributeUnsupported(value))
    } else if value == AX_ERROR_CANNOT_COMPLETE {
        Some(OSError::CannotComplete(value))
    } else if value == AX_ERROR_FAILURE {
        Some(OSError::Failure(value))
    } else if value == AX_ERROR_ILLEGAL_ARGUMENT {
        Some(OSError::IllegalArgument(value))
    } else if value == AX_ERROR_INVALID_UI_ELEMENT {
        Some(OSError::InvalidUIElement(value))
    } else if value == AX_ERROR_INVALID_UI_ELEMENT_OBSERVER {
        Some(OSError::InvalidUIElementObserver(value))
    } else if value == AX_ERROR_NO_VALUE {
        Some(OSError::NoValue(value))
    } else if value == AX_ERROR_NOT_ENOUGH_PRECISION {
        Some(OSError::NotEnoughPrecision(value))
    } else if value == AX_ERROR_NOT_IMPLEMENTED {
        Some(OSError::NotImplemented(value))
    } else if value == AX_ERROR_NOTIFICATION_ALREADY_REGISTERED {
        Some(OSError::NotificationAlreadyRegistered(value))
    } else if value == AX_ERROR_NOTIFICATION_NOT_REGISTERED {
        Some(OSError::NotificationNotRegistered(value))
    } else if value == AX_ERROR_NOTIFICATION_UNSUPPORTED {
        Some(OSError::NotificationUnsupported(value))
    } else {
        Some(OSError::ParameterizedAttributeUnsupported(value))
    }
}

impl OSError {
    /// Decodes a raw accessibility error code: `None` for success, the
    /// structured error otherwise.  Only the documented codes are decoded.
    pub fn from_raw(value: i32) -> (r: Option<OSError>)
        requires
            is_recognized_ax_code(value),
        ensures
            r == spec_os_error_of(value),
    {
        if value == AX_ERROR_SUCCESS {
            return None;
        }
        Some(
            if value == AX_ERROR_API_DISABLED {
                OSError::APIDisabled(value)
            } else if value == AX_ERROR_ACTION_UNSUPPORTED {
                OSError::ActionUnsupported(value)
            } else if value == AX_ERROR_ATTRIBUTE_UNSUPPORTED {
                OSError::AttributeUnsupported(value)
            } else if value == AX_ERROR_CANNOT_COMPLETE {
                OSError::CannotComplete(value)
            } else if value == AX_ERROR_FAILURE {
                OSError::Failure(value)
            } else if value == AX_ERROR_ILLEGAL_ARGUMENT {
                OSError::IllegalArgument(value)
            } else if value == AX_ERROR_INVALID_UI_ELEMENT {
                OSError::InvalidUIElement(value)
            } else if value == AX_ERROR_INVALID_UI_ELEMENT_OBSERVER {
                OSError::InvalidUIElementObserver(value)
            } else if value == AX_ERROR_NO_VALUE {
                OSError::NoValue(value)
            } else if value == AX_ERROR_NOT_ENOUGH_PRECISION {
                OSError::NotEnoughPrecision(value)
            } else if value == AX_ERROR_NOT_IMPLEMENTED {
                OSError::NotImplemented(value)
            } else if value == AX_ERROR_NOTIFICATION_ALREADY_REGISTERED {
                OSError::NotificationAlreadyRegistered(value)
            } else if value == AX_ERROR_NOTIFICATION_NOT_REGISTERED {
                OSError::NotificationNotRegistered(value)
            } else if value == AX_ERROR_NOTIFICATION_UNSUPPORTED {
                OSError::NotificationUnsupported(value)
            } else {
                OSError::ParameterizedAttributeUnsupported(value)
            },
        )
    }
}

/// The result of classifying one raw accessibility code coarsely: either it
/// is the success code, or it is some error.
#[derive(Clone, Copy, Debug, PartialEq, Eq, Structural)]
pub enum AXErrorConvertError {
    /// The code is the success code.
    AXErrorSuccess,
    /// The code reports some error.
    UnknownError,
}

/// Converts an accessibility error code into a `Result`: `ok` when the code
/// reports success, the code itself otherwise.
pub fn ax_error_into_result<T>(code: i32, ok: T) -> (r: Result<T, i32>)
    ensures
        code == AX_ERROR_SUCCESS ==> r == Ok::<T, i32>(ok),
        code != AX_ERROR_SUCCESS ==> r == Err::<T, i32>(code),
{
    if code == AX_ERROR_SUCCESS {
        Ok(ok)
    } else {
        Err(code)
    }
}

/// What a raw accessibility error code means as a library error: disabled
/// accessibility is a consent problem, everything else passes through as a
/// platform-specific code.
pub open spec fn spec_error_of_ax_code(code: i32) -> Error {
    if code == AX_ERROR_API_DISABLED {
        Error::PermissionDenied
    } else {
        Error::PlatformSpecificError(code)
    }
}

impl core::convert::From<i32> for Error {
    /// Converts a raw accessibility error code into a library error.
    fn from(code: i32) -> (r: Error)
        ensures
            r == spec_error_of_ax_code(code),
    {
        if code == AX_ERROR_API_DISABLED {
            Error::PermissionDenied
        } else {
            Error::PlatformSpecificError(code)
        }
    }
}

impl vstd::std_specs::convert::FromSpecImpl<i32> for Error {
    open spec fn obeys_from_spec() -> bool {
        true
    }

    open spec fn from_spec(code: i32) -> Error {
        spec_error_of_ax_code(code)
    }
}

} // verus!
