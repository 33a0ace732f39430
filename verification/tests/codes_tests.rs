use window_observer::os_error::{
    ax_error_into_result, AX_ERROR_API_DISABLED, AX_ERROR_CANNOT_COMPLETE, AX_ERROR_FAILURE,
    AX_ERROR_ILLEGAL_ARGUMENT, AX_ERROR_NOTIFICATION_ALREADY_REGISTERED,
    AX_ERROR_NOTIFICATION_UNSUPPORTED, AX_ERROR_NOT_ENOUGH_PRECISION, AX_ERROR_SUCCESS,
};
use window_observer::registration::{
    notification_kinds_for, registration_outcome, AxNotificationKind,
};
use window_observer::{Error, EventFilter, EventKind, OSError};

#[test]
fn from_raw_success_is_none() {
    assert_eq!(OSError::from_raw(AX_ERROR_SUCCESS), None);
}

#[test]
fn from_raw_decodes_every_documented_code() {
    assert_eq!(OSError::from_raw(-25200), Some(OSError::Failure(-25200)));
    assert_eq!(
        OSError::from_raw(-25201),
        Some(OSError::IllegalArgument(-25201))
    );
    assert_eq!(
        OSError::from_raw(-25202),
        Some(OSError::InvalidUIElement(-25202))
    );
    assert_eq!(
        OSError::from_raw(-25203),
        Some(OSError::InvalidUIElementObserver(-25203))
    );
    assert_eq!(
        OSError::from_raw(-25204),
        Some(OSError::CannotComplete(-25204))
    );
    assert_eq!(
        OSError::from_raw(-25205),
        Some(OSError::AttributeUnsupported(-25205))
    );
    assert_eq!(
        OSError::from_raw(-25206),
        Some(OSError::ActionUnsupported(-25206))
    );
    assert_eq!(
        OSError::from_raw(-25207),
        Some(OSError::NotificationUnsupported(-25207))
    );
    assert_eq!(
        OSError::from_raw(-25208),
        Some(OSError::NotImplemented(-25208))
    );
    assert_eq!(
        OSError::from_raw(-25209),
        Some(OSError::NotificationAlreadyRegistered(-25209))
    );
    assert_eq!(
        OSError::from_raw(-25210),
        Some(OSError::NotificationNotRegistered(-25210))
    );
    assert_eq!(OSError::from_raw(-25211), Some(OSError::APIDisabled(-25211)));
    assert_eq!(OSError::from_raw(-25212), Some(OSError::NoValue(-25212)));
    assert_eq!(
        OSError::from_raw(-25213),
        Some(OSError::ParameterizedAttributeUnsupported(-25213))
    );
    assert_eq!(
        OSError::from_raw(AX_ERROR_NOT_ENOUGH_PRECISION),
        Some(OSError::NotEnoughPrecision(-25214))
    );
}

#[test]
fn into_result_splits_on_success() {
    assert_eq!(ax_error_into_result(AX_ERROR_SUCCESS, 7u32), Ok(7));
    assert_eq!(
        ax_error_into_result(AX_ERROR_FAILURE, 7u32),
        Err(AX_ERROR_FAILURE)
    );
}

#[test]
fn library_error_from_ax_code() {
    assert_eq!(Error::from(AX_ERROR_API_DISABLED), Error::PermissionDenied);
    assert_eq!(
        Error::from(AX_ERROR_ILLEGAL_ARGUMENT),
        Error::PlatformSpecificError(AX_ERROR_ILLEGAL_ARGUMENT)
    );
}

#[test]
fn registration_outcome_covers_every_answer() {
    assert_eq!(registration_outcome(9, AX_ERROR_SUCCESS), Ok(()));
    assert_eq!(
        registration_outcome(9, AX_ERROR_NOTIFICATION_ALREADY_REGISTERED),
        Ok(())
    );
    assert_eq!(
        registration_outcome(9, AX_ERROR_CANNOT_COMPLETE),
        Err(Error::InvalidProcessId(9))
    );
    assert_eq!(
        registration_outcome(9, AX_ERROR_NOTIFICATION_UNSUPPORTED),
        Err(Error::NotSupported)
    );
    assert_eq!(
        registration_outcome(9, AX_ERROR_FAILURE),
        Err(Error::PlatformSpecificError(AX_ERROR_FAILURE))
    );
}

#[test]
fn kinds_for_empty_filter_is_empty() {
    let kinds = notification_kinds_for(&EventFilter::empty());
    assert_eq!(kinds, vec![]);
}

#[test]
fn kinds_for_full_filter_in_registration_order() {
    let kinds = notification_kinds_for(&EventFilter::all());
    assert_eq!(
        kinds,
        vec![
            AxNotificationKind::FocusedWindowChanged,
            AxNotificationKind::FocusedWindowChanged,
            AxNotificationKind::ApplicationActivated,
            AxNotificationKind::FocusedWindowChanged,
            AxNotificationKind::WindowDeminiaturized,
            AxNotificationKind::ApplicationDeactivated,
            AxNotificationKind::FocusedWindowChanged,
            AxNotificationKind::WindowMiniaturized,
            AxNotificationKind::WindowDeminiaturized,
            AxNotificationKind::WindowMoved,
            AxNotificationKind::WindowResized,
            AxNotificationKind::WindowCreated,
            AxNotificationKind::UiElementDestroyed,
        ]
    );
}

#[test]
fn kinds_for_single_flags() {
    let mut f = EventFilter::empty();
    f.add_event(EventKind::Moved);
    assert_eq!(
        notification_kinds_for(&f),
        vec![AxNotificationKind::WindowMoved]
    );
    let mut f = EventFilter::empty();
    f.add_event(EventKind::Foregrounded);
    assert_eq!(
        notification_kinds_for(&f),
        vec![
            AxNotificationKind::ApplicationActivated,
            AxNotificationKind::FocusedWindowChanged,
            AxNotificationKind::WindowDeminiaturized,
        ]
    );
}

#[test]
fn notification_kind_names() {
    assert_eq!(AxNotificationKind::WindowCreated.name(), "AXWindowCreated");
    assert_eq!(
        AxNotificationKind::UiElementDestroyed.name(),
        "AXUIElementDestroyed"
    );
    assert_eq!(
        AxNotificationKind::FocusedWindowChanged.name(),
        "AXFocusedWindowChanged"
    );
    assert_eq!(
        AxNotificationKind::WindowDeminiaturized.name(),
        "AXWindowDeminiaturized"
    );
}
