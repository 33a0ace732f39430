use window_observer::{Error, SessionPhase, WindowObserver};

#[test]
fn start_on_zero_pid_is_rejected_without_resources() {
    let mut s = WindowObserver::new();
    assert_eq!(s.start(0, true), Err(Error::InvalidProcessId(0)));
    // Nothing was allocated: the session never left NotStarted and no
    // native handle exists to release.
    assert_eq!(s.current_phase(), SessionPhase::NotStarted);
    assert_eq!(s.native_releases, 0);
}

#[test]
fn start_without_consent_is_rejected() {
    let mut s = WindowObserver::new();
    assert_eq!(s.start(42, false), Err(Error::PermissionDenied));
    assert_eq!(s.current_phase(), SessionPhase::NotStarted);
}

#[test]
fn start_twice_is_already_started() {
    let mut s = WindowObserver::new();
    assert_eq!(s.start(42, true), Ok(()));
    assert_eq!(s.current_phase(), SessionPhase::Running);
    assert_eq!(s.start(42, true), Err(Error::AlreadyStarted));
}

#[test]
fn stop_twice_is_ok_then_already_stopped() {
    let mut s = WindowObserver::new();
    s.start(42, true).unwrap();
    assert_eq!(s.stop(), Ok(()));
    assert_eq!(s.stop(), Err(Error::AlreadyStopped));
    assert_eq!(s.native_releases, 1);
}

#[test]
fn stop_before_start_is_already_stopped() {
    let mut s = WindowObserver::new();
    assert_eq!(s.stop(), Err(Error::AlreadyStopped));
    assert_eq!(s.native_releases, 0);
}

#[test]
fn teardown_after_stop_releases_nothing_more() {
    let mut s = WindowObserver::new();
    s.start(42, true).unwrap();
    s.stop().unwrap();
    s.teardown();
    assert_eq!(s.native_releases, 1);
}

#[test]
fn teardown_without_stop_releases_exactly_once() {
    let mut s = WindowObserver::new();
    s.start(42, true).unwrap();
    s.teardown();
    assert_eq!(s.current_phase(), SessionPhase::Stopped);
    assert_eq!(s.native_releases, 1);
    s.teardown();
    assert_eq!(s.native_releases, 1);
    assert_eq!(s.stop(), Err(Error::AlreadyStopped));
    assert_eq!(s.native_releases, 1);
}
