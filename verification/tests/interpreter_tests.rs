use window_observer::{
    Bounds, Event, EventFilter, EventInterpreter, MaybeWindowAvailable, Notification, Window,
    WindowId,
};

fn wid(raw: u64) -> WindowId {
    WindowId::new(raw)
}

fn avail(raw: u64, event: Event) -> MaybeWindowAvailable {
    MaybeWindowAvailable::Available {
        window: Window::new(wid(raw)),
        event,
    }
}

fn closed(raw: u64) -> MaybeWindowAvailable {
    MaybeWindowAvailable::NotAvailable {
        event: Event::Closed {
            window_id: wid(raw),
        },
    }
}

fn bounds(x: i64, y: i64, width: i64, height: i64) -> Bounds {
    Bounds {
        x,
        y,
        width,
        height,
    }
}

#[test]
fn closed_window_detection() {
    let mut it = EventInterpreter::new(EventFilter::all());
    // Establish the current snapshot {1, 2, 3}.
    let out = it.on_ui_element_destroyed(&vec![wid(1), wid(2), wid(3)]);
    assert_eq!(out, vec![]);
    // The snapshot shrinks to {1, 3}: exactly one Closed{2}.
    let out = it.on_ui_element_destroyed(&vec![wid(1), wid(3)]);
    assert_eq!(out, vec![closed(2)]);
}

#[test]
fn closed_window_detection_dedups_snapshots() {
    let mut it = EventInterpreter::new(EventFilter::all());
    let out = it.on_ui_element_destroyed(&vec![wid(1), wid(1), wid(2)]);
    assert_eq!(out, vec![]);
    let out = it.on_ui_element_destroyed(&vec![]);
    assert_eq!(out, vec![closed(1), closed(2)]);
}

#[test]
fn created_emits_and_refreshes_snapshot() {
    let mut it = EventInterpreter::new(EventFilter::all());
    let out = it.on_window_created(wid(5), &vec![wid(5)]);
    assert_eq!(out, vec![avail(5, Event::Created)]);
    // The created window vanishing is now detected from the snapshot.
    let out = it.on_ui_element_destroyed(&vec![]);
    assert_eq!(out, vec![closed(5)]);
}

#[test]
fn moved_and_resized_pass_through() {
    let mut it = EventInterpreter::new(EventFilter::all());
    assert_eq!(it.on_window_moved(wid(4)), vec![avail(4, Event::Moved)]);
    assert_eq!(it.on_window_resized(wid(4)), vec![avail(4, Event::Resized)]);
}

#[test]
fn first_bounds_observation_is_silent() {
    let mut it = EventInterpreter::new(EventFilter::all());
    let out = it.on_bounds_changed(wid(1), bounds(0, 0, 100, 100));
    assert_eq!(out, vec![]);
}

#[test]
fn bounds_resize_only() {
    let mut it = EventInterpreter::new(EventFilter::all());
    it.on_bounds_changed(wid(1), bounds(0, 0, 100, 100));
    let out = it.on_bounds_changed(wid(1), bounds(0, 0, 150, 100));
    assert_eq!(out, vec![avail(1, Event::Resized)]);
}

#[test]
fn bounds_move_only() {
    let mut it = EventInterpreter::new(EventFilter::all());
    it.on_bounds_changed(wid(1), bounds(0, 0, 100, 100));
    let out = it.on_bounds_changed(wid(1), bounds(10, 0, 100, 100));
    assert_eq!(out, vec![avail(1, Event::Moved)]);
}

#[test]
fn bounds_move_and_resize_in_order() {
    let mut it = EventInterpreter::new(EventFilter::all());
    it.on_bounds_changed(wid(1), bounds(0, 0, 100, 100));
    let out = it.on_bounds_changed(wid(1), bounds(10, 0, 150, 100));
    assert_eq!(out, vec![avail(1, Event::Moved), avail(1, Event::Resized)]);
}

#[test]
fn bounds_unchanged_is_silent() {
    let mut it = EventInterpreter::new(EventFilter::all());
    it.on_bounds_changed(wid(1), bounds(0, 0, 100, 100));
    let out = it.on_bounds_changed(wid(1), bounds(0, 0, 100, 100));
    assert_eq!(out, vec![]);
}

#[test]
fn bounds_are_tracked_per_window() {
    let mut it = EventInterpreter::new(EventFilter::all());
    it.on_bounds_changed(wid(1), bounds(0, 0, 100, 100));
    // First sight for window 2, even though window 1 is already recorded.
    let out = it.on_bounds_changed(wid(2), bounds(5, 5, 50, 50));
    assert_eq!(out, vec![]);
    let out = it.on_bounds_changed(wid(1), bounds(0, 0, 100, 110));
    assert_eq!(out, vec![avail(1, Event::Resized)]);
}

#[test]
fn focus_change_full_sequence() {
    let mut it = EventInterpreter::new(EventFilter::all());
    // Window 1 takes focus first: nothing was focused, so no Unfocused.
    let out = it.on_focused_window_changed(wid(1), &vec![wid(1), wid(2)]);
    assert_eq!(
        out,
        vec![
            avail(2, Event::Backgrounded),
            avail(1, Event::Foregrounded),
            avail(1, Event::Focused),
        ]
    );
    // Focus moves to window 2: Unfocused(1) before Focused(2).
    let out = it.on_focused_window_changed(wid(2), &vec![wid(1), wid(2)]);
    assert_eq!(
        out,
        vec![
            avail(1, Event::Backgrounded),
            avail(2, Event::Foregrounded),
            avail(1, Event::Unfocused),
            avail(2, Event::Focused),
        ]
    );
}

#[test]
fn focus_change_repeat_is_not_reemitted() {
    let mut it = EventInterpreter::new(EventFilter::all());
    it.on_focused_window_changed(wid(1), &vec![wid(1)]);
    let out = it.on_focused_window_changed(wid(1), &vec![wid(1)]);
    // No Unfocused and no Focused on a repeat notification.
    assert_eq!(out, vec![avail(1, Event::Foregrounded)]);
}

#[test]
fn application_activated_foregrounds_all_and_hands_focus_over() {
    let mut it = EventInterpreter::new(EventFilter::all());
    it.on_focused_window_changed(wid(1), &vec![wid(1)]);
    let out = it.on_application_activated(&vec![wid(1), wid(2)], Some(wid(2)));
    assert_eq!(
        out,
        vec![
            avail(1, Event::Foregrounded),
            avail(2, Event::Foregrounded),
            avail(1, Event::Unfocused),
            avail(2, Event::Focused),
        ]
    );
}

#[test]
fn application_activated_emits_focused_regardless() {
    let mut it = EventInterpreter::new(EventFilter::all());
    it.on_focused_window_changed(wid(2), &vec![wid(2)]);
    // The focused window did not change: Focused is still emitted, without
    // any Unfocused.
    let out = it.on_application_activated(&vec![wid(2)], Some(wid(2)));
    assert_eq!(
        out,
        vec![avail(2, Event::Foregrounded), avail(2, Event::Focused)]
    );
}

#[test]
fn application_deactivated_unfocuses_before_backgrounding() {
    let mut it = EventInterpreter::new(EventFilter::all());
    it.on_focused_window_changed(wid(2), &vec![wid(1), wid(2)]);
    let out = it.on_application_deactivated(&vec![wid(1), wid(2)]);
    assert_eq!(
        out,
        vec![
            avail(1, Event::Backgrounded),
            avail(2, Event::Unfocused),
            avail(2, Event::Backgrounded),
        ]
    );
    // The tracking was cleared: deactivating again emits no Unfocused.
    let out = it.on_application_deactivated(&vec![wid(1), wid(2)]);
    assert_eq!(
        out,
        vec![avail(1, Event::Backgrounded), avail(2, Event::Backgrounded)]
    );
}

#[test]
fn miniaturized_focused_window() {
    let mut it = EventInterpreter::new(EventFilter::all());
    it.on_focused_window_changed(wid(1), &vec![wid(1)]);
    let out = it.on_window_miniaturized(wid(1));
    assert_eq!(
        out,
        vec![
            avail(1, Event::Hidden),
            avail(1, Event::Unfocused),
            avail(1, Event::Backgrounded),
        ]
    );
    // Hiding it again only emits Hidden: the tracking was cleared.
    let out = it.on_window_miniaturized(wid(1));
    assert_eq!(out, vec![avail(1, Event::Hidden)]);
}

#[test]
fn miniaturized_unfocused_window_only_hides() {
    let mut it = EventInterpreter::new(EventFilter::all());
    it.on_focused_window_changed(wid(1), &vec![wid(1)]);
    let out = it.on_window_miniaturized(wid(2));
    assert_eq!(out, vec![avail(2, Event::Hidden)]);
}

#[test]
fn deminiaturized_restores_focus() {
    let mut it = EventInterpreter::new(EventFilter::all());
    let out = it.on_window_deminimized(wid(3));
    assert_eq!(
        out,
        vec![
            avail(3, Event::Showed),
            avail(3, Event::Foregrounded),
            avail(3, Event::Focused),
        ]
    );
    // It is the tracked focus now: a deactivation unfocuses it.
    let out = it.on_application_deactivated(&vec![wid(3)]);
    assert_eq!(
        out,
        vec![avail(3, Event::Unfocused), avail(3, Event::Backgrounded)]
    );
}

#[test]
fn interpret_applies_the_filter() {
    let mut filter = EventFilter::empty();
    filter.add_event(window_observer::EventKind::Moved);
    let mut it = EventInterpreter::new(filter);
    it.on_bounds_changed(wid(1), bounds(0, 0, 100, 100));
    // Both Moved and Resized are implied, but only Moved passes the filter.
    let (recognized, out) = it.interpret_notification(&Notification::BoundsChanged {
        window: wid(1),
        bounds: bounds(10, 0, 150, 100),
    });
    assert!(recognized);
    assert_eq!(out, vec![avail(1, Event::Moved)]);
}

#[test]
fn interpret_unrecognized_is_not_dispatched() {
    let mut it = EventInterpreter::new(EventFilter::all());
    let (recognized, out) = it.interpret_notification(&Notification::Unrecognized);
    assert!(!recognized);
    assert_eq!(out, vec![]);
}

#[test]
fn interpret_recognizes_every_class() {
    let mut it = EventInterpreter::new(EventFilter::all());
    let (recognized, out) = it.interpret_notification(&Notification::FocusedWindowChanged {
        window: wid(1),
        windows: vec![wid(1)],
    });
    assert!(recognized);
    assert_eq!(
        out,
        vec![avail(1, Event::Foregrounded), avail(1, Event::Focused)]
    );
    let (recognized, out) = it.interpret_notification(&Notification::UiElementDestroyed {
        snapshot: vec![],
    });
    assert!(recognized);
    assert_eq!(out, vec![]);
}

#[test]
fn full_session_delivers_in_order() {
    let mut it = EventInterpreter::new(EventFilter::all());
    let mut delivered: Vec<MaybeWindowAvailable> = Vec::new();
    let session = vec![
        Notification::WindowCreated {
            window: wid(1),
            snapshot: vec![wid(1)],
        },
        Notification::FocusedWindowChanged {
            window: wid(1),
            windows: vec![wid(1)],
        },
        Notification::BoundsChanged {
            window: wid(1),
            bounds: bounds(0, 0, 100, 100),
        },
        Notification::BoundsChanged {
            window: wid(1),
            bounds: bounds(5, 0, 120, 100),
        },
        Notification::WindowMiniaturized { window: wid(1) },
        Notification::UiElementDestroyed { snapshot: vec![] },
    ];
    for n in &session {
        let (recognized, out) = it.interpret_notification(n);
        assert!(recognized);
        delivered.extend(out);
    }
    assert_eq!(
        delivered,
        vec![
            avail(1, Event::Created),
            avail(1, Event::Foregrounded),
            avail(1, Event::Focused),
            avail(1, Event::Moved),
            avail(1, Event::Resized),
            avail(1, Event::Hidden),
            avail(1, Event::Unfocused),
            avail(1, Event::Backgrounded),
            closed(1),
        ]
    );
}

#[test]
fn interpret_all_matches_stepwise_interpretation() {
    let session = vec![
        Notification::FocusedWindowChanged {
            window: wid(1),
            windows: vec![wid(1), wid(2)],
        },
        Notification::ApplicationDeactivated {
            windows: vec![wid(1), wid(2)],
        },
    ];
    let mut stepwise = EventInterpreter::new(EventFilter::all());
    let mut expected: Vec<MaybeWindowAvailable> = Vec::new();
    for n in &session {
        let (_, out) = stepwise.interpret_notification(n);
        expected.extend(out);
    }
    let mut whole = EventInterpreter::new(EventFilter::all());
    let out = whole.interpret_all(&session);
    assert_eq!(out, expected);
}
