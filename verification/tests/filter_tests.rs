use window_observer::{Event, EventFilter, EventKind, WindowId};

#[test]
fn all_enables_every_kind() {
    let f = EventFilter::all();
    assert!(f.should_dispatch(&Event::Created));
    assert!(f.should_dispatch(&Event::Resized));
    assert!(f.should_dispatch(&Event::Moved));
    assert!(f.should_dispatch(&Event::Foregrounded));
    assert!(f.should_dispatch(&Event::Backgrounded));
    assert!(f.should_dispatch(&Event::Focused));
    assert!(f.should_dispatch(&Event::Unfocused));
    assert!(f.should_dispatch(&Event::Hidden));
    assert!(f.should_dispatch(&Event::Showed));
    assert!(f.should_dispatch(&Event::Closed {
        window_id: WindowId::new(1)
    }));
}

#[test]
fn empty_disables_every_kind() {
    let f = EventFilter::empty();
    assert!(!f.should_dispatch(&Event::Created));
    assert!(!f.should_dispatch(&Event::Resized));
    assert!(!f.should_dispatch(&Event::Moved));
    assert!(!f.should_dispatch(&Event::Foregrounded));
    assert!(!f.should_dispatch(&Event::Backgrounded));
    assert!(!f.should_dispatch(&Event::Focused));
    assert!(!f.should_dispatch(&Event::Unfocused));
    assert!(!f.should_dispatch(&Event::Hidden));
    assert!(!f.should_dispatch(&Event::Showed));
    assert!(!f.should_dispatch(&Event::Closed {
        window_id: WindowId::new(1)
    }));
}

#[test]
fn add_event_sets_one_flag() {
    let mut f = EventFilter::empty();
    f.add_event(EventKind::Moved);
    assert!(f.moved);
    assert!(!f.resized);
    assert!(f.should_dispatch(&Event::Moved));
    assert!(!f.should_dispatch(&Event::Resized));
}

#[test]
fn remove_event_clears_one_flag() {
    let mut f = EventFilter::all();
    f.remove_event(EventKind::Closed);
    assert!(!f.closed);
    assert!(f.created);
    assert!(!f.should_dispatch(&Event::Closed {
        window_id: WindowId::new(9)
    }));
    assert!(f.should_dispatch(&Event::Created));
}

#[test]
fn should_dispatch_is_keyed_by_kind_not_payload() {
    let mut f = EventFilter::empty();
    f.add_event(EventKind::Closed);
    assert!(f.should_dispatch(&Event::Closed {
        window_id: WindowId::new(1)
    }));
    assert!(f.should_dispatch(&Event::Closed {
        window_id: WindowId::new(2)
    }));
}
