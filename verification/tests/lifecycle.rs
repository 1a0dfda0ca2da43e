use fs_desktop::lifecycle::{AppLifecycleBus, AppLifecycleEvent, AppLifecycleObserver};
use std::sync::{Arc, Mutex};

struct CountingObserver(Arc<Mutex<usize>>);

impl AppLifecycleObserver for CountingObserver {
    fn on_event(&self, _event: &AppLifecycleEvent) {
        *self.0.lock().unwrap() += 1;
    }
}

#[test]
fn observer_receives_opened_event() {
    let count = Arc::new(Mutex::new(0usize));
    let mut bus = AppLifecycleBus::new("test-session");
    bus.register(Box::new(CountingObserver(Arc::clone(&count))));
    bus.app_opened("fs-store");
    assert_eq!(*count.lock().unwrap(), 1);
}

#[test]
fn observer_receives_pin_and_unpin() {
    let count = Arc::new(Mutex::new(0usize));
    let mut bus = AppLifecycleBus::new("test-session");
    bus.register(Box::new(CountingObserver(Arc::clone(&count))));
    bus.app_pinned("fs-store");
    bus.app_unpinned("fs-store");
    assert_eq!(*count.lock().unwrap(), 2);
}

#[test]
fn bus_with_defaults_has_session_observer() {
    let bus = AppLifecycleBus::with_defaults("session-42");
    assert_eq!(bus.session_id, "session-42");
    assert_eq!(bus.observer_count(), 1);
}

#[test]
fn every_observer_receives_each_event() {
    let a = Arc::new(Mutex::new(0usize));
    let b = Arc::new(Mutex::new(0usize));
    let mut bus = AppLifecycleBus::new("s");
    bus.register(Box::new(CountingObserver(Arc::clone(&a))));
    bus.register(Box::new(CountingObserver(Arc::clone(&b))));
    bus.app_opened("x");
    bus.app_closed("x");
    assert_eq!(*a.lock().unwrap(), 2);
    assert_eq!(*b.lock().unwrap(), 2);
    assert_eq!(bus.observer_count(), 2);
}

#[test]
fn opened_event_carries_session() {
    let bus = AppLifecycleBus::new("sess-1");
    match bus.opened_event("fs-store") {
        AppLifecycleEvent::Opened { app_id, session_id } => {
            assert_eq!(app_id, "fs-store");
            assert_eq!(session_id, "sess-1");
        }
        _ => panic!("expected Opened"),
    }
    match bus.closed_event("fs-store") {
        AppLifecycleEvent::Closed { app_id, session_id } => {
            assert_eq!(app_id, "fs-store");
            assert_eq!(session_id, "sess-1");
        }
        _ => panic!("expected Closed"),
    }
}
