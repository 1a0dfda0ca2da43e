//! App lifecycle: events the desktop emits when apps open, close, or are (un)pinned,
//! and the bus that hands each event to every registered observer.
use vstd::prelude::*;
use crate::text::owned;

verus! {

/// Events the desktop emits when an app changes lifecycle state.
#[derive(Debug)]
pub enum AppLifecycleEvent {
    /// An app window was opened (`app_id` = package id, e.g. "fs-store").
    Opened { app_id: String, session_id: String },
    /// An app window was closed.
    Closed { app_id: String, session_id: String },
    /// An app was pinned to the sidebar.
    Pinned { app_id: String },
    /// An app was unpinned from the sidebar.
    Unpinned { app_id: String },
}

/// The abstract value of an [`AppLifecycleEvent`].
pub enum LifecycleEventView {
    Opened { app_id: Seq<char>, session_id: Seq<char> },
    Closed { app_id: Seq<char>, session_id: Seq<char> },
    Pinned { app_id: Seq<char> },
    Unpinned { app_id: Seq<char> },
}

impl View for AppLifecycleEvent {
    type V = LifecycleEventView;

    open spec fn view(&self) -> LifecycleEventView {
        match self {
            AppLifecycleEvent::Opened { app_id, session_id } => LifecycleEventView::Opened {
                app_id: app_id@,
                session_id: session_id@,
            },
            AppLifecycleEvent::Closed { app_id, session_id } => LifecycleEventView::Closed {
                app_id: app_id@,
                session_id: session_id@,
            },
            AppLifecycleEvent::Pinned { app_id } => LifecycleEventView::Pinned { app_id: app_id@ },
            AppLifecycleEvent::Unpinned { app_id } => LifecycleEventView::Unpinned {
                app_id: app_id@,
            },
        }
    }
}

/// Any type that can react to app lifecycle events.
pub trait AppLifecycleObserver {
    fn on_event(&self, event: &AppLifecycleEvent);
}

/// Default observer for the session: it records nothing in the library itself.
pub struct SessionLifecycleObserver;

impl AppLifecycleObserver for SessionLifecycleObserver {
    fn on_event(&self, event: &AppLifecycleEvent) {
    }
}

/// Manages a list of observers and dispatches lifecycle events to all of them.
pub struct AppLifecycleBus {
    observers: Vec<Box<dyn AppLifecycleObserver>>,
    /// Current session id.
    pub session_id: String,
}

impl AppLifecycleBus {
    /// Number of registered observers.
    pub closed spec fn observer_count_spec(&self) -> nat {
        self.observers@.len()
    }

    /// The registered observers, in registration order.
    pub closed spec fn observer_seq(&self) -> Seq<Box<dyn AppLifecycleObserver>> {
        self.observers@
    }

    /// The session id events are tagged with.
    pub closed spec fn session(&self) -> Seq<char> {
        self.session_id@
    }

    /// A bus for `session_id` with no observers.
    pub fn new(session_id: &str) -> (bus: Self)
        ensures
            bus.observer_count_spec() == 0,
            bus.session() == session_id@,
    {
        AppLifecycleBus { observers: Vec::new(), session_id: owned(session_id) }
    }

    /// A bus for `session_id` with the default `SessionLifecycleObserver` registered.
    pub fn with_defaults(session_id: &str) -> (bus: Self)
        ensures
            bus.observer_count_spec() == 1,
            bus.session() == session_id@,
    {
        let default_observer: Box<dyn AppLifecycleObserver> = Box::new(SessionLifecycleObserver);
        AppLifecycleBus { observers: vec![default_observer], session_id: owned(session_id) }
    }

    /// Number of registered observers.
    pub fn observer_count(&self) -> (n: usize)
        ensures
            n == self.observer_count_spec(),
    {
        self.observers.len()
    }

    /// Register an additional observer; it receives every later event.
    pub fn register(&mut self, observer: Box<dyn AppLifecycleObserver>)
        ensures
            final(self).observer_seq().len() == old(self).observer_seq().len() + 1,
            forall|k: int|
                0 <= k < old(self).observer_seq().len() ==> #[trigger] final(self).observer_seq()[k]
                    == old(self).observer_seq()[k],
            final(self).observer_seq()[old(self).observer_seq().len() as int] == observer,
            final(self).observer_count_spec() == old(self).observer_count_spec() + 1,
            final(self).session() == old(self).session(),
    {
        let ghost o = observer;
        let ghost before = self.observers@;
        let mut added = vec![observer];
        assert(added@.len() == 1 && added@[0] == o);
        self.observers.append(&mut added);
        assert(self.observers@[before.len() as int] == o);
    }

    /// Emit an event to all registered observers, in registration order.
    pub fn emit(&self, event: &AppLifecycleEvent) {
        let mut i: usize = 0;
        while i < self.observers.len()
            invariant
                i <= self.observers@.len(),
            decreases self.observers@.len() - i,
        {
            self.observers[i].on_event(event);
            i += 1;
        }
    }

    /// The `Opened` event for `app_id` in this bus's session.
    pub fn opened_event(&self, app_id: &str) -> (e: AppLifecycleEvent)
        ensures
            e@ == (LifecycleEventView::Opened { app_id: app_id@, session_id: self.session() }),
    {
        AppLifecycleEvent::Opened { app_id: owned(app_id), session_id: self.session_id.clone() }
    }

    /// The `Closed` event for `app_id` in this bus's session.
    pub fn closed_event(&self, app_id: &str) -> (e: AppLifecycleEvent)
        ensures
            e@ == (LifecycleEventView::Closed { app_id: app_id@, session_id: self.session() }),
    {
        AppLifecycleEvent::Closed { app_id: owned(app_id), session_id: self.session_id.clone() }
    }

    /// Emit `Opened` for the given app (see [`Self::opened_event`]).
    pub fn app_opened(&self, app_id: &str) {
        let e = self.opened_event(app_id);
        self.emit(&e);
    }

    /// Emit `Closed` for the given app (see [`Self::closed_event`]).
    pub fn app_closed(&self, app_id: &str) {
        let e = self.closed_event(app_id);
        self.emit(&e);
    }

    /// Emit `Pinned` for the given app.
    pub fn app_pinned(&self, app_id: &str) {
        let e = AppLifecycleEvent::Pinned { app_id: owned(app_id) };
        self.emit(&e);
    }

    /// Emit `Unpinned` for the given app.
    pub fn app_unpinned(&self, app_id: &str) {
        let e = AppLifecycleEvent::Unpinned { app_id: owned(app_id) };
        self.emit(&e);
    }
}

} // verus!
