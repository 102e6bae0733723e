use vstd::prelude::*;
use crate::debounce::{accepts, DebounceGuard};

verus! {

/// Delay, in milliseconds, between an accepted event and reading the file,
/// so that every write of one save has landed.
pub const SETTLE_DELAY_MS: u64 = 50;

/// Interval, in milliseconds, of the keep-alive tick of the watch loop.
pub const KEEP_ALIVE_MS: u64 = 1000;

/// The kind of a filesystem change notification, as far as the watch loop tells them apart.
#[derive(Clone, Copy, Debug, PartialEq, Eq, Structural)]
pub enum EventKind {
    Create,
    Modify,
    Remove,
    Access,
    Other,
}

/// The two states of the watch loop.
#[derive(Clone, Copy, Debug, PartialEq, Eq, Structural)]
pub enum WatchState {
    Starting,
    Watching,
}

/// What the host of the watch loop does next.
#[derive(Clone, Copy, Debug, PartialEq, Eq, Structural)]
pub enum WatchAction {
    /// Subscribe, non-recursively, to changes of the configuration file's path.
    Subscribe,
    /// Wait `settle_ms` milliseconds, then run the reload pipeline.
    Reload { settle_ms: u64 },
    /// Nothing to do.
    Ignore,
}

/// The decisions of the watch loop: when to subscribe and which events lead to a reload.
pub struct Watchdog {
    state: WatchState,
    guard: DebounceGuard,
}

impl Watchdog {
    /// The current state.
    pub closed spec fn state_view(&self) -> WatchState {
        self.state
    }

    /// The time of the last evaluated modify event, if any.
    pub closed spec fn last_event(&self) -> Option<u64> {
        self.guard.last()
    }

    /// A watch loop that has not started yet.
    pub fn new() -> (r: Self)
        ensures
            r.state_view() == WatchState::Starting,
            r.last_event() is None,
    {
        Watchdog { state: WatchState::Starting, guard: DebounceGuard::new() }
    }

    /// The current state.
    pub fn state(&self) -> (r: WatchState)
        ensures
            r == self.state_view(),
    {
        self.state
    }

    /// Starts watching: the debounce window counts as elapsed, so that the first modify
    /// event is accepted, and the host is told to subscribe. A loop that already
    /// watches stays as it is.
    pub fn start(&mut self) -> (r: WatchAction)
        ensures
            old(self).state_view() == WatchState::Starting ==> {
                &&& r == WatchAction::Subscribe
                &&& final(self).state_view() == WatchState::Watching
                &&& final(self).last_event() is None
            },
            old(self).state_view() == WatchState::Watching ==> {
                &&& r == WatchAction::Ignore
                &&& final(self).state_view() == old(self).state_view()
                &&& final(self).last_event() == old(self).last_event()
            },
    {
        match self.state {
            WatchState::Starting => {
                self.guard.reset();
                self.state = WatchState::Watching;
                WatchAction::Subscribe
            },
            WatchState::Watching => WatchAction::Ignore,
        }
    }

    /// Handles one change notification delivered at `now_ms`. While watching, a modify
    /// event goes through the debounce guard, which records it either way, and is
    /// answered with a reload after the settle delay when accepted. Any other event,
    /// or any event before the loop started, is ignored and changes nothing.
    pub fn on_event(&mut self, kind: EventKind, now_ms: u64) -> (r: WatchAction)
        ensures
            final(self).state_view() == old(self).state_view(),
            old(self).state_view() == WatchState::Watching && kind == EventKind::Modify ==> {
                &&& final(self).last_event() == Some(now_ms)
                &&& r == (if accepts(old(self).last_event(), now_ms) {
                    WatchAction::Reload { settle_ms: SETTLE_DELAY_MS }
                } else {
                    WatchAction::Ignore
                })
            },
            !(old(self).state_view() == WatchState::Watching && kind == EventKind::Modify) ==> {
                &&& r == WatchAction::Ignore
                &&& final(self).last_event() == old(self).last_event()
            },
    {
        match (self.state, kind) {
            (WatchState::Watching, EventKind::Modify) => {
                if self.guard.should_accept(now_ms) {
                    WatchAction::Reload { settle_ms: SETTLE_DELAY_MS }
                } else {
                    WatchAction::Ignore
                }
            },
            _ => WatchAction::Ignore,
        }
    }
}

} // verus!
