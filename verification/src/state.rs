//! The counters that every connection handler shares.

use vstd::prelude::*;

verus! {

/// The process-wide state: the tab count that was decoded last, on whichever
/// connection, and whether the presence service is held to be reachable.
///
/// A value of this type is one snapshot. Each operation stands for a single
/// atomic store or load; no operation touches both fields.
#[derive(Clone, Copy, Debug, PartialEq, Eq, Structural)]
pub struct State {
    pub last_seen: u32,
    pub connected: bool,
}

impl State {
    /// The snapshot after a store of `count`.
    pub open spec fn with_last_seen(self, count: u32) -> State {
        State { last_seen: count, connected: self.connected }
    }

    /// The snapshot after a store of `connected`.
    pub open spec fn with_connected(self, connected: bool) -> State {
        State { last_seen: self.last_seen, connected }
    }

    /// The state at process start: no count seen, not connected.
    pub fn new() -> (state: State)
        ensures
            state == (State { last_seen: 0, connected: false }),
    {
        State { last_seen: 0, connected: false }
    }

    /// Loads the last seen count.
    pub fn last_seen(&self) -> (count: u32)
        ensures
            count == self.last_seen,
    {
        self.last_seen
    }

    /// Loads the connectivity flag.
    pub fn connected(&self) -> (connected: bool)
        ensures
            connected == self.connected,
    {
        self.connected
    }

    /// Stores `count` as the last seen count and leaves the flag alone.
    pub fn store_last_seen(&mut self, count: u32)
        ensures
            *final(self) == old(self).with_last_seen(count),
    {
        self.last_seen = count;
    }

    /// Stores the connectivity flag and leaves the count alone.
    pub fn store_connected(&mut self, connected: bool)
        ensures
            *final(self) == old(self).with_connected(connected),
    {
        self.connected = connected;
    }
}

impl Default for State {
    fn default() -> (state: State)
        ensures
            state == (State { last_seen: 0, connected: false }),
    {
        State::new()
    }
}

} // verus!
