//! When to listen for events and when to poll.
use vstd::prelude::*;

verus! {

/// Event ticks without any event, before the first one, after which
/// listening is switched off.
pub const MAX_ATTEMPTS_WITHOUT_EVENTS: u32 = 10;

/// Listening state of the scheduling loop.
#[derive(Debug, Clone, Copy, PartialEq, Eq, Structural)]
pub struct ListenPolicy {
    /// Whether any event was ever received.
    pub events_received: bool,
    /// Whether event ticks still listen.
    pub listening_enabled: bool,
    /// Event ticks without an event since the last one.
    pub no_event_attempts: u32,
}

impl ListenPolicy {
    pub fn new() -> (r: ListenPolicy)
        ensures
            r == (ListenPolicy { events_received: false, listening_enabled: true, no_event_attempts: 0 }),
    {
        ListenPolicy { events_received: false, listening_enabled: true, no_event_attempts: 0 }
    }

    /// Records the result of one event tick. Listening is switched off for
    /// good once [`MAX_ATTEMPTS_WITHOUT_EVENTS`] ticks passed without any
    /// event ever having arrived; a disabled policy ignores ticks.
    pub fn on_event_tick(&mut self, got_event: bool)
        ensures
            !old(self).listening_enabled ==> *final(self) == *old(self),
            old(self).listening_enabled && got_event ==> *final(self) == (ListenPolicy {
                events_received: true,
                listening_enabled: true,
                no_event_attempts: 0,
            }),
            old(self).listening_enabled && !got_event ==> {
                let attempts = if old(self).no_event_attempts < u32::MAX {
                    (old(self).no_event_attempts + 1) as u32
                } else {
                    u32::MAX
                };
                *final(self) == (ListenPolicy {
                    events_received: old(self).events_received,
                    listening_enabled: old(self).events_received || attempts < MAX_ATTEMPTS_WITHOUT_EVENTS,
                    no_event_attempts: attempts,
                })
            },
    {
        if !self.listening_enabled {
            return;
        }
        if got_event {
            self.events_received = true;
            self.no_event_attempts = 0;
        } else {
            self.no_event_attempts = self.no_event_attempts.saturating_add(1);
            if !self.events_received && self.no_event_attempts >= MAX_ATTEMPTS_WITHOUT_EVENTS {
                self.listening_enabled = false;
            }
        }
    }

    /// Whether a polling tick should read the battery actively: when no
    /// reading arrived for longer than the polling interval, or when
    /// listening is off.
    pub fn should_poll(&self, secs_since_last_reading: u64, polling_interval: u64) -> (r: bool)
        ensures
            r == (secs_since_last_reading > polling_interval || !self.listening_enabled),
    {
        secs_since_last_reading > polling_interval || !self.listening_enabled
    }
}

} // verus!
