//! The latest-wins channel: a single-slot hand-off from the one acquisition
//! task to the one render task. Publishing overwrites whatever is pending;
//! taking drains the slot. Nothing is ever queued, so a burst of publishes
//! before a take delivers exactly the last value and silently supersedes
//! the rest.
use vstd::prelude::*;

use crate::DisplayState;

verus! {

/// Holds zero or one pending snapshot. The slot doubles as the pending
/// flag: `Some` means a value is waiting for the consumer.
pub struct Channel {
    slot: Option<DisplayState>,
}

/// The channel after a publish: the new value is pending, whatever was
/// there before is gone.
pub closed spec fn spec_publish(c: Channel, s: DisplayState) -> Channel {
    Channel { slot: Some(s) }
}

/// The channel and the delivered value after a take: the pending value, if
/// any, comes out, and the slot is empty afterwards.
pub closed spec fn spec_take(c: Channel) -> (Channel, Option<DisplayState>) {
    (Channel { slot: None }, c.slot)
}

impl Channel {
    /// What is pending, if anything.
    pub closed spec fn spec_pending(self) -> Option<DisplayState> {
        self.slot
    }

    /// An empty channel: nothing pending.
    pub fn new() -> (c: Channel)
        ensures
            c.spec_pending() == Option::<DisplayState>::None,
    {
        Channel { slot: None }
    }

    /// Replace whatever is pending with this snapshot and mark it pending.
    /// Never blocks and never fails; a value that was still waiting is
    /// dropped, which is the intended backpressure policy.
    pub fn publish(&mut self, s: DisplayState)
        ensures
            *final(self) == spec_publish(*old(self), s),
            final(self).spec_pending() == Some(s),
    {
        self.slot = Some(s);
    }

    /// If a snapshot is pending, clear the slot and return it; otherwise
    /// return nothing. Non-blocking either way.
    pub fn try_take(&mut self) -> (r: Option<DisplayState>)
        ensures
            (*final(self), r) == spec_take(*old(self)),
            r == old(self).spec_pending(),
            final(self).spec_pending() == Option::<DisplayState>::None,
    {
        let r = self.slot;
        self.slot = None;
        r
    }

    /// The render task's per-period decision: drain the channel if a new
    /// snapshot is pending, otherwise keep showing the one already held.
    /// The display never goes blank just because no new fix arrived.
    pub fn take_or_keep(&mut self, current: DisplayState) -> (r: DisplayState)
        ensures
            final(self).spec_pending() == Option::<DisplayState>::None,
            r == match old(self).spec_pending() {
                Some(s) => s,
                None => current,
            },
    {
        match self.try_take() {
            Some(s) => s,
            None => current,
        }
    }

    /// Whether a value is waiting for the consumer.
    pub fn is_pending(&self) -> (r: bool)
        ensures
            r == self.spec_pending().is_some(),
    {
        self.slot.is_some()
    }
}

impl Default for Channel {
    fn default() -> (c: Channel)
        ensures
            c.spec_pending() == Option::<DisplayState>::None,
    {
        Channel::new()
    }
}

/// Latest wins: two publishes followed by a take deliver exactly the later
/// value, and a second take delivers nothing.
pub proof fn lemma_latest_wins(c: Channel, s1: DisplayState, s2: DisplayState)
    ensures
        ({
            let c2 = spec_publish(spec_publish(c, s1), s2);
            let (c3, first) = spec_take(c2);
            let (_c4, second) = spec_take(c3);
            first == Some(s2) && second == Option::<DisplayState>::None
        }),
{
}

/// A take that happens before a publish does not use the published value
/// up: the next take still delivers it, exactly once.
pub proof fn lemma_take_then_publish(c: Channel, s: DisplayState)
    ensures
        ({
            let (c1, _dropped) = spec_take(c);
            let c2 = spec_publish(c1, s);
            let (c3, got) = spec_take(c2);
            let (_c4, after) = spec_take(c3);
            got == Some(s) && after == Option::<DisplayState>::None
        }),
{
}

} // verus!
