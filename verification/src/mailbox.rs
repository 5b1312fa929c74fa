//! Single-slot, latest-value-wins mailbox: the cross-task signalling model
//! of this link layer. A producer's new signal overwrites an unconsumed one
//! rather than queueing behind it, so a consumer must treat a signal as a
//! level trigger, never as a counted event stream.

use vstd::prelude::*;

verus! {

/// A single-slot mailbox; at most one value is pending at a time.
pub struct Mailbox<T> {
    slot: Option<T>,
}

impl<T> Mailbox<T> {
    /// The value waiting to be consumed, if any.
    pub closed spec fn pending(self) -> Option<T> {
        self.slot
    }

    /// A fresh mailbox holds nothing.
    pub fn new() -> (m: Self)
        ensures
            m.pending() is None,
    {
        Mailbox { slot: None }
    }

    /// Posts a value: whatever was pending is overwritten and lost.
    pub fn signal(&mut self, v: T)
        ensures
            final(self).pending() == Some(v),
    {
        self.slot = Some(v);
    }

    /// Consumes the pending value, leaving the mailbox empty.
    pub fn take(&mut self) -> (r: Option<T>)
        ensures
            r == old(self).pending(),
            final(self).pending() is None,
    {
        self.slot.take()
    }

    /// Whether a value is pending.
    pub fn is_signalled(&self) -> (b: bool)
        ensures
            b == (self.pending() is Some),
    {
        self.slot.is_some()
    }
}

} // verus!
