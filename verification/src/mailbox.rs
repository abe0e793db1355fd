//! A single-slot, last-value-wins handoff cell.
//!
//! The engine's finished-battle artifacts are handed to the UI through two
//! such slots: writing overwrites any unclaimed prior contents, reading
//! takes and clears. This is intentional at-most-one-pending-result
//! behavior, not a queue — only the most recent battle's export matters.

use vstd::prelude::*;

verus! {

/// A single-slot mailbox holding at most one pending value.
pub struct Mailbox<T> {
    slot: Option<T>,
}

impl<T> Mailbox<T> {
    /// What the mailbox currently holds, if anything.
    pub closed spec fn view(&self) -> Option<T> {
        self.slot
    }

    /// An empty mailbox.
    pub fn empty() -> (m: Mailbox<T>)
        ensures
            m@ == None::<T>,
    {
        Mailbox { slot: None }
    }

    /// Stores a value, overwriting any unclaimed prior contents.
    pub fn put(&mut self, value: T)
        ensures
            final(self)@ == Some(value),
    {
        self.slot = Some(value);
    }

    /// Takes and clears the pending value, if any.
    pub fn take(&mut self) -> (r: Option<T>)
        ensures
            r == old(self)@,
            final(self)@ == None::<T>,
    {
        self.slot.take()
    }

    /// Whether a value is pending.
    pub fn is_pending(&self) -> (r: bool)
        ensures
            r == (self@ is Some),
    {
        self.slot.is_some()
    }
}

} // verus!
