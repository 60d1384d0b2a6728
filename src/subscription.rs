//! The single slot that holds the one subscriber of hotkey events.

use vstd::prelude::*;

verus! {

/// Holds at most one subscriber; a new one is installed only into an empty
/// slot, so a previous subscriber is always detached first.
pub struct Subscription<T> {
    current: Option<T>,
}

impl<T> View for Subscription<T> {
    type V = Option<T>;

    closed spec fn view(&self) -> Option<T> {
        self.current
    }
}

impl<T> Subscription<T> {
    /// An empty slot.
    pub fn new() -> (r: Subscription<T>)
        ensures
            r@ is None,
    {
        Subscription { current: None }
    }

    /// Whether a subscriber is installed.
    pub fn is_subscribed(&self) -> (r: bool)
        ensures
            r <==> self@ is Some,
    {
        self.current.is_some()
    }

    /// Installs `subscriber` into an empty slot and returns `true`; returns
    /// `false`, keeping the slot as it is, when a subscriber is already there.
    pub fn install(&mut self, subscriber: T) -> (r: bool)
        ensures
            r <==> old(self)@ is None,
            final(self)@ == (if r { Some(subscriber) } else { old(self)@ }),
    {
        if self.current.is_some() {
            return false;
        }
        self.current = Some(subscriber);
        true
    }

    /// Takes the subscriber out of the slot, if any; detaching an empty slot
    /// does nothing, so it can be repeated.
    pub fn detach(&mut self) -> (r: Option<T>)
        ensures
            r == old(self)@,
            final(self)@ is None,
    {
        self.current.take()
    }

    /// The installed subscriber, if any.
    pub fn current(&self) -> (r: Option<&T>)
        ensures
            r matches Some(s) ==> self@ == Some(*s),
            r is None <==> self@ is None,
    {
        self.current.as_ref()
    }
}

} // verus!
