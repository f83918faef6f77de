//! The execution context that a call borrows for its whole duration.

use vstd::prelude::*;

verus! {

/// The mutable context of one instantiation. It carries the raw pointer by
/// which guest-side code finds it again, and a slot for at most one
/// callback that is to run after the next host call returns. `C` is the
/// type of such a callback.
pub struct Store<C> {
    raw: usize,
    on_called: Option<C>,
}

impl<C> Store<C> {
    /// The raw context pointer.
    pub closed spec fn raw_spec(&self) -> usize {
        self.raw
    }

    /// The callback that is waiting in the slot, if any.
    pub closed spec fn pending(&self) -> Option<C> {
        self.on_called
    }

    /// A store for the context at `raw`, with nothing in the slot.
    pub fn new(raw: usize) -> (store: Store<C>)
        ensures
            store.raw_spec() == raw,
            store.pending() is None,
    {
        Store { raw, on_called: None }
    }

    /// The raw context pointer.
    pub fn as_raw(&self) -> (raw: usize)
        ensures
            raw == self.raw_spec(),
    {
        self.raw
    }

    /// Puts `callback` into the slot, in place of what was there.
    pub fn on_called(&mut self, callback: C)
        ensures
            final(self).pending() == Some(callback),
            final(self).raw_spec() == old(self).raw_spec(),
    {
        self.on_called = Some(callback);
    }

    /// Whether a callback is waiting in the slot.
    pub fn has_on_called(&self) -> (yes: bool)
        ensures
            yes == (self.pending() is Some),
    {
        self.on_called.is_some()
    }

    /// Reads the slot and empties it, in one step.
    pub fn take_on_called(&mut self) -> (callback: Option<C>)
        ensures
            callback == old(self).pending(),
            final(self).pending() is None,
            final(self).raw_spec() == old(self).raw_spec(),
    {
        self.on_called.take()
    }
}

} // verus!
