//! The one-shot handle returned by every dynamic operation.
use vstd::prelude::*;

verus! {

/// A heap-owned unit of work whose result is handed out exactly once.
pub struct Suspended<T> {
    slot: Option<Box<T>>,
}

impl<T> Suspended<T> {
    /// The result still held, or `None` once it was handed out.
    pub closed spec fn pending(&self) -> Option<T> {
        match self.slot {
            Some(b) => Some(*b),
            None => None,
        }
    }

    /// Whether the handle has already yielded its result.
    pub open spec fn spent(&self) -> bool {
        self.pending() is None
    }

    /// The result the handle yields when driven.
    pub open spec fn output(&self) -> T
        recommends
            !self.spent(),
    {
        self.pending()->Some_0
    }

    /// Packages a completed result into a fresh handle.
    pub fn ready(value: T) -> (r: Self)
        ensures
            r.pending() == Some(value),
    {
        Suspended { slot: Some(Box::new(value)) }
    }

    /// Whether the handle has already yielded its result.
    pub fn is_spent(&self) -> (r: bool)
        ensures
            r == self.spent(),
    {
        self.slot.is_none()
    }

    /// Drives the handle: the first call yields the result, every later call
    /// yields nothing.
    pub fn poll(&mut self) -> (r: Option<T>)
        ensures
            r == old(self).pending(),
            final(self).spent(),
    {
        match self.slot.take() {
            Some(b) => Some(*b),
            None => None,
        }
    }

    /// Drives a fresh handle to completion, consuming it.
    pub fn wait(self) -> (r: T)
        requires
            !self.spent(),
        ensures
            r == self.output(),
    {
        let b = self.slot.unwrap();
        *b
    }
}

} // verus!
