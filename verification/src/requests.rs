//! The life of a request sent from a form or button: at most one in flight, its
//! error shown until the next attempt. Also the guard that lets a page take the
//! data it loaded only once.

use vstd::prelude::*;

verus! {

/// Whether a request is in flight, and the last error to show.
pub struct PendingRequest {
    pub busy: bool,
    pub error: Option<String>,
}

impl PendingRequest {
    /// Nothing sent, nothing to show.
    pub fn new() -> (r: Self)
        ensures
            !r.busy,
            r.error is None,
    {
        PendingRequest { busy: false, error: None }
    }

    /// A click that would send the request: refused while one is in flight;
    /// otherwise the request goes out and the old error is cleared.
    pub fn begin(&mut self) -> (started: bool)
        ensures
            old(self).busy ==> !started && *final(self) == *old(self),
            !old(self).busy ==> started && final(self).busy && final(self).error is None,
    {
        if self.busy {
            false
        } else {
            self.busy = true;
            self.error = None;
            true
        }
    }

    /// The form refused its input before sending anything.
    pub fn reject(&mut self, message: String)
        ensures
            final(self).busy == old(self).busy,
            final(self).error == Some(message),
    {
        self.error = Some(message);
    }

    /// The request succeeded.
    pub fn succeed(&mut self)
        ensures
            !final(self).busy,
            final(self).error == old(self).error,
    {
        self.busy = false;
    }

    /// The request failed with the given message.
    pub fn fail(&mut self, message: String)
        ensures
            !final(self).busy,
            final(self).error == Some(message),
    {
        self.busy = false;
        self.error = Some(message);
    }
}

/// Whether a page has already taken the data it loaded, so that a later reload
/// does not overwrite what the user has changed since.
pub struct LoadOnce {
    pub taken: bool,
}

impl LoadOnce {
    /// Nothing taken yet.
    pub fn new() -> (l: Self)
        ensures
            !l.taken,
    {
        LoadOnce { taken: false }
    }

    /// Whether the data that just arrived is the first to be taken: true on the
    /// first call only, false on every later one.
    pub fn take(&mut self) -> (first: bool)
        ensures
            first == !old(self).taken,
            final(self).taken,
    {
        if self.taken {
            false
        } else {
            self.taken = true;
            true
        }
    }
}

} // verus!
