//! The shared liveness flag of the remote service.
//!
//! The flag has one writer, the status monitor, and any number of readers.
//! Writing is therefore kept inside the crate: outside code obtains a flag in
//! its default position and can only read it.

use vstd::prelude::*;

verus! {

/// Whether the remote service was reachable at the most recent poll.
///
/// The view of a flag is the boolean it holds: `true` for online.
pub struct ServiceStatus {
    status: bool,
}

impl View for ServiceStatus {
    type V = bool;

    closed spec fn view(&self) -> bool {
        self.status
    }
}

impl ServiceStatus {
    /// A fresh flag. Until the first poll completes the service counts as
    /// offline.
    pub fn new() -> (s: Self)
        ensures
            s@ == false,
    {
        ServiceStatus { status: false }
    }

    /// A fresh flag that starts from a configured default.
    pub fn with_default(online: bool) -> (s: Self)
        ensures
            s@ == online,
    {
        ServiceStatus { status: online }
    }

    /// The current value of the flag.
    pub fn get(&self) -> (online: bool)
        ensures
            online == self@,
    {
        self.status
    }

    /// Replaces the value of the flag.
    pub(crate) fn set(&mut self, online: bool)
        ensures
            final(self)@ == online,
    {
        self.status = online;
    }
}

} // verus!
