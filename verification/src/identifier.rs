//! The shared client identifier.
//!
//! The identifier starts out unset and is filled in at most by the bootstrap
//! flow. Nothing in the crate clears it, so an identifier that was obtained
//! stays for the rest of the process.

use vstd::prelude::*;

verus! {

/// The client identifier, once it is known.
///
/// The view is `None` while the identifier is unset and `Some` of its
/// characters once it was loaded or fetched.
pub struct UidState {
    uid: Option<String>,
}

impl View for UidState {
    type V = Option<Seq<char>>;

    closed spec fn view(&self) -> Option<Seq<char>> {
        match self.uid {
            Some(s) => Some(s@),
            None => None,
        }
    }
}

impl UidState {
    /// A fresh, unset identifier.
    pub fn new() -> (s: Self)
        ensures
            s@ is None,
    {
        UidState { uid: None }
    }

    /// A copy of the identifier, if it is known.
    pub fn get(&self) -> (uid: Option<String>)
        ensures
            uid is Some <==> self@ is Some,
            uid matches Some(s) ==> self@ == Some(s@),
    {
        match &self.uid {
            Some(s) => Some(s.clone()),
            None => None,
        }
    }

    /// Whether the identifier is known.
    pub fn is_set(&self) -> (known: bool)
        ensures
            known == (self@ is Some),
    {
        self.uid.is_some()
    }

    /// Records the identifier.
    pub(crate) fn set(&mut self, uid: String)
        ensures
            final(self)@ == Some(uid@),
    {
        self.uid = Some(uid);
    }
}

} // verus!
