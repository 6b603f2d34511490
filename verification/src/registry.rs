//! The process-wide collection of client sessions.
//!
//! Sessions are appended in allocation order and never destroyed; a
//! session's identity equals its index, so the registry is the arena that
//! requests are dispatched through. The identity counter never wraps:
//! exhaustion is a fatal condition, never a silent reuse.

use vstd::prelude::*;

use crate::errors::Error;
use crate::session::{fresh_session_view, ClientSession};

verus! {

/// Append-only store of every session allocated so far.
pub struct SessionRegistry {
    /// Session with identity `i` sits at index `i`.
    pub sessions: Vec<ClientSession>,
    /// The next identity to hand out; equals the number of sessions.
    pub next_id: u32,
}

impl SessionRegistry {
    /// Identities are assigned from zero without gaps, so the counter
    /// counts the sessions and each session sits at its own identity.
    pub open spec fn wf(&self) -> bool {
        &&& self.sessions@.len() == self.next_id as int
        &&& forall|i: int|
            0 <= i < self.sessions@.len() ==> (#[trigger] self.sessions@[i]).client_id == i
    }

    /// An empty registry with the counter at zero.
    pub fn new() -> (r: SessionRegistry)
        ensures
            r.wf(),
            r.next_id == 0,
            r.sessions@.len() == 0,
    {
        SessionRegistry { sessions: Vec::new(), next_id: 0 }
    }

    /// Allocates a session for `sender` under a fresh identity: one new
    /// entry, every older entry untouched. When the identity space is used
    /// up the registry refuses — identities are never reused.
    pub fn allocate(&mut self, sender: String) -> (r: Result<u32, Error>)
        ensures
            old(self).wf() ==> final(self).wf(),
            match r {
                Ok(id) => {
                    &&& old(self).next_id < u32::MAX
                    &&& id == old(self).next_id
                    &&& final(self).next_id == old(self).next_id + 1
                    &&& final(self).sessions@.len() == old(self).sessions@.len() + 1
                    &&& forall|i: int|
                        0 <= i < old(self).sessions@.len()
                            ==> final(self).sessions@[i] == old(self).sessions@[i]
                    &&& final(self).sessions@.last()@ == fresh_session_view(id, sender@)
                },
                Err(e) => {
                    &&& e == Error::IdentitySpaceExhausted
                    &&& old(self).next_id == u32::MAX
                    &&& *final(self) == *old(self)
                },
            },
    {
        if self.next_id == u32::MAX {
            return Err(Error::IdentitySpaceExhausted);
        }
        let id = self.next_id;
        self.sessions.push(ClientSession::new(id, sender));
        self.next_id = id + 1;
        Ok(id)
    }
}

} // verus!
