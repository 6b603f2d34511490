//! Per-client session state.
//!
//! A session is allocated by the manager for one caller and moves through
//! `Created` (never started, no location child), `Bound` (inactive, but a
//! location child exists from an earlier start) and `Active`. The
//! `location_bound` flag records "activated at least once": the location
//! child path is registered exactly while it is set, and it is never
//! cleared again.

use vstd::prelude::*;

use crate::paths::{location_path_spec, root_path_spec, location_path_bytes, root_path_bytes};

verus! {

/// Mathematical image of a session.
#[verifier::ext_equal]
pub struct SessionView {
    pub client_id: u32,
    pub sender: Seq<char>,
    pub distance_threshold: u32,
    pub time_threshold: u32,
    pub desktop_id: Seq<char>,
    pub requested_accuracy_level: u32,
    pub active: bool,
    pub location_bound: bool,
}

/// The state a session is allocated in: inactive, no location child,
/// every property at its default.
pub open spec fn fresh_session_view(id: u32, sender: Seq<char>) -> SessionView {
    SessionView {
        client_id: id,
        sender: sender,
        distance_threshold: 0,
        time_threshold: 0,
        desktop_id: Seq::<char>::empty(),
        requested_accuracy_level: 0,
        active: false,
        location_bound: false,
    }
}

/// One client's session: its identity, the caller that owns it, its
/// settable properties and its activation state.
pub struct ClientSession {
    /// Unique, never reused identity; also the session's registry index.
    pub client_id: u32,
    /// Opaque identity of the caller the manager allocated this for.
    pub sender: String,
    /// Settable and echoed back; does not alter behaviour here.
    pub distance_threshold: u32,
    /// Settable and echoed back; accepted but inert.
    pub time_threshold: u32,
    /// Settable identifier of the client application.
    pub desktop_id: String,
    /// Settable and echoed back; accepted but inert.
    pub requested_accuracy_level: u32,
    /// Whether the session is started.
    pub active: bool,
    /// Whether the session has ever been started, and so has a location
    /// child path registered.
    pub location_bound: bool,
}

impl View for ClientSession {
    type V = SessionView;

    open spec fn view(&self) -> SessionView {
        SessionView {
            client_id: self.client_id,
            sender: self.sender@,
            distance_threshold: self.distance_threshold,
            time_threshold: self.time_threshold,
            desktop_id: self.desktop_id@,
            requested_accuracy_level: self.requested_accuracy_level,
            active: self.active,
            location_bound: self.location_bound,
        }
    }
}

impl ClientSession {
    /// A session as the manager allocates it.
    pub fn new(id: u32, sender: String) -> (s: ClientSession)
        ensures
            s@ == fresh_session_view(id, sender@),
    {
        let s = ClientSession {
            client_id: id,
            sender,
            distance_threshold: 0,
            time_threshold: 0,
            desktop_id: String::new(),
            requested_accuracy_level: 0,
            active: false,
            location_bound: false,
        };
        proof {
            assert(s@ =~= fresh_session_view(id, s.sender@));
        }
        s
    }

    /// Sets the distance threshold; the new value is echoed on later reads.
    pub fn set_distance_threshold(&mut self, v: u32)
        ensures
            final(self)@ == (SessionView { distance_threshold: v, ..old(self)@ }),
    {
        self.distance_threshold = v;
        proof {
            assert(final(self)@ =~= (SessionView { distance_threshold: v, ..old(self)@ }));
        }
    }

    /// Sets the time threshold; accepted and echoed, otherwise inert.
    pub fn set_time_threshold(&mut self, v: u32)
        ensures
            final(self)@ == (SessionView { time_threshold: v, ..old(self)@ }),
    {
        self.time_threshold = v;
        proof {
            assert(final(self)@ =~= (SessionView { time_threshold: v, ..old(self)@ }));
        }
    }

    /// Sets the desktop identifier.
    pub fn set_desktop_id(&mut self, v: String)
        ensures
            final(self)@ == (SessionView { desktop_id: v@, ..old(self)@ }),
    {
        self.desktop_id = v;
        proof {
            assert(final(self)@ =~= (SessionView { desktop_id: self.desktop_id@, ..old(self)@ }));
        }
    }

    /// Sets the requested accuracy level; accepted and echoed, otherwise
    /// inert.
    pub fn set_requested_accuracy_level(&mut self, v: u32)
        ensures
            final(self)@ == (SessionView { requested_accuracy_level: v, ..old(self)@ }),
    {
        self.requested_accuracy_level = v;
        proof {
            assert(final(self)@ =~= (SessionView { requested_accuracy_level: v, ..old(self)@ }));
        }
    }

    /// What the session's location property reports: the location child's
    /// path while active, the sentinel root path while inactive — even
    /// though a once-created child object remains queryable.
    pub fn location_property(&self) -> (p: Vec<u8>)
        ensures
            p@ == if self.active {
                location_path_spec(self.client_id)
            } else {
                root_path_spec()
            },
    {
        if self.active {
            location_path_bytes(self.client_id)
        } else {
            root_path_bytes()
        }
    }
}

} // verus!
