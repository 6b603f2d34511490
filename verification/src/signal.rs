//! The change-of-location notification.
//!
//! Activating a session emits exactly one `LocationUpdated` signal to the
//! subscribers of that session's path. This module builds the payload; the
//! bus transport delivers it, and a delivery failure is a degraded warning
//! for the caller of the start operation, never fatal to the transition.

use vstd::prelude::*;

use crate::paths::{
    location_path_bytes, location_path_spec, root_path_bytes, root_path_spec,
};

verus! {

/// Payload of one `LocationUpdated` signal: the path the location moved
/// from and the path it moved to.
#[derive(PartialEq, Eq, Debug)]
pub struct LocationUpdated {
    pub old_path: Vec<u8>,
    pub new_path: Vec<u8>,
}

/// The notification for an activation of session `id`: always from the
/// sentinel root path to the session's location child path.
pub fn location_updated_signal(id: u32) -> (s: LocationUpdated)
    ensures
        s.old_path@ == root_path_spec(),
        s.new_path@ == location_path_spec(id),
{
    LocationUpdated { old_path: root_path_bytes(), new_path: location_path_bytes(id) }
}

} // verus!
