//! Runtime registration of object paths.
//!
//! The router records which targets have an object bound on the bus. The
//! manager is registered at startup; a client target is registered when its
//! session is allocated, a location target the first time its session is
//! started. Registration never removes an entry, and registering a target
//! twice is refused rather than silently rebound.

use vstd::prelude::*;

use crate::errors::Error;
use crate::paths::Target;

verus! {

/// The set of targets with a bound object, grown one at a time at runtime.
pub struct PathRouter {
    entries: Vec<Target>,
}

impl PathRouter {
    /// Whether an object is bound for `t`.
    pub closed spec fn registered(&self, t: Target) -> bool {
        self.entries@.contains(t)
    }

    /// A router with nothing bound.
    pub fn new() -> (r: PathRouter)
        ensures
            forall|t: Target| !r.registered(t),
    {
        PathRouter { entries: Vec::new() }
    }

    /// Whether a request for `t` can be dispatched.
    pub fn resolve(&self, t: Target) -> (r: bool)
        ensures
            r == self.registered(t),
    {
        let mut i: usize = 0;
        while i < self.entries.len()
            invariant
                0 <= i <= self.entries@.len(),
                forall|j: int| 0 <= j < i ==> self.entries@[j] != t,
            decreases self.entries@.len() - i,
        {
            if self.entries[i] == t {
                proof {
                    assert(self.entries@.contains(t));
                }
                return true;
            }
            i = i + 1;
        }
        proof {
            assert(!self.entries@.contains(t));
        }
        false
    }

    /// Binds an object for `t`; a target that is already bound is refused,
    /// so a binding is never replaced while requests are being served.
    pub fn register(&mut self, t: Target) -> (r: Result<(), Error>)
        ensures
            match r {
                Ok(()) => {
                    &&& !old(self).registered(t)
                    &&& forall|x: Target|
                        final(self).registered(x) == (old(self).registered(x) || x == t)
                },
                Err(e) => {
                    &&& e == Error::DuplicatePath
                    &&& old(self).registered(t)
                    &&& *final(self) == *old(self)
                },
            },
    {
        if self.resolve(t) {
            return Err(Error::DuplicatePath);
        }
        self.entries.push(t);
        proof {
            assert forall|x: Target|
                self.registered(x) == (old(self).registered(x) || x == t) by {
                if old(self).registered(x) {
                    let j = choose|j: int|
                        0 <= j < old(self).entries@.len() && old(self).entries@[j] == x;
                    assert(self.entries@[j] == x);
                    assert(self.registered(x));
                }
                if x == t {
                    assert(self.entries@.last() == x);
                    assert(self.registered(x));
                }
                if self.registered(x) {
                    let j = choose|j: int|
                        0 <= j < self.entries@.len() && self.entries@[j] == x;
                    if j < old(self).entries@.len() {
                        assert(old(self).entries@[j] == x);
                        assert(old(self).registered(x));
                    } else {
                        assert(x == t);
                    }
                }
            }
        }
        Ok(())
    }
}

} // verus!
