//! The service: registry, router and store tied together, and every
//! operation a bus request can reach.
//!
//! `GeoService::wf` is the process invariant: identities are gapless and
//! never reused, the manager is always routable, a client target is
//! routable exactly when its session exists, and a location target is
//! routable exactly when its session has been started at least once — once
//! created, a location child is never removed, even after a stop.
//!
//! Every operation requires and re-establishes `wf`, never touches the
//! positional fix, and reports each failure of the taxonomy exactly on the
//! inputs that provoke it.
//!
//! All operations are short, synchronous, in-memory computations. The
//! shell serialises bus requests into this state under one exclusive
//! discipline, so no operation ever holds session state while blocking on
//! the transport; a fix read happens after the session lookup and holds
//! nothing across it.

use vstd::prelude::*;

use crate::errors::Error;
use crate::fix::{FixView, LocationStore, PositionFix};
use crate::paths::{
    client_path_spec, location_path_spec, parse_path, root_path_spec, target_of, Target,
};
use crate::paths::client_path_bytes;
use crate::registry::SessionRegistry;
use crate::router::PathRouter;
use crate::session::{fresh_session_view, SessionView};
use crate::signal::{location_updated_signal, LocationUpdated};

verus! {

/// A readable or settable property of a client session.
#[derive(PartialEq, Eq, Structural, Clone, Copy, Debug)]
pub enum ClientProperty {
    /// Read-only: the location child path while active, the root sentinel
    /// while inactive.
    Location,
    /// Read-write, echoed back.
    DistanceThreshold,
    /// Read-write, accepted but inert.
    TimeThreshold,
    /// Read-write identifier of the client application.
    DesktopId,
    /// Read-write, accepted but inert.
    RequestedAccuracyLevel,
    /// Read-only activation flag.
    Active,
}

/// A readable property of a location object. All are read-only projections
/// of the shared positional fix. The timestamp is exposed as a bare
/// unsigned seconds count.
#[derive(PartialEq, Eq, Structural, Clone, Copy, Debug)]
pub enum LocationProperty {
    Latitude,
    Longitude,
    Accuracy,
    Altitude,
    Speed,
    Heading,
    Description,
    Timestamp,
}

/// A property value as handed over the bus boundary.
#[derive(PartialEq, Eq, Debug)]
pub enum PropValue {
    /// An object path, as an ASCII byte string.
    ObjectPath(Vec<u8>),
    /// A 32-bit unsigned value.
    U32(u32),
    /// The bit pattern of a 64-bit floating point reading.
    F64Bits(u64),
    /// A 64-bit unsigned value.
    U64(u64),
    /// A text value.
    Text(String),
    /// A boolean value.
    Bool(bool),
}

/// Mathematical image of a property value.
pub enum PropValueView {
    ObjectPath(Seq<u8>),
    U32(u32),
    F64Bits(u64),
    U64(u64),
    Text(Seq<char>),
    Bool(bool),
}

impl View for PropValue {
    type V = PropValueView;

    open spec fn view(&self) -> PropValueView {
        match self {
            PropValue::ObjectPath(p) => PropValueView::ObjectPath(p@),
            PropValue::U32(v) => PropValueView::U32(*v),
            PropValue::F64Bits(v) => PropValueView::F64Bits(*v),
            PropValue::U64(v) => PropValueView::U64(*v),
            PropValue::Text(s) => PropValueView::Text(s@),
            PropValue::Bool(b) => PropValueView::Bool(*b),
        }
    }
}

/// What reading a client property returns, as a function of the session.
pub open spec fn client_prop_view(s: SessionView, prop: ClientProperty) -> PropValueView {
    match prop {
        ClientProperty::Location => PropValueView::ObjectPath(
            if s.active {
                location_path_spec(s.client_id)
            } else {
                root_path_spec()
            },
        ),
        ClientProperty::DistanceThreshold => PropValueView::U32(s.distance_threshold),
        ClientProperty::TimeThreshold => PropValueView::U32(s.time_threshold),
        ClientProperty::DesktopId => PropValueView::Text(s.desktop_id),
        ClientProperty::RequestedAccuracyLevel => PropValueView::U32(s.requested_accuracy_level),
        ClientProperty::Active => PropValueView::Bool(s.active),
    }
}

/// What reading a location property returns, as a function of the fix.
pub open spec fn location_prop_view(f: FixView, prop: LocationProperty) -> PropValueView {
    match prop {
        LocationProperty::Latitude => PropValueView::F64Bits(f.latitude_bits),
        LocationProperty::Longitude => PropValueView::F64Bits(f.longitude_bits),
        LocationProperty::Accuracy => PropValueView::F64Bits(f.accuracy_bits),
        LocationProperty::Altitude => PropValueView::F64Bits(f.altitude_bits),
        LocationProperty::Speed => PropValueView::F64Bits(f.speed_bits),
        LocationProperty::Heading => PropValueView::F64Bits(f.heading_bits),
        LocationProperty::Description => PropValueView::Text(f.description),
        LocationProperty::Timestamp => PropValueView::U64(f.timestamp),
    }
}

/// The whole service state: one registry, one router, one fix store.
pub struct GeoService {
    pub registry: SessionRegistry,
    pub router: PathRouter,
    pub store: LocationStore,
}

/// How a request path addressed at a client session resolves: the session's
/// identity, or the exact failure — a malformed path is `InvalidPath`, a
/// well-formed path with no live session behind it is `NoSuchObject`.
pub open spec fn client_lookup(s: GeoService, p: Seq<u8>) -> Result<u32, Error> {
    match target_of(p) {
        Option::None => Err(Error::InvalidPath),
        Option::Some(Target::Client { id }) => if id < s.registry.next_id {
            Ok(id)
        } else {
            Err(Error::NoSuchObject)
        },
        Option::Some(_) => Err(Error::NoSuchObject),
    }
}

/// How a request path addressed at a location object resolves. The object
/// exists only once its session has been started at least once.
pub open spec fn location_lookup(s: GeoService, p: Seq<u8>) -> Result<u32, Error> {
    match target_of(p) {
        Option::None => Err(Error::InvalidPath),
        Option::Some(Target::Location { id }) => if id < s.registry.next_id
            && s.registry.sessions@[id as int].location_bound {
            Ok(id)
        } else {
            Err(Error::NoSuchObject)
        },
        Option::Some(_) => Err(Error::NoSuchObject),
    }
}

impl GeoService {
    /// The process invariant relating the three shared structures.
    pub open spec fn wf(&self) -> bool {
        &&& self.registry.wf()
        &&& self.router.registered(Target::Manager)
        &&& forall|id: u32|
            #[trigger] self.router.registered(Target::Client { id })
                <==> id < self.registry.next_id
        &&& forall|id: u32|
            #[trigger] self.router.registered(Target::Location { id })
                <==> id < self.registry.next_id
                    && self.registry.sessions@[id as int].location_bound
    }

    /// A service over the given fix: no sessions yet, only the manager
    /// routable.
    pub fn new(fix: PositionFix) -> (s: GeoService)
        ensures
            s.wf(),
            s.registry.next_id == 0,
            s.registry.sessions@.len() == 0,
            s.store@ == fix@,
            forall|t: Target| s.router.registered(t) <==> t == Target::Manager,
    {
        let mut router = PathRouter::new();
        let reg = router.register(Target::Manager);
        proof {
            // a fresh router holds nothing, so the manager's target is free
            assert(reg is Ok);
        }
        GeoService { registry: SessionRegistry::new(), router, store: LocationStore::new(fix) }
    }

    /// Resolves a path that must address a live client session.
    fn resolve_client(&self, path: &[u8]) -> (r: Result<u32, Error>)
        requires
            self.wf(),
        ensures
            r == client_lookup(*self, path@),
    {
        match parse_path(path) {
            Option::None => Err(Error::InvalidPath),
            Option::Some(Target::Client { id }) => {
                if self.router.resolve(Target::Client { id }) {
                    Ok(id)
                } else {
                    Err(Error::NoSuchObject)
                }
            },
            Option::Some(_) => Err(Error::NoSuchObject),
        }
    }

    /// Allocates a session for the caller and returns its path.
    ///
    /// Exactly one new registry entry and one new router binding per call;
    /// the path is minted from the counter, so successive calls return
    /// strictly increasing identities and pairwise distinct paths. A call
    /// with no caller identity is refused; a counter at the end of the
    /// identity space is fatal, never wrapped.
    pub fn get_client(&mut self, sender: Option<String>) -> (r: Result<Vec<u8>, Error>)
        requires
            old(self).wf(),
        ensures
            final(self).wf(),
            final(self).store@ == old(self).store@,
            match r {
                Ok(path) => {
                    &&& sender is Some
                    &&& old(self).registry.next_id < u32::MAX
                    &&& path@ == client_path_spec(old(self).registry.next_id)
                    &&& final(self).registry.next_id == old(self).registry.next_id + 1
                    &&& final(self).registry.sessions@.len()
                        == old(self).registry.sessions@.len() + 1
                    &&& forall|i: int|
                        0 <= i < old(self).registry.sessions@.len()
                            ==> final(self).registry.sessions@[i]
                                == old(self).registry.sessions@[i]
                    &&& final(self).registry.sessions@.last()@
                        == fresh_session_view(old(self).registry.next_id, (sender->0)@)
                    &&& forall|x: Target|
                        final(self).router.registered(x) == (old(self).router.registered(x)
                            || x == (Target::Client { id: old(self).registry.next_id }))
                },
                Err(e) => {
                    &&& *final(self) == *old(self)
                    &&& (e == Error::NoSender <==> sender is None)
                    &&& (sender is Some ==> e == Error::IdentitySpaceExhausted
                        && old(self).registry.next_id == u32::MAX)
                },
            },
    {
        let sender_id = match sender {
            Option::None => {
                return Err(Error::NoSender);
            },
            Option::Some(s) => s,
        };
        let id = match self.registry.allocate(sender_id) {
            Err(e) => {
                return Err(e);
            },
            Ok(id) => id,
        };
        let reg = self.router.register(Target::Client { id });
        match reg {
            Err(e) => {
                // the identity is fresh, so by `wf` its target was unbound
                proof {
                    assert(false);
                }
                Err(e)
            },
            Ok(()) => {
                proof {
                    lemma_wf_after_get_client(*old(self), *self, id);
                }
                Ok(client_path_bytes(id))
            },
        }
    }

    /// Starts a session: the state machine's activation transition.
    ///
    /// On the first start the location child path is created and bound; a
    /// repeated start re-signals but binds nothing new. Exactly one
    /// `LocationUpdated` notification is returned per successful call, and
    /// its payload is always (root sentinel, the session's location path).
    pub fn client_start(&mut self, path: &[u8], sender: Option<&str>) -> (r: Result<
        LocationUpdated,
        Error,
    >)
        requires
            old(self).wf(),
        ensures
            final(self).wf(),
            final(self).store@ == old(self).store@,
            final(self).registry.next_id == old(self).registry.next_id,
            match r {
                Ok(sig) => {
                    &&& sender is Some
                    &&& client_lookup(*old(self), path@) matches Ok(id)
                        && sig.old_path@ == root_path_spec()
                        && sig.new_path@ == location_path_spec(id)
                        && final(self).registry.sessions@[id as int]@ == (SessionView {
                            active: true,
                            location_bound: true,
                            ..old(self).registry.sessions@[id as int]@
                        })
                        && (forall|i: int|
                            0 <= i < old(self).registry.sessions@.len() && i != id
                                ==> final(self).registry.sessions@[i]
                                    == old(self).registry.sessions@[i])
                        && (forall|x: Target|
                            final(self).router.registered(x) == (old(
                                self,
                            ).router.registered(x) || x == (Target::Location { id })))
                },
                Err(e) => {
                    &&& *final(self) == *old(self)
                    &&& if sender is None {
                        e == Error::NoSender
                    } else {
                        client_lookup(*old(self), path@) == Err::<u32, Error>(e)
                    }
                },
            },
    {
        if sender.is_none() {
            return Err(Error::NoSender);
        }
        let id = match self.resolve_client(path) {
            Err(e) => {
                return Err(e);
            },
            Ok(id) => id,
        };
        let idx = id as usize;
        let was_bound = self.registry.sessions[idx].location_bound;
        if !was_bound {
            let reg = self.router.register(Target::Location { id });
            match reg {
                Err(e) => {
                    // by `wf` an unbound session has no location target bound
                    proof {
                        assert(false);
                    }
                    return Err(e);
                },
                Ok(()) => {},
            }
        }
        let sess = &mut self.registry.sessions[idx];
        sess.active = true;
        sess.location_bound = true;
        proof {
            lemma_wf_after_start(*old(self), *self, id);
            assert(self.registry.sessions@[id as int]@ =~= (SessionView {
                active: true,
                location_bound: true,
                ..old(self).registry.sessions@[id as int]@
            }));
        }
        Ok(location_updated_signal(id))
    }

    /// Stops a session: clears the active flag and nothing else. The
    /// location child stays bound and queryable; no notification is
    /// emitted.
    pub fn client_stop(&mut self, path: &[u8], sender: Option<&str>) -> (r: Result<(), Error>)
        requires
            old(self).wf(),
        ensures
            final(self).wf(),
            final(self).store@ == old(self).store@,
            final(self).router == old(self).router,
            final(self).registry.next_id == old(self).registry.next_id,
            match r {
                Ok(()) => {
                    &&& sender is Some
                    &&& client_lookup(*old(self), path@) matches Ok(id)
                        && final(self).registry.sessions@[id as int]@ == (SessionView {
                            active: false,
                            ..old(self).registry.sessions@[id as int]@
                        })
                        && (forall|i: int|
                            0 <= i < old(self).registry.sessions@.len() && i != id
                                ==> final(self).registry.sessions@[i]
                                    == old(self).registry.sessions@[i])
                },
                Err(e) => {
                    &&& *final(self) == *old(self)
                    &&& if sender is None {
                        e == Error::NoSender
                    } else {
                        client_lookup(*old(self), path@) == Err::<u32, Error>(e)
                    }
                },
            },
    {
        if sender.is_none() {
            return Err(Error::NoSender);
        }
        let id = match self.resolve_client(path) {
            Err(e) => {
                return Err(e);
            },
            Ok(id) => id,
        };
        let idx = id as usize;
        let sess = &mut self.registry.sessions[idx];
        sess.active = false;
        proof {
            lemma_wf_after_session_update(*old(self), *self, id);
            assert(self.registry.sessions@[id as int]@ =~= (SessionView {
                active: false,
                ..old(self).registry.sessions@[id as int]@
            }));
        }
        Ok(())
    }

    /// Reads a property of a client session.
    pub fn client_get(&self, path: &[u8], prop: ClientProperty) -> (r: Result<PropValue, Error>)
        requires
            self.wf(),
        ensures
            match r {
                Ok(v) => client_lookup(*self, path@) matches Ok(id) && v@ == client_prop_view(
                    self.registry.sessions@[id as int]@,
                    prop,
                ),
                Err(e) => client_lookup(*self, path@) == Err::<u32, Error>(e),
            },
    {
        let id = match self.resolve_client(path) {
            Err(e) => {
                return Err(e);
            },
            Ok(id) => id,
        };
        let sess = &self.registry.sessions[id as usize];
        match prop {
            ClientProperty::Location => Ok(PropValue::ObjectPath(sess.location_property())),
            ClientProperty::DistanceThreshold => Ok(PropValue::U32(sess.distance_threshold)),
            ClientProperty::TimeThreshold => Ok(PropValue::U32(sess.time_threshold)),
            ClientProperty::DesktopId => Ok(PropValue::Text(sess.desktop_id.clone())),
            ClientProperty::RequestedAccuracyLevel => Ok(
                PropValue::U32(sess.requested_accuracy_level),
            ),
            ClientProperty::Active => Ok(PropValue::Bool(sess.active)),
        }
    }

    /// Writes the distance threshold of a client session and echoes the
    /// accepted value.
    pub fn client_set_distance_threshold(&mut self, path: &[u8], value: u32) -> (r: Result<
        u32,
        Error,
    >)
        requires
            old(self).wf(),
        ensures
            final(self).wf(),
            final(self).store@ == old(self).store@,
            final(self).router == old(self).router,
            final(self).registry.next_id == old(self).registry.next_id,
            match r {
                Ok(echo) => {
                    &&& echo == value
                    &&& client_lookup(*old(self), path@) matches Ok(id)
                        && final(self).registry.sessions@[id as int]@ == (SessionView {
                            distance_threshold: value,
                            ..old(self).registry.sessions@[id as int]@
                        })
                        && (forall|i: int|
                            0 <= i < old(self).registry.sessions@.len() && i != id
                                ==> final(self).registry.sessions@[i]
                                    == old(self).registry.sessions@[i])
                },
                Err(e) => {
                    &&& *final(self) == *old(self)
                    &&& client_lookup(*old(self), path@) == Err::<u32, Error>(e)
                },
            },
    {
        let id = match self.resolve_client(path) {
            Err(e) => {
                return Err(e);
            },
            Ok(id) => id,
        };
        let sess = &mut self.registry.sessions[id as usize];
        sess.set_distance_threshold(value);
        proof {
            lemma_wf_after_session_update(*old(self), *self, id);
        }
        Ok(value)
    }

    /// Writes the time threshold of a client session and echoes the
    /// accepted value; the value alters nothing else.
    pub fn client_set_time_threshold(&mut self, path: &[u8], value: u32) -> (r: Result<u32, Error>)
        requires
            old(self).wf(),
        ensures
            final(self).wf(),
            final(self).store@ == old(self).store@,
            final(self).router == old(self).router,
            final(self).registry.next_id == old(self).registry.next_id,
            match r {
                Ok(echo) => {
                    &&& echo == value
                    &&& client_lookup(*old(self), path@) matches Ok(id)
                        && final(self).registry.sessions@[id as int]@ == (SessionView {
                            time_threshold: value,
                            ..old(self).registry.sessions@[id as int]@
                        })
                        && (forall|i: int|
                            0 <= i < old(self).registry.sessions@.len() && i != id
                                ==> final(self).registry.sessions@[i]
                                    == old(self).registry.sessions@[i])
                },
                Err(e) => {
                    &&& *final(self) == *old(self)
                    &&& client_lookup(*old(self), path@) == Err::<u32, Error>(e)
                },
            },
    {
        let id = match self.resolve_client(path) {
            Err(e) => {
                return Err(e);
            },
            Ok(id) => id,
        };
        let sess = &mut self.registry.sessions[id as usize];
        sess.set_time_threshold(value);
        proof {
            lemma_wf_after_session_update(*old(self), *self, id);
        }
        Ok(value)
    }

    /// Writes the desktop identifier of a client session and echoes the
    /// accepted value.
    pub fn client_set_desktop_id(&mut self, path: &[u8], value: String) -> (r: Result<
        String,
        Error,
    >)
        requires
            old(self).wf(),
        ensures
            final(self).wf(),
            final(self).store@ == old(self).store@,
            final(self).router == old(self).router,
            final(self).registry.next_id == old(self).registry.next_id,
            match r {
                Ok(echo) => {
                    &&& echo@ == value@
                    &&& client_lookup(*old(self), path@) matches Ok(id)
                        && final(self).registry.sessions@[id as int]@ == (SessionView {
                            desktop_id: value@,
                            ..old(self).registry.sessions@[id as int]@
                        })
                        && (forall|i: int|
                            0 <= i < old(self).registry.sessions@.len() && i != id
                                ==> final(self).registry.sessions@[i]
                                    == old(self).registry.sessions@[i])
                },
                Err(e) => {
                    &&& *final(self) == *old(self)
                    &&& client_lookup(*old(self), path@) == Err::<u32, Error>(e)
                },
            },
    {
        let id = match self.resolve_client(path) {
            Err(e) => {
                return Err(e);
            },
            Ok(id) => id,
        };
        let echo = value.clone();
        let sess = &mut self.registry.sessions[id as usize];
        sess.set_desktop_id(value);
        proof {
            lemma_wf_after_session_update(*old(self), *self, id);
        }
        Ok(echo)
    }

    /// Writes the requested accuracy level of a client session and echoes
    /// the accepted value; the value alters nothing else.
    pub fn client_set_requested_accuracy_level(&mut self, path: &[u8], value: u32) -> (r: Result<
        u32,
        Error,
    >)
        requires
            old(self).wf(),
        ensures
            final(self).wf(),
            final(self).store@ == old(self).store@,
            final(self).router == old(self).router,
            final(self).registry.next_id == old(self).registry.next_id,
            match r {
                Ok(echo) => {
                    &&& echo == value
                    &&& client_lookup(*old(self), path@) matches Ok(id)
                        && final(self).registry.sessions@[id as int]@ == (SessionView {
                            requested_accuracy_level: value,
                            ..old(self).registry.sessions@[id as int]@
                        })
                        && (forall|i: int|
                            0 <= i < old(self).registry.sessions@.len() && i != id
                                ==> final(self).registry.sessions@[i]
                                    == old(self).registry.sessions@[i])
                },
                Err(e) => {
                    &&& *final(self) == *old(self)
                    &&& client_lookup(*old(self), path@) == Err::<u32, Error>(e)
                },
            },
    {
        let id = match self.resolve_client(path) {
            Err(e) => {
                return Err(e);
            },
            Ok(id) => id,
        };
        let sess = &mut self.registry.sessions[id as usize];
        sess.set_requested_accuracy_level(value);
        proof {
            lemma_wf_after_session_update(*old(self), *self, id);
        }
        Ok(value)
    }

    /// Reads a property of a location object: always the corresponding
    /// field of the shared fix, which no operation of this service ever
    /// changes.
    pub fn location_get(&self, path: &[u8], prop: LocationProperty) -> (r: Result<
        PropValue,
        Error,
    >)
        requires
            self.wf(),
        ensures
            match r {
                Ok(v) => location_lookup(*self, path@) is Ok && v@ == location_prop_view(
                    self.store@,
                    prop,
                ),
                Err(e) => location_lookup(*self, path@) == Err::<u32, Error>(e),
            },
    {
        match parse_path(path) {
            Option::None => Err(Error::InvalidPath),
            Option::Some(Target::Location { id }) => {
                if self.router.resolve(Target::Location { id }) {
                    let f = self.store.snapshot();
                    match prop {
                        LocationProperty::Latitude => Ok(PropValue::F64Bits(f.latitude_bits)),
                        LocationProperty::Longitude => Ok(PropValue::F64Bits(f.longitude_bits)),
                        LocationProperty::Accuracy => Ok(PropValue::F64Bits(f.accuracy_bits)),
                        LocationProperty::Altitude => Ok(PropValue::F64Bits(f.altitude_bits)),
                        LocationProperty::Speed => Ok(PropValue::F64Bits(f.speed_bits)),
                        LocationProperty::Heading => Ok(PropValue::F64Bits(f.heading_bits)),
                        LocationProperty::Description => Ok(PropValue::Text(f.description)),
                        LocationProperty::Timestamp => Ok(PropValue::U64(f.timestamp)),
                    }
                } else {
                    Err(Error::NoSuchObject)
                }
            },
            Option::Some(_) => Err(Error::NoSuchObject),
        }
    }
}

/// After an allocation, the invariant holds again: the new identity extends
/// the client range by exactly one, and no location binding changed.
proof fn lemma_wf_after_get_client(pre: GeoService, post: GeoService, id: u32)
    requires
        pre.wf(),
        id == pre.registry.next_id,
        id < u32::MAX,
        post.registry.wf(),
        post.registry.next_id == pre.registry.next_id + 1,
        post.registry.sessions@.len() == pre.registry.sessions@.len() + 1,
        forall|i: int|
            0 <= i < pre.registry.sessions@.len()
                ==> post.registry.sessions@[i] == pre.registry.sessions@[i],
        post.registry.sessions@.last()@ == fresh_session_view(id, post.registry.sessions@.last().sender@),
        forall|x: Target|
            post.router.registered(x) == (pre.router.registered(x) || x == (Target::Client {
                id,
            })),
    ensures
        post.wf(),
{
    assert(pre.registry.sessions@.len() == pre.registry.next_id as int);
    assert forall|id2: u32|
        #[trigger] post.router.registered(Target::Client { id: id2 })
            <==> id2 < post.registry.next_id by {
        assert(post.router.registered(Target::Client { id: id2 }) == (pre.router.registered(
            Target::Client { id: id2 },
        ) || Target::Client { id: id2 } == (Target::Client { id })));
    }
    assert forall|id2: u32|
        #[trigger] post.router.registered(Target::Location { id: id2 })
            <==> id2 < post.registry.next_id
                && post.registry.sessions@[id2 as int].location_bound by {
        assert(post.router.registered(Target::Location { id: id2 }) == pre.router.registered(
            Target::Location { id: id2 },
        ));
        if id2 < pre.registry.next_id {
            assert(post.registry.sessions@[id2 as int] == pre.registry.sessions@[id2 as int]);
        } else if id2 == id {
            assert(post.registry.sessions@[id2 as int].location_bound
                == post.registry.sessions@.last()@.location_bound);
            assert(!post.registry.sessions@[id2 as int].location_bound);
        }
    }
}

/// After a start, the invariant holds again: the only binding that can have
/// appeared is the started session's location child, and that session is
/// now bound.
proof fn lemma_wf_after_start(pre: GeoService, post: GeoService, id: u32)
    requires
        pre.wf(),
        id < pre.registry.next_id,
        post.registry.next_id == pre.registry.next_id,
        post.registry.sessions@.len() == pre.registry.sessions@.len(),
        forall|i: int|
            0 <= i < pre.registry.sessions@.len() && i != id as int
                ==> post.registry.sessions@[i] == pre.registry.sessions@[i],
        post.registry.sessions@[id as int].client_id
            == pre.registry.sessions@[id as int].client_id,
        post.registry.sessions@[id as int].location_bound,
        forall|x: Target|
            post.router.registered(x) == (pre.router.registered(x) || x == (Target::Location {
                id,
            })),
    ensures
        post.wf(),
{
    assert forall|i: int|
        0 <= i < post.registry.sessions@.len()
            implies (#[trigger] post.registry.sessions@[i]).client_id == i by {
        if i != id as int {
            assert(post.registry.sessions@[i] == pre.registry.sessions@[i]);
        }
    }
    assert forall|id2: u32|
        #[trigger] post.router.registered(Target::Client { id: id2 })
            <==> id2 < post.registry.next_id by {
        assert(post.router.registered(Target::Client { id: id2 }) == (pre.router.registered(
            Target::Client { id: id2 },
        ) || Target::Client { id: id2 } == (Target::Location { id })));
    }
    assert forall|id2: u32|
        #[trigger] post.router.registered(Target::Location { id: id2 })
            <==> id2 < post.registry.next_id
                && post.registry.sessions@[id2 as int].location_bound by {
        if id2 != id {
            assert(post.router.registered(Target::Location { id: id2 }) == pre.router.registered(
                Target::Location { id: id2 },
            ));
            if id2 < pre.registry.next_id {
                assert(post.registry.sessions@[id2 as int] == pre.registry.sessions@[id2 as int]);
            }
        }
    }
}

/// Law: session allocation hands out strictly increasing identities, and
/// the paths minted for two different allocations never collide — however
/// many allocations lie between them.
pub proof fn lemma_allocated_paths_distinct(pre1: GeoService, post1: GeoService, pre2: GeoService, p1: Seq<u8>, p2: Seq<u8>)
    requires
        p1 == client_path_spec(pre1.registry.next_id),
        post1.registry.next_id == pre1.registry.next_id + 1,
        post1.registry.next_id <= pre2.registry.next_id,
        p2 == client_path_spec(pre2.registry.next_id),
    ensures
        pre1.registry.next_id < pre2.registry.next_id,
        p1 != p2,
{
    crate::paths::lemma_client_path_injective(pre1.registry.next_id, pre2.registry.next_id);
}

/// Law: while a session is active, its location property reports the
/// session's own location child path — a concrete path, derived from its
/// identity.
pub proof fn lemma_active_session_reports_child_path(s: SessionView)
    requires
        s.active,
    ensures
        client_prop_view(s, ClientProperty::Location) == PropValueView::ObjectPath(
            location_path_spec(s.client_id),
        ),
{
}

/// Law: while a session is inactive, its location property reports the
/// sentinel root path, whether or not a location child exists.
pub proof fn lemma_inactive_session_reports_root(s: SessionView)
    requires
        !s.active,
    ensures
        client_prop_view(s, ClientProperty::Location) == PropValueView::ObjectPath(
            root_path_spec(),
        ),
{
}

/// Law: once a session has been started, the location child path minted
/// for it resolves to a readable location object — active or not.
pub proof fn lemma_bound_location_is_readable(s: GeoService, id: u32)
    requires
        s.wf(),
        id < s.registry.next_id,
        s.registry.sessions@[id as int].location_bound,
    ensures
        location_lookup(s, location_path_spec(id)) == Ok::<u32, Error>(id),
{
    crate::paths::lemma_target_of_location_path(id);
}

/// Law: any change that keeps every session's binding flag and the session
/// count — a stop, in particular — keeps every location object queryable.
pub proof fn lemma_location_stays_queryable(pre: GeoService, post: GeoService, p: Seq<u8>)
    requires
        pre.registry.wf(),
        post.registry.next_id == pre.registry.next_id,
        post.registry.sessions@.len() == pre.registry.sessions@.len(),
        forall|i: int|
            0 <= i < pre.registry.sessions@.len()
                ==> (#[trigger] post.registry.sessions@[i]).location_bound
                    == pre.registry.sessions@[i].location_bound,
        location_lookup(pre, p) is Ok,
    ensures
        location_lookup(post, p) == location_lookup(pre, p),
{
    match target_of(p) {
        Option::Some(Target::Location { id }) => {
            assert(id < pre.registry.next_id);
            assert(post.registry.sessions@[id as int].location_bound
                == pre.registry.sessions@[id as int].location_bound);
        },
        _ => {},
    }
}

/// Law: writing a settable property is echoed by the next read of that
/// property — the read returns exactly the value written.
pub proof fn lemma_set_then_read_echoes(s: SessionView, v: u32, d: Seq<char>)
    ensures
        client_prop_view(
            (SessionView { distance_threshold: v, ..s }),
            ClientProperty::DistanceThreshold,
        ) == PropValueView::U32(v),
        client_prop_view(
            (SessionView { time_threshold: v, ..s }),
            ClientProperty::TimeThreshold,
        ) == PropValueView::U32(v),
        client_prop_view((SessionView { desktop_id: d, ..s }), ClientProperty::DesktopId)
            == PropValueView::Text(d),
        client_prop_view(
            (SessionView { requested_accuracy_level: v, ..s }),
            ClientProperty::RequestedAccuracyLevel,
        ) == PropValueView::U32(v),
{
}

/// Law: the inert properties are accepted and echoed but have no effect on
/// behaviour — writing one leaves the reading of every other property
/// unchanged.
pub proof fn lemma_inert_properties_no_side_effects(s: SessionView, v: u32, prop: ClientProperty)
    ensures
        prop != ClientProperty::TimeThreshold ==> client_prop_view(
            (SessionView { time_threshold: v, ..s }),
            prop,
        ) == client_prop_view(s, prop),
        prop != ClientProperty::RequestedAccuracyLevel ==> client_prop_view(
            (SessionView { requested_accuracy_level: v, ..s }),
            prop,
        ) == client_prop_view(s, prop),
{
}

/// The invariant survives any update of one session that keeps the
/// session's identity and binding flag, with the router untouched — a stop,
/// or any property write.
proof fn lemma_wf_after_session_update(pre: GeoService, post: GeoService, id: u32)
    requires
        pre.wf(),
        id < pre.registry.next_id,
        post.registry.next_id == pre.registry.next_id,
        post.registry.sessions@.len() == pre.registry.sessions@.len(),
        forall|i: int|
            0 <= i < pre.registry.sessions@.len() && i != id as int
                ==> post.registry.sessions@[i] == pre.registry.sessions@[i],
        post.registry.sessions@[id as int].client_id
            == pre.registry.sessions@[id as int].client_id,
        post.registry.sessions@[id as int].location_bound
            == pre.registry.sessions@[id as int].location_bound,
        post.router == pre.router,
    ensures
        post.wf(),
{
    assert forall|i: int|
        0 <= i < post.registry.sessions@.len()
            implies (#[trigger] post.registry.sessions@[i]).client_id == i by {
        if i != id as int {
            assert(post.registry.sessions@[i] == pre.registry.sessions@[i]);
        }
    }
    assert forall|id2: u32|
        #[trigger] post.router.registered(Target::Location { id: id2 })
            <==> id2 < post.registry.next_id
                && post.registry.sessions@[id2 as int].location_bound by {
        if id2 != id && id2 < pre.registry.next_id {
            assert(post.registry.sessions@[id2 as int] == pre.registry.sessions@[id2 as int]);
        }
    }
}

} // verus!
