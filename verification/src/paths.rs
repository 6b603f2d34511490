//! Object paths of the exposed hierarchy and their routing targets.
//!
//! The service publishes three kinds of objects: the single manager, one
//! client session per allocation, and one location child per session. Their
//! addresses are ASCII byte strings of the forms
//! `<root>/Manager`, `<root>/Client/<id>` and `<root>/Client/<id>/Location/0`.
//! `target_of` is the one definition of how a raw path resolves to a target;
//! `parse_path` computes it, and the round-trip lemmas show that every path
//! this library hands out resolves back to the object it was minted for.

use vstd::prelude::*;

use crate::digits::{all_digits, dec_rep, dec_val, is_digit, parse_u32_dec, push_dec};
use crate::digits::{lemma_dec_rep_digits, lemma_dec_rep_injective, lemma_dec_val_of_rep};

verus! {

use vstd::string::StringSliceAdditionalSpecFns;

/// The object a path addresses.
#[derive(PartialEq, Eq, Structural, Clone, Copy, Debug)]
pub enum Target {
    /// The single session-allocating entry object.
    Manager,
    /// The session object of the client with the given identity.
    Client { id: u32 },
    /// The read-only location child of that client's session.
    Location { id: u32 },
}

/// The sentinel root path reported while a session is inactive.
pub open spec fn root_path_spec() -> Seq<u8> {
    "/".spec_bytes()
}

/// Address of the manager object.
pub open spec fn manager_path_spec() -> Seq<u8> {
    "/org/freedesktop/GeoClue2/Manager".spec_bytes()
}

/// Common prefix of every client session address.
pub open spec fn client_prefix_spec() -> Seq<u8> {
    "/org/freedesktop/GeoClue2/Client/".spec_bytes()
}

/// Suffix that turns a session address into its location child's address.
pub open spec fn location_suffix_spec() -> Seq<u8> {
    "/Location/0".spec_bytes()
}

/// Address of the session object with identity `id`.
pub open spec fn client_path_spec(id: u32) -> Seq<u8> {
    client_prefix_spec() + dec_rep(id as nat)
}

/// Address of the location child of the session with identity `id`.
pub open spec fn location_path_spec(id: u32) -> Seq<u8> {
    client_path_spec(id) + location_suffix_spec()
}

/// `p` has the shape of a session address: the client prefix followed by
/// at least one decimal digit.
pub open spec fn is_client_path(p: Seq<u8>) -> bool {
    let k = client_prefix_spec().len() as int;
    &&& p.len() > k
    &&& p.take(k) == client_prefix_spec()
    &&& all_digits(p.skip(k))
}

/// The identity encoded in a session address.
pub open spec fn client_path_id(p: Seq<u8>) -> nat {
    dec_val(p.skip(client_prefix_spec().len() as int))
}

/// `p` has the shape of a location child address: the client prefix, at
/// least one decimal digit, then the location suffix.
pub open spec fn is_location_path(p: Seq<u8>) -> bool {
    let k = client_prefix_spec().len() as int;
    let m = location_suffix_spec().len() as int;
    &&& p.len() > k + m
    &&& p.take(k) == client_prefix_spec()
    &&& p.skip(p.len() - m) == location_suffix_spec()
    &&& all_digits(p.subrange(k, p.len() - m))
}

/// The identity encoded in a location child address.
pub open spec fn location_path_id(p: Seq<u8>) -> nat {
    let k = client_prefix_spec().len() as int;
    let m = location_suffix_spec().len() as int;
    dec_val(p.subrange(k, p.len() - m))
}

/// How a raw path resolves, in priority order; `None` is a malformed path.
/// A digit string whose value does not fit the identity space is malformed.
pub open spec fn target_of(p: Seq<u8>) -> Option<Target> {
    if p == manager_path_spec() {
        Some(Target::Manager)
    } else if is_client_path(p) && client_path_id(p) <= u32::MAX {
        Some(Target::Client { id: client_path_id(p) as u32 })
    } else if is_location_path(p) && location_path_id(p) <= u32::MAX {
        Some(Target::Location { id: location_path_id(p) as u32 })
    } else {
        None
    }
}

/// Shape facts about the fixed path fragments that the proofs below need:
/// the fragment lengths, and that the location suffix opens with a
/// separator rather than a digit.
pub proof fn lemma_path_constants()
    ensures
        manager_path_spec().len() == 33,
        client_prefix_spec().len() == 33,
        location_suffix_spec().len() == 11,
        !is_digit(location_suffix_spec()[0]),
{
    broadcast use vstd::string::is_ascii_spec_bytes;

    reveal_strlit("/org/freedesktop/GeoClue2/Manager");
    reveal_strlit("/org/freedesktop/GeoClue2/Client/");
    reveal_strlit("/Location/0");
    let m: &str = "/org/freedesktop/GeoClue2/Manager";
    let c: &str = "/org/freedesktop/GeoClue2/Client/";
    let l: &str = "/Location/0";
    assert(vstd::string::is_ascii(m));
    assert(vstd::string::is_ascii(c));
    assert(vstd::string::is_ascii(l));
    assert(l.spec_bytes()[0] == '/' as u8);
}

/// The sentinel root path.
pub fn root_path_bytes() -> (v: Vec<u8>)
    ensures
        v@ == root_path_spec(),
{
    let s: &str = "/";
    vstd::slice::slice_to_vec(s.as_bytes())
}

/// The manager object's path.
pub fn manager_path_bytes() -> (v: Vec<u8>)
    ensures
        v@ == manager_path_spec(),
{
    let s: &str = "/org/freedesktop/GeoClue2/Manager";
    vstd::slice::slice_to_vec(s.as_bytes())
}

fn client_prefix_bytes() -> (v: Vec<u8>)
    ensures
        v@ == client_prefix_spec(),
{
    let s: &str = "/org/freedesktop/GeoClue2/Client/";
    vstd::slice::slice_to_vec(s.as_bytes())
}

fn location_suffix_bytes() -> (v: Vec<u8>)
    ensures
        v@ == location_suffix_spec(),
{
    let s: &str = "/Location/0";
    vstd::slice::slice_to_vec(s.as_bytes())
}

/// The session path minted for identity `id`.
pub fn client_path_bytes(id: u32) -> (v: Vec<u8>)
    ensures
        v@ == client_path_spec(id),
{
    let mut v = client_prefix_bytes();
    push_dec(&mut v, id);
    v
}

/// The location child path minted for identity `id`.
pub fn location_path_bytes(id: u32) -> (v: Vec<u8>)
    ensures
        v@ == location_path_spec(id),
{
    let mut v = client_path_bytes(id);
    let suf = location_suffix_bytes();
    v.extend_from_slice(suf.as_slice());
    proof {
        assert(v@ =~= client_path_spec(id) + location_suffix_spec());
    }
    v
}

/// Byte-for-byte equality of two byte strings.
pub fn bytes_eq(a: &[u8], b: &[u8]) -> (r: bool)
    ensures
        r == (a@ == b@),
{
    if a.len() != b.len() {
        return false;
    }
    let mut i: usize = 0;
    while i < a.len()
        invariant
            a@.len() == b@.len(),
            0 <= i <= a@.len(),
            forall|j: int| 0 <= j < i ==> a@[j] == b@[j],
        decreases a@.len() - i,
    {
        if a[i] != b[i] {
            return false;
        }
        i = i + 1;
    }
    proof {
        assert(a@ =~= b@);
    }
    true
}

/// Resolves a raw path to the object it addresses, exactly as `target_of`
/// describes; a path of no recognised shape yields `None`.
pub fn parse_path(p: &[u8]) -> (r: Option<Target>)
    ensures
        r == target_of(p@),
{
    proof {
        lemma_path_constants();
    }
    let manager = manager_path_bytes();
    if bytes_eq(p, manager.as_slice()) {
        return Some(Target::Manager);
    }
    let prefix = client_prefix_bytes();
    let k = prefix.len();
    if p.len() <= k {
        return None;
    }
    let head = vstd::slice::slice_subrange(p, 0, k);
    proof {
        assert(p@.take(k as int) =~= p@.subrange(0, k as int));
    }
    if !bytes_eq(head, prefix.as_slice()) {
        return None;
    }
    let rest = vstd::slice::slice_subrange(p, k, p.len());
    proof {
        assert(p@.skip(k as int) =~= rest@);
    }
    match parse_u32_dec(rest) {
        Some(id) => {
            return Some(Target::Client { id });
        },
        None => {},
    }
    let suffix = location_suffix_bytes();
    let m = suffix.len();
    if rest.len() > m && bytes_eq(
        vstd::slice::slice_subrange(rest, rest.len() - m, rest.len()),
        suffix.as_slice(),
    ) {
        proof {
            assert(p@.skip(p@.len() - m) =~= rest@.subrange(rest@.len() - m, rest@.len() as int));
            assert(rest@[rest@.len() - m] == location_suffix_spec()[0]);
            assert(!all_digits(rest@));
            assert(p@.subrange(k as int, p@.len() - m) =~= rest@.subrange(0, rest@.len() - m));
        }
        let middle = vstd::slice::slice_subrange(rest, 0, rest.len() - m);
        match parse_u32_dec(middle) {
            Some(id) => {
                return Some(Target::Location { id });
            },
            None => {
                return None;
            },
        }
    }
    proof {
        if rest@.len() > m {
            assert(p@.skip(p@.len() - m) =~= rest@.subrange(rest@.len() - m, rest@.len() as int));
        }
    }
    None
}

/// Distinct identities mint distinct session paths.
pub proof fn lemma_client_path_injective(a: u32, b: u32)
    requires
        a != b,
    ensures
        client_path_spec(a) != client_path_spec(b),
{
    lemma_dec_rep_injective(a as nat, b as nat);
    assert(client_path_spec(a).skip(client_prefix_spec().len() as int) =~= dec_rep(a as nat));
    assert(client_path_spec(b).skip(client_prefix_spec().len() as int) =~= dec_rep(b as nat));
}

/// A minted session path resolves back to that session.
pub proof fn lemma_target_of_client_path(id: u32)
    ensures
        target_of(client_path_spec(id)) == Some(Target::Client { id }),
{
    lemma_path_constants();
    lemma_dec_rep_digits(id as nat);
    lemma_dec_val_of_rep(id as nat);
    let p = client_path_spec(id);
    assert(p.len() != manager_path_spec().len());
    assert(p.take(client_prefix_spec().len() as int) =~= client_prefix_spec());
    assert(p.skip(client_prefix_spec().len() as int) =~= dec_rep(id as nat));
}

/// A minted location child path resolves back to that session's child.
pub proof fn lemma_target_of_location_path(id: u32)
    ensures
        target_of(location_path_spec(id)) == Some(Target::Location { id }),
{
    lemma_path_constants();
    lemma_dec_rep_digits(id as nat);
    lemma_dec_val_of_rep(id as nat);
    let k = client_prefix_spec().len() as int;
    let m = location_suffix_spec().len() as int;
    let d = dec_rep(id as nat).len() as int;
    let p = location_path_spec(id);
    assert(p.len() == k + d + m);
    assert(p.len() != manager_path_spec().len());
    assert(p.take(k) =~= client_prefix_spec());
    assert(p.skip(k) =~= dec_rep(id as nat) + location_suffix_spec());
    assert(p.skip(k)[d] == location_suffix_spec()[0]);
    assert(!all_digits(p.skip(k)));
    assert(p.skip(p.len() - m) =~= location_suffix_spec());
    assert(p.subrange(k, p.len() - m) =~= dec_rep(id as nat));
}

} // verus!
