//! The session handle map: the ephemeral mapping from the transient
//! session handle a polling backend assigns to the stable identity of the
//! controller it denotes.
//!
//! It is rebuilt every time the translation loop starts, by enumerating
//! the currently connected controllers, and discarded when the loop
//! stops. It is never persisted, and controllers connected after the loop
//! starts are not added.

use vstd::prelude::*;

use crate::profile::Profile;

verus! {

/// The handle-to-identity pairs a resolution of `devices` against a
/// profile records: every connected device whose descriptor the profile
/// knows, in enumeration order; unknown devices are silently excluded.
pub open spec fn spec_resolve(profile: Profile, devices: Seq<(u64, u128)>) -> Seq<(u64, u128)>
    decreases devices.len(),
{
    if devices.len() == 0 {
        Seq::empty()
    } else {
        let rest = spec_resolve(profile, devices.drop_last());
        if profile.contains_descriptor(devices.last().1) {
            rest.push(devices.last())
        } else {
            rest
        }
    }
}

/// What a handle lookup yields: the descriptor recorded for the first
/// entry carrying `h`, if any.
pub open spec fn spec_lookup(s: Seq<(u64, u128)>, h: u64) -> Option<u128>
    decreases s.len(),
{
    if s.len() == 0 {
        None
    } else if s.first().0 == h {
        Some(s.first().1)
    } else {
        spec_lookup(s.drop_first(), h)
    }
}

/// The ephemeral map from transient session handles to stable hardware
/// descriptors, valid for one activation of the translation loop.
pub struct SessionHandleMap {
    entries: Vec<(u64, u128)>,
}

impl View for SessionHandleMap {
    type V = Seq<(u64, u128)>;

    closed spec fn view(&self) -> Seq<(u64, u128)> {
        self.entries@
    }
}

impl SessionHandleMap {
    /// The stable descriptor recorded for session handle `h`, or nothing
    /// if the handle was not seen when the map was built.
    pub fn lookup(&self, h: u64) -> (r: Option<u128>)
        ensures
            r == spec_lookup(self@, h),
    {
        let mut i: usize = 0;
        proof {
            assert(self@.skip(0) =~= self@);
        }
        while i < self.entries.len()
            invariant
                i <= self@.len(),
                spec_lookup(self@, h) == spec_lookup(self@.skip(i as int), h),
            decreases self@.len() - i,
        {
            proof {
                assert(self@.skip(i as int).first() == self@[i as int]);
                assert(self@.skip(i as int).drop_first() =~= self@.skip(i as int + 1));
            }
            if self.entries[i].0 == h {
                return Some(self.entries[i].1);
            }
            i = i + 1;
        }
        proof {
            assert(self@.skip(self@.len() as int).len() == 0);
        }
        None
    }

    /// How many connected controllers the map resolved.
    pub fn len(&self) -> (r: usize)
        ensures
            r == self@.len(),
    {
        self.entries.len()
    }
}

/// Builds the session handle map for one activation: for every currently
/// connected device `(handle, descriptor)`, if the profile knows the
/// descriptor the pair is recorded; devices unknown to the profile are
/// treated as unbound and silently excluded, so binding lookups for them
/// will fail. Matching is exact descriptor equality; no fuzzy matching.
/// Reads only the profile and the device list; no I/O, never blocks.
pub fn resolve(profile: &Profile, devices: &Vec<(u64, u128)>) -> (r: SessionHandleMap)
    ensures
        r@ == spec_resolve(*profile, devices@),
{
    let mut entries: Vec<(u64, u128)> = Vec::new();
    let mut i: usize = 0;
    while i < devices.len()
        invariant
            i <= devices@.len(),
            entries@ == spec_resolve(*profile, devices@.take(i as int)),
        decreases devices@.len() - i,
    {
        let d = devices[i];
        proof {
            assert(devices@.take(i as int + 1).drop_last() =~= devices@.take(i as int));
            assert(devices@.take(i as int + 1).last() == devices@[i as int]);
        }
        match profile.find_table_index(d.1) {
            Some(j) => {
                proof {
                    assert(profile.pairs()[j as int].0.descriptor == d.1);
                }
                entries.push(d);
            },
            None => {},
        }
        i = i + 1;
    }
    proof {
        assert(devices@.take(devices@.len() as int) =~= devices@);
    }
    SessionHandleMap { entries }
}

} // verus!
