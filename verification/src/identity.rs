//! Stable controller identities.
//!
//! A controller is identified by a 128-bit hardware descriptor, which is
//! stable across reconnects and process restarts. It is distinct from the
//! transient session handle a polling backend assigns for one run.

use vstd::prelude::*;

verus! {

/// A stable, hardware-derived identity for a physical controller, plus a
/// human-readable name. Two identities are the same controller exactly
/// when their descriptors are equal; the name plays no part in equality.
#[derive(Debug)]
pub struct ControllerIdentity {
    /// The 128-bit hardware descriptor.
    pub descriptor: u128,
    /// A human-readable device name, for display only.
    pub name: String,
}

/// Identity equality: exact equality of the hardware descriptors.
pub open spec fn spec_same_identity(a: ControllerIdentity, b: ControllerIdentity) -> bool {
    a.descriptor == b.descriptor
}

impl ControllerIdentity {
    /// Builds the identity of the controller with the given hardware
    /// descriptor and display name.
    pub fn from_descriptor(descriptor: u128, name: String) -> (r: ControllerIdentity)
        ensures
            r.descriptor == descriptor,
            r.name == name,
    {
        ControllerIdentity { descriptor, name }
    }

    /// An identical copy of this identity.
    pub fn duplicate(&self) -> (r: ControllerIdentity)
        ensures
            r == *self,
    {
        ControllerIdentity { descriptor: self.descriptor, name: self.name.clone() }
    }

    /// Whether `self` and `other` identify the same physical controller.
    pub fn same_identity(&self, other: &ControllerIdentity) -> (r: bool)
        ensures
            r == spec_same_identity(*self, *other),
    {
        self.descriptor == other.descriptor
    }
}

/// Identity stability: identities computed from the same hardware
/// descriptor compare equal, whenever and wherever they were computed,
/// whatever display names came with them.
pub proof fn lemma_identity_stability(a: ControllerIdentity, b: ControllerIdentity)
    requires
        a.descriptor == b.descriptor,
    ensures
        spec_same_identity(a, b),
{
}

} // verus!
