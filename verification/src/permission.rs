//! Capability descriptors and the privilege check between them.

use vstd::prelude::*;
use crate::word::Word;

verus! {

/// What an entity on the bus may control, and where it lives.
///
/// `ownership` is a mask over network addresses; `network` is the entity's
/// own address, which need not be unique.
#[derive(Debug, PartialEq, Eq)]
pub struct Permission<W> {
    pub ownership: W,
    pub network: W,
}

impl<W: Copy> Clone for Permission<W> {
    fn clone(&self) -> (copy: Permission<W>)
        ensures
            copy == *self,
    {
        *self
    }
}

impl<W: Copy> Copy for Permission<W> {

}

impl<W: Word> Permission<W> {
    /// `self` is privileged over `other` when both addresses, masked by the
    /// ownership that `self` claims, show the same bits. Only the ownership
    /// of `self` enters, so the relation is one-sided.
    pub open spec fn privileged_over(self, other: Permission<W>) -> bool {
        self.ownership.bits() & self.network.bits() == self.ownership.bits() & other.network.bits()
    }

    /// Whether `self` is privileged over `other`.
    pub fn has_privilege(self, other: Permission<W>) -> (ok: bool)
        ensures
            ok == self.privileged_over(other),
    {
        self.ownership.mask(self.network).same(self.ownership.mask(other.network))
    }
}

impl<W: Word> Default for Permission<W> {
    /// No privileges and no identity.
    fn default() -> (p: Permission<W>)
        ensures
            p.ownership.bits() == 0,
            p.network.bits() == 0,
    {
        Permission { ownership: W::zero(), network: W::zero() }
    }
}

/// Every permission is privileged over itself, and over any permission with
/// the same address.
pub proof fn lemma_privilege_reflexive<W: Word>(a: Permission<W>, b: Permission<W>)
    requires
        a.network == b.network,
    ensures
        a.privileged_over(a),
        a.privileged_over(b),
{
}

/// Privilege is one-sided: there are permissions of which the first is
/// privileged over the second and the second is not privileged over the
/// first.
pub proof fn lemma_privilege_not_symmetric()
    ensures
        exists|a: Permission<u8>, b: Permission<u8>| a.privileged_over(b) && !b.privileged_over(a),
{
    let a = Permission::<u8> { ownership: 0x00, network: 0x00 };
    let b = Permission::<u8> { ownership: 0x01, network: 0x01 };
    assert(0x00u128 & 0x00u128 == 0x00u128 & 0x01u128) by (bit_vector);
    assert(0x01u128 & 0x01u128 != 0x01u128 & 0x00u128) by (bit_vector);
    assert(a.privileged_over(b) && !b.privileged_over(a));
}

/// A permission that claims no ownership is privileged over every
/// permission: a core that holds it and decides by privilege turns nobody
/// away.
pub proof fn lemma_unowned_is_privileged<W: Word>(a: Permission<W>, b: Permission<W>)
    requires
        a.ownership.bits() == 0,
    ensures
        a.privileged_over(b),
{
    let x = a.network.bits();
    let y = b.network.bits();
    assert(0u128 & x == 0u128 & y) by (bit_vector);
}

} // verus!
