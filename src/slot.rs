use vstd::prelude::*;
use crate::uuid::BdAddr;

verus! {

/// Taking the slot for `peer`: whether it was taken, and the new owner.
pub open spec fn spec_try_acquire(owner: Option<BdAddr>, peer: BdAddr) -> (bool, Option<BdAddr>) {
    if owner is None {
        (true, Some(peer))
    } else {
        (false, owner)
    }
}

/// A confirmation: the owner it clears, and the new (empty) owner.
pub open spec fn spec_confirm(owner: Option<BdAddr>) -> (Option<BdAddr>, Option<BdAddr>) {
    (owner, None)
}

/// The single pending-indication slot: empty, or owned by the peer whose
/// indication awaits its confirmation.
pub struct ConfirmationSlot {
    pub owner: Option<BdAddr>,
}

impl ConfirmationSlot {
    pub fn new() -> (r: ConfirmationSlot)
        ensures
            r.owner is None,
    {
        ConfirmationSlot { owner: None }
    }

    pub fn is_empty(&self) -> (r: bool)
        ensures
            r == self.owner is None,
    {
        self.owner.is_none()
    }

    /// Takes the slot for `peer` if it is empty; a taken slot is left as it is.
    pub fn try_acquire(&mut self, peer: BdAddr) -> (acquired: bool)
        ensures
            (acquired, final(self).owner) == spec_try_acquire(old(self).owner, peer),
    {
        if self.owner.is_none() {
            self.owner = Some(peer);
            true
        } else {
            false
        }
    }

    /// Clears the slot on a confirmation and returns its owner; a
    /// confirmation with nothing outstanding is refused.
    pub fn confirm(&mut self) -> (r: Option<BdAddr>)
        ensures
            (r, final(self).owner) == spec_confirm(old(self).owner),
    {
        let owner = self.owner;
        self.owner = None;
        owner
    }

    /// Clears the slot if `peer` owns it, as when that peer disconnects.
    pub fn release_if_owner(&mut self, peer: BdAddr) -> (released: bool)
        ensures
            released == (old(self).owner == Some(peer)),
            final(self).owner == (if released { None } else { old(self).owner }),
    {
        match self.owner {
            Some(p) => {
                if p == peer {
                    self.owner = None;
                    true
                } else {
                    false
                }
            },
            None => false,
        }
    }
}

/// While an indication to peer `a` awaits its confirmation, a send to any
/// peer `b` does not take the slot and leaves it with `a`; once the
/// confirmation has cleared the slot, the send to `b` takes it.
pub proof fn lemma_slot_serializes_indications(a: BdAddr, b: BdAddr)
    ensures
        spec_try_acquire(Some(a), b) == (false, Some(a)),
        spec_confirm(Some(a)) == (Some(a), None::<BdAddr>),
        spec_try_acquire(spec_confirm(Some(a)).1, b) == (true, Some(b)),
{
}

} // verus!
