//! Containers: holders of a non-negative volume of material.

use vstd::prelude::*;

verus! {

/// How much a withdrawal of `v` units yields from a container holding
/// `amount` units: everything that is there, capped at `v`.
pub open spec fn take_amount(amount: int, v: int) -> int {
    if amount <= v {
        amount
    } else {
        v
    }
}

/// Stores a volume of some material, in whole units.
#[derive(Clone, Copy)]
pub struct Container(pub u64);

impl Container {
    /// Adds `v` units of volume to the container.
    pub fn put(&mut self, v: u64)
        requires
            old(self).0 + v <= u64::MAX,
        ensures
            final(self).0 == old(self).0 + v,
    {
        self.0 = self.0 + v;
    }

    /// Takes up to `v` units of volume from the container.
    ///
    /// If the container holds no more than `v`, the whole content is
    /// withdrawn and the container becomes empty; otherwise exactly `v`
    /// units are withdrawn.
    pub fn take(&mut self, v: u64) -> (taken: u64)
        ensures
            taken == take_amount(old(self).0 as int, v as int),
            final(self).0 == old(self).0 - taken,
    {
        if self.0 <= v {
            let taken = self.0;
            self.0 = 0;
            taken
        } else {
            self.0 = self.0 - v;
            v
        }
    }
}

} // verus!
