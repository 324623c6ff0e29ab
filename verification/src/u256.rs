use vstd::prelude::*;

verus! {

/// An unsigned 256-bit integer stored as four 64-bit limbs, least
/// significant first.
#[derive(Clone, Copy, PartialEq, Eq, Structural, Debug)]
pub struct U256(pub u64, pub u64, pub u64, pub u64);

impl U256 {
    /// The mathematical value of the four limbs.
    pub open spec fn as_nat(self) -> nat {
        (self.0 as nat)
        + (self.1 as nat) * 0x1_0000_0000_0000_0000
        + (self.2 as nat) * 0x1_0000_0000_0000_0000_0000_0000_0000_0000
        + (self.3 as nat) * 0x1_0000_0000_0000_0000_0000_0000_0000_0000_0000_0000_0000_0000
    }

    /// The value `v`, widened.
    pub fn from_u64(v: u64) -> (r: U256)
        ensures
            r.as_nat() == v as nat,
    {
        U256(v, 0, 0, 0)
    }

    /// Numeric comparison: limbs are compared from the most significant down.
    pub fn lt(&self, other: &U256) -> (r: bool)
        ensures
            r == (self.as_nat() < other.as_nat()),
    {
        if self.3 != other.3 {
            self.3 < other.3
        } else if self.2 != other.2 {
            self.2 < other.2
        } else if self.1 != other.1 {
            self.1 < other.1
        } else {
            self.0 < other.0
        }
    }
}

} // verus!
