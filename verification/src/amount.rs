use vstd::prelude::*;

verus! {

/// An amount of money, counted in millisatoshi.
#[derive(Clone, Copy, Debug, PartialEq, Eq, Structural)]
pub struct Amount {
    pub msats: u64,
}

impl Amount {
    /// No money at all.
    pub fn zero() -> (a: Amount)
        ensures
            a.msats == 0,
    {
        Amount { msats: 0 }
    }

    /// The amount of `msats` millisatoshi.
    pub fn from_msats(msats: u64) -> (a: Amount)
        ensures
            a.msats == msats,
    {
        Amount { msats }
    }

    /// `self + other`, or `None` where the sum does not fit in 64 bits.
    pub fn checked_add(self, other: Amount) -> (r: Option<Amount>)
        ensures
            r == (if self.msats + other.msats <= u64::MAX {
                Some(Amount { msats: (self.msats + other.msats) as u64 })
            } else {
                None
            }),
    {
        if self.msats <= u64::MAX - other.msats {
            Some(Amount { msats: self.msats + other.msats })
        } else {
            None
        }
    }
}

} // verus!
