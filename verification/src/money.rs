use vstd::prelude::*;

verus! {

/// An amount of money in kobo (hundredths of a naira), never a float.
#[derive(Debug, Clone, Copy, PartialEq, Eq, Structural)]
pub struct Money(pub i64);

impl Money {
    /// Adds two amounts, or returns `None` when the sum leaves the `i64` range.
    pub fn checked_add(&self, other: &Self) -> (res: Option<Self>)
        ensures
            match res {
                Some(m) => m.0 == self.0 + other.0,
                None => self.0 + other.0 > i64::MAX || self.0 + other.0 < i64::MIN,
            },
    {
        match self.0.checked_add(other.0) {
            Some(v) => Some(Money(v)),
            None => None,
        }
    }
}

} // verus!
