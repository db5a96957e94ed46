use vstd::prelude::*;

verus! {

/// An exact, non-negative amount of money, held as hundredths of the
/// major currency unit.
///
/// The wire speaks in fractional numbers; on this side of the boundary
/// the amount stays exact, and negative amounts are unrepresentable.
#[derive(Debug, Clone, Copy, PartialEq, Eq, Structural)]
pub struct Money {
    pub cents: u64,
}

impl Money {
    /// No money at all.
    pub fn zero() -> (r: Self)
        ensures
            r.cents == 0,
    {
        Money { cents: 0 }
    }

    /// An amount given directly in hundredths of a unit.
    pub fn from_cents(cents: u64) -> (r: Self)
        ensures
            r.cents == cents,
    {
        Money { cents }
    }

    /// An amount given as whole units plus hundredths: 53 units and 30
    /// hundredths make 53.30.
    pub fn from_units_and_cents(units: u64, cents: u8) -> (r: Self)
        requires
            cents < 100,
            units * 100 + cents <= u64::MAX,
        ensures
            r.cents == units * 100 + cents,
    {
        Money { cents: units * 100 + cents as u64 }
    }
}

impl Default for Money {
    /// Zero, matching a freshly constructed request.
    fn default() -> (r: Self)
        ensures
            r.cents == 0,
    {
        Money { cents: 0 }
    }
}

} // verus!
