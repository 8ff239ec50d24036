use vstd::prelude::*;

verus! {

/// Units of one per mille: `Percent { units: 1000 }` is 100%.
pub type Units = u32;

/// A fixed-point percentage with per-mille resolution.
///
/// Values above 100% are meaningful (an interest rate near full pool
/// utilization may exceed it) and are therefore not rejected here; types
/// that need a bound state it in their own invariant.
#[derive(Clone, Copy, Debug, PartialEq, Eq, Structural)]
pub struct Percent {
    pub units: Units,
}

/// `amount` scaled down by a per-mille factor, truncating toward zero.
pub open spec fn spec_of(units: int, amount: int) -> int {
    amount * units / 1000
}

/// The inverse scaling: the whole of which `amount` is the given per-mille part,
/// truncating toward zero.
pub open spec fn spec_are(units: int, amount: int) -> int {
    amount * 1000 / units
}

/// The per-mille share of `nominator` within `denominator`, truncating toward zero.
pub open spec fn spec_ratio(nominator: int, denominator: int) -> int {
    nominator * 1000 / denominator
}

impl Percent {
    pub fn zero() -> (r: Percent)
        ensures
            r.units == 0,
    {
        Percent { units: 0 }
    }

    pub fn hundred() -> (r: Percent)
        ensures
            r.units == 1000,
    {
        Percent { units: 1000 }
    }

    pub fn from_percent(percent: u16) -> (r: Percent)
        ensures
            r.units == percent * 10,
    {
        Percent { units: (percent as u32) * 10 }
    }

    pub fn from_permille(permille: Units) -> (r: Percent)
        ensures
            r.units == permille,
    {
        Percent { units: permille }
    }

    pub fn units(&self) -> (u: Units)
        ensures
            u == self.units,
    {
        self.units
    }

    pub fn is_zero(&self) -> (r: bool)
        ensures
            r == (self.units == 0),
    {
        self.units == 0
    }

    /// The sum of two percentages, or `None` when it does not fit.
    pub fn checked_add(&self, other: Percent) -> (r: Option<Percent>)
        ensures
            self.units + other.units <= Units::MAX ==> (r matches Some(s)
                && s.units == self.units + other.units),
            self.units + other.units > Units::MAX ==> r is None,
    {
        match self.units.checked_add(other.units) {
            Some(units) => Some(Percent { units }),
            None => None,
        }
    }

    /// The difference `self - other`; callers must know `other` is no larger.
    pub fn sub(&self, other: Percent) -> (r: Percent)
        requires
            other.units <= self.units,
        ensures
            r.units == self.units - other.units,
    {
        Percent { units: self.units - other.units }
    }

    /// This percentage of `amount`, truncating toward zero.
    pub fn of(&self, amount: u128) -> (r: u128)
        requires
            amount * self.units <= u128::MAX,
        ensures
            r == spec_of(self.units as int, amount as int),
    {
        let wide: u128 = amount * (self.units as u128);
        wide / 1000
    }

    /// The whole of which `amount` is this percentage: the inverse of [`Percent::of`]
    /// up to truncation.
    pub fn are(&self, amount: u128) -> (r: u128)
        requires
            self.units > 0,
            amount * 1000 <= u128::MAX,
        ensures
            r == spec_are(self.units as int, amount as int),
    {
        let wide: u128 = amount * 1000;
        wide / (self.units as u128)
    }

    /// The share of `nominator` within `denominator`, as a percentage.
    pub fn from_ratio(nominator: u128, denominator: u128) -> (r: Percent)
        requires
            denominator > 0,
            nominator * 1000 <= u128::MAX,
            spec_ratio(nominator as int, denominator as int) <= Units::MAX,
        ensures
            r.units == spec_ratio(nominator as int, denominator as int),
    {
        let wide: u128 = nominator * 1000;
        let units: u128 = wide / denominator;
        proof {
            assert(units <= Units::MAX);
        }
        Percent { units: units as u32 }
    }
}

} // verus!
