use vstd::prelude::*;

verus! {

use crate::error::{ContractError, ContractResult};
use crate::percent::Percent;

/// Seconds in one hour, the lower bound of the recalculation cadence.
pub const SECS_IN_HOUR: u32 = 3600;

/// The liability policy of a lease: the loan-to-value thresholds and the
/// recalculation cadence.
///
/// Valid values satisfy `0 < init_percent <= healthy_percent < max_percent`
/// and `recalc_secs >= SECS_IN_HOUR`; [`Liability::new`] establishes this by
/// construction, and [`Liability::invariant_held`] re-checks a value that
/// arrived from outside (deserialization builds the fields directly).
#[derive(Debug, Clone, Copy, PartialEq, Eq, Structural)]
pub struct Liability {
    /// The initial percentage of the amount due versus the locked collateral.
    pub init_percent: Percent,
    /// The healthy percentage of the amount due versus the locked collateral.
    pub healthy_percent: Percent,
    /// The maximum percentage of the amount due versus the locked collateral.
    pub max_percent: Percent,
    /// At what time cadence to recalculate the liability.
    pub recalc_secs: u32,
}

/// What makes a liability policy valid.
pub open spec fn spec_invariant_held(l: Liability) -> bool {
    &&& l.init_percent.units > 0
    &&& l.healthy_percent.units >= l.init_percent.units
    &&& l.max_percent.units > l.healthy_percent.units
    &&& l.recalc_secs >= SECS_IN_HOUR
}

/// The borrow amount solving `borrow == init% of (borrow + downpayment)`:
/// `downpayment * init / (100% - init)`, truncating toward zero.
pub open spec fn spec_init_borrow_amount(init_units: int, downpayment: int) -> int {
    downpayment * init_units / (1000 - init_units)
}

impl Liability {
    /// A policy from the initial percentage and the deltas up to the healthy
    /// and maximum percentages.
    pub fn new(
        init_percent: Percent,
        delta_to_healthy_percent: Percent,
        delta_to_max_percent: Percent,
        recalc_hours: u16,
    ) -> (r: Liability)
        requires
            init_percent.units > 0,
            delta_to_max_percent.units > 0,
            init_percent.units + delta_to_healthy_percent.units <= u32::MAX,
            init_percent.units + delta_to_healthy_percent.units + delta_to_max_percent.units
                <= u32::MAX,
            recalc_hours > 0,
        ensures
            r.init_percent == init_percent,
            r.healthy_percent.units == init_percent.units + delta_to_healthy_percent.units,
            r.max_percent.units == init_percent.units + delta_to_healthy_percent.units
                + delta_to_max_percent.units,
            r.recalc_secs == recalc_hours * SECS_IN_HOUR,
            spec_invariant_held(r),
    {
        let healthy_percent = Percent::from_permille(
            init_percent.units + delta_to_healthy_percent.units,
        );
        let max_percent = Percent::from_permille(
            healthy_percent.units + delta_to_max_percent.units,
        );
        Liability {
            init_percent,
            healthy_percent,
            max_percent,
            recalc_secs: (recalc_hours as u32) * SECS_IN_HOUR,
        }
    }

    /// `Ok` exactly when the policy's invariant holds of this value.
    pub fn invariant_held(&self) -> (r: ContractResult<()>)
        ensures
            r is Ok <==> spec_invariant_held(*self),
            r matches Err(e) ==> e is BrokenInvariant,
    {
        if self.init_percent.units() > 0
            && self.healthy_percent.units() >= self.init_percent.units()
            && self.max_percent.units() > self.healthy_percent.units()
            && self.recalc_secs >= SECS_IN_HOUR
        {
            Ok(())
        } else {
            ContractError::broken_invariant_if(true, "Liability", "invariant broken")
        }
    }

    /// How much to borrow so that the borrowed amount stands at `init_percent`
    /// of the whole position (borrowed plus down payment).
    pub fn init_borrow_amount(&self, downpayment: u128) -> (r: u128)
        requires
            self.init_percent.units < 1000,
            downpayment * self.init_percent.units <= u128::MAX,
        ensures
            r == spec_init_borrow_amount(self.init_percent.units as int, downpayment as int),
    {
        let num: u128 = downpayment * (self.init_percent.units as u128);
        num / ((1000 - self.init_percent.units) as u128)
    }
}

/// The borrowed amount never exceeds the initial liability percentage of the
/// whole position: with `b` the computed borrow for down payment `d` at
/// initial percentage `p`, `b <= p% of (b + d)` holds exactly, and `b` is the
/// largest such amount.
pub proof fn lemma_init_borrow_within_init_percent(p: int, d: int, b: int)
    requires
        0 < p < 1000,
        0 <= d,
        b == spec_init_borrow_amount(p, d),
    ensures
        1000 * b <= p * (b + d),
        1000 * (b + 1) > p * (b + 1 + d),
{
    let q = 1000 - p;
    let x = d * p;
    assert(b == x / q);
    vstd::arithmetic::div_mod::lemma_fundamental_div_mod(x, q);
    vstd::arithmetic::div_mod::lemma_mod_division_less_than_divisor(x, q);
    assert(q * b <= x < q * (b + 1)) by (nonlinear_arith)
        requires
            x == q * b + x % q,
            0 <= x % q < q,
    ;
    assert(1000 * b <= p * (b + d)) by (nonlinear_arith)
        requires
            q * b <= x,
            x == d * p,
            q == 1000 - p,
    ;
    assert(1000 * (b + 1) > p * (b + 1 + d)) by (nonlinear_arith)
        requires
            x < q * (b + 1),
            x == d * p,
            q == 1000 - p,
    ;
}

} // verus!
