use vstd::prelude::*;

verus! {

use crate::percent::Percent;

/// The interest-rate model of the lending pool: a pure function from the
/// pool's utilization to the interest percentage charged on new borrows.
///
/// A valid model has all three parameters at or below 100%; the computed
/// rate itself may legitimately exceed 100% near full utilization.
#[derive(Debug, Clone, Copy, PartialEq, Eq, Structural)]
pub struct InterestRate {
    pub base_interest_rate: Percent,
    pub utilization_optimal: Percent,
    pub addon_optimal_interest_rate: Percent,
}

/// What makes an interest-rate model valid.
pub open spec fn spec_rate_valid(r: InterestRate) -> bool {
    &&& r.base_interest_rate.units <= 1000
    &&& r.utilization_optimal.units <= 1000
    &&& r.addon_optimal_interest_rate.units <= 1000
}

/// The pool's utilization in per mille: the borrowed share of the whole pool,
/// truncating toward zero; zero when nothing is borrowed.
pub open spec fn spec_utilization(total_liability: int, balance: int) -> int {
    if total_liability == 0 {
        0
    } else {
        total_liability * 1000 / (total_liability + balance)
    }
}

/// The applicable rate in per mille: the base rate plus the add-on scaled by
/// how far utilization stands from the optimal point.
pub open spec fn spec_calculate(r: InterestRate, total_liability: int, balance: int) -> int {
    let utilization = spec_utilization(total_liability, balance);
    if utilization == 0 {
        r.base_interest_rate.units as int
    } else {
        r.base_interest_rate.units
            + utilization * r.addon_optimal_interest_rate.units / r.utilization_optimal.units as int
    }
}

impl InterestRate {
    /// A model from its three parameters, or `None` when one exceeds 100%.
    pub fn new(
        base_interest_rate: Percent,
        utilization_optimal: Percent,
        addon_optimal_interest_rate: Percent,
    ) -> (r: Option<InterestRate>)
        ensures
            base_interest_rate.units <= 1000 && utilization_optimal.units <= 1000
                && addon_optimal_interest_rate.units <= 1000 ==> (r matches Some(v)
                && v == (InterestRate {
                    base_interest_rate,
                    utilization_optimal,
                    addon_optimal_interest_rate,
                }) && spec_rate_valid(v)),
            base_interest_rate.units > 1000 || utilization_optimal.units > 1000
                || addon_optimal_interest_rate.units > 1000 ==> r is None,
    {
        Self::private_new(base_interest_rate, utilization_optimal, addon_optimal_interest_rate)
    }

    fn private_new(
        base_interest_rate: Percent,
        utilization_optimal: Percent,
        addon_optimal_interest_rate: Percent,
    ) -> (r: Option<InterestRate>)
        ensures
            base_interest_rate.units <= 1000 && utilization_optimal.units <= 1000
                && addon_optimal_interest_rate.units <= 1000 ==> (r matches Some(v)
                && v == (InterestRate {
                    base_interest_rate,
                    utilization_optimal,
                    addon_optimal_interest_rate,
                })),
            base_interest_rate.units > 1000 || utilization_optimal.units > 1000
                || addon_optimal_interest_rate.units > 1000 ==> r is None,
    {
        let value = InterestRate {
            base_interest_rate,
            utilization_optimal,
            addon_optimal_interest_rate,
        };
        if value.validate() {
            Some(value)
        } else {
            None
        }
    }

    pub fn base_interest_rate(&self) -> (r: Percent)
        ensures
            r == self.base_interest_rate,
    {
        self.base_interest_rate
    }

    pub fn utilization_optimal(&self) -> (r: Percent)
        ensures
            r == self.utilization_optimal,
    {
        self.utilization_optimal
    }

    pub fn addon_optimal_interest_rate(&self) -> (r: Percent)
        ensures
            r == self.addon_optimal_interest_rate,
    {
        self.addon_optimal_interest_rate
    }

    /// The rate applicable at the given pool figures.
    ///
    /// An optimal-utilization point of zero is meaningful only while nothing
    /// is borrowed, so that combination is excluded here.
    pub fn calculate(&self, total_liability: u128, balance: u128) -> (r: Percent)
        requires
            spec_rate_valid(*self),
            total_liability == 0 || self.utilization_optimal.units > 0,
            total_liability + balance <= u128::MAX,
            total_liability * 1000 <= u128::MAX,
        ensures
            r.units == spec_calculate(*self, total_liability as int, balance as int),
    {
        if total_liability == 0 {
            return self.base_interest_rate;
        }
        let whole: u128 = total_liability + balance;
        proof {
            lemma_utilization_at_most_whole(total_liability as int, balance as int);
        }
        let utilization: Percent = Percent::from_ratio(total_liability, whole);
        proof {
            assert(utilization.units * self.addon_optimal_interest_rate.units <= 1000 * 1000)
                by (nonlinear_arith)
                requires
                    utilization.units <= 1000,
                    self.addon_optimal_interest_rate.units <= 1000,
            ;
        }
        let addon: u32 = utilization.units() * self.addon_optimal_interest_rate.units()
            / self.utilization_optimal.units();
        let units: u32 = self.base_interest_rate.units() + addon;
        if utilization.units() == 0 {
            self.base_interest_rate
        } else {
            Percent::from_permille(units)
        }
    }

    fn validate(&self) -> (r: bool)
        ensures
            r == spec_rate_valid(*self),
    {
        self.base_interest_rate.units() <= 1000 && self.utilization_optimal.units() <= 1000
            && self.addon_optimal_interest_rate.units() <= 1000
    }
}

/// The borrowed share of the whole pool never exceeds 100%.
proof fn lemma_utilization_at_most_whole(l: int, b: int)
    requires
        l > 0,
        b >= 0,
    ensures
        0 <= l * 1000 / (l + b) <= 1000,
{
    assert(l * 1000 <= (l + b) * 1000) by (nonlinear_arith)
        requires
            b >= 0,
    ;
    vstd::arithmetic::div_mod::lemma_div_is_ordered(l * 1000, (l + b) * 1000, l + b);
    vstd::arithmetic::div_mod::lemma_div_by_multiple(1000, l + b);
    vstd::arithmetic::div_mod::lemma_div_pos_is_pos(l * 1000, l + b);
}

/// At zero utilization the model yields exactly the base rate, and at the
/// optimal utilization point it yields exactly the base rate plus the add-on.
pub proof fn lemma_rate_at_anchor_points(r: InterestRate, total_liability: int, balance: int)
    requires
        spec_rate_valid(r),
        total_liability >= 0,
        balance >= 0,
        total_liability == 0 || r.utilization_optimal.units > 0,
    ensures
        total_liability == 0 ==> spec_calculate(r, total_liability, balance)
            == r.base_interest_rate.units,
        spec_utilization(total_liability, balance) == r.utilization_optimal.units
            && r.utilization_optimal.units > 0 ==> spec_calculate(r, total_liability, balance)
            == r.base_interest_rate.units + r.addon_optimal_interest_rate.units,
{
    let u = spec_utilization(total_liability, balance);
    if u == r.utilization_optimal.units && r.utilization_optimal.units > 0 {
        let o = r.utilization_optimal.units as int;
        let a = r.addon_optimal_interest_rate.units as int;
        assert(o * a / o == a) by (nonlinear_arith)
            requires
                o > 0,
                a >= 0,
        ;
    }
}

} // verus!
