use vstd::prelude::*;

verus! {

use crate::liability::{Liability, spec_invariant_held};
use crate::percent::Percent;

/// What a warning or liquidation notice reports about the position.
#[derive(Debug, Clone, PartialEq, Eq)]
pub struct WarningAndLiquidationInfo {
    pub customer: String,
    pub ltv: Percent,
    pub ltv_healthy: Percent,
    pub lease_asset: String,
}

/// The health classification of a position, computed on demand from the
/// current loan-to-value ratio and the liability policy; never persisted.
///
/// The bare healthy case is spelled `NoWarning` here because a bare `None`
/// would collide with the option constructor in contracts.
#[derive(Debug, Clone, PartialEq, Eq)]
pub enum LiquidationStatus {
    NoWarning,
    FirstWarning(WarningAndLiquidationInfo),
    SecondWarning(WarningAndLiquidationInfo),
    ThirdWarning(WarningAndLiquidationInfo),
    PartialLiquidation(WarningAndLiquidationInfo, u128),
    FullLiquidation(WarningAndLiquidationInfo, u128),
}

/// Severity of a status, ascending.
pub open spec fn spec_severity(s: LiquidationStatus) -> int {
    match s {
        LiquidationStatus::NoWarning => 0,
        LiquidationStatus::FirstWarning(_) => 1,
        LiquidationStatus::SecondWarning(_) => 2,
        LiquidationStatus::ThirdWarning(_) => 3,
        LiquidationStatus::PartialLiquidation(_, _) => 4,
        LiquidationStatus::FullLiquidation(_, _) => 5,
    }
}

/// The warning class of a loan-to-value reading against the policy bands:
/// 0 below the healthy threshold, 1 to 3 in the three equal sub-ranges of
/// `[healthy, max)`, 4 at or above the maximum.
pub open spec fn spec_classification(healthy: int, max: int, ltv: int) -> int {
    let band = (max - healthy) / 3;
    if ltv < healthy {
        0
    } else if ltv < healthy + band {
        1
    } else if ltv < healthy + 2 * band {
        2
    } else if ltv < max {
        3
    } else {
        4
    }
}

/// Whether selling collateral worth `sale` brings the position back to the
/// healthy threshold: the sale's proceeds repay debt, so both sides shrink.
pub open spec fn spec_restored(due: int, collateral: int, healthy: int, sale: int) -> bool {
    (due - sale) * 1000 <= healthy * (collateral - sale)
}

/// The minimal sale restoring health, as a ceiling division; meaningful for
/// `healthy < 1000` and a position at or above the maximum threshold.
pub open spec fn spec_sale_amount(due: int, collateral: int, healthy: int) -> int {
    (1000 * due - healthy * collateral + (1000 - healthy) - 1) / (1000 - healthy)
}

/// Severity of the status [`check_liability`] yields for the given debt and
/// collateral value, over the policy's thresholds.
pub open spec fn spec_status_severity(healthy: int, max: int, due: int, collateral: int) -> int {
    let ltv = due * 1000 / collateral;
    let cls = spec_classification(healthy, max, ltv);
    if cls < 4 {
        cls
    } else if healthy >= 1000 {
        5
    } else if spec_sale_amount(due, collateral, healthy) >= collateral {
        5
    } else {
        4
    }
}

/// Classifies the position of `total_due` owed against collateral currently
/// worth `collateral_value` (both in the loan's currency) under the policy.
///
/// At or above the maximum threshold the minimal sale restoring the healthy
/// ratio is computed; when no sale short of everything can restore it (or the
/// healthy threshold itself is at or above 100%), the whole collateral goes.
pub fn check_liability(
    liability: &Liability,
    customer: String,
    lease_asset: String,
    total_due: u128,
    collateral_value: u128,
) -> (r: LiquidationStatus)
    requires
        spec_invariant_held(*liability),
        collateral_value > 0,
        total_due * 1000 + 1000 <= u128::MAX,
        collateral_value * 1000 <= u128::MAX,
        total_due * 1000 / (collateral_value as int) <= u32::MAX,
    ensures
        ({
            let ltv = total_due * 1000 / (collateral_value as int);
            let h = liability.healthy_percent.units as int;
            let m = liability.max_percent.units as int;
            let cls = spec_classification(h, m, ltv);
            let sev = spec_status_severity(h, m, total_due as int, collateral_value as int);
            &&& spec_severity(r) == sev
            &&& cls == 0 <==> r is NoWarning
            &&& (r matches LiquidationStatus::FirstWarning(i) ==> spec_info_ok(
                i,
                customer@,
                lease_asset@,
                ltv,
                *liability,
            ))
            &&& (r matches LiquidationStatus::SecondWarning(i) ==> spec_info_ok(
                i,
                customer@,
                lease_asset@,
                ltv,
                *liability,
            ))
            &&& (r matches LiquidationStatus::ThirdWarning(i) ==> spec_info_ok(
                i,
                customer@,
                lease_asset@,
                ltv,
                *liability,
            ))
            &&& (r matches LiquidationStatus::PartialLiquidation(i, a) ==> spec_info_ok(
                i,
                customer@,
                lease_asset@,
                ltv,
                *liability,
            ) && a == spec_sale_amount(total_due as int, collateral_value as int, h)
                && a < collateral_value)
            &&& (r matches LiquidationStatus::FullLiquidation(i, a) ==> spec_info_ok(
                i,
                customer@,
                lease_asset@,
                ltv,
                *liability,
            ) && a == collateral_value)
        }),
{
    let ltv_wide: u128 = total_due * 1000 / collateral_value;
    let ltv = Percent::from_permille(ltv_wide as u32);
    let healthy: u32 = liability.healthy_percent.units;
    let max: u32 = liability.max_percent.units;
    let band: u32 = (max - healthy) / 3;
    let info = WarningAndLiquidationInfo {
        customer,
        ltv,
        ltv_healthy: liability.healthy_percent,
        lease_asset,
    };
    if ltv.units < healthy {
        LiquidationStatus::NoWarning
    } else if ltv.units < healthy + band {
        LiquidationStatus::FirstWarning(info)
    } else if ltv.units < healthy + 2 * band {
        LiquidationStatus::SecondWarning(info)
    } else if ltv.units < max {
        LiquidationStatus::ThirdWarning(info)
    } else if healthy >= 1000 {
        LiquidationStatus::FullLiquidation(info, collateral_value)
    } else {
        proof {
            lemma_ltv_floor_bound(
                total_due as int,
                collateral_value as int,
                liability.max_percent.units as int,
            );
            assert(liability.healthy_percent.units * collateral_value <= liability.max_percent.units
                * collateral_value) by (nonlinear_arith)
                requires
                    liability.healthy_percent.units < liability.max_percent.units,
                    collateral_value > 0,
            ;
        }
        let numerator: u128 = total_due * 1000 - (healthy as u128) * collateral_value;
        let divisor: u128 = (1000 - healthy) as u128;
        let sale: u128 = (numerator + divisor - 1) / divisor;
        if sale >= collateral_value {
            LiquidationStatus::FullLiquidation(info, collateral_value)
        } else {
            LiquidationStatus::PartialLiquidation(info, sale)
        }
    }
}

/// Whether a notice's fields report the given position.
pub open spec fn spec_info_ok(
    i: WarningAndLiquidationInfo,
    customer: Seq<char>,
    lease_asset: Seq<char>,
    ltv: int,
    liability: Liability,
) -> bool {
    &&& i.customer@ == customer
    &&& i.lease_asset@ == lease_asset
    &&& i.ltv.units == ltv
    &&& i.ltv_healthy == liability.healthy_percent
}

/// A loan-to-value reading at or above a threshold means the debt itself
/// stands at or above that share of the collateral.
proof fn lemma_ltv_floor_bound(due: int, collateral: int, threshold: int)
    requires
        collateral > 0,
        due >= 0,
        due * 1000 / collateral >= threshold,
    ensures
        due * 1000 >= threshold * collateral,
{
    vstd::arithmetic::div_mod::lemma_fundamental_div_mod(due * 1000, collateral);
    vstd::arithmetic::div_mod::lemma_mod_division_less_than_divisor(due * 1000, collateral);
    assert(due * 1000 >= threshold * collateral) by (nonlinear_arith)
        requires
            due * 1000 == collateral * (due * 1000 / collateral) + (due * 1000) % collateral,
            0 <= (due * 1000) % collateral,
            due * 1000 / collateral >= threshold,
            collateral > 0,
    ;
}

/// The computed sale is the minimal amount whose proceeds restore the
/// position to the healthy threshold: it restores health, and one unit less
/// would not.
pub proof fn lemma_sale_amount_minimal(due: int, collateral: int, healthy: int)
    requires
        collateral > 0,
        due >= 0,
        0 <= healthy < 1000,
        due * 1000 > healthy * collateral,
    ensures
        ({
            let sale = spec_sale_amount(due, collateral, healthy);
            &&& sale > 0
            &&& spec_restored(due, collateral, healthy, sale)
            &&& !spec_restored(due, collateral, healthy, sale - 1)
        }),
{
    let n = 1000 * due - healthy * collateral;
    let d = 1000 - healthy;
    let sale = (n + d - 1) / d;
    vstd::arithmetic::div_mod::lemma_fundamental_div_mod(n + d - 1, d);
    vstd::arithmetic::div_mod::lemma_mod_division_less_than_divisor(n + d - 1, d);
    assert(d * sale >= n && d * (sale - 1) < n && sale > 0) by (nonlinear_arith)
        requires
            n + d - 1 == d * ((n + d - 1) / d) + (n + d - 1) % d,
            0 <= (n + d - 1) % d < d,
            sale == (n + d - 1) / d,
            n > 0,
            d > 0,
    ;
    assert(spec_restored(due, collateral, healthy, sale)) by (nonlinear_arith)
        requires
            d * sale >= n,
            n == 1000 * due - healthy * collateral,
            d == 1000 - healthy,
    ;
    assert(!spec_restored(due, collateral, healthy, sale - 1)) by (nonlinear_arith)
        requires
            d * (sale - 1) < n,
            n == 1000 * due - healthy * collateral,
            d == 1000 - healthy,
    ;
}

/// Liquidation classification is monotonic: with the policy and the
/// collateral held fixed, a larger debt (hence a larger loan-to-value
/// reading) never yields a less severe status.
pub proof fn lemma_classification_monotonic(
    healthy: int,
    max: int,
    collateral: int,
    due1: int,
    due2: int,
)
    requires
        0 < healthy < max,
        collateral > 0,
        0 <= due1 <= due2,
    ensures
        spec_status_severity(healthy, max, due1, collateral) <= spec_status_severity(
            healthy,
            max,
            due2,
            collateral,
        ),
{
    vstd::arithmetic::div_mod::lemma_div_is_ordered(due1 * 1000, due2 * 1000, collateral);
    assert(due1 * 1000 <= due2 * 1000) by (nonlinear_arith)
        requires
            due1 <= due2,
    ;
    let ltv1 = due1 * 1000 / collateral;
    let ltv2 = due2 * 1000 / collateral;
    assert(ltv1 <= ltv2);
    if healthy < 1000 {
        let n1 = 1000 * due1 - healthy * collateral;
        let n2 = 1000 * due2 - healthy * collateral;
        let d = 1000 - healthy;
        vstd::arithmetic::div_mod::lemma_div_is_ordered(n1 + d - 1, n2 + d - 1, d);
        assert(spec_sale_amount(due1, collateral, healthy) <= spec_sale_amount(
            due2,
            collateral,
            healthy,
        ));
    }
}

} // verus!
