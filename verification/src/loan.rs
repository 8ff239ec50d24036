use vstd::prelude::*;

verus! {

use crate::percent::Percent;
use crate::repay::Receipt;

/// Nanoseconds in a (non-leap) year, the denominator of annualized rates.
pub const NANOS_IN_YEAR: u64 = 365 * 24 * 60 * 60 * 1_000_000_000;

/// The per-lease record of the loan: principal, the annualized margin rate,
/// the period bookkeeping, and the debt carried over from closed periods.
///
/// `previous_margin_due` and `previous_interest_due` hold what earlier
/// periods left unpaid. `current_margin_paid` and `current_interest_paid`
/// hold what has already been paid toward the running period, so a second
/// payment within one period is charged only the growth since the first;
/// both reset when the period rolls over.
#[derive(Debug, Clone, Copy, PartialEq, Eq, Structural)]
pub struct LoanLedger {
    pub principal_due: u128,
    pub annual_margin_rate: Percent,
    /// Length of one interest period, in nanoseconds.
    pub interest_due_period: u64,
    /// Slack past a period's end before previous-period debt is delinquent,
    /// in nanoseconds. The check itself is the caller's, not the allocator's.
    pub grace_period: u64,
    /// When the running period began, in nanoseconds.
    pub period_start: u64,
    pub previous_margin_due: u128,
    pub previous_interest_due: u128,
    pub current_margin_paid: u128,
    pub current_interest_paid: u128,
}

/// What makes a ledger well formed.
pub open spec fn spec_ledger_wf(l: LoanLedger) -> bool {
    l.interest_due_period > 0
}

/// The smaller of two values.
pub open spec fn spec_min(a: int, b: int) -> int {
    if a <= b {
        a
    } else {
        b
    }
}

/// Margin accrued on `principal` at `rate_units` per mille per year over
/// `dt` nanoseconds, truncating toward zero at each division.
pub open spec fn spec_accrued(principal: int, rate_units: int, dt: int) -> int {
    (principal * rate_units / 1000) * dt / (NANOS_IN_YEAR as int)
}

/// How a payment spreads over the five owed buckets, in seniority order:
/// previous-period margin, previous-period interest, current-period margin,
/// current-period interest, principal. Each bucket takes the smaller of what
/// it is owed and what is left; the remainder past the first four buckets
/// goes to principal in full.
pub open spec fn spec_allocation(
    prev_margin: int,
    prev_interest: int,
    cur_margin: int,
    cur_interest: int,
    payment: int,
) -> (int, int, int, int, int) {
    let pm = spec_min(prev_margin, payment);
    let pi = spec_min(prev_interest, payment - pm);
    let cm = spec_min(cur_margin, payment - pm - pi);
    let ci = spec_min(cur_interest, payment - pm - pi - cm);
    let pr = payment - pm - pi - cm - ci;
    (pm, pi, cm, ci, pr)
}

/// Margin owed for the running period at `at_time`, net of what this period
/// has already received.
pub open spec fn spec_current_margin_due(l: LoanLedger, at_time: int) -> int {
    spec_accrued(l.principal_due as int, l.annual_margin_rate.units as int, at_time
        - l.period_start) - l.current_margin_paid
}

/// The arithmetic room the accrual computation needs at `at_time`.
pub open spec fn spec_accrual_fits(l: LoanLedger, at_time: int) -> bool {
    &&& l.principal_due * l.annual_margin_rate.units <= u128::MAX
    &&& (l.principal_due * l.annual_margin_rate.units / 1000) * (at_time - l.period_start)
        <= u128::MAX
}

impl LoanLedger {
    /// A fresh ledger opened when a lease becomes active: the granted amount
    /// as principal, no carried-over debt, the first period starting now.
    pub fn new(
        principal: u128,
        annual_margin_rate: Percent,
        interest_due_period: u64,
        grace_period: u64,
        start_at: u64,
    ) -> (r: LoanLedger)
        requires
            interest_due_period > 0,
        ensures
            r == (LoanLedger {
                principal_due: principal,
                annual_margin_rate,
                interest_due_period,
                grace_period,
                period_start: start_at,
                previous_margin_due: 0,
                previous_interest_due: 0,
                current_margin_paid: 0,
                current_interest_paid: 0,
            }),
            spec_ledger_wf(r),
    {
        LoanLedger {
            principal_due: principal,
            annual_margin_rate,
            interest_due_period,
            grace_period,
            period_start: start_at,
            previous_margin_due: 0,
            previous_interest_due: 0,
            current_margin_paid: 0,
            current_interest_paid: 0,
        }
    }

    /// Margin accrued on the principal from the period's start up to `at_time`.
    pub fn margin_accrued(&self, at_time: u64) -> (r: u128)
        requires
            self.period_start <= at_time,
            spec_accrual_fits(*self, at_time as int),
        ensures
            r == spec_accrued(
                self.principal_due as int,
                self.annual_margin_rate.units as int,
                at_time - self.period_start,
            ),
    {
        let rate_applied: u128 = self.principal_due * (self.annual_margin_rate.units as u128)
            / 1000;
        let dt: u128 = (at_time - self.period_start) as u128;
        rate_applied * dt / (NANOS_IN_YEAR as u128)
    }

    /// Allocates `payment` across the owed buckets at `at_time` and updates
    /// the ledger accordingly.
    ///
    /// The caller hands in `current_interest_due`, the pool interest accrued
    /// over the running period up to `at_time`, since only the pool knows its
    /// rate; it must not fall below what this period has already paid toward
    /// it. Time moves forward only, and a period past its end is rolled over
    /// with [`LoanLedger::roll_period`] before paying.
    ///
    /// The receipt's `close` is set exactly when the amount reaching the
    /// principal bucket covers the remaining principal; a payment beyond the
    /// principal is accepted in full into `principal_paid` rather than
    /// rejected or returned.
    pub fn repay(&mut self, payment: u128, at_time: u64, current_interest_due: u128) -> (r:
        Receipt)
        requires
            spec_ledger_wf(*old(self)),
            old(self).period_start <= at_time,
            at_time - old(self).period_start < old(self).interest_due_period,
            spec_accrual_fits(*old(self), at_time as int),
            old(self).current_margin_paid <= spec_accrued(
                old(self).principal_due as int,
                old(self).annual_margin_rate.units as int,
                at_time - old(self).period_start,
            ),
            old(self).current_interest_paid <= current_interest_due,
        ensures
            ({
                let (pm, pi, cm, ci, pr) = spec_allocation(
                    old(self).previous_margin_due as int,
                    old(self).previous_interest_due as int,
                    spec_current_margin_due(*old(self), at_time as int),
                    current_interest_due - old(self).current_interest_paid,
                    payment as int,
                );
                &&& r == (Receipt {
                    previous_margin_paid: pm as u128,
                    previous_interest_paid: pi as u128,
                    current_margin_paid: cm as u128,
                    current_interest_paid: ci as u128,
                    principal_paid: pr as u128,
                    close: old(self).principal_due <= pr,
                })
                &&& *final(self) == (LoanLedger {
                    principal_due: (old(self).principal_due - spec_min(
                        pr,
                        old(self).principal_due as int,
                    )) as u128,
                    previous_margin_due: (old(self).previous_margin_due - pm) as u128,
                    previous_interest_due: (old(self).previous_interest_due - pi) as u128,
                    current_margin_paid: (old(self).current_margin_paid + cm) as u128,
                    current_interest_paid: (old(self).current_interest_paid + ci) as u128,
                    ..*old(self)
                })
            }),
    {
        let mut receipt = Receipt::empty();
        let mut remaining: u128 = payment;

        let prev_margin = if self.previous_margin_due <= remaining {
            self.previous_margin_due
        } else {
            remaining
        };
        receipt.pay_previous_margin(prev_margin);
        self.previous_margin_due = self.previous_margin_due - prev_margin;
        remaining = remaining - prev_margin;

        let prev_interest = if self.previous_interest_due <= remaining {
            self.previous_interest_due
        } else {
            remaining
        };
        receipt.pay_previous_interest(prev_interest);
        self.previous_interest_due = self.previous_interest_due - prev_interest;
        remaining = remaining - prev_interest;

        let margin_due = self.margin_accrued(at_time) - self.current_margin_paid;
        let cur_margin = if margin_due <= remaining {
            margin_due
        } else {
            remaining
        };
        receipt.pay_current_margin(cur_margin);
        self.current_margin_paid = self.current_margin_paid + cur_margin;
        remaining = remaining - cur_margin;

        let interest_due = current_interest_due - self.current_interest_paid;
        let cur_interest = if interest_due <= remaining {
            interest_due
        } else {
            remaining
        };
        receipt.pay_current_interest(cur_interest);
        self.current_interest_paid = self.current_interest_paid + cur_interest;
        remaining = remaining - cur_interest;

        receipt.pay_principal(self.principal_due, remaining);
        self.principal_due = if self.principal_due <= remaining {
            0
        } else {
            self.principal_due - remaining
        };

        receipt
    }

    /// Closes the running period at its boundary: what it leaves unpaid
    /// becomes previous-period debt, and the next period starts at the old
    /// boundary. The caller hands in the pool interest accrued over the
    /// whole closed period.
    pub fn roll_period(&mut self, pool_interest_full_period: u128)
        requires
            spec_ledger_wf(*old(self)),
            old(self).period_start + old(self).interest_due_period <= u64::MAX,
            spec_accrual_fits(
                *old(self),
                old(self).period_start + old(self).interest_due_period,
            ),
            old(self).current_margin_paid <= spec_accrued(
                old(self).principal_due as int,
                old(self).annual_margin_rate.units as int,
                old(self).interest_due_period as int,
            ),
            old(self).current_interest_paid <= pool_interest_full_period,
            old(self).previous_margin_due + spec_accrued(
                old(self).principal_due as int,
                old(self).annual_margin_rate.units as int,
                old(self).interest_due_period as int,
            ) <= u128::MAX,
            old(self).previous_interest_due + pool_interest_full_period <= u128::MAX,
        ensures
            *final(self) == (LoanLedger {
                period_start: (old(self).period_start + old(self).interest_due_period) as u64,
                previous_margin_due: (old(self).previous_margin_due + spec_accrued(
                    old(self).principal_due as int,
                    old(self).annual_margin_rate.units as int,
                    old(self).interest_due_period as int,
                ) - old(self).current_margin_paid) as u128,
                previous_interest_due: (old(self).previous_interest_due
                    + pool_interest_full_period - old(self).current_interest_paid) as u128,
                current_margin_paid: 0u128,
                current_interest_paid: 0u128,
                ..*old(self)
            }),
    {
        let boundary: u64 = self.period_start + self.interest_due_period;
        let full_margin = self.margin_accrued(boundary);
        self.previous_margin_due = self.previous_margin_due
            + (full_margin - self.current_margin_paid);
        self.previous_interest_due = self.previous_interest_due
            + (pool_interest_full_period - self.current_interest_paid);
        self.current_margin_paid = 0;
        self.current_interest_paid = 0;
        self.period_start = boundary;
    }

    /// Whether the running period stands more than the grace period past its
    /// end without having been rolled over. The check belongs to callers:
    /// the allocator itself stays a pure distribution over the owed buckets.
    pub fn past_grace(&self, at_time: u64) -> (r: bool)
        requires
            self.period_start + self.interest_due_period + self.grace_period <= u64::MAX,
        ensures
            r == (at_time > self.period_start + self.interest_due_period + self.grace_period),
    {
        at_time > self.period_start + self.interest_due_period + self.grace_period
    }

    /// Everything owed at `at_time`: carried-over debt, the running period's
    /// open margin and interest, and the principal.
    pub fn total_due(&self, at_time: u64, current_interest_due: u128) -> (r: u128)
        requires
            spec_ledger_wf(*self),
            self.period_start <= at_time,
            spec_accrual_fits(*self, at_time as int),
            self.current_margin_paid <= spec_accrued(
                self.principal_due as int,
                self.annual_margin_rate.units as int,
                at_time - self.period_start,
            ),
            self.current_interest_paid <= current_interest_due,
            self.principal_due + self.previous_margin_due + self.previous_interest_due
                + spec_current_margin_due(*self, at_time as int) + (current_interest_due
                - self.current_interest_paid) <= u128::MAX,
        ensures
            r == self.principal_due + self.previous_margin_due + self.previous_interest_due
                + spec_current_margin_due(*self, at_time as int) + (current_interest_due
                - self.current_interest_paid),
    {
        let margin_open = self.margin_accrued(at_time) - self.current_margin_paid;
        let interest_open = current_interest_due - self.current_interest_paid;
        self.principal_due + self.previous_margin_due + self.previous_interest_due + margin_open
            + interest_open
    }
}

/// Repayment allocation is order-preserving: a payment short of the
/// previous-period margin owed fills only that first bucket, with the full
/// payment, and leaves every later bucket at zero.
pub proof fn lemma_repay_order_preserving(
    prev_margin: int,
    prev_interest: int,
    cur_margin: int,
    cur_interest: int,
    payment: int,
)
    requires
        0 <= payment < prev_margin,
        0 <= prev_interest,
        0 <= cur_margin,
        0 <= cur_interest,
    ensures
        spec_allocation(prev_margin, prev_interest, cur_margin, cur_interest, payment) == (
        payment,
        0int,
        0int,
        0int,
        0int,
        ),
{
}

/// Repayment is conservative: the five buckets of the allocation add up to
/// the payment whenever the payment does not exceed the total owed (indeed
/// the remainder bucket absorbs any rest, so the sum is the payment always).
pub proof fn lemma_repay_conservative(
    prev_margin: int,
    prev_interest: int,
    cur_margin: int,
    cur_interest: int,
    principal: int,
    payment: int,
)
    requires
        0 <= payment,
        0 <= prev_margin,
        0 <= prev_interest,
        0 <= cur_margin,
        0 <= cur_interest,
        0 <= principal,
        payment <= prev_margin + prev_interest + cur_margin + cur_interest + principal,
    ensures
        ({
            let (pm, pi, cm, ci, pr) = spec_allocation(
                prev_margin,
                prev_interest,
                cur_margin,
                cur_interest,
                payment,
            );
            pm + pi + cm + ci + pr == payment
        }),
{
}

/// `close` is reported exactly when the cumulative principal paid over all
/// repayments reaches the loan's original principal: with `paid_before` the
/// principal paid by earlier repayments and `principal_paid` the principal
/// bucket of this one, the receipt closes the loan if and only if the new
/// cumulative total covers the original principal.
pub proof fn lemma_close_iff_cumulative_principal(
    original_principal: int,
    paid_before: int,
    remaining_principal: int,
    principal_paid: int,
)
    requires
        0 <= paid_before,
        0 <= principal_paid,
        remaining_principal == original_principal - paid_before,
    ensures
        (remaining_principal <= principal_paid) <==> (paid_before + principal_paid
            >= original_principal),
{
}

} // verus!
