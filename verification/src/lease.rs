use vstd::prelude::*;

verus! {

use crate::error::{ContractError, ContractResult};
use crate::liability::{Liability, spec_invariant_held};
use crate::loan::LoanLedger;
use crate::percent::Percent;

/// The loan part of a lease-creation request.
#[derive(Debug, Clone, PartialEq, Eq)]
pub struct LoanForm {
    /// The annualized margin the lease charges on top of the pool's interest.
    pub annual_margin_interest: Percent,
    /// Length of one interest period, in nanoseconds.
    pub interest_due_period_nanos: u64,
    /// Slack past a period's end before previous-period debt is delinquent,
    /// in nanoseconds.
    pub grace_period_nanos: u64,
}

/// A lease-creation request: who leases what, under which liability policy,
/// on which loan terms.
#[derive(Debug, Clone, PartialEq, Eq)]
pub struct NewLeaseForm {
    pub customer: String,
    /// The symbol of the asset being leased.
    pub currency: String,
    pub liability: Liability,
    pub loan: LoanForm,
}

/// The durable aggregate of an active lease. The customer and the currency
/// are fixed at creation and never change.
#[derive(Debug, Clone, PartialEq, Eq)]
pub struct LeaseDTO {
    pub customer: String,
    pub currency: String,
    pub liability: Liability,
    pub loan: LoanLedger,
}

/// What a creation form must satisfy before a lease may be opened from it.
pub open spec fn spec_form_valid(f: NewLeaseForm) -> bool {
    &&& spec_invariant_held(f.liability)
    &&& f.loan.interest_due_period_nanos > 0
}

impl LeaseDTO {
    pub fn new(customer: String, currency: String, liability: Liability, loan: LoanLedger) -> (r:
        LeaseDTO)
        ensures
            r == (LeaseDTO { customer, currency, liability, loan }),
    {
        LeaseDTO { customer, currency, liability, loan }
    }
}

impl NewLeaseForm {
    /// The durable lease record for this form, with a fresh ledger over the
    /// granted `principal` whose first period starts at `start_at`.
    ///
    /// Rejected with `InvalidParameters` when the liability policy's
    /// invariant does not hold or the interest period is degenerate: nothing
    /// invalid is ever persisted.
    pub fn into_lease_dto(self, start_at: u64, principal: u128) -> (r: ContractResult<LeaseDTO>)
        ensures
            spec_form_valid(self) ==> (r matches Ok(dto)
                && dto == (LeaseDTO {
                    customer: self.customer,
                    currency: self.currency,
                    liability: self.liability,
                    loan: LoanLedger {
                        principal_due: principal,
                        annual_margin_rate: self.loan.annual_margin_interest,
                        interest_due_period: self.loan.interest_due_period_nanos,
                        grace_period: self.loan.grace_period_nanos,
                        period_start: start_at,
                        previous_margin_due: 0,
                        previous_interest_due: 0,
                        current_margin_paid: 0,
                        current_interest_paid: 0,
                    },
                })),
            !spec_form_valid(self) ==> (r matches Err(e) && e is InvalidParameters),
    {
        if self.liability.invariant_held().is_err() {
            return Err(ContractError::InvalidParameters(String::from_str(
                "liability policy invariant broken",
            )));
        }
        if self.loan.interest_due_period_nanos == 0 {
            return Err(ContractError::InvalidParameters(String::from_str(
                "interest period must not be empty",
            )));
        }
        let loan = LoanLedger::new(
            principal,
            self.loan.annual_margin_interest,
            self.loan.interest_due_period_nanos,
            self.loan.grace_period_nanos,
            start_at,
        );
        Ok(LeaseDTO::new(self.customer, self.currency, self.liability, loan))
    }
}

} // verus!
