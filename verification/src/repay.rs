use vstd::prelude::*;

verus! {

/// The itemized breakdown of how one repayment was distributed across the
/// owed buckets. Derived per call, never stored.
///
/// Each bucket is written at most once per repayment: the `pay_*` methods
/// demand a still-zero field, so a double write is a programming error the
/// verifier rules out.
#[derive(Debug, Clone, Copy, PartialEq, Eq, Structural, Default)]
pub struct Receipt {
    pub previous_margin_paid: u128,
    pub current_margin_paid: u128,
    pub previous_interest_paid: u128,
    pub current_interest_paid: u128,
    pub principal_paid: u128,
    pub close: bool,
}

/// The sum of all five paid buckets.
pub open spec fn spec_total(r: Receipt) -> int {
    r.previous_margin_paid + r.previous_interest_paid + r.current_margin_paid
        + r.current_interest_paid + r.principal_paid
}

impl Receipt {
    pub fn new(
        previous_margin_paid: u128,
        current_margin_paid: u128,
        previous_interest_paid: u128,
        current_interest_paid: u128,
        principal_paid: u128,
        close: bool,
    ) -> (r: Receipt)
        ensures
            r == (Receipt {
                previous_margin_paid,
                current_margin_paid,
                previous_interest_paid,
                current_interest_paid,
                principal_paid,
                close,
            }),
    {
        Receipt {
            previous_margin_paid,
            current_margin_paid,
            previous_interest_paid,
            current_interest_paid,
            principal_paid,
            close,
        }
    }

    /// An all-zero receipt, the starting point of an allocation.
    pub fn empty() -> (r: Receipt)
        ensures
            r == (Receipt {
                previous_margin_paid: 0,
                current_margin_paid: 0,
                previous_interest_paid: 0,
                current_interest_paid: 0,
                principal_paid: 0,
                close: false,
            }),
    {
        Receipt {
            previous_margin_paid: 0,
            current_margin_paid: 0,
            previous_interest_paid: 0,
            current_interest_paid: 0,
            principal_paid: 0,
            close: false,
        }
    }

    pub fn previous_margin_paid(&self) -> (r: u128)
        ensures
            r == self.previous_margin_paid,
    {
        self.previous_margin_paid
    }

    pub fn previous_interest_paid(&self) -> (r: u128)
        ensures
            r == self.previous_interest_paid,
    {
        self.previous_interest_paid
    }

    pub fn current_margin_paid(&self) -> (r: u128)
        ensures
            r == self.current_margin_paid,
    {
        self.current_margin_paid
    }

    pub fn current_interest_paid(&self) -> (r: u128)
        ensures
            r == self.current_interest_paid,
    {
        self.current_interest_paid
    }

    pub fn principal_paid(&self) -> (r: u128)
        ensures
            r == self.principal_paid,
    {
        self.principal_paid
    }

    pub fn close(&self) -> (r: bool)
        ensures
            r == self.close,
    {
        self.close
    }

    pub fn total(&self) -> (r: u128)
        requires
            spec_total(*self) <= u128::MAX,
        ensures
            r == spec_total(*self),
    {
        self.previous_margin_paid + self.previous_interest_paid + self.current_margin_paid
            + self.current_interest_paid + self.principal_paid
    }

    pub fn pay_previous_margin(&mut self, payment: u128)
        requires
            old(self).previous_margin_paid == 0,
        ensures
            *final(self) == (Receipt { previous_margin_paid: payment, ..*old(self) }),
    {
        self.previous_margin_paid = payment;
    }

    pub fn pay_previous_interest(&mut self, payment: u128)
        requires
            old(self).previous_interest_paid == 0,
        ensures
            *final(self) == (Receipt { previous_interest_paid: payment, ..*old(self) }),
    {
        self.previous_interest_paid = payment;
    }

    pub fn pay_current_margin(&mut self, payment: u128)
        requires
            old(self).current_margin_paid == 0,
        ensures
            *final(self) == (Receipt { current_margin_paid: payment, ..*old(self) }),
    {
        self.current_margin_paid = payment;
    }

    pub fn pay_current_interest(&mut self, payment: u128)
        requires
            old(self).current_interest_paid == 0,
        ensures
            *final(self) == (Receipt { current_interest_paid: payment, ..*old(self) }),
    {
        self.current_interest_paid = payment;
    }

    /// Writes the principal bucket; `close` is set exactly when the payment
    /// covers the whole remaining principal. A payment beyond the principal
    /// is accepted in full, the behavior the policy question in the design
    /// notes leaves open.
    pub fn pay_principal(&mut self, principal: u128, payment: u128)
        requires
            old(self).principal_paid == 0,
        ensures
            *final(self) == (Receipt {
                principal_paid: payment,
                close: principal <= payment,
                ..*old(self)
            }),
    {
        self.principal_paid = payment;
        self.close = principal <= payment;
    }
}

} // verus!
