use lease_core::loan::LoanLedger;
use lease_core::percent::Percent;
use lease_core::repay::Receipt;

#[test]
fn pay_principal_full() {
    let principal: u128 = 10;

    let mut receipt = Receipt::default();

    receipt.pay_principal(principal, principal);

    assert_eq!(
        receipt,
        Receipt {
            principal_paid: principal,
            close: true,
            ..Default::default()
        },
    );
}

#[test]
fn pay_principal_overpaid() {
    let principal: u128 = 10;

    let payment = principal + 1;

    let mut receipt = Receipt::default();

    receipt.pay_principal(principal, payment);

    assert_eq!(
        receipt,
        Receipt {
            principal_paid: payment,
            close: true,
            ..Default::default()
        },
    );
}

fn ledger_with_carried_debt() -> LoanLedger {
    LoanLedger {
        principal_due: 1000,
        annual_margin_rate: Percent::from_percent(0),
        interest_due_period: 1_000_000,
        grace_period: 0,
        period_start: 0,
        previous_margin_due: 100,
        previous_interest_due: 70,
        current_margin_paid: 0,
        current_interest_paid: 0,
    }
}

#[test]
fn repay_pays_buckets_in_seniority_order() {
    let mut ledger = ledger_with_carried_debt();
    // 100 previous margin, 70 previous interest, no current margin (zero
    // rate), 30 current interest, then principal.
    let receipt = ledger.repay(250, 10, 30);
    assert_eq!(receipt.previous_margin_paid(), 100);
    assert_eq!(receipt.previous_interest_paid(), 70);
    assert_eq!(receipt.current_margin_paid(), 0);
    assert_eq!(receipt.current_interest_paid(), 30);
    assert_eq!(receipt.principal_paid(), 50);
    assert!(!receipt.close());
    assert_eq!(ledger.principal_due, 950);
    assert_eq!(ledger.previous_margin_due, 0);
    assert_eq!(ledger.previous_interest_due, 0);
    assert_eq!(ledger.current_interest_paid, 30);
}

#[test]
fn repay_small_payment_fills_first_bucket_only() {
    let mut ledger = ledger_with_carried_debt();
    let receipt = ledger.repay(40, 10, 30);
    assert_eq!(receipt.previous_margin_paid(), 40);
    assert_eq!(receipt.previous_interest_paid(), 0);
    assert_eq!(receipt.current_margin_paid(), 0);
    assert_eq!(receipt.current_interest_paid(), 0);
    assert_eq!(receipt.principal_paid(), 0);
    assert!(!receipt.close());
    assert_eq!(ledger.previous_margin_due, 60);
}

#[test]
fn repay_is_conservative() {
    let mut ledger = ledger_with_carried_debt();
    let payment: u128 = 199;
    let receipt = ledger.repay(payment, 10, 30);
    assert_eq!(receipt.total(), payment);
}

#[test]
fn repay_closes_on_reaching_principal() {
    let mut ledger = ledger_with_carried_debt();
    let receipt = ledger.repay(100 + 70 + 30 + 1000, 10, 30);
    assert_eq!(receipt.principal_paid(), 1000);
    assert!(receipt.close());
    assert_eq!(ledger.principal_due, 0);
}

#[test]
fn repay_accrues_margin_within_period() {
    // 10% a year on 1000 principal over half a year: 50 owed as margin.
    let year: u64 = 365 * 24 * 60 * 60 * 1_000_000_000;
    let mut ledger = LoanLedger {
        principal_due: 1000,
        annual_margin_rate: Percent::from_percent(10),
        interest_due_period: year,
        grace_period: 0,
        period_start: 0,
        previous_margin_due: 0,
        previous_interest_due: 0,
        current_margin_paid: 0,
        current_interest_paid: 0,
    };
    let receipt = ledger.repay(80, year / 2, 0);
    assert_eq!(receipt.current_margin_paid(), 50);
    assert_eq!(receipt.principal_paid(), 30);
    assert_eq!(ledger.current_margin_paid, 50);
}

#[test]
fn roll_period_carries_unpaid_amounts() {
    let year: u64 = 365 * 24 * 60 * 60 * 1_000_000_000;
    let mut ledger = LoanLedger {
        principal_due: 1000,
        annual_margin_rate: Percent::from_percent(10),
        interest_due_period: year,
        grace_period: 0,
        period_start: 0,
        previous_margin_due: 0,
        previous_interest_due: 0,
        current_margin_paid: 40,
        current_interest_paid: 5,
    };
    ledger.roll_period(25);
    // A full year accrues 100 margin; 40 was already paid.
    assert_eq!(ledger.previous_margin_due, 60);
    assert_eq!(ledger.previous_interest_due, 20);
    assert_eq!(ledger.current_margin_paid, 0);
    assert_eq!(ledger.current_interest_paid, 0);
    assert_eq!(ledger.period_start, year);
}

#[test]
fn close_reflects_cumulative_principal() {
    // The loan closes exactly when the principal paid across repayments
    // reaches the original principal.
    let mut ledger = LoanLedger {
        principal_due: 1000,
        annual_margin_rate: Percent::from_percent(0),
        interest_due_period: 1_000_000,
        grace_period: 0,
        period_start: 0,
        previous_margin_due: 0,
        previous_interest_due: 0,
        current_margin_paid: 0,
        current_interest_paid: 0,
    };
    let first = ledger.repay(400, 10, 0);
    assert_eq!(first.principal_paid(), 400);
    assert!(!first.close());
    let second = ledger.repay(599, 20, 0);
    assert!(!second.close());
    let third = ledger.repay(1, 30, 0);
    assert_eq!(400 + 599 + 1, 1000u128);
    assert!(third.close());
    assert_eq!(ledger.principal_due, 0);
}

#[test]
fn grace_period_bounds_delinquency() {
    let ledger = LoanLedger {
        principal_due: 1000,
        annual_margin_rate: Percent::from_percent(0),
        interest_due_period: 100,
        grace_period: 20,
        period_start: 0,
        previous_margin_due: 0,
        previous_interest_due: 0,
        current_margin_paid: 0,
        current_interest_paid: 0,
    };
    assert!(!ledger.past_grace(120));
    assert!(ledger.past_grace(121));
}
