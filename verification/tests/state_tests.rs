use lease_core::error::ContractError;
use lease_core::lease::{LoanForm, NewLeaseForm};
use lease_core::liability::Liability;
use lease_core::percent::Percent;
use lease_core::state::{
    advance, open_lease, query_stage, Effect, Event, State, ACCOUNT_REQUEST_ID, LOAN_REQUEST_ID,
    SWAP_REQUEST_ID, TRANSFER_REQUEST_ID,
};

const YEAR: u64 = 365 * 24 * 60 * 60 * 1_000_000_000;

fn form() -> NewLeaseForm {
    NewLeaseForm {
        customer: "customer".to_string(),
        currency: "OSMO".to_string(),
        liability: Liability::new(
            Percent::from_percent(10),
            Percent::from_percent(0),
            Percent::from_percent(5),
            20,
        ),
        loan: LoanForm {
            annual_margin_interest: Percent::from_percent(10),
            interest_due_period_nanos: YEAR,
            grace_period_nanos: 0,
        },
    }
}

#[test]
fn open_lease_computes_borrow_amount() {
    // Policy {init 10%, healthy 10%, max 15%, recalc 20h}, down payment 1000:
    // the pool is asked for 1000 * 10 / (100 - 10) = 111.
    let (state, effects) = open_lease(form(), 1000).unwrap();
    assert!(matches!(state, State::RequestingLoan { .. }));
    assert_eq!(query_stage(&state).as_str(), "RequestingLoan");
    assert_eq!(
        effects,
        vec![Effect::RequestLoan {
            request_id: LOAN_REQUEST_ID,
            amount: 111,
        }]
    );
}

#[test]
fn open_lease_without_funds_is_rejected() {
    assert!(matches!(
        open_lease(form(), 0),
        Err(ContractError::NoPayment)
    ));
}

#[test]
fn open_lease_with_broken_policy_is_rejected() {
    let mut bad = form();
    bad.liability.recalc_secs = 0;
    assert!(matches!(
        open_lease(bad, 1000),
        Err(ContractError::InvalidParameters(_))
    ));
}

fn lease_up_to(stage: &str) -> State {
    let (mut state, _) = open_lease(form(), 1000).unwrap();
    if stage == "RequestingLoan" {
        return state;
    }
    let (next, r) = advance(
        state,
        Event::LoanGranted {
            request_id: LOAN_REQUEST_ID,
            amount: 111,
        },
    );
    r.unwrap();
    state = next;
    if stage == "OpeningRemoteAccount" {
        return state;
    }
    let (next, r) = advance(
        state,
        Event::AccountOpened {
            request_id: ACCOUNT_REQUEST_ID,
            account_ref: "remote-acc".to_string(),
        },
    );
    r.unwrap();
    state = next;
    if stage == "TransferringOut" {
        return state;
    }
    let (next, r) = advance(
        state,
        Event::TransferAcknowledged {
            request_id: TRANSFER_REQUEST_ID,
        },
    );
    r.unwrap();
    state = next;
    if stage == "BuyingAsset" {
        return state;
    }
    let (next, r) = advance(
        state,
        Event::SwapCompleted {
            request_id: SWAP_REQUEST_ID,
            amount_out: 2000,
            at_time: 0,
        },
    );
    r.unwrap();
    next
}

#[test]
fn lifecycle_reaches_active_with_expected_effects() {
    let (state, _) = open_lease(form(), 1000).unwrap();
    let (state, r) = advance(
        state,
        Event::LoanGranted {
            request_id: LOAN_REQUEST_ID,
            amount: 111,
        },
    );
    assert_eq!(
        r.unwrap(),
        vec![Effect::OpenAccount {
            request_id: ACCOUNT_REQUEST_ID
        }]
    );
    let (state, r) = advance(
        state,
        Event::AccountOpened {
            request_id: ACCOUNT_REQUEST_ID,
            account_ref: "remote-acc".to_string(),
        },
    );
    assert_eq!(
        r.unwrap(),
        vec![Effect::TransferOut {
            request_id: TRANSFER_REQUEST_ID,
            account_ref: "remote-acc".to_string(),
            amount: 1111,
        }]
    );
    let (state, r) = advance(
        state,
        Event::TransferAcknowledged {
            request_id: TRANSFER_REQUEST_ID,
        },
    );
    assert_eq!(
        r.unwrap(),
        vec![Effect::Swap {
            request_id: SWAP_REQUEST_ID,
            amount_in: 1111,
            target_currency: "OSMO".to_string(),
        }]
    );
    let (state, r) = advance(
        state,
        Event::SwapCompleted {
            request_id: SWAP_REQUEST_ID,
            amount_out: 2000,
            at_time: 0,
        },
    );
    r.unwrap();
    match &state {
        State::Active { lease, collateral } => {
            assert_eq!(*collateral, 2000);
            assert_eq!(lease.customer.as_str(), "customer");
            assert_eq!(lease.loan.principal_due, 111);
        }
        other => panic!("expected an active lease, got {:?}", other),
    }
}

#[test]
fn parked_lease_rejects_repay() {
    // A lease that never receives its remote-account completion stays parked
    // in that stage and answers repayments with an unsupported-operation
    // error.
    let state = lease_up_to("OpeningRemoteAccount");
    let (unchanged, r) = advance(
        state.clone(),
        Event::Repay {
            sender: "customer".to_string(),
            amount: 100,
            at_time: 0,
            current_interest_due: 0,
        },
    );
    assert!(matches!(r, Err(ContractError::UnsupportedOperation(_))));
    assert_eq!(unchanged, state);
    assert_eq!(query_stage(&unchanged).as_str(), "OpeningRemoteAccount");
}

#[test]
fn denied_loan_refunds_downpayment() {
    let state = lease_up_to("RequestingLoan");
    let (state, r) = advance(
        state,
        Event::LoanDenied {
            request_id: LOAN_REQUEST_ID,
        },
    );
    assert_eq!(state, State::Failed);
    assert_eq!(
        r.unwrap(),
        vec![Effect::SendToCustomer {
            customer: "customer".to_string(),
            amount: 1000,
        }]
    );
}

#[test]
fn account_open_failure_releases_the_loan() {
    let state = lease_up_to("OpeningRemoteAccount");
    let (state, r) = advance(
        state,
        Event::AccountOpenFailed {
            request_id: ACCOUNT_REQUEST_ID,
        },
    );
    assert_eq!(state, State::Failed);
    assert_eq!(
        r.unwrap(),
        vec![
            Effect::CancelLoan {
                request_id: LOAN_REQUEST_ID
            },
            Effect::SendToCustomer {
                customer: "customer".to_string(),
                amount: 1000,
            },
        ]
    );
}

#[test]
fn transfer_timeout_is_retried_once_with_the_same_id() {
    let state = lease_up_to("TransferringOut");
    let (state, r) = advance(
        state,
        Event::TransferTimedOut {
            request_id: TRANSFER_REQUEST_ID,
        },
    );
    assert_eq!(
        r.unwrap(),
        vec![Effect::TransferOut {
            request_id: TRANSFER_REQUEST_ID,
            account_ref: "remote-acc".to_string(),
            amount: 1111,
        }]
    );
    assert!(matches!(state, State::TransferringOut { retried: true, .. }));

    let (state, r) = advance(
        state,
        Event::TransferTimedOut {
            request_id: TRANSFER_REQUEST_ID,
        },
    );
    assert_eq!(state, State::Failed);
    assert_eq!(
        r.unwrap(),
        vec![
            Effect::CancelLoan {
                request_id: LOAN_REQUEST_ID
            },
            Effect::SendToCustomer {
                customer: "customer".to_string(),
                amount: 1000,
            },
        ]
    );
}

#[test]
fn mismatched_request_id_changes_nothing() {
    let state = lease_up_to("RequestingLoan");
    let (unchanged, r) = advance(
        state.clone(),
        Event::LoanGranted {
            request_id: 999,
            amount: 111,
        },
    );
    assert!(matches!(r, Err(ContractError::UnsupportedOperation(_))));
    assert_eq!(unchanged, state);
}

#[test]
fn repay_by_stranger_is_unauthorized() {
    let state = lease_up_to("Active");
    let (unchanged, r) = advance(
        state.clone(),
        Event::Repay {
            sender: "stranger".to_string(),
            amount: 10,
            at_time: 1,
            current_interest_due: 0,
        },
    );
    assert!(matches!(r, Err(ContractError::Unauthorized)));
    assert_eq!(unchanged, state);
}

#[test]
fn repay_without_funds_is_rejected() {
    let state = lease_up_to("Active");
    let (_, r) = advance(
        state,
        Event::Repay {
            sender: "customer".to_string(),
            amount: 0,
            at_time: 1,
            current_interest_due: 0,
        },
    );
    assert!(matches!(r, Err(ContractError::NoPayment)));
}

#[test]
fn full_repayment_closes_the_lease() {
    let state = lease_up_to("Active");
    let (state, r) = advance(
        state,
        Event::Repay {
            sender: "customer".to_string(),
            amount: 111,
            at_time: 0,
            current_interest_due: 0,
        },
    );
    let effects = r.unwrap();
    assert_eq!(state, State::Closed);
    assert_eq!(effects.len(), 2);
    match &effects[0] {
        Effect::PaymentApplied(receipt) => {
            assert_eq!(receipt.principal_paid(), 111);
            assert!(receipt.close());
        }
        other => panic!("expected a payment receipt, got {:?}", other),
    }
    assert_eq!(
        effects[1],
        Effect::SendToCustomer {
            customer: "customer".to_string(),
            amount: 2000,
        }
    );
}

#[test]
fn close_before_full_repayment_is_rejected() {
    let state = lease_up_to("Active");
    let (unchanged, r) = advance(
        state.clone(),
        Event::Close {
            sender: "customer".to_string(),
        },
    );
    assert!(matches!(r, Err(ContractError::LoanNotPaid)));
    assert_eq!(unchanged, state);
}

#[test]
fn close_after_closing_reports_loan_closed() {
    let state = lease_up_to("Active");
    let (state, _) = advance(
        state,
        Event::Repay {
            sender: "customer".to_string(),
            amount: 111,
            at_time: 0,
            current_interest_due: 0,
        },
    );
    assert_eq!(state, State::Closed);
    let (state, r) = advance(
        state,
        Event::Close {
            sender: "customer".to_string(),
        },
    );
    assert!(matches!(r, Err(ContractError::LoanClosed)));
    assert_eq!(state, State::Closed);
}

#[test]
fn liquidation_check_reports_health() {
    let state = lease_up_to("Active");
    // Debt 111 against collateral worth 2000: far below the healthy
    // threshold; nothing changes.
    let (state, r) = advance(
        state,
        Event::LiquidationCheck {
            at_time: 0,
            current_interest_due: 0,
            collateral_value: 2000,
        },
    );
    let effects = r.unwrap();
    assert_eq!(effects.len(), 1);
    match &effects[0] {
        Effect::LiquidationNotice(status) => {
            assert!(matches!(
                status,
                lease_core::liquidation::LiquidationStatus::NoWarning
            ));
        }
        other => panic!("expected a liquidation notice, got {:?}", other),
    }
    assert!(matches!(state, State::Active { .. }));
}

#[test]
fn deep_underwater_position_is_fully_liquidated() {
    let state = lease_up_to("Active");
    // Debt 111 against collateral worth 100: the ratio cannot be restored
    // by any partial sale, so the lease closes.
    let (state, r) = advance(
        state,
        Event::LiquidationCheck {
            at_time: 0,
            current_interest_due: 0,
            collateral_value: 100,
        },
    );
    let effects = r.unwrap();
    match &effects[0] {
        Effect::LiquidationNotice(status) => {
            assert!(matches!(
                status,
                lease_core::liquidation::LiquidationStatus::FullLiquidation(_, 100)
            ));
        }
        other => panic!("expected a liquidation notice, got {:?}", other),
    }
    assert_eq!(state, State::Closed);
}
