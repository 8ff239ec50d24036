use vstd::prelude::*;

verus! {

use crate::error::{ContractError, ContractResult};
use crate::lease::{LeaseDTO, NewLeaseForm, spec_form_valid};
use crate::liability::spec_invariant_held;
use crate::liquidation::{
    LiquidationStatus,
    check_liability,
    spec_severity,
    spec_status_severity,
};
use crate::loan::{
    LoanLedger,
    spec_accrual_fits,
    spec_accrued,
    spec_allocation,
    spec_current_margin_due,
    spec_ledger_wf,
    spec_min,
};
use crate::repay::Receipt;

/// The fixed correlation id of the loan request a lease issues to the pool.
pub const LOAN_REQUEST_ID: u64 = 1;

/// The fixed correlation id of the remote-account opening request.
pub const ACCOUNT_REQUEST_ID: u64 = 2;

/// The fixed correlation id of the outbound transfer; a retry reuses it.
pub const TRANSFER_REQUEST_ID: u64 = 3;

/// The fixed correlation id of the swap into the lease's asset.
pub const SWAP_REQUEST_ID: u64 = 4;

/// The lifecycle stage of a lease. Exactly one variant is persisted at any
/// time, and each carries everything needed to resume after a restart —
/// in particular the id of the completion callback it waits for.
#[derive(Debug, Clone, PartialEq, Eq)]
pub enum State {
    /// Waiting for the pool to grant the requested loan.
    RequestingLoan { form: NewLeaseForm, downpayment: u128, pending_request_id: u64 },
    /// Waiting for the remote custody channel to open.
    OpeningRemoteAccount {
        form: NewLeaseForm,
        downpayment: u128,
        granted: u128,
        pending_request_id: u64,
    },
    /// Waiting for the funds to arrive on the remote account; one timeout is
    /// retried with the same transfer id, a second is terminal.
    TransferringOut {
        form: NewLeaseForm,
        downpayment: u128,
        granted: u128,
        account_ref: String,
        retried: bool,
        pending_request_id: u64,
    },
    /// Waiting for the swap into the lease's asset to complete.
    BuyingAsset {
        form: NewLeaseForm,
        downpayment: u128,
        granted: u128,
        account_ref: String,
        pending_request_id: u64,
    },
    /// The position is open: the ledger accrues, payments are accepted, and
    /// the liquidation evaluator watches collateral health.
    Active { lease: LeaseDTO, collateral: u128 },
    /// A lifecycle step failed; any held pool loan was released on the way
    /// here and the down payment refunded.
    Failed,
    /// The lease ended, by full repayment or by full liquidation.
    Closed,
}

/// An inbound happening: an asynchronous completion correlated by request
/// id, or an administrative request from a caller.
#[derive(Debug, Clone, PartialEq, Eq)]
pub enum Event {
    LoanGranted { request_id: u64, amount: u128 },
    LoanDenied { request_id: u64 },
    AccountOpened { request_id: u64, account_ref: String },
    AccountOpenFailed { request_id: u64 },
    TransferAcknowledged { request_id: u64 },
    TransferTimedOut { request_id: u64 },
    SwapCompleted { request_id: u64, amount_out: u128, at_time: u64 },
    SwapFailed { request_id: u64 },
    /// A payment of `amount` from `sender` at `at_time`;
    /// `current_interest_due` is the pool interest accrued over the running
    /// period up to that moment, which only the pool can report.
    Repay { sender: String, amount: u128, at_time: u64, current_interest_due: u128 },
    Close { sender: String },
    /// A health recalculation trigger; `collateral_value` is the current
    /// worth of the collateral in the loan's currency, priced by the oracle.
    LiquidationCheck { at_time: u64, current_interest_due: u128, collateral_value: u128 },
}

/// An outbound instruction the caller performs after persisting the next
/// state; its completion comes back later as an [`Event`].
#[derive(Debug, Clone, PartialEq, Eq)]
pub enum Effect {
    RequestLoan { request_id: u64, amount: u128 },
    CancelLoan { request_id: u64 },
    OpenAccount { request_id: u64 },
    TransferOut { request_id: u64, account_ref: String, amount: u128 },
    Swap { request_id: u64, amount_in: u128, target_currency: String },
    SendToCustomer { customer: String, amount: u128 },
    /// The itemized outcome of a repayment, for the caller to report.
    PaymentApplied(Receipt),
    /// The health classification of the position, for the caller to report.
    LiquidationNotice(LiquidationStatus),
}

/// Which state-event pairs the machine handles at all; every other pair is
/// answered with `UnsupportedOperation` and an unchanged state.
pub open spec fn spec_handles(s: State, e: Event) -> bool {
    match s {
        State::RequestingLoan { pending_request_id, .. } => match e {
            Event::LoanGranted { request_id, .. } => request_id == pending_request_id,
            Event::LoanDenied { request_id } => request_id == pending_request_id,
            _ => false,
        },
        State::OpeningRemoteAccount { pending_request_id, .. } => match e {
            Event::AccountOpened { request_id, .. } => request_id == pending_request_id,
            Event::AccountOpenFailed { request_id } => request_id == pending_request_id,
            _ => false,
        },
        State::TransferringOut { pending_request_id, .. } => match e {
            Event::TransferAcknowledged { request_id } => request_id == pending_request_id,
            Event::TransferTimedOut { request_id } => request_id == pending_request_id,
            _ => false,
        },
        State::BuyingAsset { pending_request_id, .. } => match e {
            Event::SwapCompleted { request_id, .. } => request_id == pending_request_id,
            Event::SwapFailed { request_id } => request_id == pending_request_id,
            _ => false,
        },
        State::Active { .. } => e is Repay || e is Close || e is LiquidationCheck,
        State::Failed => false,
        State::Closed => e is Close || e is Repay,
    }
}

/// Everything owed on a ledger at `at_time`, the pool interest due being
/// reported from outside.
pub open spec fn spec_total_due(l: LoanLedger, at_time: int, current_interest_due: int) -> int {
    l.principal_due + l.previous_margin_due + l.previous_interest_due + spec_current_margin_due(
        l,
        at_time,
    ) + (current_interest_due - l.current_interest_paid)
}

/// The arithmetic room a repayment needs, checked before the allocator runs.
pub open spec fn spec_repay_args_ok(l: LoanLedger, at_time: int, current_interest_due: int) -> bool {
    &&& spec_ledger_wf(l)
    &&& l.period_start <= at_time
    &&& at_time - l.period_start < l.interest_due_period
    &&& spec_accrual_fits(l, at_time)
    &&& l.current_margin_paid <= spec_accrued(
        l.principal_due as int,
        l.annual_margin_rate.units as int,
        at_time - l.period_start,
    )
    &&& l.current_interest_paid <= current_interest_due
}

/// What a liquidation check needs beyond a repayment: a valid policy and
/// arithmetic room for the loan-to-value computation.
pub open spec fn spec_liquidation_args_ok(
    lease: LeaseDTO,
    at_time: int,
    current_interest_due: int,
    collateral_value: int,
) -> bool {
    let l = lease.loan;
    &&& spec_invariant_held(lease.liability)
    &&& spec_repay_args_ok(l, at_time, current_interest_due)
    &&& spec_total_due(l, at_time, current_interest_due) <= u128::MAX
    &&& collateral_value > 0
    &&& spec_total_due(l, at_time, current_interest_due) * 1000 + 1000 <= u128::MAX
    &&& collateral_value * 1000 <= u128::MAX
    &&& spec_total_due(l, at_time, current_interest_due) * 1000 / collateral_value <= u32::MAX
}

impl LoanLedger {
    /// Whether a repayment at `at_time` fits the machine's arithmetic.
    fn repay_args_ok(&self, at_time: u64, current_interest_due: u128) -> (r: bool)
        ensures
            r == spec_repay_args_ok(*self, at_time as int, current_interest_due as int),
    {
        if self.interest_due_period == 0 {
            return false;
        }
        if !(self.period_start <= at_time) {
            return false;
        }
        if !(at_time - self.period_start < self.interest_due_period) {
            return false;
        }
        let scaled = match self.principal_due.checked_mul(self.annual_margin_rate.units as u128) {
            Some(v) => v,
            None => { return false; },
        };
        let accrued = match (scaled / 1000).checked_mul((at_time - self.period_start) as u128) {
            Some(v) => v / (crate::loan::NANOS_IN_YEAR as u128),
            None => { return false; },
        };
        self.current_margin_paid <= accrued && self.current_interest_paid <= current_interest_due
    }
}

/// Drives one step of the lifecycle: from the persisted state and one
/// inbound event to the next state to persist and the outbound effects to
/// perform. On an error the state comes back unchanged and nothing is owed
/// to the outside.
///
/// A failure while the pool's loan is held (remote-account opening, either
/// transfer timeout, a failed swap) always releases the loan — the
/// `CancelLoan` effect precedes the terminal `Failed` state — and refunds
/// the down payment.
///
/// A liquidation check never moves a healthy or warned position; a full
/// liquidation closes the lease. A partial liquidation reports the minimal
/// sale to perform without moving the stage: selling is the caller's
/// asynchronous flow.
pub fn advance(state: State, event: Event) -> (r: (State, ContractResult<Vec<Effect>>))
    ensures
        !spec_handles(state, event) ==> r.0 == state && (r.1 matches Err(e)
            && e is UnsupportedOperation),
        state matches State::RequestingLoan { form, downpayment, pending_request_id } ==> (
        event matches Event::LoanGranted { request_id, amount } ==> (request_id
            == pending_request_id ==> r.0 == (State::OpeningRemoteAccount {
            form,
            downpayment,
            granted: amount,
            pending_request_id: ACCOUNT_REQUEST_ID,
        }) && (r.1 matches Ok(effs) && effs@ =~= seq![
            Effect::OpenAccount { request_id: ACCOUNT_REQUEST_ID },
        ]))),
        state matches State::RequestingLoan { form, downpayment, pending_request_id } ==> (
        event matches Event::LoanDenied { request_id } && request_id == pending_request_id
            ==> r.0 is Failed && (r.1 matches Ok(effs) && effs@ =~= seq![
            Effect::SendToCustomer { customer: form.customer, amount: downpayment },
        ])),
        state matches State::OpeningRemoteAccount { form, downpayment, granted, pending_request_id }
            ==> (event matches Event::AccountOpened { request_id, account_ref } ==> (
        request_id == pending_request_id ==> ({
            &&& downpayment + granted <= u128::MAX ==> r.0 == (State::TransferringOut {
                form,
                downpayment,
                granted,
                account_ref,
                retried: false,
                pending_request_id: TRANSFER_REQUEST_ID,
            }) && (r.1 matches Ok(effs) && effs@ =~= seq![
                Effect::TransferOut {
                    request_id: TRANSFER_REQUEST_ID,
                    account_ref,
                    amount: (downpayment + granted) as u128,
                },
            ])
            &&& downpayment + granted > u128::MAX ==> r.0 == state && (r.1 matches Err(e)
                && e is BrokenInvariant)
        }))),
        state matches State::OpeningRemoteAccount { form, downpayment, granted, pending_request_id }
            ==> (event matches Event::AccountOpenFailed { request_id } && request_id
            == pending_request_id ==> r.0 is Failed && (r.1 matches Ok(effs) && effs@ =~= seq![
            Effect::CancelLoan { request_id: LOAN_REQUEST_ID },
            Effect::SendToCustomer { customer: form.customer, amount: downpayment },
        ])),
        state matches State::TransferringOut {
            form,
            downpayment,
            granted,
            account_ref,
            retried,
            pending_request_id,
        } ==> (event matches Event::TransferAcknowledged { request_id } && request_id
            == pending_request_id ==> ({
            &&& downpayment + granted <= u128::MAX ==> r.0 == (State::BuyingAsset {
                form,
                downpayment,
                granted,
                account_ref,
                pending_request_id: SWAP_REQUEST_ID,
            }) && (r.1 matches Ok(effs) && effs@ =~= seq![
                Effect::Swap {
                    request_id: SWAP_REQUEST_ID,
                    amount_in: (downpayment + granted) as u128,
                    target_currency: form.currency,
                },
            ])
            &&& downpayment + granted > u128::MAX ==> r.0 == state && (r.1 matches Err(e)
                && e is BrokenInvariant)
        })),
        state matches State::TransferringOut {
            form,
            downpayment,
            granted,
            account_ref,
            retried,
            pending_request_id,
        } ==> (event matches Event::TransferTimedOut { request_id } && request_id
            == pending_request_id ==> ({
            &&& !retried && downpayment + granted <= u128::MAX ==> r.0 == (
            State::TransferringOut {
                form,
                downpayment,
                granted,
                account_ref,
                retried: true,
                pending_request_id,
            }) && (r.1 matches Ok(effs) && effs@ =~= seq![
                Effect::TransferOut {
                    request_id: pending_request_id,
                    account_ref,
                    amount: (downpayment + granted) as u128,
                },
            ])
            &&& !retried && downpayment + granted > u128::MAX ==> r.0 == state && (
            r.1 matches Err(e) && e is BrokenInvariant)
            &&& retried ==> r.0 is Failed && (r.1 matches Ok(effs) && effs@ =~= seq![
                Effect::CancelLoan { request_id: LOAN_REQUEST_ID },
                Effect::SendToCustomer { customer: form.customer, amount: downpayment },
            ])
        })),
        state matches State::BuyingAsset { form, downpayment, granted, account_ref, pending_request_id }
            ==> (event matches Event::SwapCompleted { request_id, amount_out, at_time } ==> (
        request_id == pending_request_id ==> ({
            &&& spec_form_valid(form) ==> r.0 == (State::Active {
                lease: LeaseDTO {
                    customer: form.customer,
                    currency: form.currency,
                    liability: form.liability,
                    loan: LoanLedger {
                        principal_due: granted,
                        annual_margin_rate: form.loan.annual_margin_interest,
                        interest_due_period: form.loan.interest_due_period_nanos,
                        grace_period: form.loan.grace_period_nanos,
                        period_start: at_time,
                        previous_margin_due: 0,
                        previous_interest_due: 0,
                        current_margin_paid: 0,
                        current_interest_paid: 0,
                    },
                },
                collateral: amount_out,
            }) && (r.1 matches Ok(effs) && effs@ =~= Seq::<Effect>::empty())
            &&& !spec_form_valid(form) ==> r.0 == state && (r.1 matches Err(e)
                && e is InvalidParameters)
        }))),
        state matches State::BuyingAsset { form, downpayment, granted, account_ref, pending_request_id }
            ==> (event matches Event::SwapFailed { request_id } && request_id
            == pending_request_id ==> r.0 is Failed && (r.1 matches Ok(effs) && effs@ =~= seq![
            Effect::CancelLoan { request_id: LOAN_REQUEST_ID },
            Effect::SendToCustomer { customer: form.customer, amount: downpayment },
        ])),
        state matches State::Active { lease, collateral } ==> (event matches Event::Repay {
            sender,
            amount,
            at_time,
            current_interest_due,
        } ==> ({
            &&& sender@ != lease.customer@ ==> r.0 == state && (r.1 matches Err(e)
                && e is Unauthorized)
            &&& sender@ == lease.customer@ && amount == 0 ==> r.0 == state && (r.1 matches Err(e)
                && e is NoPayment)
            &&& sender@ == lease.customer@ && amount > 0 && !spec_repay_args_ok(
                lease.loan,
                at_time as int,
                current_interest_due as int,
            ) ==> r.0 == state && (r.1 matches Err(e) && e is BrokenInvariant)
            &&& sender@ == lease.customer@ && amount > 0 && spec_repay_args_ok(
                lease.loan,
                at_time as int,
                current_interest_due as int,
            ) ==> ({
                let (pm, pi, cm, ci, pr) = spec_allocation(
                    lease.loan.previous_margin_due as int,
                    lease.loan.previous_interest_due as int,
                    spec_current_margin_due(lease.loan, at_time as int),
                    current_interest_due - lease.loan.current_interest_paid,
                    amount as int,
                );
                let receipt = Receipt {
                    previous_margin_paid: pm as u128,
                    previous_interest_paid: pi as u128,
                    current_margin_paid: cm as u128,
                    current_interest_paid: ci as u128,
                    principal_paid: pr as u128,
                    close: lease.loan.principal_due <= pr,
                };
                let ledger = LoanLedger {
                    principal_due: (lease.loan.principal_due - spec_min(
                        pr,
                        lease.loan.principal_due as int,
                    )) as u128,
                    previous_margin_due: (lease.loan.previous_margin_due - pm) as u128,
                    previous_interest_due: (lease.loan.previous_interest_due - pi) as u128,
                    current_margin_paid: (lease.loan.current_margin_paid + cm) as u128,
                    current_interest_paid: (lease.loan.current_interest_paid + ci) as u128,
                    ..lease.loan
                };
                &&& !receipt.close ==> r.0 == (State::Active {
                    lease: LeaseDTO { loan: ledger, ..lease },
                    collateral,
                }) && (r.1 matches Ok(effs) && effs@ =~= seq![Effect::PaymentApplied(receipt)])
                &&& receipt.close ==> r.0 is Closed && (r.1 matches Ok(effs) && effs@ =~= seq![
                    Effect::PaymentApplied(receipt),
                    Effect::SendToCustomer { customer: lease.customer, amount: collateral },
                ])
            })
        })),
        state matches State::Active { lease, collateral } ==> (event matches Event::Close { sender }
            ==> ({
            &&& sender@ != lease.customer@ ==> r.0 == state && (r.1 matches Err(e)
                && e is Unauthorized)
            &&& sender@ == lease.customer@ && lease.loan.principal_due > 0 ==> r.0 == state && (
            r.1 matches Err(e) && e is LoanNotPaid)
            &&& sender@ == lease.customer@ && lease.loan.principal_due == 0 ==> r.0 is Closed && (
            r.1 matches Ok(effs) && effs@ =~= seq![
                Effect::SendToCustomer { customer: lease.customer, amount: collateral },
            ])
        })),
        state matches State::Active { lease, collateral } ==> (
        event matches Event::LiquidationCheck { at_time, current_interest_due, collateral_value }
            ==> ({
            &&& !spec_liquidation_args_ok(
                lease,
                at_time as int,
                current_interest_due as int,
                collateral_value as int,
            ) ==> r.0 == state && (r.1 matches Err(e) && e is BrokenInvariant)
            &&& spec_liquidation_args_ok(
                lease,
                at_time as int,
                current_interest_due as int,
                collateral_value as int,
            ) ==> ({
                let severity = spec_status_severity(
                    lease.liability.healthy_percent.units as int,
                    lease.liability.max_percent.units as int,
                    spec_total_due(lease.loan, at_time as int, current_interest_due as int),
                    collateral_value as int,
                );
                &&& r.1 matches Ok(effs) && effs.len() == 1 && (effs@[0] matches Effect::LiquidationNotice(
                    status,
                ) && spec_severity(status) == severity)
                &&& severity == 5 ==> r.0 is Closed
                &&& severity < 5 ==> r.0 == state
            })
        })),
        state is Closed && event is Close ==> r.0 == state && (r.1 matches Err(e)
            && e is LoanClosed),
        state is Closed && event is Repay ==> r.0 == state && (r.1 matches Err(e)
            && e is LoanClosed),
{
    match (state, event) {
        (
            State::RequestingLoan { form, downpayment, pending_request_id },
            Event::LoanGranted { request_id, amount },
        ) => {
            if request_id == pending_request_id {
                let mut effects: Vec<Effect> = Vec::new();
                effects.push(Effect::OpenAccount { request_id: ACCOUNT_REQUEST_ID });
                (
                    State::OpeningRemoteAccount {
                        form,
                        downpayment,
                        granted: amount,
                        pending_request_id: ACCOUNT_REQUEST_ID,
                    },
                    Ok(effects),
                )
            } else {
                (
                    State::RequestingLoan { form, downpayment, pending_request_id },
                    Err(ContractError::unsupported_operation("loan-grant callback")),
                )
            }
        },
        (
            State::RequestingLoan { form, downpayment, pending_request_id },
            Event::LoanDenied { request_id },
        ) => {
            if request_id == pending_request_id {
                let mut effects: Vec<Effect> = Vec::new();
                effects.push(
                    Effect::SendToCustomer { customer: form.customer, amount: downpayment },
                );
                (State::Failed, Ok(effects))
            } else {
                (
                    State::RequestingLoan { form, downpayment, pending_request_id },
                    Err(ContractError::unsupported_operation("loan-denial callback")),
                )
            }
        },
        (
            State::OpeningRemoteAccount { form, downpayment, granted, pending_request_id },
            Event::AccountOpened { request_id, account_ref },
        ) => {
            if request_id == pending_request_id {
                match downpayment.checked_add(granted) {
                    Some(amount) => {
                        let mut effects: Vec<Effect> = Vec::new();
                        effects.push(
                            Effect::TransferOut {
                                request_id: TRANSFER_REQUEST_ID,
                                account_ref: account_ref.clone(),
                                amount,
                            },
                        );
                        (
                            State::TransferringOut {
                                form,
                                downpayment,
                                granted,
                                account_ref,
                                retried: false,
                                pending_request_id: TRANSFER_REQUEST_ID,
                            },
                            Ok(effects),
                        )
                    },
                    None => (
                        State::OpeningRemoteAccount {
                            form,
                            downpayment,
                            granted,
                            pending_request_id,
                        },
                        Err(ContractError::BrokenInvariant(
                            String::from_str("State"),
                            String::from_str("position size overflows"),
                        )),
                    ),
                }
            } else {
                (
                    State::OpeningRemoteAccount { form, downpayment, granted, pending_request_id },
                    Err(ContractError::unsupported_operation("account-open callback")),
                )
            }
        },
        (
            State::OpeningRemoteAccount { form, downpayment, granted, pending_request_id },
            Event::AccountOpenFailed { request_id },
        ) => {
            if request_id == pending_request_id {
                let mut effects: Vec<Effect> = Vec::new();
                effects.push(Effect::CancelLoan { request_id: LOAN_REQUEST_ID });
                effects.push(
                    Effect::SendToCustomer { customer: form.customer, amount: downpayment },
                );
                (State::Failed, Ok(effects))
            } else {
                (
                    State::OpeningRemoteAccount { form, downpayment, granted, pending_request_id },
                    Err(ContractError::unsupported_operation("account-open failure callback")),
                )
            }
        },
        (
            State::TransferringOut {
                form,
                downpayment,
                granted,
                account_ref,
                retried,
                pending_request_id,
            },
            Event::TransferAcknowledged { request_id },
        ) => {
            if request_id == pending_request_id {
                match downpayment.checked_add(granted) {
                    Some(amount) => {
                        let mut effects: Vec<Effect> = Vec::new();
                        effects.push(
                            Effect::Swap {
                                request_id: SWAP_REQUEST_ID,
                                amount_in: amount,
                                target_currency: form.currency.clone(),
                            },
                        );
                        (
                            State::BuyingAsset {
                                form,
                                downpayment,
                                granted,
                                account_ref,
                                pending_request_id: SWAP_REQUEST_ID,
                            },
                            Ok(effects),
                        )
                    },
                    None => (
                        State::TransferringOut {
                            form,
                            downpayment,
                            granted,
                            account_ref,
                            retried,
                            pending_request_id,
                        },
                        Err(ContractError::BrokenInvariant(
                            String::from_str("State"),
                            String::from_str("position size overflows"),
                        )),
                    ),
                }
            } else {
                (
                    State::TransferringOut {
                        form,
                        downpayment,
                        granted,
                        account_ref,
                        retried,
                        pending_request_id,
                    },
                    Err(ContractError::unsupported_operation("transfer acknowledgment")),
                )
            }
        },
        (
            State::TransferringOut {
                form,
                downpayment,
                granted,
                account_ref,
                retried,
                pending_request_id,
            },
            Event::TransferTimedOut { request_id },
        ) => {
            if request_id == pending_request_id {
                if !retried {
                    match downpayment.checked_add(granted) {
                        Some(amount) => {
                            let mut effects: Vec<Effect> = Vec::new();
                            effects.push(
                                Effect::TransferOut {
                                    request_id: pending_request_id,
                                    account_ref: account_ref.clone(),
                                    amount,
                                },
                            );
                            (
                                State::TransferringOut {
                                    form,
                                    downpayment,
                                    granted,
                                    account_ref,
                                    retried: true,
                                    pending_request_id,
                                },
                                Ok(effects),
                            )
                        },
                        None => (
                            State::TransferringOut {
                                form,
                                downpayment,
                                granted,
                                account_ref,
                                retried,
                                pending_request_id,
                            },
                            Err(ContractError::BrokenInvariant(
                                String::from_str("State"),
                                String::from_str("position size overflows"),
                            )),
                        ),
                    }
                } else {
                    let mut effects: Vec<Effect> = Vec::new();
                    effects.push(Effect::CancelLoan { request_id: LOAN_REQUEST_ID });
                    effects.push(
                        Effect::SendToCustomer { customer: form.customer, amount: downpayment },
                    );
                    (State::Failed, Ok(effects))
                }
            } else {
                (
                    State::TransferringOut {
                        form,
                        downpayment,
                        granted,
                        account_ref,
                        retried,
                        pending_request_id,
                    },
                    Err(ContractError::unsupported_operation("transfer timeout")),
                )
            }
        },
        (
            State::BuyingAsset { form, downpayment, granted, account_ref, pending_request_id },
            Event::SwapCompleted { request_id, amount_out, at_time },
        ) => {
            if request_id == pending_request_id {
                let valid = form.liability.invariant_held().is_ok()
                    && form.loan.interest_due_period_nanos > 0;
                if valid {
                    match form.into_lease_dto(at_time, granted) {
                        Ok(lease) => (
                            State::Active { lease, collateral: amount_out },
                            Ok(Vec::new()),
                        ),
                        Err(_) => unreached(),
                    }
                } else {
                    (
                        State::BuyingAsset {
                            form,
                            downpayment,
                            granted,
                            account_ref,
                            pending_request_id,
                        },
                        Err(ContractError::InvalidParameters(String::from_str(
                            "lease form invalid",
                        ))),
                    )
                }
            } else {
                (
                    State::BuyingAsset { form, downpayment, granted, account_ref, pending_request_id },
                    Err(ContractError::unsupported_operation("swap completion")),
                )
            }
        },
        (
            State::BuyingAsset { form, downpayment, granted, account_ref, pending_request_id },
            Event::SwapFailed { request_id },
        ) => {
            if request_id == pending_request_id {
                let mut effects: Vec<Effect> = Vec::new();
                effects.push(Effect::CancelLoan { request_id: LOAN_REQUEST_ID });
                effects.push(
                    Effect::SendToCustomer { customer: form.customer, amount: downpayment },
                );
                (State::Failed, Ok(effects))
            } else {
                (
                    State::BuyingAsset { form, downpayment, granted, account_ref, pending_request_id },
                    Err(ContractError::unsupported_operation("swap failure callback")),
                )
            }
        },
        (
            State::Active { lease, collateral },
            Event::Repay { sender, amount, at_time, current_interest_due },
        ) => {
            if !(sender == lease.customer) {
                (State::Active { lease, collateral }, Err(ContractError::Unauthorized))
            } else if amount == 0 {
                (State::Active { lease, collateral }, Err(ContractError::NoPayment))
            } else if !lease.loan.repay_args_ok(at_time, current_interest_due) {
                (
                    State::Active { lease, collateral },
                    Err(ContractError::BrokenInvariant(
                        String::from_str("LoanLedger"),
                        String::from_str("repayment out of arithmetic range"),
                    )),
                )
            } else {
                let LeaseDTO { customer, currency, liability, loan } = lease;
                let mut ledger = loan;
                let receipt = ledger.repay(amount, at_time, current_interest_due);
                let mut effects: Vec<Effect> = Vec::new();
                effects.push(Effect::PaymentApplied(receipt));
                if receipt.close() {
                    effects.push(Effect::SendToCustomer { customer, amount: collateral });
                    (State::Closed, Ok(effects))
                } else {
                    (
                        State::Active {
                            lease: LeaseDTO { customer, currency, liability, loan: ledger },
                            collateral,
                        },
                        Ok(effects),
                    )
                }
            }
        },
        (State::Active { lease, collateral }, Event::Close { sender }) => {
            if !(sender == lease.customer) {
                (State::Active { lease, collateral }, Err(ContractError::Unauthorized))
            } else if lease.loan.principal_due > 0 {
                (State::Active { lease, collateral }, Err(ContractError::LoanNotPaid))
            } else {
                let mut effects: Vec<Effect> = Vec::new();
                effects.push(Effect::SendToCustomer { customer: lease.customer, amount: collateral });
                (State::Closed, Ok(effects))
            }
        },
        (
            State::Active { lease, collateral },
            Event::LiquidationCheck { at_time, current_interest_due, collateral_value },
        ) => {
            let args_ok = lease.liability.invariant_held().is_ok()
                && lease.loan.repay_args_ok(at_time, current_interest_due)
                && liquidation_ranges_ok(&lease.loan, at_time, current_interest_due, collateral_value);
            if !args_ok {
                (
                    State::Active { lease, collateral },
                    Err(ContractError::BrokenInvariant(
                        String::from_str("LoanLedger"),
                        String::from_str("liquidation check out of arithmetic range"),
                    )),
                )
            } else {
                let due = lease.loan.total_due(at_time, current_interest_due);
                let status = check_liability(
                    &lease.liability,
                    lease.customer.clone(),
                    lease.currency.clone(),
                    due,
                    collateral_value,
                );
                let full = match status {
                    LiquidationStatus::FullLiquidation(_, _) => true,
                    _ => false,
                };
                let mut effects: Vec<Effect> = Vec::new();
                effects.push(Effect::LiquidationNotice(status));
                if full {
                    (State::Closed, Ok(effects))
                } else {
                    (State::Active { lease, collateral }, Ok(effects))
                }
            }
        },
        (State::Closed, Event::Close { sender }) => {
            (State::Closed, Err(ContractError::LoanClosed))
        },
        (State::Closed, Event::Repay { sender, amount, at_time, current_interest_due }) => {
            (State::Closed, Err(ContractError::LoanClosed))
        },
        (s, e) => (s, Err(ContractError::unsupported_operation("event in current state"))),
    }
}

/// Opens a new lease: validates the request, computes the amount to borrow
/// from the liability policy, and parks the machine in its first stage,
/// waiting for the pool's grant.
///
/// Success is owed exactly when funds were sent, the form is valid, the
/// initial liability percentage leaves something to be financed by the
/// customer, and the borrow computation fits the machine's arithmetic.
pub fn open_lease(form: NewLeaseForm, downpayment: u128) -> (r: ContractResult<
    (State, Vec<Effect>),
>)
    ensures
        downpayment == 0 ==> (r matches Err(e) && e is NoPayment),
        downpayment > 0 && !(spec_form_valid(form) && form.liability.init_percent.units < 1000)
            ==> (r matches Err(e) && e is InvalidParameters),
        downpayment > 0 && spec_form_valid(form) && form.liability.init_percent.units < 1000
            && downpayment * form.liability.init_percent.units > u128::MAX ==> (r matches Err(e)
            && e is BrokenInvariant),
        downpayment > 0 && spec_form_valid(form) && form.liability.init_percent.units < 1000
            && downpayment * form.liability.init_percent.units <= u128::MAX ==> (r matches Ok(t)
            && t.0 == (State::RequestingLoan {
            form,
            downpayment,
            pending_request_id: LOAN_REQUEST_ID,
        }) && t.1@ =~= seq![
            Effect::RequestLoan {
                request_id: LOAN_REQUEST_ID,
                amount: crate::liability::spec_init_borrow_amount(
                    form.liability.init_percent.units as int,
                    downpayment as int,
                ) as u128,
            },
        ]),
{
    if downpayment == 0 {
        return Err(ContractError::NoPayment);
    }
    if form.liability.invariant_held().is_err() || form.loan.interest_due_period_nanos == 0 {
        return Err(ContractError::InvalidParameters(String::from_str("lease form invalid")));
    }
    if form.liability.init_percent.units() >= 1000 {
        return Err(ContractError::InvalidParameters(String::from_str(
            "initial liability must stay below one hundred percent",
        )));
    }
    match downpayment.checked_mul(form.liability.init_percent.units() as u128) {
        Some(_) => {},
        None => {
            return Err(ContractError::BrokenInvariant(
                String::from_str("Liability"),
                String::from_str("borrow computation overflows"),
            ));
        },
    }
    let amount = form.liability.init_borrow_amount(downpayment);
    let mut effects: Vec<Effect> = Vec::new();
    effects.push(Effect::RequestLoan { request_id: LOAN_REQUEST_ID, amount });
    Ok((State::RequestingLoan { form, downpayment, pending_request_id: LOAN_REQUEST_ID }, effects))
}

/// The current stage's name, for status queries.
pub fn query_stage(state: &State) -> (r: String)
    ensures
        state is RequestingLoan ==> r@ == "RequestingLoan"@,
        state is OpeningRemoteAccount ==> r@ == "OpeningRemoteAccount"@,
        state is TransferringOut ==> r@ == "TransferringOut"@,
        state is BuyingAsset ==> r@ == "BuyingAsset"@,
        state is Active ==> r@ == "Active"@,
        state is Failed ==> r@ == "Failed"@,
        state is Closed ==> r@ == "Closed"@,
{
    match state {
        State::RequestingLoan { .. } => String::from_str("RequestingLoan"),
        State::OpeningRemoteAccount { .. } => String::from_str("OpeningRemoteAccount"),
        State::TransferringOut { .. } => String::from_str("TransferringOut"),
        State::BuyingAsset { .. } => String::from_str("BuyingAsset"),
        State::Active { .. } => String::from_str("Active"),
        State::Failed => String::from_str("Failed"),
        State::Closed => String::from_str("Closed"),
    }
}

/// Whether the liquidation-specific bounds hold, the repayment bounds being
/// checked separately.
fn liquidation_ranges_ok(
    ledger: &LoanLedger,
    at_time: u64,
    current_interest_due: u128,
    collateral_value: u128,
) -> (r: bool)
    requires
        spec_repay_args_ok(*ledger, at_time as int, current_interest_due as int),
    ensures
        r == ({
            &&& spec_total_due(*ledger, at_time as int, current_interest_due as int) <= u128::MAX
            &&& collateral_value > 0
            &&& spec_total_due(*ledger, at_time as int, current_interest_due as int) * 1000 + 1000
                <= u128::MAX
            &&& collateral_value * 1000 <= u128::MAX
            &&& spec_total_due(*ledger, at_time as int, current_interest_due as int) * 1000
                / (collateral_value as int) <= u32::MAX
        }),
{
    if collateral_value == 0 {
        return false;
    }
    let margin_open = ledger.margin_accrued(at_time) - ledger.current_margin_paid;
    let interest_open = current_interest_due - ledger.current_interest_paid;
    let due = match ledger.principal_due.checked_add(ledger.previous_margin_due) {
        Some(v) => v,
        None => { return false; },
    };
    let due = match due.checked_add(ledger.previous_interest_due) {
        Some(v) => v,
        None => { return false; },
    };
    let due = match due.checked_add(margin_open) {
        Some(v) => v,
        None => { return false; },
    };
    let due = match due.checked_add(interest_open) {
        Some(v) => v,
        None => { return false; },
    };
    let scaled = match due.checked_mul(1000) {
        Some(v) => v,
        None => { return false; },
    };
    if !(scaled <= u128::MAX - 1000) {
        return false;
    }
    let coll_scaled = match collateral_value.checked_mul(1000) {
        Some(v) => v,
        None => { return false; },
    };
    scaled / collateral_value <= u32::MAX as u128
}

} // verus!
