use vstd::prelude::*;

verus! {

use crate::coin::CoinDTO;

/// The error taxonomy of the core.
///
/// Validation failures are reported before any state is mutated;
/// `BrokenInvariant` signals a programming error rather than a user-facing
/// condition and is never silently swallowed.
#[derive(Debug, Clone, PartialEq, Eq)]
pub enum ContractError {
    /// The caller is not the lease's customer for an owner-restricted operation.
    Unauthorized,
    /// The event is not valid for the current lifecycle stage; state is unchanged.
    UnsupportedOperation(String),
    /// The currency symbol is not recognized.
    UnknownCurrency { symbol: String },
    /// A repayment arrived without funds.
    NoPayment,
    /// The payment does not reach the required minimum.
    InsufficientPayment(CoinDTO),
    /// Guard on close: the underlying loan is not fully repaid.
    LoanNotPaid,
    /// Guard on close: the underlying loan is already closed.
    LoanClosed,
    /// A policy or rate-model construction failure; nothing invalid is ever stored.
    InvalidParameters(String),
    /// An internal invariant does not hold: the type concerned and the cause.
    BrokenInvariant(String, String),
    /// A registered feeder was named that is not known.
    UnknownFeeder,
    /// A time alarm arrived from a sender that is not the time oracle.
    UnrecognisedAlarm(String),
}

pub type ContractResult<T> = Result<T, ContractError>;

impl ContractError {
    pub fn unsupported_operation(op: &str) -> (r: ContractError)
        ensures
            r matches ContractError::UnsupportedOperation(s) && s@ == op@,
    {
        ContractError::UnsupportedOperation(String::from_str(op))
    }

    /// `Err(BrokenInvariant)` exactly when `check` holds, naming the offending
    /// type and the cause.
    pub fn broken_invariant_if(check: bool, ty: &str, msg: &str) -> (r: ContractResult<()>)
        ensures
            check <==> (r matches Err(e)
                && (e matches ContractError::BrokenInvariant(t, m) && t@ == ty@ && m@ == msg@)),
            !check <==> r is Ok,
    {
        if check {
            Err(ContractError::BrokenInvariant(String::from_str(ty), String::from_str(msg)))
        } else {
            Ok(())
        }
    }
}

} // verus!
