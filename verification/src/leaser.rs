use vstd::prelude::*;

verus! {

use crate::coin::CoinDTO;
use crate::error::{ContractError, ContractResult};
use crate::percent::Percent;

/// The leaser's creation request; the liability thresholds arrive as whole
/// percents.
#[derive(Debug, Clone, PartialEq, Eq)]
pub struct InstantiateMsg {
    pub lease_code_id: u64,
    pub lpp_ust_addr: String,
    pub lease_interest_rate_margin: u16,
    pub lease_max_liability: u16,
    pub lease_healthy_liability: u16,
    pub lease_initial_liability: u16,
    pub lease_minimal_downpayment: Option<CoinDTO>,
    pub repayment_period_nano_sec: u64,
    pub grace_period_nano_sec: u64,
}

/// The leaser's stored configuration: the terms every new lease is opened
/// under.
#[derive(Debug, Clone, PartialEq, Eq)]
pub struct Config {
    pub owner: String,
    pub lease_code_id: u64,
    pub lpp_ust_addr: String,
    pub lease_interest_rate_margin: Percent,
    pub lease_max_liability: Percent,
    pub lease_healthy_liability: Percent,
    pub lease_initial_liability: Percent,
    pub lease_minimal_downpayment: Option<CoinDTO>,
    pub repayment_period_nano_sec: u64,
    pub grace_period_nano_sec: u64,
}

impl Config {
    /// A configuration from a creation request; the liability ordering
    /// `initial <= healthy < max` is rejected otherwise, never clamped.
    pub fn new(sender: String, msg: InstantiateMsg) -> (r: ContractResult<Config>)
        ensures
            msg.lease_healthy_liability < msg.lease_max_liability
                && msg.lease_initial_liability <= msg.lease_healthy_liability ==> (
            r matches Ok(c) && c == (Config {
                owner: sender,
                lease_code_id: msg.lease_code_id,
                lpp_ust_addr: msg.lpp_ust_addr,
                lease_interest_rate_margin: Percent {
                    units: (msg.lease_interest_rate_margin * 10) as u32,
                },
                lease_max_liability: Percent { units: (msg.lease_max_liability * 10) as u32 },
                lease_healthy_liability: Percent {
                    units: (msg.lease_healthy_liability * 10) as u32,
                },
                lease_initial_liability: Percent {
                    units: (msg.lease_initial_liability * 10) as u32,
                },
                lease_minimal_downpayment: msg.lease_minimal_downpayment,
                repayment_period_nano_sec: msg.repayment_period_nano_sec,
                grace_period_nano_sec: msg.grace_period_nano_sec,
            })),
            msg.lease_healthy_liability >= msg.lease_max_liability
                || msg.lease_initial_liability > msg.lease_healthy_liability ==> (
            r matches Err(e) && e is InvalidParameters),
    {
        let healthy = match Self::validate_lease_healthy_liability(
            msg.lease_healthy_liability,
            msg.lease_max_liability,
        ) {
            Ok(p) => p,
            Err(e) => { return Err(e) },
        };
        let initial = match Self::validate_lease_initial_liability(
            msg.lease_initial_liability,
            msg.lease_healthy_liability,
        ) {
            Ok(p) => p,
            Err(e) => { return Err(e) },
        };
        Ok(
            Config {
                owner: sender,
                lease_code_id: msg.lease_code_id,
                lpp_ust_addr: msg.lpp_ust_addr,
                lease_interest_rate_margin: Percent::from_percent(msg.lease_interest_rate_margin),
                lease_max_liability: Percent::from_percent(msg.lease_max_liability),
                lease_healthy_liability: healthy,
                lease_initial_liability: initial,
                lease_minimal_downpayment: msg.lease_minimal_downpayment,
                repayment_period_nano_sec: msg.repayment_period_nano_sec,
                grace_period_nano_sec: msg.grace_period_nano_sec,
            },
        )
    }

    /// Nothing to check when no minimum is configured; otherwise the down
    /// payment must come in the expected currency and reach the minimum.
    pub fn validate_downpayment(&self, downpayment: &CoinDTO) -> (r: ContractResult<()>)
        ensures
            self.lease_minimal_downpayment is None ==> r is Ok,
            self.lease_minimal_downpayment matches Some(min) ==> ({
                &&& downpayment.symbol@ != min.symbol@ ==> (r matches Err(e)
                    && (e matches ContractError::UnknownCurrency { symbol: s } && s@
                    == downpayment.symbol@))
                &&& downpayment.symbol@ == min.symbol@ && downpayment.amount < min.amount ==> (
                r matches Err(e) && (e matches ContractError::InsufficientPayment(c) && c
                    == *downpayment))
                &&& downpayment.symbol@ == min.symbol@ && downpayment.amount >= min.amount
                    ==> r is Ok
            }),
    {
        match &self.lease_minimal_downpayment {
            None => Ok(()),
            Some(min) => {
                if !(downpayment.symbol == min.symbol) {
                    Err(ContractError::UnknownCurrency { symbol: downpayment.symbol.clone() })
                } else if downpayment.amount < min.amount {
                    Err(ContractError::InsufficientPayment(CoinDTO {
                        amount: downpayment.amount,
                        symbol: downpayment.symbol.clone(),
                    }))
                } else {
                    Ok(())
                }
            },
        }
    }

    /// The healthy threshold must stay strictly below the maximum.
    fn validate_lease_healthy_liability(
        lease_healthy_liability: u16,
        lease_max_liability: u16,
    ) -> (r: ContractResult<Percent>)
        ensures
            lease_healthy_liability < lease_max_liability ==> r == Ok::<_, ContractError>(
                Percent { units: (lease_healthy_liability * 10) as u32 },
            ),
            lease_healthy_liability >= lease_max_liability ==> (r matches Err(e)
                && e is InvalidParameters),
    {
        if lease_healthy_liability < lease_max_liability {
            Ok(Percent::from_percent(lease_healthy_liability))
        } else {
            Err(ContractError::InvalidParameters(String::from_str(
                "the healthy liability must be less than the maximum liability",
            )))
        }
    }

    /// The initial threshold must not exceed the healthy one.
    fn validate_lease_initial_liability(
        lease_initial_liability: u16,
        lease_healthy_liability: u16,
    ) -> (r: ContractResult<Percent>)
        ensures
            lease_initial_liability <= lease_healthy_liability ==> r == Ok::<_, ContractError>(
                Percent { units: (lease_initial_liability * 10) as u32 },
            ),
            lease_initial_liability > lease_healthy_liability ==> (r matches Err(e)
                && e is InvalidParameters),
    {
        if lease_initial_liability <= lease_healthy_liability {
            Ok(Percent::from_percent(lease_initial_liability))
        } else {
            Err(ContractError::InvalidParameters(String::from_str(
                "the initial liability must not exceed the healthy liability",
            )))
        }
    }
}

} // verus!
