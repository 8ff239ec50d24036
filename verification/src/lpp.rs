use vstd::prelude::*;

verus! {

use crate::error::{ContractError, ContractResult};
use crate::percent::Percent;
use crate::state::Effect;

/// A reference to the lending pool: its address and the currency it lends.
#[derive(Debug, Clone, PartialEq, Eq)]
pub struct LppRef {
    pub addr: String,
    pub currency: String,
}

impl LppRef {
    /// A reference taken on trust, without querying the pool.
    pub fn unchecked(addr: String, currency: String) -> (r: LppRef)
        ensures
            r == (LppRef { addr, currency }),
    {
        LppRef { addr, currency }
    }

    pub fn addr(&self) -> (r: &String)
        ensures
            r@ == self.addr@,
    {
        &self.addr
    }
}

/// A pool interaction's outcome: the reference it ran against and the
/// outbound instructions it accumulated.
#[derive(Debug, Clone, PartialEq, Eq)]
pub struct LppBatch<Ref> {
    pub lpp_ref: Ref,
    pub batch: Vec<Effect>,
}

/// The pool's stored configuration.
#[derive(Debug, Clone, PartialEq, Eq)]
pub struct Config {
    pub lpn_ticker: String,
    pub lease_code_id: u64,
    pub base_interest_rate: Percent,
    pub utilization_optimal: Percent,
    pub addon_optimal_interest_rate: Percent,
}

/// The pool's configuration as a query answers it.
#[derive(Debug, Clone, PartialEq, Eq)]
pub struct QueryConfigResponse {
    pub lpn_ticker: String,
    pub lease_code_id: u64,
    pub base_interest_rate: Percent,
    pub utilization_optimal: Percent,
    pub addon_optimal_interest_rate: Percent,
}

/// Changes the interest-rate model's parameters; only the owner may, and
/// none may exceed 100%.
pub fn try_update_parameters(
    config: &mut Config,
    is_owner: bool,
    base_interest_rate: Percent,
    utilization_optimal: Percent,
    addon_optimal_interest_rate: Percent,
) -> (r: ContractResult<()>)
    ensures
        !is_owner ==> *final(config) == *old(config) && (r matches Err(e) && e is Unauthorized),
        is_owner && (base_interest_rate.units > 1000 || utilization_optimal.units > 1000
            || addon_optimal_interest_rate.units > 1000) ==> *final(config) == *old(config) && (
        r matches Err(e) && e is InvalidParameters),
        is_owner && base_interest_rate.units <= 1000 && utilization_optimal.units <= 1000
            && addon_optimal_interest_rate.units <= 1000 ==> r is Ok && *final(config) == (Config {
            base_interest_rate,
            utilization_optimal,
            addon_optimal_interest_rate,
            ..*old(config)
        }),
{
    if !is_owner {
        return Err(ContractError::Unauthorized);
    }
    if base_interest_rate.units() > 1000 || utilization_optimal.units() > 1000
        || addon_optimal_interest_rate.units() > 1000 {
        return Err(ContractError::InvalidParameters(String::from_str(
            "rates should not be greater than a hundred percent",
        )));
    }
    config.base_interest_rate = base_interest_rate;
    config.utilization_optimal = utilization_optimal;
    config.addon_optimal_interest_rate = addon_optimal_interest_rate;
    Ok(())
}

/// The configuration as a query answers it.
pub fn query_config(config: &Config) -> (r: QueryConfigResponse)
    ensures
        r.lpn_ticker@ == config.lpn_ticker@,
        r.lease_code_id == config.lease_code_id,
        r.base_interest_rate == config.base_interest_rate,
        r.utilization_optimal == config.utilization_optimal,
        r.addon_optimal_interest_rate == config.addon_optimal_interest_rate,
{
    QueryConfigResponse {
        lpn_ticker: config.lpn_ticker.clone(),
        lease_code_id: config.lease_code_id,
        base_interest_rate: config.base_interest_rate,
        utilization_optimal: config.utilization_optimal,
        addon_optimal_interest_rate: config.addon_optimal_interest_rate,
    }
}

} // verus!
