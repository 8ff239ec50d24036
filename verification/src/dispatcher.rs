use vstd::prelude::*;

verus! {

use crate::error::{ContractError, ContractResult};

/// The rewards dispatcher's creation request.
#[derive(Debug, Clone, PartialEq, Eq)]
pub struct InstantiateMsg {
    pub cadence_hours: u16,
    pub treasury: String,
    pub time_oracle: String,
}

/// A migration request, carrying the owner to hand the contract to.
#[derive(Debug, Clone, PartialEq, Eq)]
pub struct MigrateMsg {
    pub contract_owner: String,
}

/// The dispatcher's inbound requests.
#[derive(Debug, Clone, PartialEq, Eq)]
pub enum ExecuteMsg {
    Config { cadence_hours: u16 },
    TimeAlarm {},
}

/// The dispatcher's queries.
#[derive(Debug, Clone, PartialEq, Eq)]
pub enum QueryMsg {
    Config {},
}

/// The dispatcher's configuration as returned to queries.
#[derive(Debug, Clone, Copy, PartialEq, Eq, Structural)]
pub struct ConfigResponse {
    pub cadence_hours: u16,
}

/// The dispatcher's stored configuration.
#[derive(Debug, Clone, PartialEq, Eq)]
pub struct Config {
    pub owner: String,
    pub cadence_hours: u16,
    pub treasury: String,
    pub time_oracle: String,
}

impl Config {
    pub fn new(owner: String, cadence_hours: u16, treasury: String, time_oracle: String) -> (r:
        Config)
        ensures
            r == (Config { owner, cadence_hours, treasury, time_oracle }),
    {
        Config { owner, cadence_hours, treasury, time_oracle }
    }
}

/// Hours of the alarm cadence as seconds.
pub fn to_seconds(cadence_hours: u32) -> (r: u64)
    ensures
        r == cadence_hours * 3600,
{
    (cadence_hours as u64) * 3600
}

/// Changes the alarm cadence; only the owner may.
pub fn try_config(config: &mut Config, sender: &String, cadence_hours: u16) -> (r: ContractResult<
    (),
>)
    ensures
        sender@ != old(config).owner@ ==> *final(config) == *old(config) && (r matches Err(e)
            && e is Unauthorized),
        sender@ == old(config).owner@ ==> r is Ok && *final(config) == (Config {
            cadence_hours,
            ..*old(config)
        }),
{
    if !(*sender == config.owner) {
        return Err(ContractError::Unauthorized);
    }
    config.cadence_hours = cadence_hours;
    Ok(())
}

/// Accepts a time alarm only from the configured time oracle; the rewards
/// transfer itself is the caller's outbound work.
pub fn try_dispatch(config: &Config, sender: &String) -> (r: ContractResult<()>)
    ensures
        sender@ == config.time_oracle@ <==> r is Ok,
        r matches Err(e) ==> (e matches ContractError::UnrecognisedAlarm(a) && a@ == sender@),
{
    if !(*sender == config.time_oracle) {
        return Err(ContractError::UnrecognisedAlarm(sender.clone()));
    }
    Ok(())
}

/// The configuration as a query answers it.
pub fn query_config(config: &Config) -> (r: ConfigResponse)
    ensures
        r.cadence_hours == config.cadence_hours,
{
    ConfigResponse { cadence_hours: config.cadence_hours }
}

} // verus!
