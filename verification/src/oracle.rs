use vstd::prelude::*;

verus! {

use crate::error::{ContractError, ContractResult};
use crate::price::PriceDTO;

/// A price alarm: fires when the named currency's price crosses the level.
#[derive(Debug, Clone, PartialEq, Eq)]
pub struct Alarm {
    pub currency: String,
    pub price: PriceDTO,
}

/// The oracle's creation request.
#[derive(Debug, Clone, PartialEq, Eq)]
pub struct InstantiateMsg {
    pub base_asset: String,
    pub price_feed_period_secs: u32,
    pub feeders_percentage_needed: u8,
    pub supported_denom_pairs: Vec<(String, String)>,
    pub timealarms_addr: String,
}

/// The oracle's inbound requests.
#[derive(Debug, Clone, PartialEq, Eq)]
pub enum ExecuteMsg {
    RegisterFeeder { feeder_address: String },
    FeedPrices { prices: Vec<PriceDTO> },
    Config { price_feed_period_secs: u32, feeders_percentage_needed: u8 },
    SupportedDenomPairs { pairs: Vec<(String, String)> },
    AddPriceAlarm { alarm: Alarm },
    RemovePriceAlarm {},
}

/// The oracle's configuration as returned to queries.
#[derive(Debug, Clone, PartialEq, Eq)]
pub struct ConfigResponse {
    pub base_asset: String,
    pub price_feed_period_secs: u32,
    pub feeders_percentage_needed: u8,
    pub owner: String,
}

/// All prices a query asked for.
#[derive(Debug, Clone, PartialEq, Eq)]
pub struct PricesResponse {
    pub prices: Vec<PriceDTO>,
}

/// One price a query asked for.
#[derive(Debug, Clone, PartialEq, Eq)]
pub struct PriceResponse {
    pub price: PriceDTO,
}

/// The callback the oracle sends when a price alarm fires.
#[derive(Debug, Clone, PartialEq, Eq)]
pub enum ExecuteAlarmMsg {
    PriceAlarm(),
}

/// The oracle's stored configuration.
#[derive(Debug, Clone, PartialEq, Eq)]
pub struct Config {
    pub base_asset: String,
    pub owner: String,
    pub price_feed_period_secs: u32,
    pub feeders_percentage_needed: u8,
}

/// The configuration as a query answers it.
pub fn query_config(config: &Config) -> (r: ConfigResponse)
    ensures
        r.base_asset@ == config.base_asset@,
        r.owner@ == config.owner@,
        r.price_feed_period_secs == config.price_feed_period_secs,
        r.feeders_percentage_needed == config.feeders_percentage_needed,
{
    ConfigResponse {
        base_asset: config.base_asset.clone(),
        owner: config.owner.clone(),
        price_feed_period_secs: config.price_feed_period_secs,
        feeders_percentage_needed: config.feeders_percentage_needed,
    }
}

/// Reconfigures the feed window and the feeder quorum; only the owner may.
pub fn try_configure(
    config: &mut Config,
    sender: &String,
    price_feed_period_secs: u32,
    feeders_percentage_needed: u8,
) -> (r: ContractResult<()>)
    ensures
        sender@ != old(config).owner@ ==> *final(config) == *old(config) && (r matches Err(e)
            && e is Unauthorized),
        sender@ == old(config).owner@ ==> r is Ok && *final(config) == (Config {
            price_feed_period_secs,
            feeders_percentage_needed,
            ..*old(config)
        }),
{
    if !(*sender == config.owner) {
        return Err(ContractError::Unauthorized);
    }
    config.price_feed_period_secs = price_feed_period_secs;
    config.feeders_percentage_needed = feeders_percentage_needed;
    Ok(())
}

/// Whether every resolution path is usable: at least a pair long and ending
/// at the oracle's base asset.
pub open spec fn spec_paths_valid(paths: Seq<Seq<Seq<char>>>, base: Seq<char>) -> bool {
    forall|i: int|
        0 <= i < paths.len() ==> (#[trigger] paths[i]).len() >= 2 && paths[i].last() == base
}

/// Validates the proposed currency resolution paths against the base asset.
pub fn validate_currency_paths(paths: &Vec<Vec<String>>, base: &String) -> (r: ContractResult<()>)
    ensures
        r is Ok <==> spec_paths_valid(
            paths@.map_values(|p: Vec<String>| p@.map_values(|s: String| s@)),
            base@,
        ),
        r matches Err(e) ==> e is InvalidParameters,
{
    let ghost mapped: Seq<Seq<Seq<char>>> = paths@.map_values(
        |p: Vec<String>| p@.map_values(|s: String| s@),
    );
    let mut i: usize = 0;
    while i < paths.len()
        invariant
            0 <= i <= paths@.len(),
            mapped == paths@.map_values(|p: Vec<String>| p@.map_values(|s: String| s@)),
            forall|k: int|
                0 <= k < i ==> (#[trigger] mapped[k]).len() >= 2 && mapped[k].last() == base@,
        decreases paths@.len() - i,
    {
        let path = &paths[i];
        proof {
            assert(mapped[i as int] == path@.map_values(|s: String| s@));
        }
        if path.len() < 2 {
            proof {
                assert(!spec_paths_valid(mapped, base@)) by {
                    assert(mapped[i as int].len() < 2);
                }
            }
            return Err(ContractError::InvalidParameters(String::from_str(
                "a resolution path needs at least two currencies",
            )));
        }
        if !(path[path.len() - 1] == *base) {
            proof {
                assert(mapped[i as int].last() == path@[path@.len() - 1]@);
                assert(!spec_paths_valid(mapped, base@)) by {
                    assert(mapped[i as int].last() != base@);
                }
            }
            return Err(ContractError::InvalidParameters(String::from_str(
                "a resolution path must end at the base asset",
            )));
        }
        proof {
            assert(mapped[i as int].last() == path@[path@.len() - 1]@);
        }
        i = i + 1;
    }
    Ok(())
}

/// Whether `address` stands among the registered feeders.
pub fn is_feeder(feeders: &Vec<String>, address: &String) -> (r: bool)
    ensures
        r == feeders@.map_values(|s: String| s@).contains(address@),
{
    let ghost mapped: Seq<Seq<char>> = feeders@.map_values(|s: String| s@);
    let mut i: usize = 0;
    while i < feeders.len()
        invariant
            0 <= i <= feeders@.len(),
            mapped == feeders@.map_values(|s: String| s@),
            forall|k: int| 0 <= k < i ==> mapped[k] != address@,
        decreases feeders@.len() - i,
    {
        if feeders[i] == *address {
            proof {
                assert(mapped[i as int] == address@);
            }
            return true;
        }
        i = i + 1;
    }
    proof {
        if mapped.contains(address@) {
            let k = choose|k: int| 0 <= k < mapped.len() && mapped[k] == address@;
        }
    }
    false
}

/// Registers a feeder; only the owner may, and never the same address
/// twice.
pub fn try_register(feeders: &mut Vec<String>, is_owner: bool, address: String) -> (r:
    ContractResult<()>)
    ensures
        !is_owner ==> *final(feeders) == *old(feeders) && (r matches Err(e) && e is Unauthorized),
        is_owner && old(feeders)@.map_values(|s: String| s@).contains(address@) ==> *final(feeders)
            == *old(feeders) && (r matches Err(e) && e is InvalidParameters),
        is_owner && !old(feeders)@.map_values(|s: String| s@).contains(address@) ==> r is Ok
            && final(feeders)@ == old(feeders)@.push(address),
{
    if !is_owner {
        return Err(ContractError::Unauthorized);
    }
    if is_feeder(feeders, &address) {
        return Err(ContractError::InvalidParameters(String::from_str(
            "feeder already registered",
        )));
    }
    feeders.push(address);
    Ok(())
}

/// The feeders with `address` taken out.
pub open spec fn spec_without(s: Seq<String>, address: Seq<char>) -> Seq<String>
    decreases s.len(),
{
    if s.len() == 0 {
        Seq::empty()
    } else {
        let prefix = spec_without(s.drop_last(), address);
        if s.last()@ == address {
            prefix
        } else {
            prefix.push(s.last())
        }
    }
}

/// Unregisters a feeder; only the owner may, and only a known feeder goes.
pub fn try_remove(feeders: &mut Vec<String>, is_owner: bool, address: &String) -> (r:
    ContractResult<()>)
    ensures
        !is_owner ==> *final(feeders) == *old(feeders) && (r matches Err(e) && e is Unauthorized),
        is_owner && !old(feeders)@.map_values(|s: String| s@).contains(address@)
            ==> *final(feeders) == *old(feeders) && (r matches Err(e) && e is UnknownFeeder),
        is_owner && old(feeders)@.map_values(|s: String| s@).contains(address@) ==> r is Ok
            && final(feeders)@ == spec_without(old(feeders)@, address@),
{
    if !is_owner {
        return Err(ContractError::Unauthorized);
    }
    if !is_feeder(feeders, address) {
        return Err(ContractError::UnknownFeeder);
    }
    let ghost all: Seq<String> = feeders@;
    let mut kept: Vec<String> = Vec::new();
    let mut i: usize = 0;
    while i < feeders.len()
        invariant
            0 <= i <= feeders@.len(),
            feeders@ == all,
            kept@ == spec_without(all.take(i as int), address@),
        decreases feeders@.len() - i,
    {
        proof {
            assert(all.take(i + 1).drop_last() =~= all.take(i as int));
            assert(all.take(i + 1).last() == all[i as int]);
        }
        if !(feeders[i] == *address) {
            kept.push(feeders[i].clone());
        }
        i = i + 1;
    }
    proof {
        assert(all.take(all.len() as int) =~= all);
    }
    *feeders = kept;
    Ok(())
}

} // verus!
