use vstd::prelude::*;

verus! {

use crate::price::{Price, PriceFeedsError};

/// The configuration a price query runs under: how long an observation
/// stays valid, how many distinct feeders must stand behind a price, and
/// the block time the query is evaluated at.
#[derive(Debug, Clone, Copy, PartialEq, Eq, Structural)]
pub struct Parameters {
    pub price_feed_period: u64,
    pub required_feeders_cnt: usize,
    pub block_time: u64,
}

impl Parameters {
    pub fn new(price_feed_period: u64, required_feeders_cnt: usize, block_time: u64) -> (r:
        Parameters)
        ensures
            r == (Parameters { price_feed_period, required_feeders_cnt, block_time }),
    {
        Parameters { price_feed_period, required_feeders_cnt, block_time }
    }

    pub fn block_time(&self) -> (r: u64)
        ensures
            r == self.block_time,
    {
        self.block_time
    }

    pub fn feeders(&self) -> (r: usize)
        ensures
            r == self.required_feeders_cnt,
    {
        self.required_feeders_cnt
    }

    pub fn period(&self) -> (r: u64)
        ensures
            r == self.price_feed_period,
    {
        self.price_feed_period
    }
}

/// One reported price: who fed it, when, and what it was.
#[derive(Debug, Clone, PartialEq, Eq)]
pub struct Observation {
    pub feeder: String,
    pub time: u64,
    pub price: Price,
}

/// Whether an observation made at `o.time` still counts at `at`, given the
/// validity window.
pub open spec fn spec_valid_at(o: Observation, at: int, validity: int) -> bool {
    o.time + validity > at
}

/// The observations of `s` still valid at `at`, in order.
pub open spec fn spec_retained(s: Seq<Observation>, at: int, validity: int) -> Seq<Observation>
    decreases s.len(),
{
    if s.len() == 0 {
        Seq::empty()
    } else {
        let prefix = spec_retained(s.drop_last(), at, validity);
        if spec_valid_at(s.last(), at, validity) {
            prefix.push(s.last())
        } else {
            prefix
        }
    }
}

/// The distinct feeders behind a sequence of observations.
pub open spec fn spec_feeder_set(s: Seq<Observation>) -> Set<Seq<char>> {
    s.map_values(|o: Observation| o.feeder@).to_set()
}

/// The market price feed of one currency pair: the observations reported
/// for it, oldest first.
#[derive(Debug, Clone, PartialEq, Eq)]
pub struct PriceFeed {
    pub observations: Vec<Observation>,
}

impl PriceFeed {
    pub fn new() -> (r: PriceFeed)
        ensures
            r.observations@ =~= Seq::<Observation>::empty(),
    {
        PriceFeed { observations: Vec::new() }
    }

    /// Adds one observation, dropping those no longer valid at `at`.
    pub fn add_observation(self, from: String, at: u64, price: Price, validity: u64) -> (r:
        PriceFeed)
        ensures
            r.observations@ == spec_retained(self.observations@, at as int, validity as int).push(
                Observation { feeder: from, time: at, price },
            ),
    {
        let mut retained: Vec<Observation> = Vec::new();
        let ghost all: Seq<Observation> = self.observations@;
        let observations = self.observations;
        let mut i: usize = 0;
        while i < observations.len()
            invariant
                0 <= i <= observations.len(),
                observations@ == all,
                retained@ == spec_retained(all.take(i as int), at as int, validity as int),
            decreases observations.len() - i,
        {
            let o = &observations[i];
            proof {
                assert(all.take(i + 1).drop_last() =~= all.take(i as int));
                assert(all.take(i + 1).last() == all[i as int]);
            }
            if (o.time as u128) + (validity as u128) > (at as u128) {
                let copy = Observation {
                    feeder: o.feeder.clone(),
                    time: o.time,
                    price: o.price,
                };
                retained.push(copy);
            }
            i = i + 1;
        }
        proof {
            assert(all.take(observations@.len() as int) =~= all);
        }
        retained.push(Observation { feeder: from, time: at, price });
        PriceFeed { observations: retained }
    }

    /// The number of distinct feeders among the observations still valid
    /// under `config`.
    pub fn count_unique_feeders(&self, config: &Parameters) -> (r: usize)
        ensures
            r == spec_feeder_set(
                spec_retained(
                    self.observations@,
                    config.block_time as int,
                    config.price_feed_period as int,
                ),
            ).len(),
    {
        let ghost valid: Seq<Observation> = spec_retained(
            self.observations@,
            config.block_time as int,
            config.price_feed_period as int,
        );
        let mut names: Vec<String> = Vec::new();
        let mut i: usize = 0;
        while i < self.observations.len()
            invariant
                0 <= i <= self.observations@.len(),
                names@.map_values(|n: String| n@).no_duplicates(),
                names@.map_values(|n: String| n@).to_set() == spec_feeder_set(
                    spec_retained(
                        self.observations@.take(i as int),
                        config.block_time as int,
                        config.price_feed_period as int,
                    ),
                ),
            decreases self.observations@.len() - i,
        {
            let obs = &self.observations[i];
            let ghost old_mapped: Seq<Seq<char>> = names@.map_values(|n: String| n@);
            proof {
                assert(self.observations@.take(i + 1).drop_last() =~= self.observations@.take(
                    i as int,
                ));
                assert(self.observations@.take(i + 1).last() == self.observations@[i as int]);
            }
            if (obs.time as u128) + (config.price_feed_period as u128) > (
            config.block_time as u128) {
                let mut seen = false;
                let mut j: usize = 0;
                while j < names.len()
                    invariant
                        0 <= j <= names@.len(),
                        seen == exists|k: int| 0 <= k < j && names@[k]@ == obs.feeder@,
                    decreases names@.len() - j,
                {
                    if names[j] == obs.feeder {
                        seen = true;
                    }
                    j = j + 1;
                }
                proof {
                    assert(seen == old_mapped.to_set().contains(obs.feeder@)) by {
                        if seen {
                            let k = choose|k: int|
                                0 <= k < names@.len() && names@[k]@ == obs.feeder@;
                            assert(old_mapped[k] == obs.feeder@);
                            assert(old_mapped.to_set().contains(old_mapped[k]));
                        } else {
                            if old_mapped.to_set().contains(obs.feeder@) {
                                let k = choose|k: int|
                                    0 <= k < old_mapped.len() && old_mapped[k] == obs.feeder@;
                                assert(names@[k]@ == obs.feeder@);
                            }
                        }
                    }
                    let prefix = spec_retained(
                        self.observations@.take(i as int),
                        config.block_time as int,
                        config.price_feed_period as int,
                    );
                    let retained_next = spec_retained(
                        self.observations@.take(i + 1),
                        config.block_time as int,
                        config.price_feed_period as int,
                    );
                    assert(retained_next =~= prefix.push(self.observations@[i as int]));
                    assert(retained_next.map_values(|o: Observation| o.feeder@) =~= prefix.map_values(
                        |o: Observation| o.feeder@,
                    ).push(obs.feeder@));
                    prefix.map_values(|o: Observation| o.feeder@).lemma_push_to_set_commute(
                        obs.feeder@,
                    );
                    assert(spec_feeder_set(retained_next) == spec_feeder_set(prefix).insert(
                        obs.feeder@,
                    ));
                }
                if !seen {
                    names.push(obs.feeder.clone());
                    proof {
                        let mapped = names@.map_values(|n: String| n@);
                        assert(mapped =~= old_mapped.push(obs.feeder@));
                        old_mapped.lemma_push_to_set_commute(obs.feeder@);
                        assert(!old_mapped.contains(obs.feeder@));
                        assert forall|p: int, q: int| 0 <= p < q < mapped.len() implies mapped[p]
                            != mapped[q] by {
                            if q < old_mapped.len() {
                                assert(old_mapped[p] != old_mapped[q]);
                            } else {
                                assert(mapped[q] == obs.feeder@);
                                if mapped[p] == obs.feeder@ {
                                    assert(old_mapped[p] == obs.feeder@);
                                    assert(old_mapped.contains(obs.feeder@));
                                }
                            }
                        }
                        assert(mapped.no_duplicates());
                    }
                } else {
                    proof {
                        assert(old_mapped.to_set().insert(obs.feeder@) =~= old_mapped.to_set());
                    }
                }
            } else {
                proof {
                    assert(spec_retained(
                        self.observations@.take(i + 1),
                        config.block_time as int,
                        config.price_feed_period as int,
                    ) =~= spec_retained(
                        self.observations@.take(i as int),
                        config.block_time as int,
                        config.price_feed_period as int,
                    ));
                }
            }
            i = i + 1;
        }
        proof {
            assert(self.observations@.take(self.observations@.len() as int)
                =~= self.observations@);
            let mapped = names@.map_values(|n: String| n@);
            mapped.unique_seq_to_set();
        }
        names.len()
    }

    /// The price of `currency` quoted in `quote`: the same currency quotes
    /// itself one to one without consulting any feed; any other pair is
    /// served from its feed, or `NoPrice` where none is kept.
    pub fn price_for(
        currency: &String,
        quote: &String,
        feed: Option<&PriceFeed>,
        config: &Parameters,
    ) -> (r: Result<Price, PriceFeedsError>)
        ensures
            currency@ == quote@ ==> r == Ok::<Price, PriceFeedsError>(
                Price { amount: 1, amount_quote: 1 },
            ),
            currency@ != quote@ && feed is None ==> r == Err::<Price, PriceFeedsError>(
                PriceFeedsError::NoPrice,
            ),
            currency@ != quote@ ==> (feed matches Some(f) ==> ({
                let valid = spec_retained(
                    f.observations@,
                    config.block_time as int,
                    config.price_feed_period as int,
                );
                &&& valid.len() == 0 ==> r == Err::<Price, PriceFeedsError>(
                    PriceFeedsError::NoPrice,
                )
                &&& valid.len() > 0 && spec_feeder_set(valid).len() < config.required_feeders_cnt
                    ==> r == Err::<Price, PriceFeedsError>(PriceFeedsError::NoPrice)
                &&& valid.len() > 0 && spec_feeder_set(valid).len() >= config.required_feeders_cnt
                    ==> r == Ok::<Price, PriceFeedsError>(valid.last().price)
            })),
    {
        if *currency == *quote {
            return Ok(Price { amount: 1, amount_quote: 1 });
        }
        match feed {
            None => Err(PriceFeedsError::NoPrice),
            Some(f) => f.get_price(config),
        }
    }

    /// The price to serve under `config`: the latest still-valid
    /// observation, provided observations from enough distinct feeders are
    /// still valid; `NoPrice` otherwise.
    pub fn get_price(&self, config: &Parameters) -> (r: Result<Price, PriceFeedsError>)
        ensures
            ({
                let valid = spec_retained(
                    self.observations@,
                    config.block_time as int,
                    config.price_feed_period as int,
                );
                &&& valid.len() == 0 ==> r == Err::<Price, PriceFeedsError>(
                    PriceFeedsError::NoPrice,
                )
                &&& valid.len() > 0 && spec_feeder_set(valid).len() < config.required_feeders_cnt
                    ==> r == Err::<Price, PriceFeedsError>(PriceFeedsError::NoPrice)
                &&& valid.len() > 0 && spec_feeder_set(valid).len() >= config.required_feeders_cnt
                    ==> r == Ok::<Price, PriceFeedsError>(valid.last().price)
            }),
    {
        let ghost valid: Seq<Observation> = spec_retained(
            self.observations@,
            config.block_time as int,
            config.price_feed_period as int,
        );
        let mut last_valid: Option<Price> = None;
        let mut i: usize = 0;
        while i < self.observations.len()
            invariant
                0 <= i <= self.observations@.len(),
                ({
                    let prefix = spec_retained(
                        self.observations@.take(i as int),
                        config.block_time as int,
                        config.price_feed_period as int,
                    );
                    &&& prefix.len() == 0 ==> last_valid is None
                    &&& prefix.len() > 0 ==> last_valid == Some(prefix.last().price)
                }),
            decreases self.observations@.len() - i,
        {
            let o = &self.observations[i];
            proof {
                assert(self.observations@.take(i + 1).drop_last() =~= self.observations@.take(
                    i as int,
                ));
                assert(self.observations@.take(i + 1).last() == self.observations@[i as int]);
            }
            if (o.time as u128) + (config.price_feed_period as u128) > (config.block_time as u128) {
                last_valid = Some(o.price);
            }
            i = i + 1;
        }
        proof {
            assert(self.observations@.take(self.observations@.len() as int)
                =~= self.observations@);
        }
        let price = match last_valid {
            Some(p) => p,
            None => { return Err(PriceFeedsError::NoPrice) },
        };
        if self.count_unique_feeders(config) >= config.feeders() {
            Ok(price)
        } else {
            Err(PriceFeedsError::NoPrice)
        }
    }
}

} // verus!
