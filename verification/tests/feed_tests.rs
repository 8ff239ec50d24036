use lease_core::feed::{Parameters, PriceFeed};
use lease_core::price::{total_of, PriceFeedsError};

const NANOS_IN_SEC: u64 = 1_000_000_000;

#[test]
fn old_observations() {
    const ONE_FEEDER: usize = 1;
    let validity_period = 60 * NANOS_IN_SEC;
    let block_time = 100 * NANOS_IN_SEC;
    let config = Parameters::new(validity_period, ONE_FEEDER, block_time);

    let feeder1 = "feeder1".to_string();
    let feed1_time = block_time - validity_period;
    let feed1_price = total_of(20).is(5000);

    let mut feed = PriceFeed::new();
    feed = feed.add_observation(feeder1.clone(), feed1_time, feed1_price, config.period());

    assert_eq!(Err(PriceFeedsError::NoPrice), feed.get_price(&config));

    let feed2_time = feed1_time + 1;
    let feed2_price = total_of(19).is(5000);
    feed = feed.add_observation(feeder1, feed2_time, feed2_price, 0);
    assert_eq!(Ok(feed2_price), feed.get_price(&config));
}

#[test]
fn less_feeders() {
    let validity_period = 60 * NANOS_IN_SEC;
    let block_time = 100 * NANOS_IN_SEC;

    let feeder1 = "feeder1".to_string();
    let feed1_time = block_time;
    let feed1_price = total_of(20).is(5000);

    let mut feed = PriceFeed::new();
    feed = feed.add_observation(feeder1, feed1_time, feed1_price, validity_period);

    let config_two_feeders = Parameters::new(validity_period, 2, block_time);
    assert_eq!(
        Err(PriceFeedsError::NoPrice),
        feed.get_price(&config_two_feeders)
    );

    let config_one_feeder = Parameters::new(validity_period, 1, block_time);
    assert_eq!(Ok(feed1_price), feed.get_price(&config_one_feeder));
}

#[test]
fn less_feeders_with_valid_observations() {
    let validity_period = 60 * NANOS_IN_SEC;
    let block_time = 150 * NANOS_IN_SEC;

    let feeder1 = "feeder1".to_string();
    let feed1_time = block_time - validity_period;
    let feed1_price = total_of(20).is(5000);

    let mut feed = PriceFeed::new();
    feed = feed.add_observation(feeder1, feed1_time, feed1_price, validity_period);

    let feeder2 = "feeder2".to_string();
    let feed2_time = block_time - validity_period + 1;
    let feed2_price = total_of(19).is(5000);
    feed = feed.add_observation(feeder2, feed2_time, feed2_price, validity_period);

    let config_feed1_and_2_in = Parameters::new(validity_period, 2, feed2_time);
    assert!(feed.get_price(&config_feed1_and_2_in).is_ok());

    let config_feed2_in = Parameters::new(validity_period, 2, block_time);
    assert_eq!(
        Err(PriceFeedsError::NoPrice),
        feed.get_price(&config_feed2_in)
    );
}

#[test]
fn counts_distinct_feeders_only() {
    let validity_period = 60 * NANOS_IN_SEC;
    let block_time = 100 * NANOS_IN_SEC;
    let config = Parameters::new(validity_period, 2, block_time);

    let mut feed = PriceFeed::new();
    feed = feed.add_observation(
        "feeder1".to_string(),
        block_time,
        total_of(20).is(5000),
        validity_period,
    );
    feed = feed.add_observation(
        "feeder1".to_string(),
        block_time,
        total_of(20).is(5100),
        validity_period,
    );
    assert_eq!(1, feed.count_unique_feeders(&config));
    assert_eq!(Err(PriceFeedsError::NoPrice), feed.get_price(&config));

    feed = feed.add_observation(
        "feeder2".to_string(),
        block_time,
        total_of(20).is(5200),
        validity_period,
    );
    assert_eq!(2, feed.count_unique_feeders(&config));
    assert_eq!(Ok(total_of(20).is(5200)), feed.get_price(&config));
}

#[test]
fn same_currency_quotes_itself() {
    let config = Parameters::new(60 * NANOS_IN_SEC, 1, 100 * NANOS_IN_SEC);
    assert_eq!(
        PriceFeed::price_for(&"USDC".to_string(), &"USDC".to_string(), None, &config),
        Ok(total_of(1).is(1))
    );
    assert_eq!(
        PriceFeed::price_for(&"ATOM".to_string(), &"USDC".to_string(), None, &config),
        Err(PriceFeedsError::NoPrice)
    );
    let feed = PriceFeed::new().add_observation(
        "feeder1".to_string(),
        100 * NANOS_IN_SEC,
        total_of(20).is(5000),
        60 * NANOS_IN_SEC,
    );
    assert_eq!(
        PriceFeed::price_for(&"ATOM".to_string(), &"USDC".to_string(), Some(&feed), &config),
        Ok(total_of(20).is(5000))
    );
}
