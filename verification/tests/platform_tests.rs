use lease_core::coin::{funds, CoinDTO, PaymentCurrency, PaymentGroup};
use lease_core::dispatcher;
use lease_core::error::ContractError;
use lease_core::leaser;
use lease_core::lpp;
use lease_core::oracle;
use lease_core::percent::Percent;
use lease_core::price::{calculate_price, total_of, PriceFeedsError};

#[test]
fn of_are() {
    fn test_of_are(permille: u32, whole: u128, part: u128) {
        let p = Percent::from_permille(permille);
        assert_eq!(part, p.of(whole));
        assert_eq!(whole, p.are(part));
    }
    test_of_are(1200, 50, 60);
    test_of_are(12, 500, 6);
}

#[test]
fn funds_carries_amount_and_symbol() {
    let coin = funds(4215, "USDC".to_string());
    assert_eq!(coin, CoinDTO::new(4215, "USDC".to_string()));
    assert_eq!(coin.amount(), 4215);
    assert_eq!(
        coin.expect_symbol(&"USDC".to_string()),
        Ok(4215)
    );
    assert!(matches!(
        coin.expect_symbol(&"NLS".to_string()),
        Err(ContractError::UnknownCurrency { .. })
    ));
}

#[test]
fn payment_group_resolves_members_only() {
    assert_eq!(
        PaymentGroup::resolve(&"USDC".to_string()),
        Ok(PaymentCurrency::Usdc)
    );
    assert_eq!(
        PaymentGroup::resolve(&"NLS".to_string()),
        Ok(PaymentCurrency::Nls)
    );
    assert!(matches!(
        PaymentGroup::resolve(&"DOGE".to_string()),
        Err(ContractError::UnknownCurrency { .. })
    ));
}

fn price_dto(base_amount: u128, base: &str, quote_amount: u128, quote: &str) -> lease_core::price::PriceDTO {
    lease_core::price::PriceDTO {
        base: lease_core::coin::CoinDTO::new(base_amount, base.to_string()),
        quote: lease_core::coin::CoinDTO::new(quote_amount, quote.to_string()),
    }
}

#[test]
fn price_path_composes() {
    // 1 ATOM = 2 OSMO and 1 OSMO = 3 USDC give 1 ATOM = 6 USDC.
    let path = vec![
        price_dto(1, "ATOM", 2, "OSMO"),
        price_dto(1, "OSMO", 3, "USDC"),
    ];
    let result = calculate_price(path).unwrap();
    assert_eq!(result, price_dto(1, "ATOM", 6, "USDC"));
}

#[test]
fn price_path_must_chain() {
    let path = vec![
        price_dto(1, "ATOM", 2, "OSMO"),
        price_dto(1, "NLS", 3, "USDC"),
    ];
    assert_eq!(
        calculate_price(path),
        Err(PriceFeedsError::UnsupportedDenomPairs)
    );
    assert_eq!(calculate_price(vec![]), Err(PriceFeedsError::NoPrice));
}

#[test]
fn price_builder_spells_rates() {
    let p = total_of(20).is(5000);
    assert_eq!(p.amount, 20);
    assert_eq!(p.amount_quote, 5000);
}

#[test]
fn dispatcher_config_only_for_owner() {
    let mut config = dispatcher::Config::new(
        "owner".to_string(),
        10,
        "treasury".to_string(),
        "time".to_string(),
    );
    assert!(matches!(
        dispatcher::try_config(&mut config, &"anyone".to_string(), 20),
        Err(ContractError::Unauthorized)
    ));
    assert_eq!(config.cadence_hours, 10);
    dispatcher::try_config(&mut config, &"owner".to_string(), 12).unwrap();
    assert_eq!(dispatcher::query_config(&config).cadence_hours, 12);
}

#[test]
fn dispatcher_alarm_only_from_time_oracle() {
    let config = dispatcher::Config::new(
        "owner".to_string(),
        10,
        "treasury".to_string(),
        "time".to_string(),
    );
    assert!(matches!(
        dispatcher::try_dispatch(&config, &"anyone".to_string()),
        Err(ContractError::UnrecognisedAlarm(_))
    ));
    assert!(dispatcher::try_dispatch(&config, &"time".to_string()).is_ok());
}

#[test]
fn to_seconds_converts_hours() {
    assert_eq!(dispatcher::to_seconds(10), 36000);
}

#[test]
fn oracle_feeders_register_and_remove() {
    let mut feeders: Vec<String> = Vec::new();
    assert!(matches!(
        oracle::try_register(&mut feeders, false, "addr0000".to_string()),
        Err(ContractError::Unauthorized)
    ));
    oracle::try_register(&mut feeders, true, "addr0000".to_string()).unwrap();
    assert!(oracle::is_feeder(&feeders, &"addr0000".to_string()));
    // The same address cannot register twice.
    assert!(oracle::try_register(&mut feeders, true, "addr0000".to_string()).is_err());
    oracle::try_register(&mut feeders, true, "addr0001".to_string()).unwrap();
    assert_eq!(feeders.len(), 2);

    assert!(matches!(
        oracle::try_remove(&mut feeders, true, &"addr9999".to_string()),
        Err(ContractError::UnknownFeeder)
    ));
    oracle::try_remove(&mut feeders, true, &"addr0000".to_string()).unwrap();
    assert!(!oracle::is_feeder(&feeders, &"addr0000".to_string()));
    assert_eq!(feeders, vec!["addr0001".to_string()]);
}

#[test]
fn oracle_configure_only_for_owner() {
    let mut config = oracle::Config {
        base_asset: "USDC".to_string(),
        owner: "owner".to_string(),
        price_feed_period_secs: 60,
        feeders_percentage_needed: 50,
    };
    assert!(matches!(
        oracle::try_configure(&mut config, &"anyone".to_string(), 15, 12),
        Err(ContractError::Unauthorized)
    ));
    oracle::try_configure(&mut config, &"owner".to_string(), 33, 44).unwrap();
    let resp = oracle::query_config(&config);
    assert_eq!(resp.price_feed_period_secs, 33);
    assert_eq!(resp.feeders_percentage_needed, 44);
}

#[test]
fn oracle_paths_must_end_at_base() {
    let base = "USDC".to_string();
    let good = vec![
        vec!["ATOM".to_string(), "USDC".to_string()],
        vec!["NLS".to_string(), "OSMO".to_string(), "USDC".to_string()],
    ];
    assert!(oracle::validate_currency_paths(&good, &base).is_ok());
    let bad = vec![vec!["NLS".to_string(), "NLS".to_string()]];
    assert!(matches!(
        oracle::validate_currency_paths(&bad, &base),
        Err(ContractError::InvalidParameters(_))
    ));
}

#[test]
fn leaser_config_orders_liabilities() {
    let msg = leaser::InstantiateMsg {
        lease_code_id: 1,
        lpp_ust_addr: "lpp".to_string(),
        lease_interest_rate_margin: 3,
        lease_max_liability: 80,
        lease_healthy_liability: 70,
        lease_initial_liability: 65,
        lease_minimal_downpayment: None,
        repayment_period_nano_sec: 1000,
        grace_period_nano_sec: 100,
    };
    let config = leaser::Config::new("owner".to_string(), msg.clone()).unwrap();
    assert_eq!(config.lease_healthy_liability, Percent::from_percent(70));

    let mut healthy_too_high = msg.clone();
    healthy_too_high.lease_healthy_liability = 80;
    assert!(matches!(
        leaser::Config::new("owner".to_string(), healthy_too_high),
        Err(ContractError::InvalidParameters(_))
    ));

    let mut initial_too_high = msg;
    initial_too_high.lease_initial_liability = 71;
    assert!(matches!(
        leaser::Config::new("owner".to_string(), initial_too_high),
        Err(ContractError::InvalidParameters(_))
    ));
}

#[test]
fn lpp_parameters_update_guarded() {
    let mut config = lpp::Config {
        lpn_ticker: "USDC".to_string(),
        lease_code_id: 1,
        base_interest_rate: Percent::from_percent(10),
        utilization_optimal: Percent::from_percent(50),
        addon_optimal_interest_rate: Percent::from_percent(25),
    };
    assert!(matches!(
        lpp::try_update_parameters(
            &mut config,
            false,
            Percent::from_percent(1),
            Percent::from_percent(1),
            Percent::from_percent(1),
        ),
        Err(ContractError::Unauthorized)
    ));
    assert!(matches!(
        lpp::try_update_parameters(
            &mut config,
            true,
            Percent::from_percent(101),
            Percent::from_percent(1),
            Percent::from_percent(1),
        ),
        Err(ContractError::InvalidParameters(_))
    ));
    lpp::try_update_parameters(
        &mut config,
        true,
        Percent::from_percent(12),
        Percent::from_percent(60),
        Percent::from_percent(20),
    )
    .unwrap();
    let resp = lpp::query_config(&config);
    assert_eq!(resp.base_interest_rate, Percent::from_percent(12));
    assert_eq!(resp.utilization_optimal, Percent::from_percent(60));
}

#[test]
fn leaser_minimal_downpayment_guard() {
    let config = leaser::Config::new(
        "owner".to_string(),
        leaser::InstantiateMsg {
            lease_code_id: 1,
            lpp_ust_addr: "lpp".to_string(),
            lease_interest_rate_margin: 3,
            lease_max_liability: 80,
            lease_healthy_liability: 70,
            lease_initial_liability: 65,
            lease_minimal_downpayment: Some(CoinDTO::new(500, "USDC".to_string())),
            repayment_period_nano_sec: 1000,
            grace_period_nano_sec: 100,
        },
    )
    .unwrap();
    assert!(matches!(
        config.validate_downpayment(&CoinDTO::new(499, "USDC".to_string())),
        Err(ContractError::InsufficientPayment(_))
    ));
    assert!(matches!(
        config.validate_downpayment(&CoinDTO::new(500, "NLS".to_string())),
        Err(ContractError::UnknownCurrency { .. })
    ));
    assert!(config.validate_downpayment(&CoinDTO::new(500, "USDC".to_string())).is_ok());
}
