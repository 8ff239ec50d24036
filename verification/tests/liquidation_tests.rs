use lease_core::liability::Liability;
use lease_core::liquidation::{check_liability, LiquidationStatus};
use lease_core::percent::Percent;

fn policy() -> Liability {
    // init 70%, healthy 80%, max 90%: warning bands of 33 per mille each.
    Liability::new(
        Percent::from_percent(70),
        Percent::from_percent(10),
        Percent::from_percent(10),
        20,
    )
}

fn classify(total_due: u128, collateral_value: u128) -> LiquidationStatus {
    check_liability(
        &policy(),
        "customer".to_string(),
        "OSMO".to_string(),
        total_due,
        collateral_value,
    )
}

#[test]
fn below_healthy_is_quiet() {
    assert!(matches!(classify(79, 100), LiquidationStatus::NoWarning));
}

#[test]
fn warning_bands_ascend() {
    match classify(80, 100) {
        LiquidationStatus::FirstWarning(info) => {
            assert_eq!(info.ltv, Percent::from_permille(800));
            assert_eq!(info.ltv_healthy, Percent::from_percent(80));
            assert_eq!(info.customer.as_str(), "customer");
            assert_eq!(info.lease_asset.as_str(), "OSMO");
        }
        other => panic!("expected the first warning, got {:?}", other),
    }
    assert!(matches!(
        classify(84, 100),
        LiquidationStatus::SecondWarning(_)
    ));
    assert!(matches!(
        classify(87, 100),
        LiquidationStatus::ThirdWarning(_)
    ));
}

#[test]
fn partial_liquidation_sells_the_minimal_amount() {
    // Debt 90 on collateral worth 100: selling 50 brings the ratio back to
    // exactly 80%: (90 - 50) / (100 - 50) = 80%.
    match classify(90, 100) {
        LiquidationStatus::PartialLiquidation(_, amount) => assert_eq!(amount, 50),
        other => panic!("expected a partial liquidation, got {:?}", other),
    }
}

#[test]
fn hopeless_position_is_fully_liquidated() {
    match classify(100, 100) {
        LiquidationStatus::FullLiquidation(_, amount) => assert_eq!(amount, 100),
        other => panic!("expected a full liquidation, got {:?}", other),
    }
}

#[test]
fn severity_never_drops_as_debt_grows() {
    fn severity(s: &LiquidationStatus) -> u8 {
        match s {
            LiquidationStatus::NoWarning => 0,
            LiquidationStatus::FirstWarning(_) => 1,
            LiquidationStatus::SecondWarning(_) => 2,
            LiquidationStatus::ThirdWarning(_) => 3,
            LiquidationStatus::PartialLiquidation(_, _) => 4,
            LiquidationStatus::FullLiquidation(_, _) => 5,
        }
    }
    let mut last: u8 = 0;
    for due in 0..=120u128 {
        let sev = severity(&classify(due, 100));
        assert!(sev >= last, "severity dropped at debt {due}");
        last = sev;
    }
}
