use lease_core::liability::{Liability, SECS_IN_HOUR};
use lease_core::percent::Percent;

#[test]
fn new_valid() {
    let obj = Liability::new(
        Percent::from_percent(10),
        Percent::from_percent(0),
        Percent::from_percent(5),
        20,
    );
    assert_eq!(
        Liability {
            init_percent: Percent::from_percent(10),
            healthy_percent: Percent::from_percent(10),
            max_percent: Percent::from_percent(15),
            recalc_secs: 20 * SECS_IN_HOUR,
        },
        obj,
    );
}

#[test]
fn new_edge_case() {
    let obj = Liability::new(
        Percent::from_percent(1),
        Percent::from_percent(0),
        Percent::from_percent(1),
        1,
    );
    assert_eq!(
        Liability {
            init_percent: Percent::from_percent(1),
            healthy_percent: Percent::from_percent(1),
            max_percent: Percent::from_percent(2),
            recalc_secs: SECS_IN_HOUR,
        },
        obj,
    );
}

#[test]
fn deserialize_invalid_state() {
    let deserialized = Liability {
        init_percent: Percent::from_percent(40),
        healthy_percent: Percent::from_percent(30),
        max_percent: Percent::from_percent(20),
        recalc_secs: 36000,
    };
    let err = deserialized.invariant_held().unwrap_err();
    assert!(matches!(
        err,
        lease_core::error::ContractError::BrokenInvariant(_, _)
    ));
}

fn test_init_borrow_amount(d: u128, p: u16, exp: u128) {
    let liability = Liability {
        init_percent: Percent::from_percent(p),
        healthy_percent: Percent::from_percent(99),
        max_percent: Percent::from_percent(100),
        recalc_secs: 20000,
    };
    let calculated = liability.init_borrow_amount(d);
    assert_eq!(exp, calculated);
    assert_eq!(
        calculated,
        Percent::from_percent(p).of(d + calculated),
    );
}

#[test]
fn init_borrow() {
    test_init_borrow_amount(1000, 10, 111);
    test_init_borrow_amount(1, 10, 0);
    test_init_borrow_amount(1000, 99, 990 * 100);
}
