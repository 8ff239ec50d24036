use lease_core::borrow::InterestRate;
use lease_core::percent::Percent;

/// An instance of the model; arguments are rates in per milles.
fn rate(
    base_interest_rate: u32,
    utilization_optimal: u32,
    addon_optimal_interest_rate: u32,
) -> InterestRate {
    InterestRate::new(
        Percent::from_permille(base_interest_rate),
        Percent::from_permille(utilization_optimal),
        Percent::from_permille(addon_optimal_interest_rate),
    )
    .expect("Rates should be less or equal to a thousand!")
}

fn ratio(n: u128, d: u128) -> Percent {
    Percent::from_permille((n * 1000 / d) as u32)
}

struct InOut((u128, u128), (u128, u128));

fn do_test_calculate(rate: InterestRate, in_out_set: &[InOut]) {
    for InOut((liability, balance), (n, d)) in in_out_set {
        assert_eq!(
            rate.calculate(*liability, *balance),
            ratio(*n, *d),
            "Liability: {liability}, balance: {balance}",
        );
    }
}

/// When there is no add-on rate, the result equals the base rate.
#[test]
fn test_set_1() {
    for base_rate in 0..=1000u32 {
        let rate = rate(base_rate, 1000, 0);

        let base_rate: u128 = base_rate.into();

        for liability in 0..=25u128 {
            for balance in 1..=25u128 {
                do_test_calculate(rate, &[InOut((liability, balance), (base_rate, 1000))]);
            }
        }
    }
}

/// When the liability is zero, the result equals the base rate.
#[test]
fn test_set_2() {
    for base_rate in 0..=1000u32 {
        let rate = rate(base_rate, 1000, 1000);

        let base_rate: u128 = base_rate.into();

        for balance in 0..=1000u128 {
            do_test_calculate(rate, &[InOut((0, balance), (base_rate, 1000))]);
        }
    }
}

/// With the optimal utilization at zero the model is usable only while
/// nothing is borrowed, where it yields exactly the base rate.
#[test]
fn test_set_3() {
    for base_interest_rate in 0..=1000u32 {
        for addon_rate in 0..=1000u32 {
            let rate = rate(base_interest_rate, 0, addon_rate);

            let base: u128 = base_interest_rate.into();

            for balance in 0..=10u128 {
                do_test_calculate(rate, &[InOut((0, balance), (base, 1000))]);
            }
        }
    }
}

/// Results against a manually calculated set.
#[test]
fn test_set_4() {
    let rate = rate(100, 500, 250);

    let set = [
        InOut((10, 1), (554, 1000)),
        InOut((10, 2), (516, 1000)),
        InOut((10, 3), (484, 1000)),
        InOut((10, 4), (457, 1000)),
        InOut((10, 5), (433, 1000)),
        InOut((10, 6), (412, 1000)),
        InOut((10, 7), (394, 1000)),
        InOut((10, 8), (377, 1000)),
        InOut((10, 9), (363, 1000)),
        InOut((10, 10), (35, 100)),
        InOut((10, 11), (338, 1000)),
        InOut((10, 12), (327, 1000)),
        InOut((10, 13), (317, 1000)),
        InOut((10, 14), (308, 1000)),
        InOut((10, 15), (300, 1000)),
    ];

    do_test_calculate(rate, &set);
}
