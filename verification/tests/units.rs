use sol_pay_client::units::{from_base_units, to_base_units, UnitsError};

#[test]
fn parses_at_usdc_scale() {
    assert_eq!(to_base_units("1", 6).unwrap(), 1_000_000);
    assert_eq!(to_base_units("1.5", 6).unwrap(), 1_500_000);
    assert_eq!(to_base_units("0.000001", 6).unwrap(), 1);
    assert_eq!(to_base_units(".5", 6).unwrap(), 500_000);
    assert_eq!(to_base_units("12.", 6).unwrap(), 12_000_000);
    assert_eq!(to_base_units("0", 6).unwrap(), 0);
    assert_eq!(to_base_units("  2.25  ", 6).unwrap(), 2_250_000);
}

#[test]
fn refuses_what_it_cannot_represent_rather_than_rounding() {
    assert_eq!(
        to_base_units("0.0000001", 6),
        Err(UnitsError::TooPrecise {
            decimals: 6,
            given: 7
        })
    );
    assert_eq!(to_base_units("", 6), Err(UnitsError::Empty));
    assert_eq!(to_base_units(".", 6), Err(UnitsError::NotANumber));
    assert_eq!(to_base_units("-1", 6), Err(UnitsError::NotANumber));
    assert_eq!(to_base_units("1e6", 6), Err(UnitsError::NotANumber));
    assert_eq!(to_base_units("1_000", 6), Err(UnitsError::NotANumber));
    assert_eq!(to_base_units("1.2.3", 6), Err(UnitsError::NotANumber));
    assert_eq!(to_base_units("184467440738", 9), Err(UnitsError::Overflow));
}

#[test]
fn renders_without_trailing_zeros() {
    assert_eq!(from_base_units(1_500_000, 6), "1.5");
    assert_eq!(from_base_units(1_000_000, 6), "1");
    assert_eq!(from_base_units(1, 6), "0.000001");
    assert_eq!(from_base_units(0, 6), "0");
    assert_eq!(from_base_units(42, 0), "42");
}

#[test]
fn units_round_trips() {
    for units in [0u64, 1, 999_999, 1_000_000, 1_500_000, u64::MAX / 2] {
        for decimals in [0u8, 2, 6, 9] {
            let text = from_base_units(units, decimals);
            assert_eq!(
                to_base_units(&text, decimals).unwrap(),
                units,
                "{text} at {decimals} decimals"
            );
        }
    }
}

/// The fault this module exists to prevent.
#[test]
fn scaling_twice_is_not_silently_accepted() {
    let once = to_base_units("50", 6).unwrap();
    assert_eq!(once, 50_000_000);
    let twice = to_base_units(&once.to_string(), 6).unwrap();
    assert_ne!(twice, once);
    assert_eq!(twice, 50_000_000_000_000);
}

#[test]
fn the_largest_amount_renders_and_reads_back_at_every_scale() {
    for decimals in 0u8..=19 {
        let text = from_base_units(u64::MAX, decimals);
        assert_eq!(to_base_units(&text, decimals), Ok(u64::MAX), "{text}");
    }
    assert_eq!(from_base_units(u64::MAX, 19), "1.8446744073709551615");
    assert_eq!(from_base_units(u64::MAX, 0), "18446744073709551615");
}

#[test]
fn one_past_the_largest_amount_overflows() {
    assert_eq!(to_base_units("18446744073709551615", 0), Ok(u64::MAX));
    assert_eq!(to_base_units("18446744073709551616", 0), Err(UnitsError::Overflow));
    assert_eq!(to_base_units("18446744073709.551616", 6), Err(UnitsError::Overflow));
}

#[test]
fn whitespace_alone_is_empty_and_inner_whitespace_is_not_a_number() {
    assert_eq!(to_base_units(" \t\n", 6), Err(UnitsError::Empty));
    assert_eq!(to_base_units("1 000", 6), Err(UnitsError::NotANumber));
    assert_eq!(to_base_units("+1", 6), Err(UnitsError::NotANumber));
}

#[test]
fn leading_zeros_and_exact_precision_are_accepted() {
    assert_eq!(to_base_units("007.250000", 6), Ok(7_250_000));
    assert_eq!(to_base_units("0.5", 0), Err(UnitsError::TooPrecise { decimals: 0, given: 1 }));
    assert_eq!(to_base_units("3.", 0), Ok(3));
}

#[test]
fn units_errors_read_as_sentences() {
    assert_eq!(UnitsError::Empty.message(), "amount is empty");
    assert_eq!(UnitsError::NotANumber.message(), "amount is not a decimal number");
    assert_eq!(
        UnitsError::TooPrecise { decimals: 6, given: 7 }.message(),
        "amount has 7 decimal places, the mint has 6"
    );
    assert_eq!(UnitsError::Overflow.message(), "amount does not fit in u64 base units");
}

#[test]
fn scales_past_nineteen_decimals_hold_only_zero() {
    assert_eq!(to_base_units("0", 30), Ok(0));
    assert_eq!(to_base_units("0.000", 25), Ok(0));
    assert_eq!(to_base_units("1", 20), Err(UnitsError::Overflow));
    assert_eq!(to_base_units("1", 19), Ok(10_000_000_000_000_000_000));
}
