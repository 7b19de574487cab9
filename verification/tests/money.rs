use finlife::shared::decimal::Decimal;
use finlife::shared::errors::AppError;
use finlife::shared::money::{
    checked_scale_factor, convert_to_base_minor, scale_factor, to_minor_units,
};

fn dec(mantissa: i128, scale: u32) -> Decimal {
    Decimal::new(mantissa, scale).unwrap()
}

#[test]
fn decimal_new_keeps_mantissa_and_scale() {
    let d = dec(-12345, 3);
    assert_eq!(d.mantissa(), -12345);
    assert_eq!(d.scale(), 3);
}

#[test]
fn decimal_new_refuses_what_96_bits_and_28_places_cannot_hold() {
    let max: i128 = 0xFFFF_FFFF_FFFF_FFFF_FFFF_FFFF;
    assert!(Decimal::new(max, 28).is_some());
    assert!(Decimal::new(-max, 0).is_some());
    assert!(Decimal::new(max + 1, 0).is_none());
    assert!(Decimal::new(-max - 1, 0).is_none());
    assert!(Decimal::new(1, 29).is_none());
}

#[test]
fn decimal_from_i64_is_a_whole_number() {
    let d = Decimal::from_i64(i64::MIN);
    assert_eq!(d.mantissa(), i64::MIN as i128);
    assert_eq!(d.scale(), 0);
}

#[test]
fn scale_factor_is_a_power_of_ten() {
    assert_eq!(scale_factor(0), dec(1, 0));
    assert_eq!(scale_factor(2), dec(100, 0));
    assert_eq!(scale_factor(3), dec(1000, 0));
    assert_eq!(scale_factor(28), dec(10_000_000_000_000_000_000_000_000_000, 0));
}

#[test]
fn conversion_at_rate_one_between_equal_minor_units_changes_nothing() {
    assert_eq!(convert_to_base_minor(100, 0, 0, dec(1, 0)), Ok(100));
    assert_eq!(convert_to_base_minor(100, 2, 2, dec(1, 0)), Ok(100));
    assert_eq!(convert_to_base_minor(-7, 3, 3, dec(10, 1)), Ok(-7));
}

#[test]
fn conversion_divides_by_the_rate() {
    // 10.00 in the source currency at 2 source units per base unit is 5.00.
    assert_eq!(convert_to_base_minor(1000, 2, 2, dec(2, 0)), Ok(500));
    // 1.50 at 0.5 is 3.00.
    assert_eq!(convert_to_base_minor(150, 2, 2, dec(5, 1)), Ok(300));
}

#[test]
fn conversion_changes_the_minor_unit() {
    // 100 yen (no decimal places) at 100 yen per unit is 1.00 in a currency of two places.
    assert_eq!(convert_to_base_minor(100, 0, 2, dec(100, 0)), Ok(100));
    // 1.000 in a currency of three places at rate 1 is 1.00.
    assert_eq!(convert_to_base_minor(1000, 3, 2, dec(1, 0)), Ok(100));
}

#[test]
fn conversion_rounds_halves_to_the_even_neighbour() {
    // 0.05 / 2 = 0.025, that is 2.5 minor units: the even neighbour is 2.
    assert_eq!(convert_to_base_minor(5, 2, 2, dec(2, 0)), Ok(2));
    // 0.07 / 2 = 0.035, that is 3.5 minor units: the even neighbour is 4.
    assert_eq!(convert_to_base_minor(7, 2, 2, dec(2, 0)), Ok(4));
    // 0.01 / 3 is a third of a minor unit.
    assert_eq!(convert_to_base_minor(1, 2, 2, dec(3, 0)), Ok(0));
    assert_eq!(convert_to_base_minor(2, 2, 2, dec(3, 0)), Ok(1));
}

#[test]
fn conversion_refuses_a_rate_that_is_not_positive() {
    let zero = convert_to_base_minor(100, 2, 2, dec(0, 0));
    assert_eq!(zero, Err(AppError::BadRequest("invalid fx rate".to_string())));
    let negative = convert_to_base_minor(100, 2, 2, dec(-1, 0));
    assert_eq!(negative, Err(AppError::BadRequest("invalid fx rate".to_string())));
}

#[test]
fn conversion_that_leaves_the_range_is_an_internal_failure() {
    // The largest amount at the smallest rate is far beyond 96 bits.
    assert_eq!(convert_to_base_minor(i64::MAX, 0, 0, dec(1, 28)), Err(AppError::Internal));
    // The amount fits a decimal but not a 64-bit integer.
    assert_eq!(convert_to_base_minor(i64::MAX, 0, 0, dec(5, 1)), Err(AppError::Internal));
}

#[test]
fn to_minor_units_rounds_to_the_nearest_whole_number() {
    assert_eq!(to_minor_units(&dec(149, 2)), Ok(1));
    assert_eq!(to_minor_units(&dec(151, 2)), Ok(2));
    assert_eq!(to_minor_units(&dec(65, 1)), Ok(6));
    assert_eq!(to_minor_units(&dec(75, 1)), Ok(8));
    assert_eq!(to_minor_units(&dec(-65, 1)), Ok(-6));
    assert_eq!(to_minor_units(&dec(-75, 1)), Ok(-8));
    assert_eq!(to_minor_units(&dec(42, 0)), Ok(42));
}

#[test]
fn to_minor_units_keeps_to_what_64_bits_hold() {
    assert_eq!(to_minor_units(&dec(i64::MAX as i128, 0)), Ok(i64::MAX));
    assert_eq!(to_minor_units(&dec(i64::MIN as i128, 0)), Ok(i64::MIN));
    assert_eq!(to_minor_units(&dec(i64::MAX as i128 + 1, 0)), Err(AppError::Internal));
    assert_eq!(to_minor_units(&dec(i64::MIN as i128 - 1, 0)), Err(AppError::Internal));
}

#[test]
fn at_par_without_decimal_places_every_amount_converts_to_itself() {
    for amount in [0, 1, -1, 100, 4_294_967_295, 4_294_967_296, -4_294_967_297, i64::MAX, i64::MIN] {
        assert_eq!(convert_to_base_minor(amount, 0, 0, dec(1, 0)), Ok(amount), "{amount}");
    }
}

#[test]
fn a_currency_of_more_than_28_places_is_an_internal_failure() {
    assert_eq!(convert_to_base_minor(100, 29, 2, dec(1, 0)), Err(AppError::Internal));
    assert_eq!(convert_to_base_minor(100, 2, 29, dec(1, 0)), Err(AppError::Internal));
    assert_eq!(convert_to_base_minor(0, 255, 255, dec(1, 0)), Err(AppError::Internal));
    assert_eq!(convert_to_base_minor(100, 28, 28, dec(1, 0)), Ok(100));
}

#[test]
fn a_bad_rate_is_refused_for_every_number_of_places() {
    for places in [0u8, 2, 28, 29, 200, 255] {
        assert_eq!(
            convert_to_base_minor(100, places, places, dec(0, 0)),
            Err(AppError::BadRequest("invalid fx rate".to_string())),
            "{places}"
        );
        assert_eq!(
            convert_to_base_minor(100, places, 0, dec(-5, 3)),
            Err(AppError::BadRequest("invalid fx rate".to_string())),
            "{places}"
        );
    }
}

#[test]
fn checked_scale_factor_ends_at_28_places() {
    assert_eq!(checked_scale_factor(0), Some(dec(1, 0)));
    assert_eq!(checked_scale_factor(28), Some(dec(10_000_000_000_000_000_000_000_000_000, 0)));
    assert_eq!(checked_scale_factor(29), None);
    assert_eq!(checked_scale_factor(255), None);
}
