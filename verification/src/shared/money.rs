//! Amounts in minor units and their conversion between currencies.

use vstd::prelude::*;
use vstd::string::StringExecFns;
use crate::shared::decimal::{
    Decimal,
    DecimalView,
    MAX_MANTISSA,
    MAX_SCALE,
    one,
    pow10,
    product,
    quotient,
    round_half_even,
    whole_i64,
};
use crate::shared::errors::AppError;

verus! {

/// Ten to the power `n` grows with `n`.
pub proof fn lemma_pow10_grows(n: nat, m: nat)
    requires
        n <= m,
    ensures
        1 <= pow10(n) <= pow10(m),
    decreases m,
{
    if m > 0 {
        if n < m {
            lemma_pow10_grows(n, (m - 1) as nat);
        } else {
            lemma_pow10_grows((n - 1) as nat, (m - 1) as nat);
        }
    }
}

/// Ten to the power 28, the largest scale, is a decimal mantissa.
pub proof fn lemma_pow10_max()
    ensures
        pow10(28) == 10_000_000_000_000_000_000_000_000_000int,
        pow10(28) <= MAX_MANTISSA,
{
    reveal_with_fuel(pow10, 30);
}

/// The number of minor units in one major unit of a currency with
/// `minor_unit` decimal places. Ten to the power 29 and above is more than a
/// decimal holds, so there is no such number for more than 28 places; see
/// [`checked_scale_factor`] for every number of places.
pub fn scale_factor(minor_unit: u8) -> (factor: Decimal)
    requires
        minor_unit <= MAX_SCALE,
    ensures
        factor@ == (DecimalView { mantissa: pow10(minor_unit as nat), scale: 0 }),
{
    let mut power: i128 = 1;
    let mut i: u8 = 0;
    while i < minor_unit
        invariant
            i <= minor_unit <= 28,
            power == pow10(i as nat),
        decreases minor_unit - i,
    {
        proof {
            lemma_pow10_grows((i + 1) as nat, 28);
            lemma_pow10_max();
        }
        power = power * 10;
        i += 1;
    }
    proof {
        lemma_pow10_grows(minor_unit as nat, 28);
        lemma_pow10_max();
    }
    match Decimal::new(power, 0) {
        Some(factor) => factor,
        None => unreached(),
    }
}

/// The number of minor units in one major unit of a currency with
/// `minor_unit` decimal places, where a decimal holds it: none for more than
/// 28 places.
pub fn checked_scale_factor(minor_unit: u8) -> (factor: Option<Decimal>)
    ensures
        factor is Some <==> minor_unit <= MAX_SCALE,
        factor matches Some(f) ==> f@ == (DecimalView {
            mantissa: pow10(minor_unit as nat),
            scale: 0,
        }),
{
    if minor_unit > 28 {
        None
    } else {
        Some(scale_factor(minor_unit))
    }
}

/// The amount in minor units that a decimal number of minor units stands
/// for: the nearest whole number, halves going to the even neighbour; none
/// where a signed 64-bit integer cannot hold it.
pub open spec fn minor_units(amount: DecimalView) -> Option<i64> {
    whole_i64(round_half_even(amount))
}

/// Rounds a decimal number of minor units to an amount.
pub fn to_minor_units(amount: &Decimal) -> (r: Result<i64, AppError>)
    ensures
        r == match minor_units(amount@) {
            Some(minor) => Ok::<i64, AppError>(minor),
            None => Err::<i64, AppError>(AppError::Internal),
        },
{
    match amount.round().to_i64() {
        Some(minor) => Ok(minor),
        None => Err(AppError::Internal),
    }
}

/// The decimal number of base minor units that `amount_minor` source minor
/// units come to at `rate` source units for one base unit: the amount in
/// major units, divided by the rate, in base minor units. None where a step
/// leaves the range of decimals, as the number of minor units in a major
/// unit does for a currency of more than 28 decimal places.
pub open spec fn converted(amount_minor: i64, src_minor: u8, base_minor: u8, rate: DecimalView)
    -> Option<DecimalView> {
    let amount = DecimalView { mantissa: amount_minor as int, scale: 0 };
    let src_scale = DecimalView { mantissa: pow10(src_minor as nat), scale: 0 };
    let base_scale = DecimalView { mantissa: pow10(base_minor as nat), scale: 0 };
    if src_minor > MAX_SCALE || base_minor > MAX_SCALE {
        None
    } else {
        match quotient(amount, src_scale) {
            None => None,
            Some(src_major) => match quotient(src_major, rate) {
                None => None,
                Some(base_major) => product(base_major, base_scale),
            },
        }
    }
}

/// Converts an amount from a source currency to the base currency.
///
/// `rate_base_to_src` says how many source units one base unit buys, so the
/// amount is divided by it. A rate that is not positive is refused, and
/// nothing else is. An amount that cannot be represented on the way is an
/// internal failure; so is a currency of more than 28 decimal places, whose
/// major unit no decimal can hold in minor units.
/// At rate one, between currencies without decimal places, every amount
/// converts to itself.
pub fn convert_to_base_minor(
    amount_minor: i64,
    src_minor: u8,
    base_minor: u8,
    rate_base_to_src: Decimal,
) -> (r: Result<i64, AppError>)
    ensures
        r matches Err(AppError::BadRequest(_)) <==> rate_base_to_src@.mantissa <= 0,
        rate_base_to_src@.mantissa <= 0 ==> (r matches Err(AppError::BadRequest(reason)) && reason@
            == "invalid fx rate"@),
        rate_base_to_src@.mantissa > 0 ==> r == match converted(
            amount_minor,
            src_minor,
            base_minor,
            rate_base_to_src@,
        ) {
            Some(amount) => match minor_units(amount) {
                Some(minor) => Ok::<i64, AppError>(minor),
                None => Err::<i64, AppError>(AppError::Internal),
            },
            None => Err::<i64, AppError>(AppError::Internal),
        },
        src_minor == 0 && base_minor == 0 && rate_base_to_src@ == one() ==> r == Ok::<
            i64,
            AppError,
        >(amount_minor),
{
    if rate_base_to_src.mantissa() <= 0 {
        return Err(AppError::BadRequest(String::from_str("invalid fx rate")));
    }
    let src_scale = match checked_scale_factor(src_minor) {
        Some(scale) => scale,
        None => return Err(AppError::Internal),
    };
    let base_scale = match checked_scale_factor(base_minor) {
        Some(scale) => scale,
        None => return Err(AppError::Internal),
    };
    let amount_src_major = match Decimal::from_i64(amount_minor).checked_div(&src_scale) {
        Some(amount) => amount,
        None => return Err(AppError::Internal),
    };
    let amount_base_major = match amount_src_major.checked_div(&rate_base_to_src) {
        Some(amount) => amount,
        None => return Err(AppError::Internal),
    };
    match amount_base_major.checked_mul(&base_scale) {
        Some(amount) => to_minor_units(&amount),
        None => Err(AppError::Internal),
    }
}

} // verus!
