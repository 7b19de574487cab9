//! Exact decimal numbers of at most 96 bits of mantissa and 28 decimal
//! places.

use vstd::prelude::*;

verus! {

/// The largest magnitude a mantissa can have: `2^96 - 1`.
pub const MAX_MANTISSA: i128 = 0xFFFF_FFFF_FFFF_FFFF_FFFF_FFFF;

/// The largest number of decimal places.
pub const MAX_SCALE: u32 = 28;

/// The number `mantissa / 10^scale`.
#[derive(Debug, Clone, Copy, PartialEq, Eq)]
pub struct Decimal {
    mantissa: i128,
    scale: u32,
}

/// What a [`Decimal`] stands for: an integer and the number of its digits
/// that follow the decimal point.
pub struct DecimalView {
    pub mantissa: int,
    pub scale: nat,
}

impl DecimalView {
    /// Whether the number fits the 96-bit, 28-place representation.
    pub open spec fn representable(self) -> bool {
        &&& -MAX_MANTISSA <= self.mantissa <= MAX_MANTISSA
        &&& self.scale <= MAX_SCALE
    }
}

impl View for Decimal {
    type V = DecimalView;

    closed spec fn view(&self) -> DecimalView {
        DecimalView { mantissa: self.mantissa as int, scale: self.scale as nat }
    }
}

impl DeepView for Decimal {
    type V = DecimalView;

    open spec fn deep_view(&self) -> DecimalView {
        self@
    }
}

impl Decimal {
    #[verifier::type_invariant]
    spec fn well_formed(self) -> bool {
        self@.representable()
    }

    /// The decimal `mantissa / 10^scale`, where it is representable.
    pub fn new(mantissa: i128, scale: u32) -> (r: Option<Decimal>)
        ensures
            r is Some <==> (DecimalView {
                mantissa: mantissa as int,
                scale: scale as nat,
            }).representable(),
            r matches Some(d) ==> d@ == (DecimalView {
                mantissa: mantissa as int,
                scale: scale as nat,
            }),
    {
        if scale > MAX_SCALE || mantissa > MAX_MANTISSA || mantissa < -MAX_MANTISSA {
            None
        } else {
            Some(Decimal { mantissa, scale })
        }
    }

    /// The whole number `n`.
    pub fn from_i64(n: i64) -> (d: Decimal)
        ensures
            d@ == (DecimalView { mantissa: n as int, scale: 0 }),
    {
        Decimal { mantissa: n as i128, scale: 0 }
    }

    /// The integer of which the number is a decimal fraction.
    pub fn mantissa(&self) -> (m: i128)
        ensures
            m == self@.mantissa,
            -MAX_MANTISSA <= m <= MAX_MANTISSA,
    {
        proof {
            use_type_invariant(self);
        }
        self.mantissa
    }

    /// The number of digits after the decimal point.
    pub fn scale(&self) -> (s: u32)
        ensures
            s == self@.scale,
            s <= MAX_SCALE,
    {
        proof {
            use_type_invariant(self);
        }
        self.scale
    }
}

/// Ten to the power `n`.
pub open spec fn pow10(n: nat) -> int
    decreases n,
{
    if n == 0 {
        1
    } else {
        10 * pow10((n - 1) as nat)
    }
}

/// The magnitude of an integer.
pub open spec fn magnitude(n: int) -> int {
    if n < 0 {
        -n
    } else {
        n
    }
}

/// The whole number nearest to `d`; a number half-way between two whole
/// numbers goes to the even one.
pub open spec fn round_half_even(d: DecimalView) -> DecimalView {
    if d.scale == 0 {
        d
    } else {
        let unit = pow10(d.scale);
        let whole = magnitude(d.mantissa) / unit;
        let rest = magnitude(d.mantissa) % unit;
        let rounded = if 2 * rest > unit || (2 * rest == unit && whole % 2 == 1) {
            whole + 1
        } else {
            whole
        };
        DecimalView {
            mantissa: if d.mantissa < 0 {
                -rounded
            } else {
                rounded
            },
            scale: 0,
        }
    }
}

/// The whole part of `d`, where a signed 64-bit integer can hold it: digits
/// after the decimal point are cut off.
pub open spec fn whole_i64(d: DecimalView) -> Option<i64> {
    let whole = magnitude(d.mantissa) / pow10(d.scale);
    let signed = if d.mantissa < 0 {
        -whole
    } else {
        whole
    };
    if i64::MIN <= signed <= i64::MAX {
        Some(signed as i64)
    } else {
        None
    }
}

/// The quotient of `am / 10^a_scale` by `bm / 10^b_scale` as a mantissa and a
/// scale, as decimal division computes it: rounded to what 96 bits and 28
/// places can hold; none for a zero divisor and for a quotient that is too
/// large.
pub uninterp spec fn decimal_quotient(am: int, a_scale: nat, bm: int, b_scale: nat) -> Option<
    (int, nat),
>;

/// The product of `am / 10^a_scale` and `bm / 10^b_scale` as a mantissa and a
/// scale, as decimal multiplication computes it: rounded to what 96 bits and
/// 28 places can hold; none for a product that is too large.
pub uninterp spec fn decimal_product(am: int, a_scale: nat, bm: int, b_scale: nat) -> Option<
    (int, nat),
>;

/// The number one, without decimal places.
pub open spec fn one() -> DecimalView {
    DecimalView { mantissa: 1, scale: 0 }
}

/// The decimal a mantissa and a scale stand for.
pub open spec fn decimal_of(parts: Option<(int, nat)>) -> Option<DecimalView> {
    match parts {
        Some((mantissa, scale)) => Some(DecimalView { mantissa, scale }),
        None => None,
    }
}

/// The quotient of two decimals.
pub open spec fn quotient(a: DecimalView, b: DecimalView) -> Option<DecimalView> {
    decimal_of(decimal_quotient(a.mantissa, a.scale, b.mantissa, b.scale))
}

/// The product of two decimals.
pub open spec fn product(a: DecimalView, b: DecimalView) -> Option<DecimalView> {
    decimal_of(decimal_product(a.mantissa, a.scale, b.mantissa, b.scale))
}

impl Decimal {
    /// Calls `rust_decimal::Decimal::checked_div`. The contract names the
    /// quotient and claims of it that it depends on the two numbers alone,
    /// and that a whole number divided by one is that number.
    #[verifier::external_body]
    pub(crate) fn checked_div(&self, other: &Decimal) -> (r: Option<Decimal>)
        ensures
            r.deep_view() == decimal_of(
                decimal_quotient(self@.mantissa, self@.scale, other@.mantissa, other@.scale),
            ),
            self@.scale == 0 && other@ == one() ==> r.deep_view() == Some(self@),
    {
        let a = rust_decimal::Decimal::from_i128_with_scale(self.mantissa, self.scale);
        let b = rust_decimal::Decimal::from_i128_with_scale(other.mantissa, other.scale);
        match a.checked_div(b) {
            Some(q) => Some(Decimal { mantissa: q.mantissa(), scale: q.scale() }),
            None => None,
        }
    }

    /// Calls `rust_decimal::Decimal::checked_mul`. The contract names the
    /// product and claims of it that it depends on the two numbers alone,
    /// and that a whole number times one is that number.
    #[verifier::external_body]
    pub(crate) fn checked_mul(&self, other: &Decimal) -> (r: Option<Decimal>)
        ensures
            r.deep_view() == decimal_of(
                decimal_product(self@.mantissa, self@.scale, other@.mantissa, other@.scale),
            ),
            self@.scale == 0 && other@ == one() ==> r.deep_view() == Some(self@),
    {
        let a = rust_decimal::Decimal::from_i128_with_scale(self.mantissa, self.scale);
        let b = rust_decimal::Decimal::from_i128_with_scale(other.mantissa, other.scale);
        match a.checked_mul(b) {
            Some(p) => Some(Decimal { mantissa: p.mantissa(), scale: p.scale() }),
            None => None,
        }
    }

    /// Calls `rust_decimal::Decimal::round`. The contract claims that the
    /// result is the nearest whole number, with halves going to the even
    /// neighbour.
    #[verifier::external_body]
    pub(crate) fn round(&self) -> (r: Decimal)
        ensures
            r@ == round_half_even(self@),
    {
        let d = rust_decimal::Decimal::from_i128_with_scale(self.mantissa, self.scale).round();
        Decimal { mantissa: d.mantissa(), scale: d.scale() }
    }

    /// Calls `ToPrimitive::to_i64` of `rust_decimal::Decimal`. The contract
    /// claims that the result is the whole part of the number, and none
    /// where that does not fit.
    #[verifier::external_body]
    pub(crate) fn to_i64(&self) -> (r: Option<i64>)
        ensures
            r == whole_i64(self@),
    {
        let d = rust_decimal::Decimal::from_i128_with_scale(self.mantissa, self.scale);
        rust_decimal::prelude::ToPrimitive::to_i64(&d)
    }
}

} // verus!
