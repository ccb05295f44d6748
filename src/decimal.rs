//! Decimal numbers as `rust_decimal` reads, computes and writes them.
//!
//! A decimal is held as its parts: a mantissa of at most 96 bits and a scale
//! (the count of digits after the point, at most 28). Everything that only
//! `rust_decimal` can compute is reached through the trusted items below; its
//! results are named by spec functions without a body.

use vstd::prelude::*;
use rust_decimal::Decimal;
use std::str::FromStr;

verus! {

#[verifier::external_type_specification]
#[verifier::external_body]
pub struct ExDecimalError(rust_decimal::Error);

/// Largest mantissa magnitude of a decimal: 2^96 - 1.
pub const MAX_MANTISSA: i128 = 0xFFFF_FFFF_FFFF_FFFF_FFFF_FFFF;

/// Largest scale of a decimal.
pub const MAX_SCALE: u32 = 28;

/// A decimal number `mantissa * 10^-scale`.
#[derive(Clone, Copy, Debug, PartialEq, Eq, Structural)]
pub struct DecimalValue {
    pub mantissa: i128,
    pub scale: u32,
}

impl DecimalValue {
    pub open spec fn wf(self) -> bool {
        -MAX_MANTISSA <= self.mantissa <= MAX_MANTISSA && self.scale <= MAX_SCALE
    }

    pub open spec fn parts(self) -> (int, int) {
        (self.mantissa as int, self.scale as int)
    }

    pub open spec fn is_zero_spec(self) -> bool {
        self.mantissa == 0
    }

    /// Zero, with scale 0.
    pub fn zero() -> (r: DecimalValue)
        ensures
            r.mantissa == 0,
            r.scale == 0,
            r.wf(),
    {
        DecimalValue { mantissa: 0, scale: 0 }
    }

    pub fn is_zero(&self) -> (r: bool)
        ensures
            r == self.is_zero_spec(),
    {
        self.mantissa == 0
    }
}

/// The parts (mantissa, scale) that `Decimal::from_str` reads in a text, or
/// `None` where it refuses the text.
pub uninterp spec fn decimal_from_text(s: Seq<char>) -> Option<(int, int)>;

/// The parts of `a + b` as `Decimal::checked_add` computes them, or `None`.
pub uninterp spec fn decimal_sum(a: (int, int), b: (int, int)) -> Option<(int, int)>;

/// The parts of `a - b` as `Decimal::checked_sub` computes them, or `None`.
pub uninterp spec fn decimal_difference(a: (int, int), b: (int, int)) -> Option<(int, int)>;

/// The parts of `a * b` as `Decimal::checked_mul` computes them, or `None`.
pub uninterp spec fn decimal_product(a: (int, int), b: (int, int)) -> Option<(int, int)>;

/// The parts of `a / b` as `Decimal::checked_div` computes them, or `None`.
pub uninterp spec fn decimal_quotient(a: (int, int), b: (int, int)) -> Option<(int, int)>;

/// The text that `Decimal`'s `Display` writes for the parts.
pub uninterp spec fn decimal_text(p: (int, int)) -> Seq<char>;

/// Parts of a value as `Decimal::mantissa` and `Decimal::scale` give them.
pub open spec fn parts_fit(r: Option<DecimalValue>, named: Option<(int, int)>) -> bool {
    match r {
        Some(v) => v.wf() && named == Some(v.parts()),
        None => named is None,
    }
}

/// Relies on `Decimal::from_str` (read back through `Decimal::mantissa` and
/// `Decimal::scale`): whether a text is a decimal, and which one.
#[verifier::external_body]
pub(crate) fn decimal_parse(s: &str) -> (r: Result<DecimalValue, rust_decimal::Error>)
    ensures
        match r {
            Ok(v) => v.wf() && decimal_from_text(s@) == Some(v.parts()),
            Err(_) => decimal_from_text(s@) is None,
        },
{
    match Decimal::from_str(s) {
        Ok(d) => Ok(DecimalValue { mantissa: d.mantissa(), scale: d.scale() }),
        Err(e) => Err(e),
    }
}

/// Relies on `Decimal::checked_add`: the sum, or `None` where it overflows.
#[verifier::external_body]
pub(crate) fn decimal_add(a: DecimalValue, b: DecimalValue) -> (r: Option<DecimalValue>)
    requires
        a.wf(),
        b.wf(),
    ensures
        parts_fit(r, decimal_sum(a.parts(), b.parts())),
{
    let x = Decimal::from_i128_with_scale(a.mantissa, a.scale);
    let y = Decimal::from_i128_with_scale(b.mantissa, b.scale);
    x.checked_add(y).map(|d| DecimalValue { mantissa: d.mantissa(), scale: d.scale() })
}

/// Relies on `Decimal::checked_sub`: the difference, or `None` where it
/// overflows.
#[verifier::external_body]
pub(crate) fn decimal_sub(a: DecimalValue, b: DecimalValue) -> (r: Option<DecimalValue>)
    requires
        a.wf(),
        b.wf(),
    ensures
        parts_fit(r, decimal_difference(a.parts(), b.parts())),
{
    let x = Decimal::from_i128_with_scale(a.mantissa, a.scale);
    let y = Decimal::from_i128_with_scale(b.mantissa, b.scale);
    x.checked_sub(y).map(|d| DecimalValue { mantissa: d.mantissa(), scale: d.scale() })
}

/// Relies on `Decimal::checked_mul`: the product, or `None` where it
/// overflows.
#[verifier::external_body]
pub(crate) fn decimal_mul(a: DecimalValue, b: DecimalValue) -> (r: Option<DecimalValue>)
    requires
        a.wf(),
        b.wf(),
    ensures
        parts_fit(r, decimal_product(a.parts(), b.parts())),
{
    let x = Decimal::from_i128_with_scale(a.mantissa, a.scale);
    let y = Decimal::from_i128_with_scale(b.mantissa, b.scale);
    x.checked_mul(y).map(|d| DecimalValue { mantissa: d.mantissa(), scale: d.scale() })
}

/// Relies on `Decimal::checked_div`: the quotient rounded to the precision of
/// a decimal, or `None` where the divisor is zero or the result overflows.
#[verifier::external_body]
pub(crate) fn decimal_div(a: DecimalValue, b: DecimalValue) -> (r: Option<DecimalValue>)
    requires
        a.wf(),
        b.wf(),
    ensures
        parts_fit(r, decimal_quotient(a.parts(), b.parts())),
        b.mantissa == 0 ==> r is None,
{
    let x = Decimal::from_i128_with_scale(a.mantissa, a.scale);
    let y = Decimal::from_i128_with_scale(b.mantissa, b.scale);
    x.checked_div(y).map(|d| DecimalValue { mantissa: d.mantissa(), scale: d.scale() })
}

/// Relies on `Decimal`'s `Display`: the text of a value.
#[verifier::external_body]
pub(crate) fn decimal_to_string(a: DecimalValue) -> (r: String)
    requires
        a.wf(),
    ensures
        r@ == decimal_text(a.parts()),
{
    Decimal::from_i128_with_scale(a.mantissa, a.scale).to_string()
}

/// Relies on `String::push`: the character is appended.
#[verifier::external_body]
pub(crate) fn push_char(s: &mut String, c: char)
    ensures
        final(s)@ == old(s)@.push(c),
{
    s.push(c)
}

/// Relies on `String::pop`: the last character is removed.
#[verifier::external_body]
pub(crate) fn pop_char(s: &mut String)
    ensures
        old(s)@.len() > 0 ==> final(s)@ == old(s)@.drop_last(),
        old(s)@.len() == 0 ==> final(s)@ == old(s)@,
{
    s.pop();
}

/// The text with every comma read as a decimal point.
pub open spec fn with_point_separator(s: Seq<char>) -> Seq<char> {
    s.map_values(|c: char| if c == ',' { '.' } else { c })
}

/// What `parse_decimal` returns for a text.
pub open spec fn parse_decimal_spec(s: Seq<char>) -> Option<(int, int)> {
    decimal_from_text(with_point_separator(s))
}

/// The error of `parse_decimal`: the text is no decimal number.
#[derive(Clone, Copy, Debug, PartialEq, Eq, Structural)]
pub enum ParseError {
    Invalid,
}

/// Copies a text with every `,` replaced by `.`.
pub fn normalize_separator(s: &str) -> (r: String)
    ensures
        r@ == with_point_separator(s@),
{
    let n = s.unicode_len();
    let mut r = String::new();
    let mut i: usize = 0;
    while i < n
        invariant
            n == s@.len(),
            i <= n,
            r@ == with_point_separator(s@.subrange(0, i as int)),
        decreases n - i,
    {
        let c = s.get_char(i);
        let d = if c == ',' { '.' } else { c };
        push_char(&mut r, d);
        proof {
            assert(s@.subrange(0, i + 1) == s@.subrange(0, i as int).push(c));
        }
        i = i + 1;
    }
    proof {
        assert(s@.subrange(0, n as int) == s@);
    }
    r
}

/// Reads a decimal number written with `.` or `,` as its separator.
pub fn parse_decimal(s: &str) -> (r: Result<DecimalValue, ParseError>)
    ensures
        match r {
            Ok(v) => v.wf() && parse_decimal_spec(s@) == Some(v.parts()),
            Err(_) => parse_decimal_spec(s@) is None,
        },
{
    let normalized = normalize_separator(s);
    match decimal_parse(normalized.as_str()) {
        Ok(v) => Ok(v),
        Err(_) => Err(ParseError::Invalid),
    }
}

} // verus!
