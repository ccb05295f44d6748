//! Non-negative measured quantities with four exact decimal places.

use vstd::prelude::*;
use crate::decimal::{parse_decimal, parse_decimal_spec, DecimalValue};

verus! {

/// Units in one whole (a unit is 0.0001).
pub const UNITS: u64 = 10_000;

/// Largest quantity, in units: 100 000.
pub const MAX_UNITS: u64 = 1_000_000_000;

/// Square units (0.0001 m squared) in one square meter.
pub const SQUARE_UNITS: u128 = 100_000_000;

/// `a / b` rounded up, for `a >= 0` and `b > 0`.
pub open spec fn ceil_div(a: int, b: int) -> int {
    (a + b - 1) / b
}

/// A quantity `units / 10 000`, between 0 and 100 000.
#[derive(Clone, Copy, Debug, PartialEq, Eq, Structural)]
pub struct Qty {
    pub units: u64,
}

impl Qty {
    pub open spec fn wf(self) -> bool {
        self.units <= MAX_UNITS
    }

}

/// Why a text is no quantity.
#[derive(Clone, Copy, Debug, PartialEq, Eq, Structural)]
pub enum FieldError {
    /// Empty, malformed or not a number.
    Invalid,
    /// Below zero.
    Negative,
    /// Has a nonzero digit beyond the fourth decimal place.
    TooPrecise,
    /// Above 100 000.
    TooLarge,
}

pub open spec fn pow10(n: nat) -> int
    decreases n,
{
    if n == 0 {
        1
    } else {
        10 * pow10((n - 1) as nat)
    }
}

proof fn lemma_pow10_positive(n: nat)
    ensures
        pow10(n) >= 1,
    decreases n,
{
    if n > 0 {
        lemma_pow10_positive((n - 1) as nat);
    }
}

fn pow10_exec(n: u32) -> (r: u128)
    requires
        n <= 28,
    ensures
        r == pow10(n as nat),
{
    proof {
        lemma_pow10_28();
    }
    let mut r: u128 = 1;
    let mut i: u32 = 0;
    while i < n
        invariant
            i <= n <= 28,
            r == pow10(i as nat),
            pow10(28) == 10_000_000_000_000_000_000_000_000_000,
        decreases n - i,
    {
        proof {
            lemma_pow10_monotone((i + 1) as nat, 28);
        }
        r = r * 10;
        i = i + 1;
    }
    r
}

proof fn lemma_pow10_28()
    ensures
        pow10(28) == 10_000_000_000_000_000_000_000_000_000,
{
    reveal_with_fuel(pow10, 29);
}

proof fn lemma_pow10_monotone(a: nat, b: nat)
    requires
        a <= b,
    ensures
        pow10(a) <= pow10(b),
    decreases b,
{
    if a < b {
        lemma_pow10_monotone(a, (b - 1) as nat);
        lemma_pow10_positive((b - 1) as nat);
    }
}

/// The count of units (0.0001) in `m * 10^-e`, where that is a whole
/// number.
pub open spec fn units_of(m: int, e: nat) -> Option<int> {
    if e <= 4 {
        Some(m * pow10((4 - e) as nat))
    } else if m % pow10((e - 4) as nat) == 0 {
        Some(m / pow10((e - 4) as nat))
    } else {
        None
    }
}

/// What `quantity_from_decimal` gives for a decimal's parts.
pub open spec fn quantity_from_parts(p: (int, int)) -> Result<Qty, FieldError> {
    if p.0 < 0 {
        Err(FieldError::Negative)
    } else {
        match units_of(p.0, p.1 as nat) {
            None => Err(FieldError::TooPrecise),
            Some(u) => if u <= MAX_UNITS {
                Ok(Qty { units: u as u64 })
            } else {
                Err(FieldError::TooLarge)
            },
        }
    }
}

/// What `parse_quantity` gives for a text.
pub open spec fn parse_quantity_spec(s: Seq<char>) -> Result<Qty, FieldError> {
    match parse_decimal_spec(s) {
        None => Err(FieldError::Invalid),
        Some(p) => quantity_from_parts(p),
    }
}

/// A quantity read from a text is in range.
pub proof fn lemma_parse_quantity_wf(s: Seq<char>)
    ensures
        parse_quantity_spec(s) matches Ok(q) ==> q.wf(),
{
    if let Some(p) = parse_decimal_spec(s) {
        let e = p.1 as nat;
        if p.0 >= 0 {
            if e <= 4 {
                lemma_pow10_positive((4 - e) as nat);
                assert(p.0 * pow10((4 - e) as nat) >= 0) by (nonlinear_arith)
                    requires p.0 >= 0, pow10((4 - e) as nat) >= 1;
            } else {
                lemma_pow10_positive((e - 4) as nat);
                assert(p.0 / pow10((e - 4) as nat) >= 0) by (nonlinear_arith)
                    requires p.0 >= 0, pow10((e - 4) as nat) >= 1;
            }
        }
    }
}

/// The quantity that a decimal stands for.
pub fn quantity_from_decimal(v: DecimalValue) -> (r: Result<Qty, FieldError>)
    requires
        v.wf(),
    ensures
        r == quantity_from_parts(v.parts()),
        r matches Ok(q) ==> q.wf(),
{
    if v.mantissa < 0 {
        return Err(FieldError::Negative);
    }
    let m = v.mantissa as u128;
    if v.scale <= 4 {
        let f = pow10_exec(4 - v.scale);
        proof {
            lemma_pow10_positive((4 - v.scale) as nat);
        }
        if m > (MAX_UNITS as u128) / f {
            proof {
                assert(m * f > MAX_UNITS) by (nonlinear_arith)
                    requires m > (MAX_UNITS as u128) / f, f >= 1;
            }
            Err(FieldError::TooLarge)
        } else {
            proof {
                assert(m * f <= MAX_UNITS) by (nonlinear_arith)
                    requires m <= (MAX_UNITS as u128) / f, f >= 1;
            }
            Ok(Qty { units: (m * f) as u64 })
        }
    } else {
        let d = pow10_exec(v.scale - 4);
        proof {
            lemma_pow10_positive((v.scale - 4) as nat);
        }
        if m % d != 0 {
            Err(FieldError::TooPrecise)
        } else if m / d > MAX_UNITS as u128 {
            Err(FieldError::TooLarge)
        } else {
            Ok(Qty { units: (m / d) as u64 })
        }
    }
}

/// Reads a quantity written with `.` or `,` as its decimal separator.
pub fn parse_quantity(s: &str) -> (r: Result<Qty, FieldError>)
    ensures
        r == parse_quantity_spec(s@),
        r matches Ok(q) ==> q.wf(),
{
    match parse_decimal(s) {
        Err(_) => Err(FieldError::Invalid),
        Ok(v) => quantity_from_decimal(v),
    }
}

} // verus!
