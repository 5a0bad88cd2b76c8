use crate::decimal::{decimal, decimal_text};
use crate::units::SIUnit;
use vstd::prelude::*;
use vstd::string::StringExecFns;

verus! {

/// A whole number of some unit.
#[derive(Debug, Clone, Copy, PartialEq, Eq, Structural)]
pub struct Measurement {
    pub unit: SIUnit,
    pub magnitude: i64,
}

/// A plain number.
pub fn constant(n: i64) -> (m: Measurement)
    ensures
        m.magnitude == n,
        m.unit.powers() == (0int, 0int, 0int, 0int, 0int, 0int, 0int),
{
    Measurement::new(crate::units::constant(), n)
}

/// A length in meters.
pub fn meters(n: i64) -> (m: Measurement)
    ensures
        m.magnitude == n,
        m.unit.powers() == (1int, 0int, 0int, 0int, 0int, 0int, 0int),
{
    Measurement::new(crate::units::meters(), n)
}

/// A frequency in hertz.
pub fn hertz(n: i64) -> (m: Measurement)
    ensures
        m.magnitude == n,
        m.unit.powers() == (0int, -1int, 0int, 0int, 0int, 0int, 0int),
{
    Measurement::new(crate::units::hertz(), n)
}

/// A time in seconds.
pub fn seconds(n: i64) -> (m: Measurement)
    ensures
        m.magnitude == n,
        m.unit.powers() == (0int, 1int, 0int, 0int, 0int, 0int, 0int),
{
    Measurement::new(crate::units::seconds(), n)
}

/// A mass in grams.
pub fn grams(n: i64) -> (m: Measurement)
    ensures
        m.magnitude == n,
        m.unit.powers() == (0int, 0int, 1int, 0int, 0int, 0int, 0int),
{
    Measurement::new(crate::units::grams(), n)
}

/// A velocity in meters a second.
pub fn velocity(n: i64) -> (m: Measurement)
    ensures
        m.magnitude == n,
        m.unit.powers() == (1int, -1int, 0int, 0int, 0int, 0int, 0int),
{
    Measurement::new(crate::units::velocity(), n)
}

/// An acceleration in meters a second squared.
pub fn acceleration(n: i64) -> (m: Measurement)
    ensures
        m.magnitude == n,
        m.unit.powers() == (1int, -2int, 0int, 0int, 0int, 0int, 0int),
{
    Measurement::new(crate::units::acceleration(), n)
}

impl Measurement {
    pub fn new(unit: SIUnit, n: i64) -> (m: Measurement)
        ensures
            m == (Measurement { unit, magnitude: n }),
    {
        Measurement { unit, magnitude: n }
    }

    /// The measurement as text: the number, then the unit in brackets, all
    /// in quotes.
    pub fn text(&self) -> (text: String)
        ensures
            text@ == seq!['\''] + decimal(self.magnitude as int) + seq![' ', '('] + (
            self.unit.numerator() + seq!['/'] + self.unit.denominator()) + seq![')', '\''],
    {
        let mut text = String::from_str("'");
        let number = decimal_text(self.magnitude);
        text.append(number.as_str());
        text.append(" (");
        let unit = self.unit.text();
        text.append(unit.as_str());
        text.append(")'");
        proof {
            reveal_strlit("'");
            reveal_strlit(" (");
            reveal_strlit(")'");
            assert(text@ =~= seq!['\''] + decimal(self.magnitude as int) + seq![' ', '('] + (
            self.unit.numerator() + seq!['/'] + self.unit.denominator()) + seq![')', '\'']);
        }
        text
    }

    /// The sum, for two measurements of one unit whose sum fits.
    pub fn add(self, rhs: Measurement) -> (sum: Option<Measurement>)
        ensures
            sum == if self.unit == rhs.unit && i64::MIN <= self.magnitude + rhs.magnitude
                <= i64::MAX {
                Some(
                    Measurement {
                        unit: self.unit,
                        magnitude: (self.magnitude + rhs.magnitude) as i64,
                    },
                )
            } else {
                None
            },
    {
        if self.unit == rhs.unit {
            match self.magnitude.checked_add(rhs.magnitude) {
                Some(magnitude) => Some(Measurement { unit: self.unit, magnitude }),
                None => None,
            }
        } else {
            None
        }
    }

    /// The difference, for two measurements of one unit whose difference
    /// fits.
    pub fn sub(self, rhs: Measurement) -> (difference: Option<Measurement>)
        ensures
            difference == if self.unit == rhs.unit && i64::MIN <= self.magnitude - rhs.magnitude
                <= i64::MAX {
                Some(
                    Measurement {
                        unit: self.unit,
                        magnitude: (self.magnitude - rhs.magnitude) as i64,
                    },
                )
            } else {
                None
            },
    {
        if self.unit == rhs.unit {
            match self.magnitude.checked_sub(rhs.magnitude) {
                Some(magnitude) => Some(Measurement { unit: self.unit, magnitude }),
                None => None,
            }
        } else {
            None
        }
    }

    /// The product, in the product of the units, where both fit.
    pub fn mul(self, rhs: Measurement) -> (product: Option<Measurement>)
        ensures
            match product {
                Some(m) => m.unit.powers() == self.unit.times(rhs.unit) && m.magnitude
                    == self.magnitude * rhs.magnitude,
                None => !SIUnit::fits(self.unit.times(rhs.unit)) || !(i64::MIN <= self.magnitude
                    * rhs.magnitude <= i64::MAX),
            },
    {
        match (self.unit.mul(rhs.unit), self.magnitude.checked_mul(rhs.magnitude)) {
            (Some(unit), Some(magnitude)) => Some(Measurement { unit, magnitude }),
            _ => None,
        }
    }

    /// The quotient, rounded towards zero, in the quotient of the units,
    /// where the divisor is not 0 and both fit.
    pub fn div(self, rhs: Measurement) -> (quotient: Option<Measurement>)
        ensures
            match quotient {
                Some(m) => {
                    &&& rhs.magnitude != 0
                    &&& m.unit.powers() == self.unit.over(rhs.unit)
                    &&& m.magnitude == toward_zero(self.magnitude as int, rhs.magnitude as int)
                },
                None => {
                    ||| rhs.magnitude == 0
                    ||| !SIUnit::fits(self.unit.over(rhs.unit))
                    ||| (self.magnitude == i64::MIN && rhs.magnitude == -1)
                },
            },
    {
        if rhs.magnitude == 0 || (self.magnitude == i64::MIN && rhs.magnitude == -1) {
            return None;
        }
        match self.unit.div(rhs.unit) {
            Some(unit) => {
                let magnitude = quotient_toward_zero(self.magnitude, rhs.magnitude);
                Some(Measurement { unit, magnitude })
            },
            None => None,
        }
    }
}

/// The quotient of two integers, rounded towards zero.
pub open spec fn toward_zero(a: int, b: int) -> int {
    if a >= 0 && b > 0 {
        a / b
    } else if a < 0 && b > 0 {
        -((-a) / b)
    } else if a >= 0 && b < 0 {
        -(a / (-b))
    } else {
        (-a) / (-b)
    }
}

/// Divides, rounding towards zero.
pub fn quotient_toward_zero(a: i64, b: i64) -> (q: i64)
    requires
        b != 0,
        !(a == i64::MIN && b == -1),
    ensures
        q == toward_zero(a as int, b as int),
{
    let wide_a: i128 = a as i128;
    let wide_b: i128 = b as i128;
    let wide: i128 = if wide_a >= 0 && wide_b > 0 {
        wide_a / wide_b
    } else if wide_a < 0 && wide_b > 0 {
        -((-wide_a) / wide_b)
    } else if wide_a >= 0 && wide_b < 0 {
        -(wide_a / (-wide_b))
    } else {
        (-wide_a) / (-wide_b)
    };
    proof {
        assert(i64::MIN <= toward_zero(a as int, b as int) <= i64::MAX) by (nonlinear_arith)
            requires
                b != 0,
                !(a == i64::MIN && b == -1),
                i64::MIN <= a <= i64::MAX,
                i64::MIN <= b <= i64::MAX,
        ;
    }
    wide as i64
}

} // verus!
