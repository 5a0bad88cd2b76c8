use crate::decimal::{decimal, decimal_text};
use vstd::prelude::*;
use vstd::string::StringExecFns;

verus! {

/// A unit symbol with its power: nothing for the power 0, the bare symbol
/// for the power 1, else the symbol, `^` and the power.
pub open spec fn power(symbol: Seq<char>, i: int) -> Option<Seq<char>> {
    if i == 0 {
        None
    } else if i == 1 {
        Some(symbol)
    } else {
        Some(symbol + seq!['^'] + decimal(i))
    }
}

/// A unit symbol with its power, as text; nothing for the power 0.
pub fn get_unit_display(v: &str, i: i8) -> (shown: Option<String>)
    ensures
        match shown {
            Some(text) => power(v@, i as int) == Some(text@),
            None => power(v@, i as int) is None,
        },
{
    power_text(v, i as i64)
}

fn power_text(v: &str, i: i64) -> (shown: Option<String>)
    ensures
        match shown {
            Some(text) => power(v@, i as int) == Some(text@),
            None => power(v@, i as int) is None,
        },
{
    if i == 0 {
        None
    } else if i == 1 {
        Some(String::from_str(v))
    } else {
        let mut text = String::from_str(v);
        text.append("^");
        let exponent = decimal_text(i);
        text.append(exponent.as_str());
        proof {
            reveal_strlit("^");
            assert(text@ =~= v@ + seq!['^'] + decimal(i as int));
        }
        Some(text)
    }
}

/// What a power shows above the line: the symbol with its power where the
/// power is positive.
pub open spec fn above(symbol: Seq<char>, i: int) -> Seq<char> {
    if i > 0 {
        power(symbol, i).unwrap()
    } else {
        Seq::empty()
    }
}

/// What a power shows below the line: the symbol with the power's amount
/// where the power is negative.
pub open spec fn below(symbol: Seq<char>, i: int) -> Seq<char> {
    if i < 0 {
        power(symbol, -i).unwrap()
    } else {
        Seq::empty()
    }
}

/// A unit of measurement, as the powers of the seven base units in it.
#[derive(Debug, Clone, Copy, PartialEq, Eq, Structural)]
pub struct SIUnit {
    pub meter: i8,
    pub second: i8,
    pub gram: i8,
    pub ampere: i8,
    pub kelvin: i8,
    pub mole: i8,
    pub candela: i8,
}

/// Adds to `tops` or to `bottoms` what one base unit shows.
fn show_base(tops: &mut String, bottoms: &mut String, symbol: &str, i: i8)
    ensures
        final(tops)@ == old(tops)@ + above(symbol@, i as int),
        final(bottoms)@ == old(bottoms)@ + below(symbol@, i as int),
{
    let amount: i64 = if i > 0 {
        i as i64
    } else {
        -(i as i64)
    };
    match power_text(symbol, amount) {
        Some(text) => {
            if i > 0 {
                tops.append(text.as_str());
                proof {
                    assert(bottoms@ + Seq::<char>::empty() =~= bottoms@);
                }
            } else {
                bottoms.append(text.as_str());
                proof {
                    assert(tops@ + Seq::<char>::empty() =~= tops@);
                }
            }
        },
        None => {
            proof {
                assert(tops@ + Seq::<char>::empty() =~= tops@);
                assert(bottoms@ + Seq::<char>::empty() =~= bottoms@);
            }
        },
    }
}

impl SIUnit {
    /// The base units with positive powers, in the order m, s, g, a, K,
    /// mol, cd.
    pub open spec fn numerator(self) -> Seq<char> {
        above("m"@, self.meter as int) + above("s"@, self.second as int) + above(
            "g"@,
            self.gram as int,
        ) + above("a"@, self.ampere as int) + above("K"@, self.kelvin as int) + above(
            "mol"@,
            self.mole as int,
        ) + above("cd"@, self.candela as int)
    }

    /// The base units with negative powers, in the same order.
    pub open spec fn denominator(self) -> Seq<char> {
        below("m"@, self.meter as int) + below("s"@, self.second as int) + below(
            "g"@,
            self.gram as int,
        ) + below("a"@, self.ampere as int) + below("K"@, self.kelvin as int) + below(
            "mol"@,
            self.mole as int,
        ) + below("cd"@, self.candela as int)
    }

    /// The unit as text: what stands above the line, `/`, what stands
    /// below it.
    pub fn text(&self) -> (text: String)
        ensures
            text@ == self.numerator() + seq!['/'] + self.denominator(),
    {
        let mut tops = String::from_str("");
        let mut bottoms = String::from_str("");
        proof {
            reveal_strlit("");
            assert(tops@ =~= Seq::<char>::empty());
            assert(bottoms@ =~= Seq::<char>::empty());
        }
        show_base(&mut tops, &mut bottoms, "m", self.meter);
        show_base(&mut tops, &mut bottoms, "s", self.second);
        show_base(&mut tops, &mut bottoms, "g", self.gram);
        show_base(&mut tops, &mut bottoms, "a", self.ampere);
        show_base(&mut tops, &mut bottoms, "K", self.kelvin);
        show_base(&mut tops, &mut bottoms, "mol", self.mole);
        show_base(&mut tops, &mut bottoms, "cd", self.candela);
        proof {
            assert(tops@ =~= self.numerator());
            assert(bottoms@ =~= self.denominator());
        }
        tops.append("/");
        tops.append(bottoms.as_str());
        proof {
            reveal_strlit("/");
            assert(tops@ =~= self.numerator() + seq!['/'] + self.denominator());
        }
        tops
    }

    /// The powers of both units added, base unit by base unit.
    pub open spec fn times(self, other: SIUnit) -> (int, int, int, int, int, int, int) {
        (
            self.meter + other.meter,
            self.second + other.second,
            self.gram + other.gram,
            self.ampere + other.ampere,
            self.kelvin + other.kelvin,
            self.mole + other.mole,
            self.candela + other.candela,
        )
    }

    /// The powers of the other unit taken off, base unit by base unit.
    pub open spec fn over(self, other: SIUnit) -> (int, int, int, int, int, int, int) {
        (
            self.meter - other.meter,
            self.second - other.second,
            self.gram - other.gram,
            self.ampere - other.ampere,
            self.kelvin - other.kelvin,
            self.mole - other.mole,
            self.candela - other.candela,
        )
    }

    /// The powers of this unit.
    pub open spec fn powers(self) -> (int, int, int, int, int, int, int) {
        (
            self.meter as int,
            self.second as int,
            self.gram as int,
            self.ampere as int,
            self.kelvin as int,
            self.mole as int,
            self.candela as int,
        )
    }

    /// All seven powers fit an `i8`.
    pub open spec fn fits(p: (int, int, int, int, int, int, int)) -> bool {
        &&& i8::MIN <= p.0 <= i8::MAX
        &&& i8::MIN <= p.1 <= i8::MAX
        &&& i8::MIN <= p.2 <= i8::MAX
        &&& i8::MIN <= p.3 <= i8::MAX
        &&& i8::MIN <= p.4 <= i8::MAX
        &&& i8::MIN <= p.5 <= i8::MAX
        &&& i8::MIN <= p.6 <= i8::MAX
    }

    /// The unit of a product, where its powers fit.
    pub fn mul(self, rhs: SIUnit) -> (product: Option<SIUnit>)
        ensures
            match product {
                Some(unit) => unit.powers() == self.times(rhs),
                None => !Self::fits(self.times(rhs)),
            },
    {
        match (
            self.meter.checked_add(rhs.meter),
            self.second.checked_add(rhs.second),
            self.gram.checked_add(rhs.gram),
            self.ampere.checked_add(rhs.ampere),
            self.kelvin.checked_add(rhs.kelvin),
            self.mole.checked_add(rhs.mole),
            self.candela.checked_add(rhs.candela),
        ) {
            (
                Some(meter),
                Some(second),
                Some(gram),
                Some(ampere),
                Some(kelvin),
                Some(mole),
                Some(candela),
            ) => Some(SIUnit { meter, second, gram, ampere, kelvin, mole, candela }),
            _ => None,
        }
    }

    /// The unit of a quotient, where its powers fit.
    pub fn div(self, rhs: SIUnit) -> (quotient: Option<SIUnit>)
        ensures
            match quotient {
                Some(unit) => unit.powers() == self.over(rhs),
                None => !Self::fits(self.over(rhs)),
            },
    {
        match (
            self.meter.checked_sub(rhs.meter),
            self.second.checked_sub(rhs.second),
            self.gram.checked_sub(rhs.gram),
            self.ampere.checked_sub(rhs.ampere),
            self.kelvin.checked_sub(rhs.kelvin),
            self.mole.checked_sub(rhs.mole),
            self.candela.checked_sub(rhs.candela),
        ) {
            (
                Some(meter),
                Some(second),
                Some(gram),
                Some(ampere),
                Some(kelvin),
                Some(mole),
                Some(candela),
            ) => Some(SIUnit { meter, second, gram, ampere, kelvin, mole, candela }),
            _ => None,
        }
    }
}

/// The unit of a plain number.
pub fn constant() -> (unit: SIUnit)
    ensures
        unit.powers() == (0int, 0int, 0int, 0int, 0int, 0int, 0int),
{
    SIUnit { meter: 0, second: 0, gram: 0, ampere: 0, kelvin: 0, mole: 0, candela: 0 }
}

/// The meter.
pub fn meters() -> (unit: SIUnit)
    ensures
        unit.powers() == (1int, 0int, 0int, 0int, 0int, 0int, 0int),
{
    SIUnit { meter: 1, second: 0, gram: 0, ampere: 0, kelvin: 0, mole: 0, candela: 0 }
}

/// The hertz, one over the second.
pub fn hertz() -> (unit: SIUnit)
    ensures
        unit.powers() == (0int, -1int, 0int, 0int, 0int, 0int, 0int),
{
    SIUnit { meter: 0, second: -1, gram: 0, ampere: 0, kelvin: 0, mole: 0, candela: 0 }
}

/// The second.
pub fn seconds() -> (unit: SIUnit)
    ensures
        unit.powers() == (0int, 1int, 0int, 0int, 0int, 0int, 0int),
{
    SIUnit { meter: 0, second: 1, gram: 0, ampere: 0, kelvin: 0, mole: 0, candela: 0 }
}

/// The gram.
pub fn grams() -> (unit: SIUnit)
    ensures
        unit.powers() == (0int, 0int, 1int, 0int, 0int, 0int, 0int),
{
    SIUnit { meter: 0, second: 0, gram: 1, ampere: 0, kelvin: 0, mole: 0, candela: 0 }
}

/// Meters a second.
pub fn velocity() -> (unit: SIUnit)
    ensures
        unit.powers() == (1int, -1int, 0int, 0int, 0int, 0int, 0int),
{
    SIUnit { meter: 1, second: -1, gram: 0, ampere: 0, kelvin: 0, mole: 0, candela: 0 }
}

/// Meters a second squared.
pub fn acceleration() -> (unit: SIUnit)
    ensures
        unit.powers() == (1int, -2int, 0int, 0int, 0int, 0int, 0int),
{
    SIUnit { meter: 1, second: -2, gram: 0, ampere: 0, kelvin: 0, mole: 0, candela: 0 }
}

/// Dividing a unit by itself leaves a plain number, and multiplying by the
/// unit divided out gives the unit back.
pub proof fn lemma_units_cancel(a: SIUnit, b: SIUnit, quotient: SIUnit)
    requires
        quotient.powers() == a.over(b),
    ensures
        a.over(a) == (0int, 0int, 0int, 0int, 0int, 0int, 0int),
        quotient.times(b) == a.powers(),
{
}

} // verus!
