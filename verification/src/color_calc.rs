use num::rational::Ratio;
use vstd::prelude::*;

verus! {

/// A color of 8 bits a channel.
#[derive(Debug, Clone, Copy, PartialEq, Eq, Structural)]
pub struct SimpleColor {
    pub red: u8,
    pub green: u8,
    pub blue: u8,
}

/// A ratio of two `u32`, as its numerator and its denominator. The ratios
/// themselves are computed by num's `Ratio<u32>`; a `Fraction` carries one
/// from call to call, going in through `Ratio::new_raw` and coming out
/// through `numer` and `denom`, which change nothing.
#[derive(Debug, Clone, Copy, PartialEq, Eq, Structural)]
pub struct Fraction {
    pub numer: u32,
    pub denom: u32,
}

impl Fraction {
    /// The fraction's value is `numer / denom`, compared without dividing.
    pub open spec fn is_value(self, numer: int, denom: int) -> bool {
        self.numer * denom == numer * self.denom
    }

    /// The denominator is positive and shares no divisor above 1 with the
    /// numerator.
    pub open spec fn lowest_terms(self) -> bool {
        &&& self.denom >= 1
        &&& forall|k: int|
            k > 1 ==> !(#[trigger] (self.numer as int % k) == 0 && self.denom as int % k == 0)
    }
}

/// `Ratio::new` of num-rational: the ratio `numer / denom` brought to
/// lowest terms, so of the same value, with a positive denominator, and
/// with numerator and denominator no larger than those given. It panics on
/// a zero denominator, which `requires` leaves out.
#[verifier::external_body]
fn ratio_new(numer: u32, denom: u32) -> (r: Fraction)
    requires
        denom != 0,
    ensures
        r.is_value(numer as int, denom as int),
        r.lowest_terms(),
        r.numer <= numer,
        r.denom <= denom,
{
    let r = Ratio::new(numer, denom);
    Fraction { numer: *r.numer(), denom: *r.denom() }
}

/// `Ratio::from_integer` of num-rational: the integer over the
/// denominator 1.
#[verifier::external_body]
fn ratio_from_integer(t: u32) -> (r: Fraction)
    ensures
        r == (Fraction { numer: t, denom: 1 }),
{
    let r = Ratio::from_integer(t);
    Fraction { numer: *r.numer(), denom: *r.denom() }
}

/// `Ratio * Ratio` of num-rational (`Mul::mul`): the product, in lowest
/// terms. It multiplies numerators and denominators after dividing their
/// common factors out, so it neither overflows nor divides by zero where
/// both denominators are not zero and the two plain products fit a `u32`;
/// the result is no larger than those products.
#[verifier::external_body]
fn ratio_mul(a: Fraction, b: Fraction) -> (r: Fraction)
    requires
        a.denom != 0,
        b.denom != 0,
        a.numer * b.numer <= u32::MAX,
        a.denom * b.denom <= u32::MAX,
    ensures
        r.is_value(a.numer * b.numer, a.denom * b.denom),
        r.lowest_terms(),
        r.numer <= a.numer * b.numer,
        r.denom <= a.denom * b.denom,
{
    let r = Ratio::new_raw(a.numer, a.denom) * Ratio::new_raw(b.numer, b.denom);
    Fraction { numer: *r.numer(), denom: *r.denom() }
}

/// `Ratio + Ratio` of num-rational (`Add::add`): the sum, in lowest terms.
/// It brings both to their least common denominator, so it neither
/// overflows nor divides by zero where both denominators are not zero and
/// the product of the denominators and the sum of the cross products fit a
/// `u32`; the result is no larger than those.
#[verifier::external_body]
fn ratio_add(a: Fraction, b: Fraction) -> (r: Fraction)
    requires
        a.denom != 0,
        b.denom != 0,
        a.numer * b.denom + b.numer * a.denom <= u32::MAX,
        a.denom * b.denom <= u32::MAX,
    ensures
        r.is_value(a.numer * b.denom + b.numer * a.denom, a.denom * b.denom),
        r.lowest_terms(),
        r.numer <= a.numer * b.denom + b.numer * a.denom,
        r.denom <= a.denom * b.denom,
{
    let r = Ratio::new_raw(a.numer, a.denom) + Ratio::new_raw(b.numer, b.denom);
    Fraction { numer: *r.numer(), denom: *r.denom() }
}

/// `Ratio::to_integer` of num-rational: the ratio rounded towards zero,
/// which for a `u32` is the numerator divided by the denominator. It
/// divides by the denominator, which `requires` keeps from being zero.
#[verifier::external_body]
fn ratio_to_integer(r: Fraction) -> (t: u32)
    requires
        r.denom != 0,
    ensures
        t == r.numer / r.denom,
{
    Ratio::new_raw(r.numer, r.denom).to_integer()
}

/// The channel at `val` 255ths of the way from `start` to `end`, rounded
/// down.
pub open spec fn interpolated(start: u8, end: u8, val: u8) -> int {
    ((255 - val) * start + val * end) / 255
}

/// Two ratios of equal value have equal whole parts.
pub proof fn lemma_equal_ratios_equal_quotients(a: int, b: int, c: int, d: int)
    requires
        a >= 0,
        c >= 0,
        b > 0,
        d > 0,
        a * d == c * b,
    ensures
        a / b == c / d,
{
    let q = a / b;
    let r = a % b;
    vstd::arithmetic::div_mod::lemma_fundamental_div_mod(a, b);
    assert(a == b * q + r);
    assert(0 <= r < b);
    assert(c * b == (q * d) * b + r * d) by (nonlinear_arith)
        requires
            a * d == c * b,
            a == b * q + r,
    ;
    assert(q * d <= c) by (nonlinear_arith)
        requires
            c * b == (q * d) * b + r * d,
            r >= 0,
            d > 0,
            b > 0,
    ;
    assert(c < q * d + d) by (nonlinear_arith)
        requires
            c * b == (q * d) * b + r * d,
            r < b,
            d > 0,
            b > 0,
    ;
    vstd::arithmetic::div_mod::lemma_fundamental_div_mod_converse(c, d, q, c - q * d);
}

/// A ratio of the value `weight / 255`, times `channel`, has the value
/// `weight * channel / 255`.
proof fn lemma_weighted(w: Fraction, p: Fraction, weight: int, channel: int)
    requires
        w.denom >= 1,
        w.is_value(weight, 255),
        p.is_value(w.numer * channel, w.denom * 1),
    ensures
        p.is_value(weight * channel, 255),
{
    let wn = w.numer as int;
    let wd = w.denom as int;
    let pn = p.numer as int;
    let pd = p.denom as int;
    assert((pn * 255) * wd == (weight * channel * pd) * wd) by (nonlinear_arith)
        requires
            wn * 255 == weight * wd,
            pn * (wd * 1) == (wn * channel) * pd,
    ;
    vstd::arithmetic::mul::lemma_mul_equality_converse(wd, pn * 255, weight * channel * pd);
}

/// The color between `start` and `end` that lies `val` 255ths of the way:
/// a weighted mean in exact ratios, rounded down at the end.
pub fn lin_interp(start: u8, end: u8, val: u8) -> (mixed: u8)
    ensures
        mixed == interpolated(start, end, val),
{
    let rest: u32 = 255 - (val as u32);
    let from_start = ratio_new(rest, 255);
    let start_channel = ratio_from_integer(start as u32);
    assert(from_start.numer * start_channel.numer <= 255 * 255) by (nonlinear_arith)
        requires
            from_start.numer <= 255,
            start_channel.numer <= 255,
    ;
    let start_weight = ratio_mul(from_start, start_channel);
    let from_end = ratio_new(val as u32, 255);
    let end_channel = ratio_from_integer(end as u32);
    assert(from_end.numer * end_channel.numer <= 255 * 255) by (nonlinear_arith)
        requires
            from_end.numer <= 255,
            end_channel.numer <= 255,
    ;
    let end_weight = ratio_mul(from_end, end_channel);
    assert(start_weight.numer * end_weight.denom <= 65025 * 255 && end_weight.numer
        * start_weight.denom <= 65025 * 255 && start_weight.denom * end_weight.denom <= 255 * 255)
        by (nonlinear_arith)
        requires
            start_weight.numer <= 65025,
            end_weight.numer <= 65025,
            1 <= start_weight.denom <= 255,
            1 <= end_weight.denom <= 255,
    ;
    let sum = ratio_add(start_weight, end_weight);
    let whole = ratio_to_integer(sum);
    proof {
        let x = (255 - val) * start;
        let y = val * end;
        lemma_weighted(from_start, start_weight, 255 - val, start as int);
        lemma_weighted(from_end, end_weight, val as int, end as int);
        let pn = start_weight.numer as int;
        let pd = start_weight.denom as int;
        let qn = end_weight.numer as int;
        let qd = end_weight.denom as int;
        let rn = sum.numer as int;
        let rd = sum.denom as int;
        assert((rn * 255) * (pd * qd) == ((x + y) * rd) * (pd * qd)) by (nonlinear_arith)
            requires
                pn * 255 == x * pd,
                qn * 255 == y * qd,
                rn * (pd * qd) == (pn * qd + qn * pd) * rd,
        ;
        assert(pd * qd > 0) by (nonlinear_arith)
            requires
                pd >= 1,
                qd >= 1,
        ;
        vstd::arithmetic::mul::lemma_mul_equality_converse(pd * qd, rn * 255, (x + y) * rd);
        assert(0 <= x + y <= 255 * 255) by (nonlinear_arith)
            requires
                x == (255 - val) * start,
                y == val * end,
                0 <= val <= 255,
                0 <= start <= 255,
                0 <= end <= 255,
        ;
        lemma_equal_ratios_equal_quotients(rn, rd, x + y, 255);
        assert((x + y) / 255 <= 255);
    }
    whole as u8
}

/// The pixel between two colors, opaque: each channel is interpolated by
/// itself.
pub fn pixel_color(start: SimpleColor, end: SimpleColor, value: u8) -> (pixel: [u8; 4])
    ensures
        pixel@ == seq![
            interpolated(start.red, end.red, value) as u8,
            interpolated(start.green, end.green, value) as u8,
            interpolated(start.blue, end.blue, value) as u8,
            255u8,
        ],
{
    let pixel = [
        lin_interp(start.red, end.red, value),
        lin_interp(start.green, end.green, value),
        lin_interp(start.blue, end.blue, value),
        255,
    ];
    proof {
        assert(pixel@ =~= seq![
            interpolated(start.red, end.red, value) as u8,
            interpolated(start.green, end.green, value) as u8,
            interpolated(start.blue, end.blue, value) as u8,
            255u8,
        ]);
    }
    pixel
}

/// The pixel on the way from yellow, at 0, to blue, at 255.
pub fn yellow_to_blue(value: u8) -> (pixel: [u8; 4])
    ensures
        pixel@ == seq![(255 - value) as u8, (255 - value) as u8, value, 255u8],
{
    let pixel = pixel_color(
        SimpleColor { red: 255, green: 255, blue: 0 },
        SimpleColor { red: 0, green: 0, blue: 255 },
        value,
    );
    proof {
        assert(interpolated(255, 0, value) == 255 - value) by (nonlinear_arith);
        assert(interpolated(0, 255, value) == value as int) by (nonlinear_arith);
    }
    pixel
}

/// The share of 255 that `divergence` has of `iterations`, cut to 8 bits.
pub open spec fn divergence_value(divergence: u32, iterations: u32) -> u8 {
    ((divergence * 255 / iterations as int) % 256) as u8
}

/// The pixel of a point: black where the point did not diverge ("Ok"),
/// else on the way from yellow to blue by the iteration at which it did.
pub fn gen_pixel(m_divergence: Result<(), u32>, iterations: u32) -> (pixel: [u8; 4])
    requires
        m_divergence is Err ==> iterations > 0,
    ensures
        pixel@ == match m_divergence {
            Ok(_) => seq![0u8, 0u8, 0u8, 255u8],
            Err(divergence) => seq![
                (255 - divergence_value(divergence, iterations)) as u8,
                (255 - divergence_value(divergence, iterations)) as u8,
                divergence_value(divergence, iterations),
                255u8,
            ],
        },
{
    match m_divergence {
        Ok(()) => {
            let pixel: [u8; 4] = [0, 0, 0, 255];
            proof {
                assert(pixel@ =~= seq![0u8, 0u8, 0u8, 255u8]);
            }
            pixel
        },
        Err(divergence) => {
            let share: u64 = (divergence as u64 * 255) / (iterations as u64);
            let div_u8 = (share % 256) as u8;
            yellow_to_blue(div_u8)
        },
    }
}

} // verus!
