use parallax::measurement::{
    acceleration, constant, grams, hertz, meters, quotient_toward_zero, seconds, velocity,
    Measurement,
};
use parallax::decimal::{decimal_text, digit_text, digits_text};
use parallax::units::{get_unit_display, SIUnit};

fn unit(meter: i8, second: i8, gram: i8) -> SIUnit {
    SIUnit { meter, second, gram, ampere: 0, kelvin: 0, mole: 0, candela: 0 }
}

#[test]
fn numbers_in_decimal() {
    for (d, text) in ["0", "1", "2", "3", "4", "5", "6", "7", "8", "9"].iter().enumerate() {
        assert_eq!(digit_text(d as u64), *text);
    }
    assert_eq!(digits_text(0), "0");
    assert_eq!(digits_text(9), "9");
    assert_eq!(digits_text(10), "10");
    assert_eq!(digits_text(1234567890), "1234567890");
    assert_eq!(digits_text(u64::MAX), "18446744073709551615");
    assert_eq!(decimal_text(0), "0");
    assert_eq!(decimal_text(-1), "-1");
    assert_eq!(decimal_text(-305), "-305");
    assert_eq!(decimal_text(i64::MAX), "9223372036854775807");
    assert_eq!(decimal_text(i64::MIN), "-9223372036854775808");
}

#[test]
fn powers_of_a_unit() {
    assert_eq!(get_unit_display("m", 0), None);
    assert_eq!(get_unit_display("m", 1), Some(String::from("m")));
    assert_eq!(get_unit_display("m", 2), Some(String::from("m^2")));
    assert_eq!(get_unit_display("s", -3), Some(String::from("s^-3")));
    assert_eq!(get_unit_display("cd", 127), Some(String::from("cd^127")));
    assert_eq!(get_unit_display("mol", -128), Some(String::from("mol^-128")));
}

#[test]
fn units_as_text() {
    assert_eq!(parallax::units::constant().text(), "/");
    assert_eq!(parallax::units::meters().text(), "m/");
    assert_eq!(parallax::units::hertz().text(), "/s");
    assert_eq!(parallax::units::seconds().text(), "s/");
    assert_eq!(parallax::units::grams().text(), "g/");
    assert_eq!(parallax::units::velocity().text(), "m/s");
    assert_eq!(parallax::units::acceleration().text(), "m/s^2");
    let all = SIUnit {
        meter: 1,
        second: -1,
        gram: 2,
        ampere: -2,
        kelvin: 0,
        mole: 127,
        candela: -128,
    };
    assert_eq!(all.text(), "mg^2mol^127/sa^2cd^128");
}

#[test]
fn units_multiply_and_divide() {
    assert_eq!(
        parallax::units::velocity().div(parallax::units::seconds()),
        Some(parallax::units::acceleration())
    );
    assert_eq!(
        parallax::units::acceleration().mul(parallax::units::seconds()),
        Some(parallax::units::velocity())
    );
    assert_eq!(
        parallax::units::meters().div(parallax::units::meters()),
        Some(parallax::units::constant())
    );
    assert_eq!(unit(100, 0, 0).mul(unit(27, 0, 0)), Some(unit(127, 0, 0)));
    assert_eq!(unit(100, 0, 0).mul(unit(28, 0, 0)), None);
    assert_eq!(unit(0, -100, 0).div(unit(0, 28, 0)), Some(unit(0, -128, 0)));
    assert_eq!(unit(0, 0, -100).div(unit(0, 0, 29)), None);
}

#[test]
fn velocities_subtract() {
    let m1 = meters(5);
    let s1 = seconds(4);
    let v1 = velocity(5);
    let v2 = v1.sub(m1.div(s1).unwrap()).unwrap();
    assert_eq!(v1.text(), "'5 (m/s)'");
    assert_eq!(v2, velocity(4));
    assert_eq!(v2.text(), "'4 (m/s)'");
    let force = velocity(10).div(seconds(1)).unwrap().mul(grams(50)).unwrap();
    assert_eq!(force, Measurement { unit: unit(1, -2, 1), magnitude: 500 });
    assert_eq!(force.text(), "'500 (mg/s^2)'");
    assert_eq!(constant(-7).text(), "'-7 (/)'");
    assert_eq!(hertz(3).text(), "'3 (/s)'");
    assert_eq!(acceleration(0).text(), "'0 (m/s^2)'");
}

#[test]
fn unlike_units_do_not_add() {
    assert_eq!(meters(1).add(seconds(1)), None);
    assert_eq!(meters(1).sub(velocity(1)), None);
    assert_eq!(meters(1).add(meters(2)), Some(meters(3)));
    assert_eq!(meters(i64::MAX).add(meters(1)), None);
    assert_eq!(meters(i64::MIN).sub(meters(1)), None);
    assert_eq!(meters(i64::MIN).sub(meters(-1)), Some(meters(i64::MIN + 1)));
    assert_eq!(meters(i64::MAX).mul(meters(2)), None);
    assert_eq!(meters(3).div(seconds(0)), None);
    assert_eq!(meters(i64::MIN).div(constant(-1)), None);
    assert_eq!(meters(-7).div(constant(2)), Some(meters(-3)));
    assert_eq!(meters(7).div(constant(-2)), Some(meters(-3)));
    assert_eq!(meters(-7).div(constant(-2)), Some(meters(3)));
}

#[test]
fn quotients_round_towards_zero() {
    assert_eq!(quotient_toward_zero(7, 2), 3);
    assert_eq!(quotient_toward_zero(-7, 2), -3);
    assert_eq!(quotient_toward_zero(7, -2), -3);
    assert_eq!(quotient_toward_zero(-7, -2), 3);
    assert_eq!(quotient_toward_zero(i64::MIN, 1), i64::MIN);
    assert_eq!(quotient_toward_zero(i64::MAX, -1), -i64::MAX);
}
