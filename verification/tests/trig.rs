use pong_rs::trig::{cos_deg, sin_deg, FULL_TURN, HALF_TURN, RIGHT_ANGLE, SINE_OF_SIXTY};
use pong_rs::units::UNIT;

#[test]
fn sine_at_the_quarter_points() {
    assert_eq!(sin_deg(0), 0);
    assert_eq!(sin_deg(RIGHT_ANGLE), UNIT);
    assert_eq!(sin_deg(HALF_TURN), 0);
    assert_eq!(sin_deg(270 * UNIT), -UNIT);
    assert_eq!(sin_deg(FULL_TURN), 0);
}

#[test]
fn cosine_at_the_quarter_points() {
    assert_eq!(cos_deg(0), UNIT);
    assert_eq!(cos_deg(RIGHT_ANGLE), 0);
    assert_eq!(cos_deg(HALF_TURN), -UNIT);
    assert_eq!(cos_deg(270 * UNIT), 0);
    assert_eq!(cos_deg(FULL_TURN), UNIT);
}

#[test]
fn sine_and_cosine_of_thirty_and_sixty_degrees() {
    assert_eq!(sin_deg(30 * UNIT), 8_388_608);
    assert_eq!(cos_deg(60 * UNIT), 8_388_608);
    assert_eq!(cos_deg(-60 * UNIT), 8_388_608);
    assert_eq!(SINE_OF_SIXTY, 14_529_495);
    assert_eq!(sin_deg(60 * UNIT), 14_529_495);
    assert_eq!(sin_deg(-60 * UNIT), -14_529_495);
    assert_eq!(cos_deg(30 * UNIT), 14_529_495);
    assert_eq!(sin_deg(150 * UNIT), 8_388_608);
    assert_eq!(sin_deg(210 * UNIT), -8_388_608);
    assert_eq!(sin_deg(330 * UNIT), -8_388_608);
    assert_eq!(cos_deg(120 * UNIT), -8_388_608);
    assert_eq!(cos_deg(240 * UNIT), -8_388_608);
    assert_eq!(cos_deg(300 * UNIT), 8_388_608);
}

#[test]
fn sine_of_a_whole_degree_is_the_rounded_sine() {
    assert_eq!(sin_deg(UNIT), 292_803);
    assert_eq!(sin_deg(45 * UNIT), 11_863_283);
    assert_eq!(cos_deg(45 * UNIT), 11_863_283);
    assert_eq!(sin_deg(89 * UNIT), 16_774_661);
    assert_eq!(cos_deg(UNIT), 16_774_661);
}

#[test]
fn sine_between_whole_degrees_is_turned_from_the_nearest_degree() {
    // Half a degree below 31 degrees. The arc of half a degree is 146408 grid
    // steps, half its square takes 639 off the unit, and the tabulated sines
    // of 31 and 59 degrees are 8640905 and 14380881.
    assert_eq!((UNIT / 2 * 74_961_321) >> 32, 146_408);
    assert_eq!((146_408_i64 * 146_408 + 2 * UNIT - 1) / (2 * UNIT), 639);
    assert_eq!(sin_deg(31 * UNIT), 8_640_905);
    assert_eq!(cos_deg(31 * UNIT), 14_380_881);
    assert_eq!((8_640_905 * (UNIT - 639) - 14_380_881 * 146_408) / UNIT, 8_515_079);
    assert_eq!((14_380_881 * (UNIT - 639) + 8_640_905 * 146_408) / UNIT, 14_455_738);
    assert_eq!(sin_deg(30 * UNIT + UNIT / 2), 8_515_079);
    assert_eq!(cos_deg(30 * UNIT + UNIT / 2), 14_455_738);
    // A quarter of a degree from nothing: its arc.
    assert_eq!(sin_deg(UNIT / 4), 73_204);
    // The arc of one grid step of angle is less than one grid step.
    assert_eq!(sin_deg(1), 0);
    assert_eq!(sin_deg(-1), 0);
    assert_eq!(cos_deg(1), UNIT);
}

#[test]
fn sine_repeats_every_turn() {
    let angles = [0, 1, 12345, 30 * UNIT, 91 * UNIT + 7, 200 * UNIT, 359 * UNIT + 65535];
    for a in angles {
        assert_eq!(sin_deg(a + FULL_TURN), sin_deg(a));
        assert_eq!(sin_deg(a - FULL_TURN), sin_deg(a));
        assert_eq!(cos_deg(a + 3 * FULL_TURN), cos_deg(a));
        assert_eq!(cos_deg(a - 2 * FULL_TURN), cos_deg(a));
    }
}

#[test]
fn sine_is_odd_and_cosine_is_even() {
    let mut a: i64 = 0;
    while a <= FULL_TURN {
        assert_eq!(sin_deg(-a), -sin_deg(a));
        assert_eq!(cos_deg(-a), cos_deg(a));
        a += 999_983;
    }
}

#[test]
fn sine_and_cosine_take_any_angle() {
    assert_eq!(sin_deg(i64::MAX), sin_deg(i64::MAX % FULL_TURN));
    assert_eq!(cos_deg(i64::MAX), cos_deg(i64::MAX % FULL_TURN));
    assert_eq!(sin_deg(i64::MIN), sin_deg(i64::MIN % FULL_TURN + FULL_TURN));
    assert_eq!(cos_deg(i64::MIN), cos_deg(i64::MIN % FULL_TURN + FULL_TURN));
}

#[test]
fn sine_and_cosine_are_close_to_the_true_values() {
    let mut a: i64 = -FULL_TURN;
    while a <= 2 * FULL_TURN {
        let radians = (a as f64 / UNIT as f64).to_radians();
        let sine = sin_deg(a) as f64 / UNIT as f64;
        let cosine = cos_deg(a) as f64 / UNIT as f64;
        assert!((sine - radians.sin()).abs() < 1.0e-6, "sine at {a}");
        assert!((cosine - radians.cos()).abs() < 1.0e-6, "cosine at {a}");
        a += 400_009;
    }
}

#[test]
fn sine_and_cosine_make_a_vector_of_unit_length_to_a_hundred_thousandth() {
    let mut a: i64 = 0;
    while a <= FULL_TURN {
        let s = sin_deg(a);
        let c = cos_deg(a);
        assert!(-UNIT <= s && s <= UNIT);
        assert!(-UNIT <= c && c <= UNIT);
        let deviation = s * s + c * c - UNIT * UNIT;
        assert!(deviation.abs() <= UNIT * UNIT / 100_000, "length at {a}");
        a += 100_003;
    }
}
