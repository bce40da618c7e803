//! Sine and cosine of an angle given in degrees, on the grid.
//!
//! The sine of each whole degree of the first quadrant is tabulated, rounded to
//! the nearest grid step. An angle is taken to its nearest whole degree and
//! the tabulated sine and cosine of that degree are turned by what is left,
//! less than half a degree either way; the other quadrants follow by symmetry.
//! Turning keeps the length, so that sine and cosine always make up a vector
//! of very nearly unit length.

use vstd::prelude::*;
use crate::units::{magnitude, magnitude_spec, UNIT};

verus! {

/// A quarter of a turn, in grid steps of angle.
pub const RIGHT_ANGLE: i64 = 90 * UNIT;

/// Half a turn, in grid steps of angle.
pub const HALF_TURN: i64 = 180 * UNIT;

/// Three quarters of a turn, in grid steps of angle.
pub const THREE_QUARTER_TURN: i64 = 270 * UNIT;

/// A whole turn, in grid steps of angle.
pub const FULL_TURN: i64 = 360 * UNIT;

/// The sine of `60` degrees, in grid steps.
pub const SINE_OF_SIXTY: i64 = 14529495;

/// How far the squared length of a sine and cosine pair may lie from the
/// square of [`UNIT`]: a 100000th of it.
pub const LENGTH_TOLERANCE: i64 = 2_814_749_767;

/// The arc of one degree on the unit circle, times [`ARC_SCALE`] and rounded
/// to the nearest integer.
pub const ARC_OF_DEGREE: i64 = 74_961_321;

/// The scale of [`ARC_OF_DEGREE`].
pub const ARC_SCALE: i64 = 4_294_967_296;

/// The sine of `d` whole degrees, `0 <= d <= 90`, times [`UNIT`] and rounded to
/// the nearest integer. Below the quadrant it is `0`, above it [`UNIT`].
#[verifier::opaque]
pub open spec fn sine_of_degree(d: int) -> int {
    if d <= 0 {
        0
    } else if d == 1 {
        292803
    } else if d == 2 {
        585516
    } else if d == 3 {
        878052
    } else if d == 4 {
        1170319
    } else if d == 5 {
        1462231
    } else if d == 6 {
        1753697
    } else if d == 7 {
        2044628
    } else if d == 8 {
        2334937
    } else if d == 9 {
        2624535
    } else if d == 10 {
        2913333
    } else if d == 11 {
        3201244
    } else if d == 12 {
        3488179
    } else if d == 13 {
        3774052
    } else if d == 14 {
        4058776
    } else if d == 15 {
        4342263
    } else if d == 16 {
        4624427
    } else if d == 17 {
        4905183
    } else if d == 18 {
        5184445
    } else if d == 19 {
        5462127
    } else if d == 20 {
        5738146
    } else if d == 21 {
        6012416
    } else if d == 22 {
        6284856
    } else if d == 23 {
        6555381
    } else if d == 24 {
        6823909
    } else if d == 25 {
        7090358
    } else if d == 26 {
        7354647
    } else if d == 27 {
        7616697
    } else if d == 28 {
        7876426
    } else if d == 29 {
        8133756
    } else if d == 30 {
        8388608
    } else if d == 31 {
        8640905
    } else if d == 32 {
        8890570
    } else if d == 33 {
        9137527
    } else if d == 34 {
        9381700
    } else if d == 35 {
        9623016
    } else if d == 36 {
        9861400
    } else if d == 37 {
        10096781
    } else if d == 38 {
        10329086
    } else if d == 39 {
        10558244
    } else if d == 40 {
        10784187
    } else if d == 41 {
        11006844
    } else if d == 42 {
        11226149
    } else if d == 43 {
        11442034
    } else if d == 44 {
        11654434
    } else if d == 45 {
        11863283
    } else if d == 46 {
        12068519
    } else if d == 47 {
        12270079
    } else if d == 48 {
        12467901
    } else if d == 49 {
        12661926
    } else if d == 50 {
        12852093
    } else if d == 51 {
        13038346
    } else if d == 52 {
        13220627
    } else if d == 53 {
        13398880
    } else if d == 54 {
        13573053
    } else if d == 55 {
        13743091
    } else if d == 56 {
        13908942
    } else if d == 57 {
        14070557
    } else if d == 58 {
        14227886
    } else if d == 59 {
        14380881
    } else if d == 60 {
        14529495
    } else if d == 61 {
        14673684
    } else if d == 62 {
        14813402
    } else if d == 63 {
        14948609
    } else if d == 64 {
        15079262
    } else if d == 65 {
        15205322
    } else if d == 66 {
        15326749
    } else if d == 67 {
        15443509
    } else if d == 68 {
        15555564
    } else if d == 69 {
        15662880
    } else if d == 70 {
        15765426
    } else if d == 71 {
        15863169
    } else if d == 72 {
        15956081
    } else if d == 73 {
        16044131
    } else if d == 74 {
        16127295
    } else if d == 75 {
        16205546
    } else if d == 76 {
        16278861
    } else if d == 77 {
        16347217
    } else if d == 78 {
        16410594
    } else if d == 79 {
        16468971
    } else if d == 80 {
        16522332
    } else if d == 81 {
        16570661
    } else if d == 82 {
        16613941
    } else if d == 83 {
        16652161
    } else if d == 84 {
        16685309
    } else if d == 85 {
        16713374
    } else if d == 86 {
        16736348
    } else if d == 87 {
        16754223
    } else if d == 88 {
        16766996
    } else if d == 89 {
        16774661
    } else {
        16777216
    }
}

/// The length, in grid steps, of the arc of `part` grid steps of a degree on
/// the unit circle, rounded down; `part` is not negative.
pub open spec fn arc(part: int) -> int {
    part * ARC_OF_DEGREE / (ARC_SCALE as int)
}

/// The sine of a small angle of `part` grid steps of a degree, either way:
/// its arc, with its sign.
pub open spec fn small_sine(part: int) -> int {
    if part >= 0 {
        arc(part)
    } else {
        -arc(-part)
    }
}

/// The cosine of a small angle of `part` grid steps of a degree: the unit less
/// half the square of its arc, rounded down.
pub open spec fn small_cosine(part: int) -> int {
    UNIT - (small_sine(part) * small_sine(part) + 2 * UNIT - 1) / (2 * UNIT)
}

/// The whole degree nearest to the angle `q`; halves go up.
pub open spec fn nearest_degree(q: int) -> int {
    (q + UNIT / 2) / (UNIT as int)
}

/// The tabulated sine and cosine of the whole degree nearest to `q`, turned
/// by what `q` is off that degree: the sine that comes of it, times [`UNIT`].
pub open spec fn turned_sine(q: int) -> int {
    let degree = nearest_degree(q);
    let part = q - degree * UNIT;
    sine_of_degree(degree) * small_cosine(part) + sine_of_degree(90 - degree) * small_sine(part)
}

/// The tabulated sine and cosine of the whole degree nearest to `q`, turned
/// by what `q` is off that degree: the cosine that comes of it, times
/// [`UNIT`].
pub open spec fn turned_cosine(q: int) -> int {
    let degree = nearest_degree(q);
    let part = q - degree * UNIT;
    sine_of_degree(90 - degree) * small_cosine(part) - sine_of_degree(degree) * small_sine(part)
}

/// The sine of an angle `q` of the first quadrant, `0 <= q <= RIGHT_ANGLE`,
/// rounded down.
pub open spec fn quarter_sine(q: int) -> int {
    turned_sine(q) / (UNIT as int)
}

/// The cosine of an angle `q` of the first quadrant, `0 <= q <= RIGHT_ANGLE`,
/// rounded down.
pub open spec fn quarter_cosine(q: int) -> int {
    turned_cosine(q) / (UNIT as int)
}

/// The angle within the turn that has the sine of `angle`, up to the sign,
/// and its cosine: the magnitude of `angle` less its whole turns.
pub open spec fn reduced(angle: int) -> int {
    magnitude_spec(angle) % (FULL_TURN as int)
}

/// The sine of `angle`, in grid steps: `UNIT` stands for `1`.
#[verifier::opaque]
pub open spec fn sine(angle: int) -> int {
    let turned = reduced(angle);
    let q = turned % (RIGHT_ANGLE as int);
    let value = if turned < RIGHT_ANGLE {
        quarter_sine(q)
    } else if turned < HALF_TURN {
        quarter_cosine(q)
    } else if turned < THREE_QUARTER_TURN {
        -quarter_sine(q)
    } else {
        -quarter_cosine(q)
    };
    if angle < 0 {
        -value
    } else {
        value
    }
}

/// The cosine of `angle`, in grid steps: `UNIT` stands for `1`.
#[verifier::opaque]
pub open spec fn cosine(angle: int) -> int {
    let turned = reduced(angle);
    let q = turned % (RIGHT_ANGLE as int);
    if turned < RIGHT_ANGLE {
        quarter_cosine(q)
    } else if turned < HALF_TURN {
        -quarter_sine(q)
    } else if turned < THREE_QUARTER_TURN {
        -quarter_cosine(q)
    } else {
        quarter_sine(q)
    }
}

/// The squared length of the vector that the sine and the cosine of an angle
/// make up.
pub open spec fn squared_length(angle: int) -> int {
    sine(angle) * sine(angle) + cosine(angle) * cosine(angle)
}

/// Looks up the sine of a whole degree of the first quadrant.
fn sine_table(degree: i64) -> (r: i64)
    requires
        0 <= degree <= 90,
    ensures
        r == sine_of_degree(degree as int),
{
    reveal(sine_of_degree);
    match degree {
        0 => 0,
        1 => 292803,
        2 => 585516,
        3 => 878052,
        4 => 1170319,
        5 => 1462231,
        6 => 1753697,
        7 => 2044628,
        8 => 2334937,
        9 => 2624535,
        10 => 2913333,
        11 => 3201244,
        12 => 3488179,
        13 => 3774052,
        14 => 4058776,
        15 => 4342263,
        16 => 4624427,
        17 => 4905183,
        18 => 5184445,
        19 => 5462127,
        20 => 5738146,
        21 => 6012416,
        22 => 6284856,
        23 => 6555381,
        24 => 6823909,
        25 => 7090358,
        26 => 7354647,
        27 => 7616697,
        28 => 7876426,
        29 => 8133756,
        30 => 8388608,
        31 => 8640905,
        32 => 8890570,
        33 => 9137527,
        34 => 9381700,
        35 => 9623016,
        36 => 9861400,
        37 => 10096781,
        38 => 10329086,
        39 => 10558244,
        40 => 10784187,
        41 => 11006844,
        42 => 11226149,
        43 => 11442034,
        44 => 11654434,
        45 => 11863283,
        46 => 12068519,
        47 => 12270079,
        48 => 12467901,
        49 => 12661926,
        50 => 12852093,
        51 => 13038346,
        52 => 13220627,
        53 => 13398880,
        54 => 13573053,
        55 => 13743091,
        56 => 13908942,
        57 => 14070557,
        58 => 14227886,
        59 => 14380881,
        60 => 14529495,
        61 => 14673684,
        62 => 14813402,
        63 => 14948609,
        64 => 15079262,
        65 => 15205322,
        66 => 15326749,
        67 => 15443509,
        68 => 15555564,
        69 => 15662880,
        70 => 15765426,
        71 => 15863169,
        72 => 15956081,
        73 => 16044131,
        74 => 16127295,
        75 => 16205546,
        76 => 16278861,
        77 => 16347217,
        78 => 16410594,
        79 => 16468971,
        80 => 16522332,
        81 => 16570661,
        82 => 16613941,
        83 => 16652161,
        84 => 16685309,
        85 => 16713374,
        86 => 16736348,
        87 => 16754223,
        88 => 16766996,
        89 => 16774661,
        _ => 16777216,
    }
}

/// What the table holds: values from nothing to the unit, from the first
/// degree on at least the sine of one degree, and with the value of the
/// complement a vector of very nearly unit length.
proof fn lemma_table(d: int)
    requires
        0 <= d <= 90,
    ensures
        0 <= sine_of_degree(d) <= UNIT,
        d == 0 ==> sine_of_degree(d) == 0,
        d == 90 ==> sine_of_degree(d) == UNIT,
        d >= 1 ==> sine_of_degree(d) >= 292803,
        -20659200 <= sine_of_degree(d) * sine_of_degree(d) + sine_of_degree(90 - d)
            * sine_of_degree(90 - d) - UNIT * UNIT <= 20659200,
{
    reveal(sine_of_degree);
}

/// The sine and cosine of a small angle, half a degree at most either way:
/// their signs and sizes, and the length of the vector that they make up.
proof fn lemma_small_pair(part: int)
    requires
        -UNIT / 2 <= part <= UNIT / 2,
    ensures
        ({
            let x = small_sine(part);
            let y = small_cosine(part);
            &&& -146408 <= x <= 146408
            &&& part >= 0 ==> x >= 0
            &&& part <= 0 ==> x <= 0
            &&& part == 0 ==> x == 0 && y == UNIT
            &&& UNIT - 639 <= y <= UNIT
            &&& UNIT * UNIT - 2 * UNIT < x * x + y * y <= UNIT * UNIT + 408321
        }),
{
    let u: int = 16777216;
    assert(UNIT == u && ARC_OF_DEGREE == 74961321 && ARC_SCALE == 4294967296);
    let x = small_sine(part);
    let y = small_cosine(part);
    assert(-146408 <= x <= 146408);
    let square = x * x;
    assert(0 <= square <= 146408 * 146408) by (nonlinear_arith)
        requires
            square == x * x,
            -146408 <= x <= 146408,
    ;
    let less = (square + 2 * u - 1) / (2 * u);
    assert(y == u - less);
    assert(0 <= less <= 639);
    assert(y * y == u * u - 2 * u * less + less * less) by (nonlinear_arith)
        requires
            y == u - less,
    ;
    assert(0 <= less * less <= 408321) by (nonlinear_arith)
        requires
            0 <= less <= 639,
    ;
    assert(part == 0 ==> square == 0) by (nonlinear_arith)
        requires
            square == x * x,
            part == 0 ==> x == 0,
    ;
}

/// Turning a vector `(s, c)` by `(x, y)` multiplies the squared lengths.
proof fn lemma_turning_keeps_length(s: int, c: int, x: int, y: int)
    ensures
        (s * y + c * x) * (s * y + c * x) + (c * y - s * x) * (c * y - s * x) == (s * s + c * c)
            * (x * x + y * y),
{
    let a = s * y;
    let b = c * x;
    let e = c * y;
    let f = s * x;
    assert((a + b) * (a + b) == a * a + 2 * (a * b) + b * b) by (nonlinear_arith);
    assert((e - f) * (e - f) == e * e - 2 * (e * f) + f * f) by (nonlinear_arith);
    assert(a * b == e * f) by (nonlinear_arith)
        requires
            a == s * y,
            b == c * x,
            e == c * y,
            f == s * x,
    ;
    assert(a * a == (s * s) * (y * y)) by (nonlinear_arith)
        requires
            a == s * y,
    ;
    assert(b * b == (c * c) * (x * x)) by (nonlinear_arith)
        requires
            b == c * x,
    ;
    assert(e * e == (c * c) * (y * y)) by (nonlinear_arith)
        requires
            e == c * y,
    ;
    assert(f * f == (s * s) * (x * x)) by (nonlinear_arith)
        requires
            f == s * x,
    ;
    let ss = s * s;
    let cc = c * c;
    let xx = x * x;
    let yy = y * y;
    assert((ss + cc) * (xx + yy) == ss * yy + cc * xx + cc * yy + ss * xx) by (nonlinear_arith);
}

/// A whole number that lies less than `gap` below `above` has a square at
/// least that of `above` less twice `above` times `gap`, and at most that of
/// `above`.
proof fn lemma_square_of_rounded(below: int, above: int, gap: int)
    requires
        0 <= below <= above < below + gap,
    ensures
        below * below >= above * above - 2 * above * gap,
        below * below <= above * above,
{
    let lost = above - below;
    assert(below * below == above * above - 2 * above * lost + lost * lost) by (nonlinear_arith)
        requires
            lost == above - below,
    ;
    assert(2 * above * lost <= 2 * above * gap) by (nonlinear_arith)
        requires
            0 <= lost < gap,
            0 <= above,
    ;
    assert(lost * lost >= 0) by (nonlinear_arith);
    assert(2 * above * lost - lost * lost >= 0) by (nonlinear_arith)
        requires
            0 <= lost <= above,
    ;
}

/// Neither the turned sine nor the turned cosine of an angle of the first
/// quadrant is negative; short of the half degree before the right angle the
/// turned cosine is at least that of `146000` grid steps.
proof fn lemma_turned_not_negative(q: int)
    requires
        0 <= q <= RIGHT_ANGLE,
    ensures
        0 <= turned_sine(q),
        0 <= turned_cosine(q),
        q <= 89 * UNIT ==> turned_cosine(q) >= 146000 * UNIT,
{
    let u: int = 16777216;
    assert(UNIT == u && RIGHT_ANGLE == 90 * u);
    let degree = nearest_degree(q);
    let part = q - degree * u;
    assert(0 <= degree <= 90 && -u / 2 <= part < u / 2);
    lemma_table(degree);
    lemma_table(90 - degree);
    lemma_small_pair(part);
    let s = sine_of_degree(degree);
    let c = sine_of_degree(90 - degree);
    let x = small_sine(part);
    let y = small_cosine(part);
    assert(s * y >= 0 && c * y >= 0) by (nonlinear_arith)
        requires
            s >= 0,
            c >= 0,
            y >= 0,
    ;
    if x >= 0 {
        assert(c * x >= 0) by (nonlinear_arith)
            requires
                c >= 0,
                x >= 0,
        ;
    } else {
        assert(degree >= 1);
        assert(s * y >= 292803 * (u - 639)) by (nonlinear_arith)
            requires
                s >= 292803,
                y >= u - 639,
                u - 639 >= 0,
        ;
        assert(c * x >= -(u * 146408)) by (nonlinear_arith)
            requires
                0 <= c <= u,
                -146408 <= x <= 0,
        ;
    }
    if x <= 0 {
        assert(s * x <= 0) by (nonlinear_arith)
            requires
                s >= 0,
                x <= 0,
        ;
        if q <= 89 * u {
            assert(degree <= 89);
            assert(c * y >= 292803 * (u - 639)) by (nonlinear_arith)
                requires
                    c >= 292803,
                    y >= u - 639,
                    u - 639 >= 0,
            ;
        }
    } else {
        assert(degree <= 89);
        assert(c * y >= 292803 * (u - 639)) by (nonlinear_arith)
            requires
                c >= 292803,
                y >= u - 639,
                u - 639 >= 0,
        ;
        assert(s * x <= u * 146408) by (nonlinear_arith)
            requires
                0 <= s <= u,
                0 <= x <= 146408,
        ;
    }
}

/// The sine and the cosine of an angle of the first quadrant lie between
/// nothing and the unit and make up a vector of very nearly unit length; at a
/// whole degree they are the tabulated values.
proof fn lemma_quarter_pair(q: int)
    requires
        0 <= q <= RIGHT_ANGLE,
    ensures
        0 <= quarter_sine(q) <= UNIT,
        0 <= quarter_cosine(q) <= UNIT,
        -LENGTH_TOLERANCE <= quarter_sine(q) * quarter_sine(q) + quarter_cosine(q)
            * quarter_cosine(q) - UNIT * UNIT <= LENGTH_TOLERANCE,
        q % (UNIT as int) == 0 ==> quarter_sine(q) == sine_of_degree(q / (UNIT as int))
            && quarter_cosine(q) == sine_of_degree(90 - q / (UNIT as int)),
        q <= 89 * UNIT ==> quarter_cosine(q) >= 146000,
{
    let u: int = 16777216;
    assert(UNIT == u && RIGHT_ANGLE == 90 * u && LENGTH_TOLERANCE == 2814749767);
    let degree = nearest_degree(q);
    let part = q - degree * u;
    assert(0 <= degree <= 90 && -u / 2 <= part < u / 2);
    lemma_table(degree);
    lemma_table(90 - degree);
    lemma_small_pair(part);
    lemma_turned_not_negative(q);
    let s = sine_of_degree(degree);
    let c = sine_of_degree(90 - degree);
    let x = small_sine(part);
    let y = small_cosine(part);
    let up = turned_sine(q);
    let across = turned_cosine(q);
    let sine = quarter_sine(q);
    let cosine = quarter_cosine(q);
    assert(sine * u <= up < sine * u + u);
    assert(cosine * u <= across < cosine * u + u);
    // The squared length before rounding.
    lemma_turning_keeps_length(s, c, x, y);
    let table = s * s + c * c;
    let turn = x * x + y * y;
    let whole = up * up + across * across;
    assert(whole == table * turn);
    assert(table * turn <= (u * u + 20659200) * (u * u + 408321)) by (nonlinear_arith)
        requires
            0 <= table <= u * u + 20659200,
            0 <= turn <= u * u + 408321,
    ;
    assert(table * turn >= (u * u - 20659200) * (u * u - 2 * u)) by (nonlinear_arith)
        requires
            table >= u * u - 20659200,
            turn >= u * u - 2 * u,
            u * u - 20659200 >= 0,
            u * u - 2 * u >= 0,
    ;
    assert(up * up >= 0 && across * across >= 0) by (nonlinear_arith);
    // Neither component times the unit exceeds the square of the unit by
    // more than a unit.
    assert(up <= u * u + u) by (nonlinear_arith)
        requires
            up * up <= (u * u + 20659200) * (u * u + 408321),
            u == 16777216,
    ;
    assert(across <= u * u + u) by (nonlinear_arith)
        requires
            across * across <= (u * u + 20659200) * (u * u + 408321),
            u == 16777216,
    ;
    // What rounding down costs.
    lemma_square_of_rounded(sine * u, up, u);
    lemma_square_of_rounded(cosine * u, across, u);
    assert((sine * u) * (sine * u) == (u * u) * (sine * sine)) by (nonlinear_arith);
    assert((cosine * u) * (cosine * u) == (u * u) * (cosine * cosine)) by (nonlinear_arith);
    let length = sine * sine + cosine * cosine;
    assert((u * u) * length <= whole);
    assert((u * u) * length >= whole - 2 * up * u - 2 * across * u);
    assert(length <= u * u + 21067521);
    assert(length >= u * u - 121322500);
    assert(sine <= u) by (nonlinear_arith)
        requires
            sine * sine <= u * u + 21067521,
            u == 16777216,
            sine >= 0,
    ;
    assert(cosine <= u) by (nonlinear_arith)
        requires
            cosine * cosine <= u * u + 21067521,
            u == 16777216,
            cosine >= 0,
    ;
    if q % u == 0 {
        assert(part == 0 && degree == q / u);
        assert(up == s * u && across == c * u) by (nonlinear_arith)
            requires
                up == s * y + c * x,
                across == c * y - s * x,
                x == 0,
                y == u,
        ;
    }
}

/// Sine and cosine of an angle of the first quadrant.
fn quarter_pair(q: i64) -> (r: (i64, i64))
    requires
        0 <= q <= RIGHT_ANGLE,
    ensures
        r.0 == quarter_sine(q as int),
        r.1 == quarter_cosine(q as int),
        0 <= r.0 <= UNIT,
        0 <= r.1 <= UNIT,
{
    let degree: i64 = (q + UNIT / 2) / UNIT;
    let part: i64 = q - degree * UNIT;
    let bow: i64 = magnitude(part) * ARC_OF_DEGREE / ARC_SCALE;
    let x: i64 = if part >= 0 {
        bow
    } else {
        -bow
    };
    proof {
        lemma_small_pair(part as int);
        assert(0 <= x * x <= 146408 * 146408) by (nonlinear_arith)
            requires
                -146408 <= x <= 146408,
        ;
    }
    let y: i64 = UNIT - (x * x + 2 * UNIT - 1) / (2 * UNIT);
    let s: i64 = sine_table(degree);
    let c: i64 = sine_table(90 - degree);
    proof {
        lemma_table(degree as int);
        lemma_table(90 - degree);
        lemma_turned_not_negative(q as int);
        lemma_quarter_pair(q as int);
        assert(0 <= s * y <= UNIT * UNIT && 0 <= c * y <= UNIT * UNIT) by (nonlinear_arith)
            requires
                0 <= s <= UNIT,
                0 <= c <= UNIT,
                0 <= y <= UNIT,
        ;
        assert(-(UNIT * 146408) <= s * x <= UNIT * 146408 && -(UNIT * 146408) <= c * x <= UNIT
            * 146408) by (nonlinear_arith)
            requires
                0 <= s <= UNIT,
                0 <= c <= UNIT,
                -146408 <= x <= 146408,
        ;
    }
    ((s * y + c * x) / UNIT, (c * y - s * x) / UNIT)
}

/// The magnitude of `angle` less its whole turns.
fn reduce(angle: i64) -> (turned: i64)
    ensures
        turned == reduced(angle as int),
        0 <= turned < FULL_TURN,
{
    let remainder: i64 = angle % FULL_TURN;
    assert(FULL_TURN == 6039797760);
    if remainder < 0 {
        -remainder
    } else {
        remainder
    }
}

/// Sine of `angle`, an angle in grid steps of a degree; the result counts
/// grid steps of a unit length.
pub fn sin_deg(angle: i64) -> (r: i64)
    ensures
        r == sine(angle as int),
        -UNIT <= r <= UNIT,
{
    reveal(sine);
    let turned: i64 = reduce(angle);
    let (up, across) = quarter_pair(turned % RIGHT_ANGLE);
    let value: i64 = if turned < RIGHT_ANGLE {
        up
    } else if turned < HALF_TURN {
        across
    } else if turned < THREE_QUARTER_TURN {
        -up
    } else {
        -across
    };
    if angle < 0 {
        -value
    } else {
        value
    }
}

/// Cosine of `angle`, an angle in grid steps of a degree; the result counts
/// grid steps of a unit length.
pub fn cos_deg(angle: i64) -> (r: i64)
    ensures
        r == cosine(angle as int),
        -UNIT <= r <= UNIT,
{
    reveal(cosine);
    let turned: i64 = reduce(angle);
    let (up, across) = quarter_pair(turned % RIGHT_ANGLE);
    if turned < RIGHT_ANGLE {
        across
    } else if turned < HALF_TURN {
        -up
    } else if turned < THREE_QUARTER_TURN {
        -across
    } else {
        up
    }
}

/// Sine and cosine never exceed unit length.
pub proof fn lemma_sine_cosine_bounded(angle: int)
    ensures
        -UNIT <= sine(angle) <= UNIT,
        -UNIT <= cosine(angle) <= UNIT,
{
    reveal(sine);
    reveal(cosine);
    lemma_quarter_pair(reduced(angle) % (RIGHT_ANGLE as int));
}

/// At angle zero the sine is `0` and the cosine is exactly one unit.
pub proof fn lemma_sine_cosine_at_zero()
    ensures
        sine(0) == 0,
        cosine(0) == UNIT,
{
    reveal(sine);
    reveal(cosine);
    reveal(sine_of_degree);
    lemma_quarter_pair(0);
}

/// At sixty degrees either way the cosine is exactly half a unit, and the sine
/// is the tabulated sine of sixty degrees with the sign of the angle.
pub proof fn lemma_sine_cosine_at_sixty()
    ensures
        cosine(60 * UNIT) == UNIT / 2,
        cosine(-60 * UNIT) == UNIT / 2,
        sine(60 * UNIT) == SINE_OF_SIXTY,
        sine(-60 * UNIT) == -SINE_OF_SIXTY,
{
    reveal(sine);
    reveal(cosine);
    reveal(sine_of_degree);
    assert(UNIT == 16777216 && FULL_TURN == 6039797760 && RIGHT_ANGLE == 1509949440);
    lemma_quarter_pair(60 * UNIT);
}

/// The sine is odd: turning the other way flips its sign.
pub proof fn lemma_sine_odd(angle: int)
    ensures
        sine(-angle) == -sine(angle),
{
    reveal(sine);
    reveal(sine_of_degree);
    lemma_quarter_pair(0);
}

/// The cosine is even: turning the other way leaves it unchanged.
pub proof fn lemma_cosine_even(angle: int)
    ensures
        cosine(-angle) == cosine(angle),
{
    reveal(cosine);
}

/// A whole turn further on, an angle that is not negative has the same sine
/// and cosine.
pub proof fn lemma_sine_cosine_of_a_turn_more(angle: int)
    requires
        angle >= 0,
    ensures
        sine(angle + FULL_TURN) == sine(angle),
        cosine(angle + FULL_TURN) == cosine(angle),
{
    reveal(sine);
    reveal(cosine);
    assert(FULL_TURN == 6039797760);
    assert(reduced(angle + FULL_TURN) == reduced(angle));
}

/// Up to `89` degrees either way the cosine is positive: more than the `115`th
/// part of a unit.
pub proof fn lemma_cosine_positive(angle: int)
    requires
        -89 * UNIT <= angle <= 89 * UNIT,
    ensures
        cosine(angle) >= 146000,
{
    reveal(cosine);
    assert(UNIT == 16777216 && FULL_TURN == 6039797760 && RIGHT_ANGLE == 1509949440);
    lemma_quarter_pair(magnitude_spec(angle));
}

/// The sine and the cosine of any angle make up a vector of unit length, to
/// within a 100000th on the square of the length.
pub proof fn lemma_sine_cosine_nearly_unit(angle: int)
    ensures
        -LENGTH_TOLERANCE <= squared_length(angle) - UNIT * UNIT <= LENGTH_TOLERANCE,
{
    reveal(sine);
    reveal(cosine);
    let q = reduced(angle) % (RIGHT_ANGLE as int);
    lemma_quarter_pair(q);
    let near = quarter_sine(q);
    let far = quarter_cosine(q);
    assert(sine(angle) == near || sine(angle) == -near || sine(angle) == far || sine(angle)
        == -far);
    assert((-near) * (-near) == near * near) by (nonlinear_arith);
    assert((-far) * (-far) == far * far) by (nonlinear_arith);
}

} // verus!
