//! Directions in whole degrees, and the step from polar to Cartesian
//! coordinates in fixed-point arithmetic.
//!
//! A sine is held as a whole number of 65536ths, rounded towards zero. So the
//! point that belongs to a distance and an angle never lies farther from the
//! origin than the distance asks for.

use vstd::prelude::*;

verus! {

/// The number of directions in a full turn.
pub const FULL_TURN: u32 = 360;

/// `sin(k°)` for `k` from 0 to 90, in 65536ths, rounded down.
pub const QUARTER_SINES: [u32; 91] = [
    0, 1143, 2287, 3429, 4571, 5711, 6850, 7986, 9120, 10252,
    11380, 12504, 13625, 14742, 15854, 16961, 18064, 19160, 20251, 21336,
    22414, 23486, 24550, 25606, 26655, 27696, 28729, 29752, 30767, 31772,
    32768, 33753, 34728, 35693, 36647, 37589, 38521, 39440, 40347, 41243,
    42125, 42995, 43852, 44695, 45525, 46340, 47142, 47929, 48702, 49460,
    50203, 50931, 51643, 52339, 53019, 53683, 54331, 54963, 55577, 56175,
    56755, 57319, 57864, 58393, 58903, 59395, 59870, 60326, 60763, 61183,
    61583, 61965, 62328, 62672, 62997, 63302, 63589, 63856, 64103, 64331,
    64540, 64729, 64898, 65047, 65176, 65286, 65376, 65446, 65496, 65526,
    65536,
];

/// The sine of an angle of the first quarter.
pub open spec fn quarter_sine(k: int) -> int
    recommends
        0 <= k <= 90,
{
    QUARTER_SINES@[k] as int
}

/// No entry of the table exceeds 1, and the sine and the cosine of one angle,
/// squared and added, do not exceed 1 either.
pub proof fn lemma_quarter_bound(k: int)
    requires
        0 <= k <= 90,
    ensures
        0 <= quarter_sine(k) <= 65536,
        quarter_sine(k) * quarter_sine(k) + quarter_sine(90 - k) * quarter_sine(90 - k) <= 65536 * 65536,
{
    if k == 0 || k == 90 {
        assert(quarter_sine(0) == 0 && quarter_sine(90) == 65536);
    } else if k == 1 || k == 89 {
        assert(quarter_sine(1) == 1143 && quarter_sine(89) == 65526);
    } else if k == 2 || k == 88 {
        assert(quarter_sine(2) == 2287 && quarter_sine(88) == 65496);
    } else if k == 3 || k == 87 {
        assert(quarter_sine(3) == 3429 && quarter_sine(87) == 65446);
    } else if k == 4 || k == 86 {
        assert(quarter_sine(4) == 4571 && quarter_sine(86) == 65376);
    } else if k == 5 || k == 85 {
        assert(quarter_sine(5) == 5711 && quarter_sine(85) == 65286);
    } else if k == 6 || k == 84 {
        assert(quarter_sine(6) == 6850 && quarter_sine(84) == 65176);
    } else if k == 7 || k == 83 {
        assert(quarter_sine(7) == 7986 && quarter_sine(83) == 65047);
    } else if k == 8 || k == 82 {
        assert(quarter_sine(8) == 9120 && quarter_sine(82) == 64898);
    } else if k == 9 || k == 81 {
        assert(quarter_sine(9) == 10252 && quarter_sine(81) == 64729);
    } else if k == 10 || k == 80 {
        assert(quarter_sine(10) == 11380 && quarter_sine(80) == 64540);
    } else if k == 11 || k == 79 {
        assert(quarter_sine(11) == 12504 && quarter_sine(79) == 64331);
    } else if k == 12 || k == 78 {
        assert(quarter_sine(12) == 13625 && quarter_sine(78) == 64103);
    } else if k == 13 || k == 77 {
        assert(quarter_sine(13) == 14742 && quarter_sine(77) == 63856);
    } else if k == 14 || k == 76 {
        assert(quarter_sine(14) == 15854 && quarter_sine(76) == 63589);
    } else if k == 15 || k == 75 {
        assert(quarter_sine(15) == 16961 && quarter_sine(75) == 63302);
    } else if k == 16 || k == 74 {
        assert(quarter_sine(16) == 18064 && quarter_sine(74) == 62997);
    } else if k == 17 || k == 73 {
        assert(quarter_sine(17) == 19160 && quarter_sine(73) == 62672);
    } else if k == 18 || k == 72 {
        assert(quarter_sine(18) == 20251 && quarter_sine(72) == 62328);
    } else if k == 19 || k == 71 {
        assert(quarter_sine(19) == 21336 && quarter_sine(71) == 61965);
    } else if k == 20 || k == 70 {
        assert(quarter_sine(20) == 22414 && quarter_sine(70) == 61583);
    } else if k == 21 || k == 69 {
        assert(quarter_sine(21) == 23486 && quarter_sine(69) == 61183);
    } else if k == 22 || k == 68 {
        assert(quarter_sine(22) == 24550 && quarter_sine(68) == 60763);
    } else if k == 23 || k == 67 {
        assert(quarter_sine(23) == 25606 && quarter_sine(67) == 60326);
    } else if k == 24 || k == 66 {
        assert(quarter_sine(24) == 26655 && quarter_sine(66) == 59870);
    } else if k == 25 || k == 65 {
        assert(quarter_sine(25) == 27696 && quarter_sine(65) == 59395);
    } else if k == 26 || k == 64 {
        assert(quarter_sine(26) == 28729 && quarter_sine(64) == 58903);
    } else if k == 27 || k == 63 {
        assert(quarter_sine(27) == 29752 && quarter_sine(63) == 58393);
    } else if k == 28 || k == 62 {
        assert(quarter_sine(28) == 30767 && quarter_sine(62) == 57864);
    } else if k == 29 || k == 61 {
        assert(quarter_sine(29) == 31772 && quarter_sine(61) == 57319);
    } else if k == 30 || k == 60 {
        assert(quarter_sine(30) == 32768 && quarter_sine(60) == 56755);
    } else if k == 31 || k == 59 {
        assert(quarter_sine(31) == 33753 && quarter_sine(59) == 56175);
    } else if k == 32 || k == 58 {
        assert(quarter_sine(32) == 34728 && quarter_sine(58) == 55577);
    } else if k == 33 || k == 57 {
        assert(quarter_sine(33) == 35693 && quarter_sine(57) == 54963);
    } else if k == 34 || k == 56 {
        assert(quarter_sine(34) == 36647 && quarter_sine(56) == 54331);
    } else if k == 35 || k == 55 {
        assert(quarter_sine(35) == 37589 && quarter_sine(55) == 53683);
    } else if k == 36 || k == 54 {
        assert(quarter_sine(36) == 38521 && quarter_sine(54) == 53019);
    } else if k == 37 || k == 53 {
        assert(quarter_sine(37) == 39440 && quarter_sine(53) == 52339);
    } else if k == 38 || k == 52 {
        assert(quarter_sine(38) == 40347 && quarter_sine(52) == 51643);
    } else if k == 39 || k == 51 {
        assert(quarter_sine(39) == 41243 && quarter_sine(51) == 50931);
    } else if k == 40 || k == 50 {
        assert(quarter_sine(40) == 42125 && quarter_sine(50) == 50203);
    } else if k == 41 || k == 49 {
        assert(quarter_sine(41) == 42995 && quarter_sine(49) == 49460);
    } else if k == 42 || k == 48 {
        assert(quarter_sine(42) == 43852 && quarter_sine(48) == 48702);
    } else if k == 43 || k == 47 {
        assert(quarter_sine(43) == 44695 && quarter_sine(47) == 47929);
    } else if k == 44 || k == 46 {
        assert(quarter_sine(44) == 45525 && quarter_sine(46) == 47142);
    } else if k == 45 || k == 45 {
        assert(quarter_sine(45) == 46340 && quarter_sine(45) == 46340);
    }
}


/// The cosine of a direction, in 65536ths.
pub open spec fn cosine(angle: int) -> int
    recommends
        0 <= angle < 360,
{
    if angle < 90 {
        quarter_sine(90 - angle)
    } else if angle < 180 {
        -quarter_sine(angle - 90)
    } else if angle < 270 {
        -quarter_sine(270 - angle)
    } else {
        quarter_sine(angle - 270)
    }
}

/// The sine of a direction, in 65536ths.
pub open spec fn sine(angle: int) -> int
    recommends
        0 <= angle < 360,
{
    if angle < 90 {
        quarter_sine(angle)
    } else if angle < 180 {
        quarter_sine(180 - angle)
    } else if angle < 270 {
        -quarter_sine(angle - 180)
    } else {
        -quarter_sine(360 - angle)
    }
}

/// A length times a fixed-point factor, rounded towards zero.
pub open spec fn scaled(length: int, factor: int) -> int {
    if factor >= 0 {
        (length * factor) / 65536
    } else {
        -((length * (-factor)) / 65536)
    }
}

/// The point at a distance from the origin in a direction.
pub open spec fn polar_point(distance: int, angle: int) -> (int, int) {
    (scaled(distance, cosine(angle)), scaled(distance, sine(angle)))
}

/// The sine and the cosine of every direction lie between -1 and 1, and
/// their squares add up to 1 at most.
pub proof fn lemma_unit_circle(angle: int)
    requires
        0 <= angle < 360,
    ensures
        -65536 <= cosine(angle) <= 65536,
        -65536 <= sine(angle) <= 65536,
        cosine(angle) * cosine(angle) + sine(angle) * sine(angle) <= 65536 * 65536,
{
    let k = if angle < 90 {
        angle
    } else if angle < 180 {
        angle - 90
    } else if angle < 270 {
        angle - 180
    } else {
        angle - 270
    };
    lemma_quarter_bound(k);
    lemma_quarter_bound(90 - k);
    let s = quarter_sine(k);
    let c = quarter_sine(90 - k);
    assert((-s) * (-s) == s * s) by (nonlinear_arith);
    assert((-c) * (-c) == c * c) by (nonlinear_arith);
}

/// A scaled length is no longer than the length, and has the sign of the
/// factor.
pub proof fn lemma_scaled_bound(length: int, factor: int)
    requires
        0 <= length,
        -65536 <= factor <= 65536,
    ensures
        -length <= scaled(length, factor) <= length,
        factor >= 0 ==> 0 <= scaled(length, factor),
        factor <= 0 ==> scaled(length, factor) <= 0,
        scaled(length, factor) * scaled(length, factor) * (65536 * 65536) <= (length * length) * (
        factor * factor),
{
    let f = if factor >= 0 {
        factor
    } else {
        -factor
    };
    let p = length * f;
    let q = p / 65536;
    assert(0 <= p <= length * 65536) by (nonlinear_arith)
        requires
            0 <= length,
            0 <= f <= 65536,
            p == length * f,
    ;
    assert(f == 0 ==> p == 0) by (nonlinear_arith)
        requires
            p == length * f,
    ;
    assert(0 <= q * 65536 <= p);
    assert((q * q) * (65536 * 65536) <= p * p) by (nonlinear_arith)
        requires
            0 <= q * 65536 <= p,
    ;
    assert(p * p == (length * length) * (f * f)) by (nonlinear_arith)
        requires
            p == length * f,
    ;
    assert(f * f == factor * factor) by (nonlinear_arith)
        requires
            f == factor || f == -factor,
    ;
    assert((-q) * (-q) == q * q) by (nonlinear_arith);
}

/// The point of a distance and a direction is at most that far from the
/// origin.
pub proof fn lemma_polar_reach(distance: int, angle: int)
    requires
        0 <= distance,
        0 <= angle < 360,
    ensures
        -distance <= polar_point(distance, angle).0 <= distance,
        -distance <= polar_point(distance, angle).1 <= distance,
        polar_point(distance, angle).0 * polar_point(distance, angle).0 + polar_point(
            distance,
            angle,
        ).1 * polar_point(distance, angle).1 <= distance * distance,
{
    let c = cosine(angle);
    let s = sine(angle);
    let x = scaled(distance, c);
    let y = scaled(distance, s);
    lemma_unit_circle(angle);
    lemma_scaled_bound(distance, c);
    lemma_scaled_bound(distance, s);
    let d2 = distance * distance;
    let u2 = 65536 * 65536;
    assert(d2 >= 0) by (nonlinear_arith)
        requires
            d2 == distance * distance,
    ;
    assert(d2 * (c * c) + d2 * (s * s) <= d2 * u2) by (nonlinear_arith)
        requires
            d2 >= 0,
            c * c + s * s <= u2,
    ;
    assert((x * x + y * y) * u2 == (x * x) * u2 + (y * y) * u2) by (nonlinear_arith);
    assert(x * x + y * y <= d2) by (nonlinear_arith)
        requires
            (x * x + y * y) * u2 <= d2 * u2,
            u2 == 65536 * 65536,
    ;
}

/// The sine of an angle of the first quarter.
fn quarter_sine_of(k: u32) -> (s: u32)
    requires
        k <= 90,
    ensures
        s == quarter_sine(k as int),
        s <= 65536,
{
    proof {
        lemma_quarter_bound(k as int);
    }
    QUARTER_SINES[k as usize]
}

/// The cosine of a direction, in 65536ths.
pub fn cosine_of(angle: u32) -> (c: i64)
    requires
        angle < FULL_TURN,
    ensures
        c == cosine(angle as int),
        -65536 <= c <= 65536,
{
    if angle < 90 {
        quarter_sine_of(90 - angle) as i64
    } else if angle < 180 {
        -(quarter_sine_of(angle - 90) as i64)
    } else if angle < 270 {
        -(quarter_sine_of(270 - angle) as i64)
    } else {
        quarter_sine_of(angle - 270) as i64
    }
}

/// The sine of a direction, in 65536ths.
pub fn sine_of(angle: u32) -> (s: i64)
    requires
        angle < FULL_TURN,
    ensures
        s == sine(angle as int),
        -65536 <= s <= 65536,
{
    if angle < 90 {
        quarter_sine_of(angle) as i64
    } else if angle < 180 {
        quarter_sine_of(180 - angle) as i64
    } else if angle < 270 {
        -(quarter_sine_of(angle - 180) as i64)
    } else {
        -(quarter_sine_of(360 - angle) as i64)
    }
}

/// A length times a fixed-point factor, rounded towards zero.
fn scale(length: u32, factor: i64) -> (r: i64)
    requires
        -65536 <= factor <= 65536,
    ensures
        r == scaled(length as int, factor as int),
        -length <= r <= length,
{
    proof {
        lemma_scaled_bound(length as int, factor as int);
    }
    if factor >= 0 {
        assert(0 <= length * factor <= 0xffff_ffff * 65536) by (nonlinear_arith)
            requires
                0 <= length <= 0xffff_ffff,
                0 <= factor <= 65536,
        ;
        (length as i64 * factor) / 65536
    } else {
        assert(0 <= length * (-factor) <= 0xffff_ffff * 65536) by (nonlinear_arith)
            requires
                0 <= length <= 0xffff_ffff,
                0 <= -factor <= 65536,
        ;
        -((length as i64 * (-factor)) / 65536)
    }
}

/// The offset that leads a distance away in a direction given in degrees.
///
/// Each coordinate is the distance times the cosine or the sine of the
/// direction, rounded towards zero.
pub fn polar_offset(distance: u32, angle: u32) -> (offset: (i64, i64))
    requires
        angle < FULL_TURN,
    ensures
        offset.0 == polar_point(distance as int, angle as int).0,
        offset.1 == polar_point(distance as int, angle as int).1,
        -distance <= offset.0 <= distance,
        -distance <= offset.1 <= distance,
        offset.0 * offset.0 + offset.1 * offset.1 <= distance * distance,
{
    proof {
        lemma_polar_reach(distance as int, angle as int);
    }
    let dx = scale(distance, cosine_of(angle));
    let dy = scale(distance, sine_of(angle));
    (dx, dy)
}

} // verus!
