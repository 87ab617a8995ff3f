//! Sine and cosine of whole degrees in fixed point, from a table of the first
//! quadrant.

use crate::utils::arithmetic::{lemma_square_of_negation, wrap};
use crate::utils::geometry::UNIT;
use vstd::prelude::*;

verus! {

/// How far `sine(a)^2 + cosine(a)^2` may lie from `UNIT * UNIT`.
pub const TRIG_TOLERANCE: i64 = 2_000_000;

/// `sin` of 0 to 90 degrees in steps of one degree, times `UNIT`, rounded.
pub const SINE_TABLE: [i64; 91] = [
    0, 17_452, 34_899, 52_336, 69_756, 87_156, 104_528, 121_869, 139_173, 156_434,
    173_648, 190_809, 207_912, 224_951, 241_922, 258_819, 275_637, 292_372, 309_017, 325_568,
    342_020, 358_368, 374_607, 390_731, 406_737, 422_618, 438_371, 453_990, 469_472, 484_810,
    500_000, 515_038, 529_919, 544_639, 559_193, 573_576, 587_785, 601_815, 615_661, 629_320,
    642_788, 656_059, 669_131, 681_998, 694_658, 707_107, 719_340, 731_354, 743_145, 754_710,
    766_044, 777_146, 788_011, 798_636, 809_017, 819_152, 829_038, 838_671, 848_048, 857_167,
    866_025, 874_620, 882_948, 891_007, 898_794, 906_308, 913_545, 920_505, 927_184, 933_580,
    939_693, 945_519, 951_057, 956_305, 961_262, 965_926, 970_296, 974_370, 978_148, 981_627,
    984_808, 987_688, 990_268, 992_546, 994_522, 996_195, 997_564, 998_630, 999_391, 999_848,
    1_000_000,
];

/// `sin` of `angle` degrees, times `UNIT`, for every integer angle.
pub open spec fn sine(angle: int) -> int {
    let a = angle % 360;
    if a <= 90 {
        SINE_TABLE[a] as int
    } else if a <= 180 {
        SINE_TABLE[180 - a] as int
    } else if a <= 270 {
        -(SINE_TABLE[a - 180] as int)
    } else {
        -(SINE_TABLE[360 - a] as int)
    }
}

/// `cos` of `angle` degrees, times `UNIT`, for every integer angle.
pub open spec fn cosine(angle: int) -> int {
    let a = angle % 360;
    if a <= 90 {
        SINE_TABLE[90 - a] as int
    } else if a <= 180 {
        -(SINE_TABLE[a - 90] as int)
    } else if a <= 270 {
        -(SINE_TABLE[270 - a] as int)
    } else {
        SINE_TABLE[a - 270] as int
    }
}

/// Whether two table entries, as sine and cosine of one angle, have squares
/// that sum to `UNIT * UNIT` within `TRIG_TOLERANCE`.
pub open spec fn nearly_unit_pair(s: int, c: int) -> bool {
    UNIT * UNIT - TRIG_TOLERANCE <= s * s + c * c <= UNIT * UNIT + TRIG_TOLERANCE
}

/// Every table entry lies in `[0, UNIT]`, and the entries of complementary
/// angles have squares that sum to `UNIT * UNIT` within `TRIG_TOLERANCE`.
pub proof fn lemma_sine_table(d: int)
    requires
        0 <= d <= 90,
    ensures
        0 <= SINE_TABLE[d] <= UNIT,
        nearly_unit_pair(SINE_TABLE[d] as int, SINE_TABLE[90 - d] as int),
{
    let k = if d <= 45 { d } else { 90 - d };
    assert(nearly_unit_pair(SINE_TABLE[k] as int, SINE_TABLE[90 - k] as int)) by {
        lemma_sine_table_low(k);
    }
}

/// The table property of `lemma_sine_table` for the angles up to 45
/// degrees, entry by entry.
proof fn lemma_sine_table_low(k: int)
    requires
        0 <= k <= 45,
    ensures
        nearly_unit_pair(SINE_TABLE[k] as int, SINE_TABLE[90 - k] as int),
{
    assert(k == 0 ==> nearly_unit_pair(SINE_TABLE[0] as int, SINE_TABLE[90] as int));
    assert(k == 1 ==> nearly_unit_pair(SINE_TABLE[1] as int, SINE_TABLE[89] as int));
    assert(k == 2 ==> nearly_unit_pair(SINE_TABLE[2] as int, SINE_TABLE[88] as int));
    assert(k == 3 ==> nearly_unit_pair(SINE_TABLE[3] as int, SINE_TABLE[87] as int));
    assert(k == 4 ==> nearly_unit_pair(SINE_TABLE[4] as int, SINE_TABLE[86] as int));
    assert(k == 5 ==> nearly_unit_pair(SINE_TABLE[5] as int, SINE_TABLE[85] as int));
    assert(k == 6 ==> nearly_unit_pair(SINE_TABLE[6] as int, SINE_TABLE[84] as int));
    assert(k == 7 ==> nearly_unit_pair(SINE_TABLE[7] as int, SINE_TABLE[83] as int));
    assert(k == 8 ==> nearly_unit_pair(SINE_TABLE[8] as int, SINE_TABLE[82] as int));
    assert(k == 9 ==> nearly_unit_pair(SINE_TABLE[9] as int, SINE_TABLE[81] as int));
    assert(k == 10 ==> nearly_unit_pair(SINE_TABLE[10] as int, SINE_TABLE[80] as int));
    assert(k == 11 ==> nearly_unit_pair(SINE_TABLE[11] as int, SINE_TABLE[79] as int));
    assert(k == 12 ==> nearly_unit_pair(SINE_TABLE[12] as int, SINE_TABLE[78] as int));
    assert(k == 13 ==> nearly_unit_pair(SINE_TABLE[13] as int, SINE_TABLE[77] as int));
    assert(k == 14 ==> nearly_unit_pair(SINE_TABLE[14] as int, SINE_TABLE[76] as int));
    assert(k == 15 ==> nearly_unit_pair(SINE_TABLE[15] as int, SINE_TABLE[75] as int));
    assert(k == 16 ==> nearly_unit_pair(SINE_TABLE[16] as int, SINE_TABLE[74] as int));
    assert(k == 17 ==> nearly_unit_pair(SINE_TABLE[17] as int, SINE_TABLE[73] as int));
    assert(k == 18 ==> nearly_unit_pair(SINE_TABLE[18] as int, SINE_TABLE[72] as int));
    assert(k == 19 ==> nearly_unit_pair(SINE_TABLE[19] as int, SINE_TABLE[71] as int));
    assert(k == 20 ==> nearly_unit_pair(SINE_TABLE[20] as int, SINE_TABLE[70] as int));
    assert(k == 21 ==> nearly_unit_pair(SINE_TABLE[21] as int, SINE_TABLE[69] as int));
    assert(k == 22 ==> nearly_unit_pair(SINE_TABLE[22] as int, SINE_TABLE[68] as int));
    assert(k == 23 ==> nearly_unit_pair(SINE_TABLE[23] as int, SINE_TABLE[67] as int));
    assert(k == 24 ==> nearly_unit_pair(SINE_TABLE[24] as int, SINE_TABLE[66] as int));
    assert(k == 25 ==> nearly_unit_pair(SINE_TABLE[25] as int, SINE_TABLE[65] as int));
    assert(k == 26 ==> nearly_unit_pair(SINE_TABLE[26] as int, SINE_TABLE[64] as int));
    assert(k == 27 ==> nearly_unit_pair(SINE_TABLE[27] as int, SINE_TABLE[63] as int));
    assert(k == 28 ==> nearly_unit_pair(SINE_TABLE[28] as int, SINE_TABLE[62] as int));
    assert(k == 29 ==> nearly_unit_pair(SINE_TABLE[29] as int, SINE_TABLE[61] as int));
    assert(k == 30 ==> nearly_unit_pair(SINE_TABLE[30] as int, SINE_TABLE[60] as int));
    assert(k == 31 ==> nearly_unit_pair(SINE_TABLE[31] as int, SINE_TABLE[59] as int));
    assert(k == 32 ==> nearly_unit_pair(SINE_TABLE[32] as int, SINE_TABLE[58] as int));
    assert(k == 33 ==> nearly_unit_pair(SINE_TABLE[33] as int, SINE_TABLE[57] as int));
    assert(k == 34 ==> nearly_unit_pair(SINE_TABLE[34] as int, SINE_TABLE[56] as int));
    assert(k == 35 ==> nearly_unit_pair(SINE_TABLE[35] as int, SINE_TABLE[55] as int));
    assert(k == 36 ==> nearly_unit_pair(SINE_TABLE[36] as int, SINE_TABLE[54] as int));
    assert(k == 37 ==> nearly_unit_pair(SINE_TABLE[37] as int, SINE_TABLE[53] as int));
    assert(k == 38 ==> nearly_unit_pair(SINE_TABLE[38] as int, SINE_TABLE[52] as int));
    assert(k == 39 ==> nearly_unit_pair(SINE_TABLE[39] as int, SINE_TABLE[51] as int));
    assert(k == 40 ==> nearly_unit_pair(SINE_TABLE[40] as int, SINE_TABLE[50] as int));
    assert(k == 41 ==> nearly_unit_pair(SINE_TABLE[41] as int, SINE_TABLE[49] as int));
    assert(k == 42 ==> nearly_unit_pair(SINE_TABLE[42] as int, SINE_TABLE[48] as int));
    assert(k == 43 ==> nearly_unit_pair(SINE_TABLE[43] as int, SINE_TABLE[47] as int));
    assert(k == 44 ==> nearly_unit_pair(SINE_TABLE[44] as int, SINE_TABLE[46] as int));
    assert(k == 45 ==> nearly_unit_pair(SINE_TABLE[45] as int, SINE_TABLE[45] as int));
}

/// Sine and cosine of any angle lie in `[-UNIT, UNIT]`, and their squares
/// sum to `UNIT * UNIT` within `TRIG_TOLERANCE`.
pub proof fn lemma_sine_cosine(angle: int)
    ensures
        -UNIT <= sine(angle) <= UNIT,
        -UNIT <= cosine(angle) <= UNIT,
        nearly_unit_pair(sine(angle), cosine(angle)),
{
    let a = angle % 360;
    let d = if a <= 90 {
        a
    } else if a <= 180 {
        180 - a
    } else if a <= 270 {
        a - 180
    } else {
        360 - a
    };
    lemma_sine_table(d);
    lemma_sine_table(90 - d);
    let s = SINE_TABLE[d] as int;
    let c = SINE_TABLE[90 - d] as int;
    lemma_square_of_negation(s);
    lemma_square_of_negation(c);
    assert(sine(angle) == s || sine(angle) == -s);
    assert(cosine(angle) == c || cosine(angle) == -c);
}

/// `sin` of `angle` degrees in fixed point.
pub fn sin_degrees(angle: i64) -> (r: i64)
    ensures
        r == sine(angle as int),
        -UNIT <= r <= UNIT,
{
    proof {
        lemma_sine_cosine(angle as int);
    }
    let a = wrap(angle, 360);
    if a <= 90 {
        SINE_TABLE[a as usize]
    } else if a <= 180 {
        SINE_TABLE[(180 - a) as usize]
    } else if a <= 270 {
        -SINE_TABLE[(a - 180) as usize]
    } else {
        -SINE_TABLE[(360 - a) as usize]
    }
}

/// `cos` of `angle` degrees in fixed point.
pub fn cos_degrees(angle: i64) -> (r: i64)
    ensures
        r == cosine(angle as int),
        -UNIT <= r <= UNIT,
{
    proof {
        lemma_sine_cosine(angle as int);
    }
    let a = wrap(angle, 360);
    if a <= 90 {
        SINE_TABLE[(90 - a) as usize]
    } else if a <= 180 {
        -SINE_TABLE[(a - 90) as usize]
    } else if a <= 270 {
        -SINE_TABLE[(270 - a) as usize]
    } else {
        SINE_TABLE[(a - 270) as usize]
    }
}

} // verus!
