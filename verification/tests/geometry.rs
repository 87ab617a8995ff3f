use ants::utils::arithmetic::{div_floor, isqrt, wrap};
use ants::utils::geometry::{
    is_unit_length, normalize, random_normalized_direction, rotate_vector, unit_direction, Vec2,
    UNIT, UNIT_TOLERANCE,
};
use ants::utils::trigonometry::{cos_degrees, sin_degrees};

fn length_squared(v: Vec2) -> i128 {
    (v.x as i128) * (v.x as i128) + (v.y as i128) * (v.y as i128)
}

fn is_unit(v: Vec2) -> bool {
    let unit = (UNIT as i128) * (UNIT as i128);
    let tolerance = UNIT_TOLERANCE as i128;
    unit - tolerance <= length_squared(v) && length_squared(v) <= unit + tolerance
}

#[test]
fn wrap_keeps_values_inside() {
    assert_eq!(wrap(0, 10), 0);
    assert_eq!(wrap(7, 10), 7);
    assert_eq!(wrap(10, 10), 0);
    assert_eq!(wrap(23, 10), 3);
}

#[test]
fn wrap_brings_negative_values_in_from_the_far_side() {
    assert_eq!(wrap(-1, 10), 9);
    assert_eq!(wrap(-10, 10), 0);
    assert_eq!(wrap(-11, 10), 9);
    assert_eq!(wrap(i64::MIN, 10), 2);
}

#[test]
fn div_floor_rounds_toward_negative_infinity() {
    assert_eq!(div_floor(7, 2), 3);
    assert_eq!(div_floor(-7, 2), -4);
    assert_eq!(div_floor(-8, 2), -4);
    assert_eq!(div_floor(0, 5), 0);
    assert_eq!(div_floor(-1, 1_000_000), -1);
}

#[test]
fn sine_of_whole_degrees() {
    let angles = [0, 1, 30, 45, 89, 90, 91, 180, 181, 270, 271, 359, 360, -1, -90, 765];
    let expected = [
        0, 17452, 500000, 707107, 999848, 1000000, 999848, 0, -17452, -1000000, -999848,
        -17452, 0, -17452, -1000000, 707107,
    ];
    for i in 0..angles.len() {
        assert_eq!(sin_degrees(angles[i]), expected[i]);
    }
}

#[test]
fn cosine_of_whole_degrees() {
    let angles = [0, 1, 30, 45, 89, 90, 91, 180, 181, 270, 271, 359, 360, -1, -90, 765];
    let expected = [
        1000000, 999848, 866025, 707107, 17452, 0, -17452, -1000000, -999848, 0, 17452, 999848,
        1000000, 999848, 0, 707107,
    ];
    for i in 0..angles.len() {
        assert_eq!(cos_degrees(angles[i]), expected[i]);
    }
}

#[test]
fn rotate_vector_turns_counter_clockwise() {
    let east = Vec2 { x: UNIT, y: 0 };
    assert_eq!(rotate_vector(east, 0), east);
    assert_eq!(rotate_vector(east, 90), Vec2 { x: 0, y: 1_000_000 });
    assert_eq!(rotate_vector(east, 30), Vec2 { x: 866_025, y: 500_000 });
    assert_eq!(rotate_vector(east, 180), Vec2 { x: -1_000_000, y: 0 });
    assert_eq!(rotate_vector(Vec2 { x: 0, y: UNIT }, -45), Vec2 { x: 707_107, y: 707_107 });
    assert_eq!(
        rotate_vector(Vec2 { x: 1_500_000, y: -250_000 }, 77),
        Vec2 { x: 581_019, y: 1_405_317 }
    );
}

#[test]
fn isqrt_rounds_down() {
    let inputs: [u64; 15] = [
        0, 1, 2, 3, 4, 8, 9, 15, 16, 24, 25, 1_000_000_000_000, 999_999_999_999, u64::MAX,
        1 << 63,
    ];
    let expected: [u64; 15] =
        [0, 1, 1, 1, 2, 2, 3, 3, 4, 4, 5, 1_000_000, 999_999, 4_294_967_295, 3_037_000_499];
    for i in 0..inputs.len() {
        assert_eq!(isqrt(inputs[i]), expected[i]);
    }
}

#[test]
fn normalize_scales_to_unit_length() {
    assert_eq!(
        normalize(Vec2 { x: 3 * UNIT, y: 4 * UNIT }),
        Vec2 { x: 600_000, y: 800_000 }
    );
    assert_eq!(normalize(Vec2 { x: -1, y: 0 }), Vec2 { x: -1_000_000, y: 0 });
    assert_eq!(normalize(Vec2 { x: 0, y: 2_000_000_000 }), Vec2 { x: 0, y: 1_000_000 });
}

#[test]
fn unit_direction_of_an_angle() {
    assert_eq!(unit_direction(33), Vec2 { x: 838_671, y: 544_639 });
    assert_eq!(unit_direction(200), Vec2 { x: -939_693, y: -342_020 });
    for angle in 0..360 {
        assert!(is_unit(unit_direction(angle)));
    }
}

#[test]
fn rotated_unit_vectors_normalize_to_unit_length() {
    for start in 0..360 {
        let heading = unit_direction(start);
        for turn in [-55, -45, -22, -1, 0, 1, 22, 45, 55] {
            assert!(is_unit(normalize(rotate_vector(heading, turn))));
        }
    }
}

#[test]
fn random_directions_have_unit_length() {
    for _ in 0..200 {
        assert!(is_unit(random_normalized_direction()));
    }
}

#[test]
fn unit_length_allows_for_rounding_only() {
    assert!(is_unit_length(Vec2 { x: UNIT, y: 0 }));
    assert!(is_unit_length(Vec2 { x: 600_000, y: -800_000 }));
    assert!(is_unit_length(Vec2 { x: 707_107, y: 707_107 }));
    assert!(is_unit_length(Vec2 { x: UNIT + 4, y: 0 }));
    assert!(!is_unit_length(Vec2 { x: UNIT + 5, y: 0 }));
    assert!(is_unit_length(Vec2 { x: UNIT - 5, y: 0 }));
    assert!(!is_unit_length(Vec2 { x: UNIT - 6, y: 0 }));
    assert!(!is_unit_length(Vec2 { x: 0, y: 0 }));
    assert!(!is_unit_length(Vec2 { x: i64::MAX, y: i64::MIN }));
}
