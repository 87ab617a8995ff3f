//! Fixed-point vectors: turning them, scaling them to unit length, and how
//! far rounding takes them from it.

use crate::utils::arithmetic::{
    div_floor, integer_sqrt, is_integer_sqrt, isqrt, lemma_floor_square_gap, lemma_integer_sqrt,
    lemma_integer_sqrt_at_least, lemma_product_bound,
};
use crate::utils::random::gen_range;
use crate::utils::trigonometry::{cos_degrees, cosine, lemma_sine_cosine, sin_degrees, sine};
use vstd::prelude::*;

verus! {

/// Fixed-point scale of lengths: this many units make one grid cell.
pub const UNIT: i64 = 1_000_000;

/// Largest width or height of a world, in grid cells.
pub const MAX_EXTENT: usize = 1_000_000;

/// Largest magnitude of a component that `rotate_vector` accepts.
pub const MAX_COORDINATE: i64 = 1_000_000_000_000;

/// Largest magnitude of a component that `normalize` accepts.
pub const MAX_NORMALIZABLE: i64 = 2_000_000_000;

/// How far the squared length of a unit vector may lie from `UNIT * UNIT`.
pub const UNIT_TOLERANCE: i64 = 10_000_000;

/// How far the squared length of a rotated unit vector may lie from
/// `UNIT * UNIT` before it is normalised again.
pub const ROTATION_TOLERANCE: i64 = 30_000_000;

/// A 2D vector or point in fixed-point coordinates (`UNIT` is 1.0).
#[derive(Clone, Copy, Debug, PartialEq, Eq, Structural)]
pub struct Vec2 {
    pub x: i64,
    pub y: i64,
}

impl Vec2 {
    /// The squared Euclidean length.
    pub open spec fn length_squared(self) -> int {
        self.x * self.x + self.y * self.y
    }

    /// Unit length up to the rounding of fixed-point normalisation.
    pub open spec fn is_unit(self) -> bool {
        self.nearly_unit(UNIT_TOLERANCE as int)
    }

    /// The squared length lies within `tolerance` of `UNIT * UNIT`.
    pub open spec fn nearly_unit(self, tolerance: int) -> bool {
        UNIT * UNIT - tolerance <= self.length_squared() <= UNIT * UNIT + tolerance
    }

    /// Both components are at most `limit` in magnitude.
    pub open spec fn within(self, limit: int) -> bool {
        -limit <= self.x <= limit && -limit <= self.y <= limit
    }
}

/// Whether `vec` has unit length up to `UNIT_TOLERANCE`.
pub fn is_unit_length(vec: Vec2) -> (unit: bool)
    ensures
        unit == vec.is_unit(),
{
    let limit = 2 * UNIT;
    if vec.x > limit || vec.x < -limit || vec.y > limit || vec.y < -limit {
        proof {
            if vec.is_unit() {
                lemma_unit_within(vec);
            }
        }
        false
    } else {
        assert(0 <= vec.x * vec.x <= 4_000_000_000_000 && 0 <= vec.y * vec.y
            <= 4_000_000_000_000) by (nonlinear_arith)
            requires
                vec.within(2_000_000),
        ;
        let length_squared = vec.x * vec.x + vec.y * vec.y;
        UNIT * UNIT - UNIT_TOLERANCE <= length_squared && length_squared <= UNIT * UNIT
            + UNIT_TOLERANCE
    }
}

/// `vec` turned counter-clockwise by `angle` degrees, each component rounded
/// down to a whole fixed-point unit.
pub open spec fn rotated(vec: Vec2, angle: int) -> Vec2 {
    Vec2 {
        x: ((vec.x * cosine(angle) - vec.y * sine(angle)) / (UNIT as int)) as i64,
        y: ((vec.x * sine(angle) + vec.y * cosine(angle)) / (UNIT as int)) as i64,
    }
}

/// Turns `vec` counter-clockwise by `angle_deg` degrees.
pub fn rotate_vector(vec: Vec2, angle_deg: i64) -> (r: Vec2)
    requires
        vec.within(MAX_COORDINATE as int),
    ensures
        r == rotated(vec, angle_deg as int),
        r.within(2 * MAX_COORDINATE),
{
    let cos_angle = cos_degrees(angle_deg);
    let sin_angle = sin_degrees(angle_deg);
    proof {
        lemma_product_bound(vec.x as int, cos_angle as int, MAX_COORDINATE as int, UNIT as int);
        lemma_product_bound(vec.y as int, sin_angle as int, MAX_COORDINATE as int, UNIT as int);
        lemma_product_bound(vec.x as int, sin_angle as int, MAX_COORDINATE as int, UNIT as int);
        lemma_product_bound(vec.y as int, cos_angle as int, MAX_COORDINATE as int, UNIT as int);
    }
    Vec2 {
        x: div_floor(vec.x * cos_angle - vec.y * sin_angle, UNIT),
        y: div_floor(vec.x * sin_angle + vec.y * cos_angle, UNIT),
    }
}

/// `vec` scaled to unit length, each component rounded down to a whole
/// fixed-point unit.
pub open spec fn normalized(vec: Vec2) -> Vec2 {
    let length = integer_sqrt(vec.length_squared());
    Vec2 {
        x: (vec.x * UNIT / length) as i64,
        y: (vec.y * UNIT / length) as i64,
    }
}

/// No component of a vector is longer than the integer square root of its
/// squared length.
proof fn lemma_component_below_root(x: int, y: int, root: int)
    by (nonlinear_arith)
    requires
        is_integer_sqrt(root, x * x + y * y),
    ensures
        -root <= x <= root,
        -root <= y <= root,
{
}

/// Normalising a vector that is at least half a unit long gives a vector of
/// unit length, up to `UNIT_TOLERANCE`.
pub proof fn lemma_normalized_is_unit(vec: Vec2)
    requires
        4 * vec.length_squared() >= UNIT * UNIT,
    ensures
        normalized(vec).is_unit(),
        normalized(vec).within(UNIT as int),
        2 * integer_sqrt(vec.length_squared()) >= UNIT,
{
    let x = vec.x as int;
    let y = vec.y as int;
    let u = UNIT as int;
    let n = vec.length_squared();
    let root = integer_sqrt(n);
    lemma_integer_sqrt(n);
    lemma_integer_sqrt_at_least(n, 500_000);
    lemma_component_below_root(x, y, root);
    assert(-(u * root) <= x * u <= u * root && -(u * root) <= y * u <= u * root)
        by (nonlinear_arith)
        requires
            -root <= x <= root,
            -root <= y <= root,
            u == 1_000_000,
    ;
    lemma_floor_square_gap(x * u, root, u);
    lemma_floor_square_gap(y * u, root, u);
    let a = (x * u) / root;
    let b = (y * u) / root;
    assert(normalized(vec).x == a && normalized(vec).y == b);
    let s = a * a + b * b;
    let rr = root * root;
    assert(rr > 0) by (nonlinear_arith)
        requires
            rr == root * root,
            root >= 500_000,
    ;
    assert((x * u) * (x * u) + (y * u) * (y * u) == n * (u * u)) by (nonlinear_arith)
        requires
            n == x * x + y * y,
    ;
    assert(a * a * rr + b * b * rr == s * rr) by (nonlinear_arith)
        requires
            s == a * a + b * b,
    ;
    assert(rr * (u * u) <= n * (u * u) <= rr * (u * u) + 2 * root * (u * u))
        by (nonlinear_arith)
        requires
            rr == root * root,
            rr <= n < (root + 1) * (root + 1),
            u == 1_000_000,
    ;
    assert(2 * root * (u * u) <= 4 * u * rr) by (nonlinear_arith)
        requires
            rr == root * root,
            2 * root >= u,
            u == 1_000_000,
    ;
    assert(rr * (u * u - 4 * u - 2) <= s * rr <= rr * (u * u + 8 * u + 2)) by (nonlinear_arith)
        requires
            rr * (u * u) <= n * (u * u) <= rr * (u * u) + 4 * u * rr,
            (x * u) * (x * u) + (y * u) * (y * u) == n * (u * u),
            -(rr * (2 * u + 1)) <= (x * u) * (x * u) - a * a * rr <= rr * (2 * u + 1),
            -(rr * (2 * u + 1)) <= (y * u) * (y * u) - b * b * rr <= rr * (2 * u + 1),
            a * a * rr + b * b * rr == s * rr,
            u == 1_000_000,
    ;
    assert(u * u - 4 * u - 2 <= s <= u * u + 8 * u + 2) by (nonlinear_arith)
        requires
            rr * (u * u - 4 * u - 2) <= s * rr <= rr * (u * u + 8 * u + 2),
            rr > 0,
    ;
}

/// Scales `vec` to unit length.
pub fn normalize(vec: Vec2) -> (r: Vec2)
    requires
        vec.within(MAX_NORMALIZABLE as int),
        vec.x != 0 || vec.y != 0,
    ensures
        r == normalized(vec),
        r.within(UNIT as int),
{
    assert(0 < vec.length_squared() <= 8_000_000_000_000_000_000) by (nonlinear_arith)
        requires
            vec.within(2_000_000_000),
            vec.x != 0 || vec.y != 0,
    ;
    assert(0 <= vec.x * vec.x <= 4_000_000_000_000_000_000) by (nonlinear_arith)
        requires
            vec.within(2_000_000_000),
    ;
    assert(0 <= vec.y * vec.y <= 4_000_000_000_000_000_000) by (nonlinear_arith)
        requires
            vec.within(2_000_000_000),
    ;
    let length_squared = (vec.x * vec.x + vec.y * vec.y) as u64;
    let length = isqrt(length_squared) as i64;
    proof {
        let x = vec.x as int;
        let y = vec.y as int;
        let root = length as int;
        assert(root > 0) by (nonlinear_arith)
            requires
                is_integer_sqrt(root, x * x + y * y),
                x * x + y * y > 0,
        ;
        lemma_component_below_root(x, y, root);
        assert(-(UNIT * root) <= x * UNIT <= UNIT * root && -(UNIT * root) <= y * UNIT <= UNIT
            * root) by (nonlinear_arith)
            requires
                -root <= x <= root,
                -root <= y <= root,
        ;
        lemma_floor_square_gap(x * UNIT, root, UNIT as int);
        lemma_floor_square_gap(y * UNIT, root, UNIT as int);
    }
    Vec2 { x: div_floor(vec.x * UNIT, length), y: div_floor(vec.y * UNIT, length) }
}

/// A unit vector has no component longer than two units.
pub proof fn lemma_unit_within(vec: Vec2)
    requires
        vec.is_unit(),
    ensures
        vec.within(2 * UNIT),
{
    let x = vec.x as int;
    let y = vec.y as int;
    assert(-2_000_000 <= x <= 2_000_000 && -2_000_000 <= y <= 2_000_000) by (nonlinear_arith)
        requires
            x * x + y * y <= 1_000_000 * 1_000_000 + 10_000_000,
    ;
}

/// Two vectors of different length do not cancel.
pub proof fn lemma_sum_nonzero(a: Vec2, b: Vec2)
    requires
        a.length_squared() > b.length_squared(),
    ensures
        a.x + b.x != 0 || a.y + b.y != 0,
{
    let ax = a.x as int;
    let ay = a.y as int;
    let bx = b.x as int;
    let by = b.y as int;
    assert(ax + bx != 0 || ay + by != 0) by (nonlinear_arith)
        requires
            ax * ax + ay * ay > bx * bx + by * by,
    ;
}

/// The product of two sums of two squares is again a sum of two squares:
/// an exact rotation keeps the squared length.
proof fn lemma_rotation_identity(x: int, y: int, c: int, s: int)
    ensures
        (x * c - y * s) * (x * c - y * s) + (x * s + y * c) * (x * s + y * c) == (x * x + y * y)
            * (c * c + s * s),
{
    let xc = x * c;
    let ys = y * s;
    let xs = x * s;
    let yc = y * c;
    assert((xc - ys) * (xc - ys) == xc * xc - 2 * (xc * ys) + ys * ys) by (nonlinear_arith);
    assert((xs + yc) * (xs + yc) == xs * xs + 2 * (xs * yc) + yc * yc) by (nonlinear_arith);
    assert(xc * ys == xs * yc) by (nonlinear_arith)
        requires
            xc == x * c,
            ys == y * s,
            xs == x * s,
            yc == y * c,
    ;
    assert(xc * xc == (x * x) * (c * c)) by (nonlinear_arith)
        requires
            xc == x * c,
    ;
    assert(ys * ys == (y * y) * (s * s)) by (nonlinear_arith)
        requires
            ys == y * s,
    ;
    assert(xs * xs == (x * x) * (s * s)) by (nonlinear_arith)
        requires
            xs == x * s,
    ;
    assert(yc * yc == (y * y) * (c * c)) by (nonlinear_arith)
        requires
            yc == y * c,
    ;
    let xx = x * x;
    let yy = y * y;
    let cc = c * c;
    let ss = s * s;
    assert((xx + yy) * (cc + ss) == xx * cc + yy * ss + xx * ss + yy * cc) by (nonlinear_arith);
}

/// Turning a unit vector keeps it near unit length: rounding and the sine
/// table move its squared length by at most `ROTATION_TOLERANCE`.
pub proof fn lemma_rotated_nearly_unit(vec: Vec2, angle: int)
    requires
        vec.is_unit(),
    ensures
        rotated(vec, angle).nearly_unit(ROTATION_TOLERANCE as int),
        rotated(vec, angle).within(4 * UNIT),
{
    let x = vec.x as int;
    let y = vec.y as int;
    let u = UNIT as int;
    let c = cosine(angle);
    let s = sine(angle);
    let n = x * x + y * y;
    let m = c * c + s * s;
    lemma_sine_cosine(angle);
    assert(-2 * u <= x <= 2 * u && -2 * u <= y <= 2 * u) by (nonlinear_arith)
        requires
            n == x * x + y * y,
            n <= u * u + 10 * u,
            u == 1_000_000,
    ;
    lemma_product_bound(x, c, 2 * u, u);
    lemma_product_bound(y, s, 2 * u, u);
    lemma_product_bound(x, s, 2 * u, u);
    lemma_product_bound(y, c, 2 * u, u);
    let p = x * c - y * s;
    let q = x * s + y * c;
    assert((2 * u) * u + (2 * u) * u == (4 * u) * u) by (nonlinear_arith);
    lemma_floor_square_gap(p, u, 4 * u);
    lemma_floor_square_gap(q, u, 4 * u);
    let a = p / u;
    let b = q / u;
    assert(rotated(vec, angle).x == a && rotated(vec, angle).y == b);
    let r = a * a + b * b;
    let uu = u * u;
    lemma_rotation_identity(x, y, c, s);
    assert(uu * (uu - 12 * u) <= n * m <= uu * (uu + 12 * u + 20)) by (nonlinear_arith)
        requires
            uu - 10 * u <= n <= uu + 10 * u,
            uu - 2 * u <= m <= uu + 2 * u,
            uu == u * u,
            u == 1_000_000,
    ;
    assert(a * a * uu + b * b * uu == r * uu) by (nonlinear_arith)
        requires
            r == a * a + b * b,
    ;
    assert(uu - 30 * u <= r <= uu + 30 * u) by (nonlinear_arith)
        requires
            uu * (uu - 12 * u) <= p * p + q * q <= uu * (uu + 12 * u + 20),
            -(uu * (8 * u + 1)) <= p * p - a * a * uu <= uu * (8 * u + 1),
            -(uu * (8 * u + 1)) <= q * q - b * b * uu <= uu * (8 * u + 1),
            a * a * uu + b * b * uu == r * uu,
            uu == 1_000_000_000_000,
            u == 1_000_000,
    ;
}

/// The direction of `angle` degrees, before it is normalised.
pub open spec fn direction_of(angle: int) -> Vec2 {
    Vec2 { x: cosine(angle) as i64, y: sine(angle) as i64 }
}

/// The unit vector of `angle` degrees.
pub fn unit_direction(angle: i64) -> (direction: Vec2)
    ensures
        direction == normalized(direction_of(angle as int)),
        direction.is_unit(),
{
    let raw = Vec2 { x: cos_degrees(angle), y: sin_degrees(angle) };
    proof {
        lemma_sine_cosine(angle as int);
        lemma_normalized_is_unit(raw);
    }
    normalize(raw)
}

/// Whether `direction` is the unit vector of some whole angle.
pub open spec fn is_direction(direction: Vec2) -> bool {
    exists|angle: int| 0 <= angle < 360 && direction == normalized(#[trigger] direction_of(angle))
}

/// A unit vector of a random whole angle.
pub fn random_normalized_direction() -> (direction: Vec2)
    ensures
        direction.is_unit(),
        is_direction(direction),
{
    let mut rng = rand::thread_rng();
    let random_angle = gen_range(&mut rng, 0, 359);
    let direction = unit_direction(random_angle);
    assert(direction == normalized(direction_of(random_angle as int)));
    direction
}

} // verus!
