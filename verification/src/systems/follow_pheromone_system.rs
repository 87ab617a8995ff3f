use crate::ant::Ant;
use crate::pheromones::{
    cell_index, grid_index, PheromoneGrid, PheromoneGridTrait, FULL_INTENSITY,
};
use crate::utils::arithmetic::{
    div_floor, lemma_floor_square_gap, lemma_product_bound, wrap, wrapped,
};
use crate::utils::geometry::{
    lemma_normalized_is_unit, lemma_rotated_nearly_unit, lemma_sum_nonzero, lemma_unit_within,
    normalize, normalized, rotate_vector, rotated, Vec2, UNIT, UNIT_TOLERANCE,
};
use crate::utils::trigonometry::{cos_degrees, cosine, lemma_sine_cosine, sin_degrees, sine};
use crate::utils::random::gen_range;
use vstd::prelude::*;

verus! {

/// Half the width of the cone that an ant looks into, in degrees.
pub const VIEW_ANGLE: i64 = 45;

/// How many cells ahead an ant looks.
pub const VIEW_RADIUS: i64 = 6;

/// The number of probes of one scan: every whole degree of the cone, at
/// every whole distance.
pub const PROBES: i64 = 546;

/// Half the width of the cone that an ant without a trail turns within.
pub const EXPLORE_ANGLE: i64 = 22;

/// The largest turn that randomness adds to a trail, taken on the weakest
/// trail; it shrinks in proportion as the trail gets stronger.
pub const JITTER_ANGLE: i64 = 10;

/// Intensities up to this one are no usable signal.
pub const SIGNAL_CUTOFF: u64 = 1_000_000;

/// Upper bound, exclusive, of the length of the random offset that bends a
/// step.
pub const MAX_OFFSET: i64 = 800_000;

/// The intensity of the cell that `position` falls into; positions outside
/// the world wrap around.
pub fn get_pheromone_value(position: Vec2, pheromone_grid: &PheromoneGrid) -> (value: u64)
    requires
        pheromone_grid.wf(),
    ensures
        value == pheromone_grid.intensity_at(position),
        value <= FULL_INTENSITY,
{
    let x = grid_index(position.x, pheromone_grid.get_width());
    let y = grid_index(position.y, pheromone_grid.get_height());
    assert(pheromone_grid.cell(x as int, y as int) <= FULL_INTENSITY);
    pheromone_grid.get_grid()[x][y]
}

/// The angle of the `n`-th probe of a scan, relative to the heading.
pub open spec fn probe_angle(n: int) -> int {
    n / (VIEW_RADIUS as int) - VIEW_ANGLE
}

/// The distance of the `n`-th probe of a scan, in cells.
pub open spec fn probe_distance(n: int) -> int {
    n % (VIEW_RADIUS as int) + 1
}

/// The point `distance` cells ahead of `ant` along its heading turned by
/// `angle`.
pub open spec fn probe_position(ant: Ant, angle: int, distance: int) -> Vec2 {
    let ahead = rotated(ant.direction, angle);
    Vec2 {
        x: (ant.position.x + ahead.x * distance) as i64,
        y: (ant.position.y + ahead.y * distance) as i64,
    }
}

/// What the `n`-th probe of a scan finds.
pub open spec fn probe_value(ant: Ant, grid: PheromoneGrid, n: int) -> int {
    grid.intensity_at(probe_position(ant, probe_angle(n), probe_distance(n)))
}

/// The strongest intensity among the first `n` probes and the angle of the
/// first probe that found it; `(0, 0)` while every probe found nothing.
pub open spec fn scanned(ant: Ant, grid: PheromoneGrid, n: nat) -> (int, int)
    decreases n,
{
    if n == 0 {
        (0, 0)
    } else {
        let earlier = scanned(ant, grid, (n - 1) as nat);
        let value = probe_value(ant, grid, n - 1);
        if value > earlier.0 {
            (value, probe_angle(n - 1))
        } else {
            earlier
        }
    }
}

/// What a scan reports is the maximum of what its probes find, together
/// with the angle of the first probe that finds that much.
pub proof fn lemma_scanned_is_first_maximum(ant: Ant, grid: PheromoneGrid, n: nat)
    ensures
        forall|k: int|
            0 <= k < n ==> #[trigger] probe_value(ant, grid, k) <= scanned(ant, grid, n).0,
        scanned(ant, grid, n).0 >= 0,
        scanned(ant, grid, n).0 == 0 ==> scanned(ant, grid, n).1 == 0,
        scanned(ant, grid, n).0 > 0 ==> exists|k: int|
            {
                &&& 0 <= k < n
                &&& #[trigger] probe_value(ant, grid, k) == scanned(ant, grid, n).0
                &&& probe_angle(k) == scanned(ant, grid, n).1
                &&& forall|j: int|
                    0 <= j < k ==> #[trigger] probe_value(ant, grid, j) < scanned(ant, grid, n).0
            },
    decreases n,
{
    if n > 0 {
        let m = (n - 1) as nat;
        lemma_scanned_is_first_maximum(ant, grid, m);
        let earlier = scanned(ant, grid, m);
        let value = probe_value(ant, grid, n - 1);
        if value > earlier.0 {
            assert(probe_value(ant, grid, n - 1) == scanned(ant, grid, n).0);
        } else if earlier.0 > 0 {
            let k = choose|k: int|
                {
                    &&& 0 <= k < m
                    &&& #[trigger] probe_value(ant, grid, k) == earlier.0
                    &&& probe_angle(k) == earlier.1
                    &&& forall|j: int|
                        0 <= j < k ==> #[trigger] probe_value(ant, grid, j) < earlier.0
                };
            assert(probe_value(ant, grid, k) == scanned(ant, grid, n).0);
        }
    }
}

/// Over a field in which no cell exceeds `bound`, no scan reports more than
/// `bound`.
pub proof fn lemma_scanned_bounded(ant: Ant, grid: PheromoneGrid, n: nat, bound: int)
    requires
        grid.wf(),
        0 <= bound,
        forall|x: int, y: int|
            0 <= x < grid.width && 0 <= y < grid.height ==> #[trigger] grid.cell(x, y) <= bound,
    ensures
        0 <= scanned(ant, grid, n).0 <= bound,
    decreases n,
{
    if n > 0 {
        lemma_scanned_bounded(ant, grid, (n - 1) as nat, bound);
        let position = probe_position(ant, probe_angle(n - 1), probe_distance(n - 1));
        let x = cell_index(position.x as int, grid.width as int);
        let y = cell_index(position.y as int, grid.height as int);
        assert(0 <= x < grid.width && 0 <= y < grid.height);
        assert(grid.cell(x, y) <= bound);
    }
}

/// The random numbers that one steering step consumes.
#[derive(Clone, Copy, Debug, PartialEq, Eq, Structural)]
pub struct SteeringDraw {
    /// The turn of an ant that found no trail, in degrees.
    pub explore_angle: i64,
    /// The turn added to the trail's direction on the weakest trail.
    pub jitter_angle: i64,
    /// The direction of the offset that bends the step, in degrees.
    pub offset_angle: i64,
    /// The length of that offset.
    pub offset_length: i64,
}

impl SteeringDraw {
    /// Every number lies in the range it is drawn from.
    pub open spec fn valid(&self) -> bool {
        &&& -EXPLORE_ANGLE <= self.explore_angle <= EXPLORE_ANGLE
        &&& -JITTER_ANGLE <= self.jitter_angle <= JITTER_ANGLE
        &&& 0 <= self.offset_angle < 360
        &&& 0 <= self.offset_length < MAX_OFFSET
    }
}

/// The share of `jitter_angle` that is left on a trail of strength
/// `intensity`: all of it on the weakest trail, none on a full one.
pub open spec fn jitter(jitter_angle: int, intensity: int) -> int {
    jitter_angle * (FULL_INTENSITY - intensity) / (FULL_INTENSITY as int)
}

/// By how many degrees an ant turns: a random angle of the exploration cone
/// where the scan found no usable signal, else toward the strongest probe,
/// off by the jitter.
pub open spec fn turn(found: (int, int), draw: SteeringDraw) -> int {
    if found.0 <= SIGNAL_CUTOFF {
        draw.explore_angle as int
    } else {
        found.1 + jitter(draw.jitter_angle as int, found.0)
    }
}

/// The offset of direction `angle` and length `length`.
pub open spec fn offset(angle: int, length: int) -> Vec2 {
    Vec2 {
        x: (cosine(angle) * length / (UNIT as int)) as i64,
        y: (sine(angle) * length / (UNIT as int)) as i64,
    }
}

/// The sum of two vectors.
pub open spec fn sum(a: Vec2, b: Vec2) -> Vec2 {
    Vec2 { x: (a.x + b.x) as i64, y: (a.y + b.y) as i64 }
}

/// `ant` after one steering step over `grid` with the random numbers `draw`:
/// it turns, then moves one unit step along its new heading bent by the
/// offset, and comes back in on the far side where it leaves the world.
pub open spec fn steered(ant: Ant, grid: PheromoneGrid, draw: SteeringDraw) -> Ant {
    let found = scanned(ant, grid, PROBES as nat);
    let direction = normalized(rotated(ant.direction, turn(found, draw)));
    let step = normalized(
        sum(direction, offset(draw.offset_angle as int, draw.offset_length as int)),
    );
    Ant {
        position: Vec2 {
            x: wrapped(ant.position.x + step.x, grid.width * UNIT) as i64,
            y: wrapped(ant.position.y + step.y, grid.height * UNIT) as i64,
        },
        direction,
        carrying_food: ant.carrying_food,
        lifetime: ant.lifetime,
        reset_lifetime: ant.reset_lifetime,
    }
}

/// Over a field without a usable signal, where no cell exceeds
/// `SIGNAL_CUTOFF`, an ant explores: it turns by the random angle of the
/// exploration cone and never toward a probe.
pub proof fn lemma_no_signal_explores(ant: Ant, grid: PheromoneGrid, draw: SteeringDraw)
    requires
        grid.wf(),
        forall|x: int, y: int|
            0 <= x < grid.width && 0 <= y < grid.height ==> #[trigger] grid.cell(x, y)
                <= SIGNAL_CUTOFF,
    ensures
        turn(scanned(ant, grid, PROBES as nat), draw) == draw.explore_angle,
        steered(ant, grid, draw).direction == normalized(
            rotated(ant.direction, draw.explore_angle as int),
        ),
{
    lemma_scanned_bounded(ant, grid, PROBES as nat, SIGNAL_CUTOFF as int);
}

/// A steering step leaves the heading at unit length and the position
/// inside the world, whatever was drawn, and changes neither the goal nor
/// the lifetime.
pub proof fn lemma_steered_stays_inside(ant: Ant, grid: PheromoneGrid, draw: SteeringDraw)
    requires
        grid.wf(),
        ant.direction.is_unit(),
    ensures
        steered(ant, grid, draw).direction.is_unit(),
        steered(ant, grid, draw).in_bounds(grid.width as int, grid.height as int),
        steered(ant, grid, draw).carrying_food == ant.carrying_food,
        steered(ant, grid, draw).lifetime == ant.lifetime,
        steered(ant, grid, draw).reset_lifetime == ant.reset_lifetime,
{
    let found = scanned(ant, grid, PROBES as nat);
    let turned = rotated(ant.direction, turn(found, draw));
    lemma_rotated_nearly_unit(ant.direction, turn(found, draw));
    lemma_normalized_is_unit(turned);
    let direction = normalized(turned);
    let step = normalized(
        sum(direction, offset(draw.offset_angle as int, draw.offset_length as int)),
    );
    assert(grid.width * UNIT > 0 && grid.height * UNIT > 0) by (nonlinear_arith)
        requires
            grid.width > 0,
            grid.height > 0,
    ;
    vstd::arithmetic::div_mod::lemma_mod_bound(
        ant.position.x + step.x,
        grid.width * UNIT,
    );
    vstd::arithmetic::div_mod::lemma_mod_bound(
        ant.position.y + step.y,
        grid.height * UNIT,
    );
}

/// Looks from `ant` into its view cone and reports the strongest intensity
/// and the angle under which it was first seen.
pub fn scan(ant: &Ant, pheromone_grid: &PheromoneGrid) -> (found: (u64, i64))
    requires
        pheromone_grid.wf(),
        ant.wf(pheromone_grid.width as int, pheromone_grid.height as int),
    ensures
        (found.0 as int, found.1 as int) == scanned(*ant, *pheromone_grid, PROBES as nat),
        found.0 <= FULL_INTENSITY,
        -VIEW_ANGLE <= found.1 <= VIEW_ANGLE,
{
    let mut max_pheromone: u64 = 0;
    let mut best_angle: i64 = 0;
    let mut angle: i64 = -VIEW_ANGLE;
    while angle <= VIEW_ANGLE
        invariant
            pheromone_grid.wf(),
            ant.wf(pheromone_grid.width as int, pheromone_grid.height as int),
            -VIEW_ANGLE <= angle <= VIEW_ANGLE + 1,
            (max_pheromone as int, best_angle as int) == scanned(
                *ant,
                *pheromone_grid,
                ((angle + VIEW_ANGLE) * VIEW_RADIUS) as nat,
            ),
            max_pheromone <= FULL_INTENSITY,
            -VIEW_ANGLE <= best_angle <= VIEW_ANGLE,
        decreases VIEW_ANGLE + 1 - angle,
    {
        proof {
            lemma_unit_within(ant.direction);
            lemma_rotated_nearly_unit(ant.direction, angle as int);
        }
        let rotated_direction = rotate_vector(ant.direction, angle);
        let mut dist: i64 = 1;
        while dist <= VIEW_RADIUS
            invariant
                pheromone_grid.wf(),
                ant.wf(pheromone_grid.width as int, pheromone_grid.height as int),
                -VIEW_ANGLE <= angle <= VIEW_ANGLE,
                1 <= dist <= VIEW_RADIUS + 1,
                rotated_direction == rotated(ant.direction, angle as int),
                rotated_direction.within(4 * UNIT),
                (max_pheromone as int, best_angle as int) == scanned(
                    *ant,
                    *pheromone_grid,
                    ((angle + VIEW_ANGLE) * VIEW_RADIUS + dist - 1) as nat,
                ),
                max_pheromone <= FULL_INTENSITY,
                -VIEW_ANGLE <= best_angle <= VIEW_ANGLE,
            decreases VIEW_RADIUS + 1 - dist,
        {
            let ghost n = (angle + VIEW_ANGLE) * VIEW_RADIUS + dist - 1;
            assert(probe_angle(n) == angle && probe_distance(n) == dist);
            proof {
                lemma_product_bound(
                    rotated_direction.x as int,
                    dist as int,
                    4 * UNIT,
                    VIEW_RADIUS as int,
                );
                lemma_product_bound(
                    rotated_direction.y as int,
                    dist as int,
                    4 * UNIT,
                    VIEW_RADIUS as int,
                );
            }
            let check_position = Vec2 {
                x: ant.position.x + rotated_direction.x * dist,
                y: ant.position.y + rotated_direction.y * dist,
            };
            assert(check_position == probe_position(*ant, angle as int, dist as int));
            let pheromone_value = get_pheromone_value(check_position, pheromone_grid);
            assert(pheromone_value == probe_value(*ant, *pheromone_grid, n));
            if pheromone_value > max_pheromone {
                max_pheromone = pheromone_value;
                best_angle = angle;
            }
            dist += 1;
        }
        angle += 1;
    }
    (max_pheromone, best_angle)
}

/// An offset is shorter than any unit vector.
pub proof fn lemma_offset_short(angle: int, length: int)
    requires
        0 <= length < MAX_OFFSET,
    ensures
        offset(angle, length).within(MAX_OFFSET as int),
        offset(angle, length).length_squared() < UNIT * UNIT - UNIT_TOLERANCE,
{
    let u = UNIT as int;
    let c = cosine(angle);
    let s = sine(angle);
    lemma_sine_cosine(angle);
    lemma_product_bound(c, length, u, length);
    lemma_product_bound(s, length, u, length);
    assert(u * length == length * u) by (nonlinear_arith);
    lemma_floor_square_gap(c * length, u, length);
    lemma_floor_square_gap(s * length, u, length);
    let a = c * length / u;
    let b = s * length / u;
    assert(offset(angle, length).x == a && offset(angle, length).y == b);
    let uu = u * u;
    let r = a * a + b * b;
    assert((c * length) * (c * length) + (s * length) * (s * length) == (c * c + s * s) * (length
        * length)) by (nonlinear_arith);
    assert((c * c + s * s) * (length * length) <= (uu + 2 * u) * (800_000 * 800_000))
        by (nonlinear_arith)
        requires
            0 <= c * c + s * s <= uu + 2 * u,
            0 <= length < 800_000,
    ;
    assert(a * a * uu + b * b * uu == r * uu) by (nonlinear_arith)
        requires
            r == a * a + b * b,
    ;
    assert(r < uu - 10 * u) by (nonlinear_arith)
        requires
            (c * length) * (c * length) + (s * length) * (s * length) <= (uu + 2 * u) * (800_000
                * 800_000),
            (c * length) * (c * length) - a * a * uu >= -(uu * (2 * length + 1)),
            (s * length) * (s * length) - b * b * uu >= -(uu * (2 * length + 1)),
            a * a * uu + b * b * uu == r * uu,
            0 <= length < 800_000,
            uu == 1_000_000_000_000,
            u == 1_000_000,
    ;
}

/// One steering step of `ant` over `pheromone_grid`, the field that it
/// follows, with the random numbers `draw`.
pub fn steer(ant: &Ant, pheromone_grid: &PheromoneGrid, draw: &SteeringDraw) -> (moved: Ant)
    requires
        pheromone_grid.wf(),
        ant.wf(pheromone_grid.width as int, pheromone_grid.height as int),
        draw.valid(),
    ensures
        moved == steered(*ant, *pheromone_grid, *draw),
        moved.wf(pheromone_grid.width as int, pheromone_grid.height as int),
{
    let found = scan(ant, pheromone_grid);
    let turn_angle = if found.0 <= SIGNAL_CUTOFF {
        draw.explore_angle
    } else {
        let weakness = (FULL_INTENSITY - found.0) as i64;
        proof {
            lemma_product_bound(
                draw.jitter_angle as int,
                weakness as int,
                JITTER_ANGLE as int,
                FULL_INTENSITY as int,
            );
            lemma_floor_square_gap(
                draw.jitter_angle * weakness,
                FULL_INTENSITY as int,
                JITTER_ANGLE as int,
            );
        }
        found.1 + div_floor(draw.jitter_angle * weakness, FULL_INTENSITY as i64)
    };
    assert(turn_angle == turn((found.0 as int, found.1 as int), *draw));
    proof {
        lemma_unit_within(ant.direction);
        lemma_rotated_nearly_unit(ant.direction, turn_angle as int);
        lemma_normalized_is_unit(rotated(ant.direction, turn_angle as int));
    }
    let direction = normalize(rotate_vector(ant.direction, turn_angle));
    let cos_angle = cos_degrees(draw.offset_angle);
    let sin_angle = sin_degrees(draw.offset_angle);
    proof {
        lemma_product_bound(
            cos_angle as int,
            draw.offset_length as int,
            UNIT as int,
            MAX_OFFSET as int,
        );
        lemma_product_bound(
            sin_angle as int,
            draw.offset_length as int,
            UNIT as int,
            MAX_OFFSET as int,
        );
        lemma_offset_short(draw.offset_angle as int, draw.offset_length as int);
    }
    let random_offset = Vec2 {
        x: div_floor(cos_angle * draw.offset_length, UNIT),
        y: div_floor(sin_angle * draw.offset_length, UNIT),
    };
    assert(random_offset == offset(draw.offset_angle as int, draw.offset_length as int));
    let bent = Vec2 { x: direction.x + random_offset.x, y: direction.y + random_offset.y };
    proof {
        lemma_sum_nonzero(direction, random_offset);
    }
    let step = normalize(bent);
    let world_width = pheromone_grid.get_width() as i64 * UNIT;
    let world_height = pheromone_grid.get_height() as i64 * UNIT;
    Ant {
        position: Vec2 {
            x: wrap(ant.position.x + step.x, world_width),
            y: wrap(ant.position.y + step.y, world_height),
        },
        direction,
        carrying_food: ant.carrying_food,
        lifetime: ant.lifetime,
        reset_lifetime: ant.reset_lifetime,
    }
}

/// Draws the random numbers of one steering step.
pub fn draw_steering(rng: &mut rand::rngs::ThreadRng) -> (draw: SteeringDraw)
    ensures
        draw.valid(),
{
    let explore_angle = gen_range(rng, -EXPLORE_ANGLE, EXPLORE_ANGLE);
    let jitter_angle = gen_range(rng, -JITTER_ANGLE, JITTER_ANGLE);
    let offset_angle = gen_range(rng, 0, 359);
    let offset_length = gen_range(rng, 0, MAX_OFFSET - 1);
    SteeringDraw { explore_angle, jitter_angle, offset_angle, offset_length }
}

/// The field that an ant follows: the nest field while it carries food, the
/// food field while it searches.
pub open spec fn followed(
    carrying_food: bool,
    food_pheromones: PheromoneGrid,
    nest_pheromones: PheromoneGrid,
) -> PheromoneGrid {
    if carrying_food {
        nest_pheromones
    } else {
        food_pheromones
    }
}

/// Whether `after` is `before` after a steering step over `grid` with some
/// valid draw.
pub open spec fn steering_of(before: Ant, after: Ant, grid: PheromoneGrid) -> bool {
    exists|draw: SteeringDraw| draw.valid() && after == #[trigger] steered(before, grid, draw)
}

/// The steering step of a tick: every ant turns and moves by one steering
/// step over the field that it follows, each with random numbers of its own.
/// The fields are only read.
pub fn follow_pheromones_system(
    ants: &mut Vec<Ant>,
    food_pheromones: &PheromoneGrid,
    nest_pheromones: &PheromoneGrid,
)
    requires
        food_pheromones.wf(),
        nest_pheromones.wf(),
        food_pheromones.width == nest_pheromones.width,
        food_pheromones.height == nest_pheromones.height,
        forall|i: int|
            0 <= i < old(ants)@.len() ==> (#[trigger] old(ants)@[i]).wf(
                food_pheromones.width as int,
                food_pheromones.height as int,
            ),
    ensures
        final(ants)@.len() == old(ants)@.len(),
        forall|i: int|
            0 <= i < old(ants)@.len() ==> {
                &&& (#[trigger] final(ants)@[i]).wf(
                    food_pheromones.width as int,
                    food_pheromones.height as int,
                )
                &&& steering_of(
                    old(ants)@[i],
                    final(ants)@[i],
                    followed(old(ants)@[i].carrying_food, *food_pheromones, *nest_pheromones),
                )
            },
{
    let mut rng = rand::thread_rng();
    let ghost before = ants@;
    let mut i: usize = 0;
    while i < ants.len()
        invariant
            food_pheromones.wf(),
            nest_pheromones.wf(),
            food_pheromones.width == nest_pheromones.width,
            food_pheromones.height == nest_pheromones.height,
            i <= ants@.len(),
            ants@.len() == before.len(),
            forall|j: int|
                0 <= j < before.len() ==> (#[trigger] before[j]).wf(
                    food_pheromones.width as int,
                    food_pheromones.height as int,
                ),
            forall|j: int| i <= j < before.len() ==> ants@[j] == before[j],
            forall|j: int|
                0 <= j < i ==> {
                    &&& (#[trigger] ants@[j]).wf(
                        food_pheromones.width as int,
                        food_pheromones.height as int,
                    )
                    &&& steering_of(
                        before[j],
                        ants@[j],
                        followed(before[j].carrying_food, *food_pheromones, *nest_pheromones),
                    )
                },
        decreases ants@.len() - i,
    {
        let ant = ants[i];
        let draw = draw_steering(&mut rng);
        let moved = if ant.carrying_food {
            steer(&ant, nest_pheromones, &draw)
        } else {
            steer(&ant, food_pheromones, &draw)
        };
        ants[i] = moved;
        i += 1;
    }
}

} // verus!
