use crate::ant::Ant;
use crate::food::Food;
use crate::utils::geometry::Vec2;
use vstd::prelude::*;

verus! {

/// An ant that searches picks food up from a source closer than this.
pub const PICKUP_RADIUS: i64 = 5_000_000;

/// An ant that carries food drops it closer to the nest than this.
pub const NEST_RADIUS: i64 = 10_000_000;

/// Whether `a` and `b` are less than `radius` apart.
pub open spec fn closer_than(a: Vec2, b: Vec2, radius: int) -> bool {
    (a.x - b.x) * (a.x - b.x) + (a.y - b.y) * (a.y - b.y) < radius * radius
}

/// Whether some food source lies within the pickup radius of `position`.
pub open spec fn found_food(position: Vec2, food: Seq<Food>) -> bool {
    exists|k: int|
        0 <= k < food.len() && closer_than(
            (#[trigger] food[k]).position,
            position,
            PICKUP_RADIUS as int,
        )
}

/// Whether `position` lies within the nest radius of the origin, where the
/// nest is.
pub open spec fn reached_nest(position: Vec2) -> bool {
    closer_than(position, Vec2 { x: 0, y: 0 }, NEST_RADIUS as int)
}

/// `ant` after the goal transition of a tick: a searching ant that found
/// food now carries it and is due a fresh lifetime, a carrying ant that
/// reached the nest searches again, and every other ant stays as it is.
pub open spec fn goal_after(ant: Ant, food: Seq<Food>) -> Ant {
    if !ant.carrying_food && found_food(ant.position, food) {
        Ant { carrying_food: true, reset_lifetime: true, ..ant }
    } else if ant.carrying_food && reached_nest(ant.position) {
        Ant { carrying_food: false, ..ant }
    } else {
        ant
    }
}

/// The goal transition moves no ant and flips its goal at most once: an
/// ant that takes food up in a tick does not drop it in the same tick, nor
/// the other way round.
pub proof fn lemma_goal_flips_at_most_once(ant: Ant, food: Seq<Food>)
    ensures
        goal_after(ant, food).position == ant.position,
        goal_after(ant, food).direction == ant.direction,
        goal_after(ant, food).lifetime == ant.lifetime,
        goal_after(ant, food).carrying_food != ant.carrying_food <==> if ant.carrying_food {
            reached_nest(ant.position)
        } else {
            found_food(ant.position, food)
        },
{
}

/// Whether `a` and `b` are less than `radius` apart.
pub fn is_closer_than(a: Vec2, b: Vec2, radius: i64) -> (closer: bool)
    requires
        radius >= 0,
    ensures
        closer == closer_than(a, b, radius as int),
{
    let dx = a.x as i128 - b.x as i128;
    let dy = a.y as i128 - b.y as i128;
    let r = radius as i128;
    if dx >= r || dx <= -r || dy >= r || dy <= -r {
        assert(!closer_than(a, b, radius as int)) by (nonlinear_arith)
            requires
                dx == a.x - b.x,
                dy == a.y - b.y,
                r == radius,
                r >= 0,
                dx >= r || dx <= -r || dy >= r || dy <= -r,
        ;
        false
    } else {
        assert(0 <= dx * dx <= r * r && 0 <= dy * dy <= r * r && r * r
            <= 0x3fff_ffff_ffff_ffff_0000_0000_0000_0001) by (nonlinear_arith)
            requires
                -r < dx < r,
                -r < dy < r,
                r < 0x8000_0000_0000_0000,
        ;
        dx * dx + dy * dy < r * r
    }
}

/// Whether some food source lies within the pickup radius of `position`.
pub fn has_found_food(position: Vec2, food: &Vec<Food>) -> (found: bool)
    ensures
        found == found_food(position, food@),
{
    let mut k: usize = 0;
    while k < food.len()
        invariant
            k <= food@.len(),
            forall|j: int|
                0 <= j < k ==> !closer_than(
                    (#[trigger] food@[j]).position,
                    position,
                    PICKUP_RADIUS as int,
                ),
        decreases food@.len() - k,
    {
        if is_closer_than(food[k].position, position, PICKUP_RADIUS) {
            return true;
        }
        k += 1;
    }
    false
}

/// The goal transition of one ant.
pub fn goal_transition(ant: &Ant, food: &Vec<Food>) -> (after: Ant)
    ensures
        after == goal_after(*ant, food@),
{
    if !ant.carrying_food {
        if has_found_food(ant.position, food) {
            Ant {
                position: ant.position,
                direction: ant.direction,
                carrying_food: true,
                lifetime: ant.lifetime,
                reset_lifetime: true,
            }
        } else {
            *ant
        }
    } else {
        if is_closer_than(ant.position, Vec2 { x: 0, y: 0 }, NEST_RADIUS) {
            Ant {
                position: ant.position,
                direction: ant.direction,
                carrying_food: false,
                lifetime: ant.lifetime,
                reset_lifetime: ant.reset_lifetime,
            }
        } else {
            *ant
        }
    }
}

/// The goal transition of a tick: every ant that searches and stands within
/// the pickup radius of a food source takes food up, and every ant that
/// carries food and stands within the nest radius of the origin drops it.
pub fn ant_goal_system(ants: &mut Vec<Ant>, food: &Vec<Food>)
    ensures
        final(ants)@.len() == old(ants)@.len(),
        forall|i: int|
            0 <= i < old(ants)@.len() ==> #[trigger] final(ants)@[i] == goal_after(
                old(ants)@[i],
                food@,
            ),
{
    let ghost before = ants@;
    let mut i: usize = 0;
    while i < ants.len()
        invariant
            i <= ants@.len(),
            ants@.len() == before.len(),
            forall|j: int| i <= j < before.len() ==> ants@[j] == before[j],
            forall|j: int| 0 <= j < i ==> #[trigger] ants@[j] == goal_after(before[j], food@),
        decreases ants@.len() - i,
    {
        let after = goal_transition(&ants[i], food);
        ants[i] = after;
        i += 1;
    }
}

} // verus!
