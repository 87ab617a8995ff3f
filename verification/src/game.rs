use crate::ant::{is_newborn, setup, Ant};
use crate::food::{food_position, setup_food, Food, FOOD_COUNT};
use crate::pheromones::{
    deposits_at, update_pheromone_grid, updated, PheromoneGrid, PheromoneGridTrait,
    PheromoneType, PHEROMONE_DECAY_RATE,
};
use crate::systems::ant_goal_system::{ant_goal_system, goal_after};
use crate::systems::ant_lifetime_reset_system::{ant_lifetime_reset_system, lifetime_reset_of};
use crate::systems::ant_rebirth_system::{aged, ant_rebirth_system};
use crate::systems::follow_pheromone_system::{
    follow_pheromones_system, followed, steering_of,
};
use crate::utils::geometry::MAX_EXTENT;
use vstd::prelude::*;

verus! {

/// The whole state of a simulation: the ants, the food sources and the two
/// pheromone fields.
pub struct Game {
    pub ants: Vec<Ant>,
    pub food: Vec<Food>,
    pub food_pheromones: PheromoneGrid,
    pub nest_pheromones: PheromoneGrid,
}

/// Whether `after` is what one tick may make of `before`: the goal
/// transition, then a steering step over the field that the ant follows,
/// then ageing by `elapsed` microseconds, then the lifetime reset.
pub open spec fn tick_of(
    before: Ant,
    after: Ant,
    food: Seq<Food>,
    food_pheromones: PheromoneGrid,
    nest_pheromones: PheromoneGrid,
    elapsed: int,
) -> bool {
    let decided = goal_after(before, food);
    exists|moved: Ant|
        {
            &&& #[trigger] steering_of(
                decided,
                moved,
                followed(decided.carrying_food, food_pheromones, nest_pheromones),
            )
            &&& lifetime_reset_of(aged(moved, elapsed), after)
        }
}

impl Game {
    /// Both fields are well formed, of their own category and of one size,
    /// and every ant stands inside the world with a heading of unit length.
    pub open spec fn wf(&self) -> bool {
        &&& self.food_pheromones.wf()
        &&& self.nest_pheromones.wf()
        &&& self.food_pheromones.kind == PheromoneType::Food
        &&& self.nest_pheromones.kind == PheromoneType::Nest
        &&& self.food_pheromones.width == self.nest_pheromones.width
        &&& self.food_pheromones.height == self.nest_pheromones.height
        &&& forall|i: int|
            0 <= i < self.ants@.len() ==> (#[trigger] self.ants@[i]).wf(
                self.food_pheromones.width as int,
                self.food_pheromones.height as int,
            )
    }

    /// Whether the state is well formed.
    pub fn is_valid(&self) -> (valid: bool)
        ensures
            valid == self.wf(),
    {
        if !self.food_pheromones.is_valid() || !self.nest_pheromones.is_valid() {
            return false;
        }
        if self.food_pheromones.kind != PheromoneType::Food || self.nest_pheromones.kind
            != PheromoneType::Nest {
            return false;
        }
        let width = self.food_pheromones.get_width();
        let height = self.food_pheromones.get_height();
        if self.nest_pheromones.get_width() != width || self.nest_pheromones.get_height()
            != height {
            return false;
        }
        let mut i: usize = 0;
        while i < self.ants.len()
            invariant
                i <= self.ants@.len(),
                width == self.food_pheromones.width,
                height == self.food_pheromones.height,
                width <= MAX_EXTENT,
                height <= MAX_EXTENT,
                forall|j: int|
                    0 <= j < i ==> (#[trigger] self.ants@[j]).wf(width as int, height as int),
            decreases self.ants@.len() - i,
        {
            if !self.ants[i].is_valid(width, height) {
                return false;
            }
            i += 1;
        }
        true
    }

    /// A world of `width` by `height` cells with empty fields, its food
    /// sources laid out and `ant_count` newborn ants at the nest.
    pub fn new(width: usize, height: usize, ant_count: usize) -> (game: Game)
        requires
            0 < width <= MAX_EXTENT,
            0 < height <= MAX_EXTENT,
        ensures
            game.wf(),
            game.ants@.len() == ant_count,
            forall|i: int| 0 <= i < ant_count ==> is_newborn(#[trigger] game.ants@[i]),
            game.food@.len() == FOOD_COUNT,
            forall|k: int|
                0 <= k < FOOD_COUNT ==> (#[trigger] game.food@[k]).position == food_position(
                    width as int,
                    height as int,
                    k + 1,
                ),
            game.food_pheromones.width == width,
            game.food_pheromones.height == height,
            forall|x: int, y: int|
                0 <= x < width && 0 <= y < height ==> game.food_pheromones.cell(x, y) == 0
                    && game.nest_pheromones.cell(x, y) == 0,
    {
        let ants = setup(ant_count);
        let food = setup_food(width, height);
        let food_pheromones = PheromoneGrid::new(PheromoneType::Food, width, height);
        let nest_pheromones = PheromoneGrid::new(PheromoneType::Nest, width, height);
        Game { ants, food, food_pheromones, nest_pheromones }
    }

    /// One tick of `elapsed` microseconds. The steps run in a fixed order:
    /// goal transition, steering, ageing and rebirth, lifetime reset, and
    /// last the update of both fields. So the ants steer over the fields as
    /// the tick before left them, and the fields take their deposits at the
    /// positions that the ants have reached in this tick.
    pub fn tick(&mut self, elapsed: u64)
        requires
            old(self).wf(),
        ensures
            final(self).wf(),
            final(self).food == old(self).food,
            final(self).ants@.len() == old(self).ants@.len(),
            final(self).food_pheromones.width == old(self).food_pheromones.width,
            final(self).food_pheromones.height == old(self).food_pheromones.height,
            forall|i: int|
                0 <= i < old(self).ants@.len() ==> tick_of(
                    old(self).ants@[i],
                    #[trigger] final(self).ants@[i],
                    old(self).food@,
                    old(self).food_pheromones,
                    old(self).nest_pheromones,
                    elapsed as int,
                ),
            forall|x: int, y: int|
                0 <= x < old(self).food_pheromones.width
                    && 0 <= y < old(self).food_pheromones.height ==> {
                    &&& #[trigger] final(self).food_pheromones.cell(x, y) == updated(
                        old(self).food_pheromones.cell(x, y),
                        PheromoneType::Food.increment_spec() as int,
                        deposits_at(
                            final(self).ants@,
                            PheromoneType::Food,
                            old(self).food_pheromones.width as int,
                            old(self).food_pheromones.height as int,
                            x,
                            y,
                        ) as int,
                        PHEROMONE_DECAY_RATE as int,
                    )
                    &&& #[trigger] final(self).nest_pheromones.cell(x, y) == updated(
                        old(self).nest_pheromones.cell(x, y),
                        PheromoneType::Nest.increment_spec() as int,
                        deposits_at(
                            final(self).ants@,
                            PheromoneType::Nest,
                            old(self).food_pheromones.width as int,
                            old(self).food_pheromones.height as int,
                            x,
                            y,
                        ) as int,
                        PHEROMONE_DECAY_RATE as int,
                    )
                },
    {
        let ghost width = self.food_pheromones.width as int;
        let ghost height = self.food_pheromones.height as int;
        let ghost born = self.ants@;
        ant_goal_system(&mut self.ants, &self.food);
        let ghost decided = self.ants@;
        assert forall|i: int| 0 <= i < decided.len() implies (#[trigger] decided[i]).wf(
            width,
            height,
        ) by {
            assert(born[i].wf(width, height));
        }
        follow_pheromones_system(&mut self.ants, &self.food_pheromones, &self.nest_pheromones);
        let ghost moved = self.ants@;
        ant_rebirth_system(&mut self.ants, elapsed);
        let ghost grown = self.ants@;
        ant_lifetime_reset_system(&mut self.ants);
        proof {
            assert forall|i: int| 0 <= i < born.len() implies {
                &&& (#[trigger] self.ants@[i]).wf(width, height)
                &&& tick_of(
                    born[i],
                    self.ants@[i],
                    self.food@,
                    self.food_pheromones,
                    self.nest_pheromones,
                    elapsed as int,
                )
            } by {
                assert(decided[i] == goal_after(born[i], self.food@));
                assert(moved[i].wf(width, height));
                assert(steering_of(
                    decided[i],
                    moved[i],
                    followed(decided[i].carrying_food, self.food_pheromones, self.nest_pheromones),
                ));
                assert(grown[i] == aged(moved[i], elapsed as int));
                assert(lifetime_reset_of(grown[i], self.ants@[i]));
            }
        }
        update_pheromone_grid(&mut self.food_pheromones, &self.ants);
        update_pheromone_grid(&mut self.nest_pheromones, &self.ants);
    }
}

} // verus!
