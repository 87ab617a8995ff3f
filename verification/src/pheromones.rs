use crate::ant::Ant;
use crate::utils::arithmetic::{div_floor, wrap};
use crate::utils::geometry::{Vec2, MAX_EXTENT, UNIT};
use rayon::iter::{IntoParallelRefMutIterator, ParallelIterator};
use vstd::arithmetic::power::pow;
use vstd::prelude::*;

verus! {

/// Fixed-point scale of intensities: the largest intensity a cell can hold.
pub const FULL_INTENSITY: u64 = 1_000_000_000;

/// Factor by which every cell shrinks per tick, out of `FULL_INTENSITY`.
pub const PHEROMONE_DECAY_RATE: u64 = 999_990_000;

/// What an ant adds to its cell of the nest field per tick.
pub const PHEROMONE_INCREMENT: u64 = 20_000_000;

/// What an ant adds to its cell of the food field per tick.
pub const FOOD_PHEROMONE_INCREMENT: u64 = 50_000_000;

/// The two pheromone categories.
#[derive(Debug, Clone, Copy, PartialEq, Eq, Structural)]
pub enum PheromoneType {
    Nest,
    Food,
}

/// Colour channels in which a field is drawn.
#[derive(Debug, Clone, Copy, PartialEq, Eq, Structural)]
pub struct PheromoneColor {
    pub r: u8,
    pub g: u8,
    pub b: u8,
    pub a: u8,
}

impl PheromoneColor {
    /// Channel `index` of the colour, in the order red, green, blue, alpha.
    pub open spec fn channel_spec(self, index: int) -> u8 {
        if index == 0 {
            self.r
        } else if index == 1 {
            self.g
        } else if index == 2 {
            self.b
        } else {
            self.a
        }
    }

    /// Channel `index` of the colour, in the order red, green, blue, alpha.
    pub fn channel(&self, index: usize) -> (value: u8)
        ensures
            value == self.channel_spec(index as int),
    {
        if index == 0 {
            self.r
        } else if index == 1 {
            self.g
        } else if index == 2 {
            self.b
        } else {
            self.a
        }
    }
}

impl PheromoneType {
    /// What one ant adds to its cell of a field of this category per tick.
    pub open spec fn increment_spec(self) -> u64 {
        match self {
            PheromoneType::Nest => PHEROMONE_INCREMENT,
            PheromoneType::Food => FOOD_PHEROMONE_INCREMENT,
        }
    }

    /// What one ant adds to its cell of a field of this category per tick.
    #[verifier::when_used_as_spec(increment_spec)]
    pub fn increment(self) -> (amount: u64)
        ensures
            amount == self.increment_spec(),
    {
        match self {
            PheromoneType::Nest => PHEROMONE_INCREMENT,
            PheromoneType::Food => FOOD_PHEROMONE_INCREMENT,
        }
    }

    /// The colour in which a field of this category is drawn.
    pub open spec fn color_spec(self) -> PheromoneColor {
        match self {
            PheromoneType::Nest => PheromoneColor { r: 0, g: 0, b: 0, a: 255 },
            PheromoneType::Food => PheromoneColor { r: 20, g: 100, b: 20, a: 255 },
        }
    }

    /// The colour in which a field of this category is drawn.
    #[verifier::when_used_as_spec(color_spec)]
    pub fn color(self) -> (color: PheromoneColor)
        ensures
            color == self.color_spec(),
    {
        match self {
            PheromoneType::Nest => PheromoneColor { r: 0, g: 0, b: 0, a: 255 },
            PheromoneType::Food => PheromoneColor { r: 20, g: 100, b: 20, a: 255 },
        }
    }

    /// The field that an ant marks, and follows: the food field while it
    /// searches, the nest field while it carries food.
    pub open spec fn of_ant_spec(carrying_food: bool) -> PheromoneType {
        if carrying_food {
            PheromoneType::Nest
        } else {
            PheromoneType::Food
        }
    }

    /// The field that an ant marks, and follows: the food field while it
    /// searches, the nest field while it carries food.
    #[verifier::when_used_as_spec(of_ant_spec)]
    pub fn of_ant(carrying_food: bool) -> (kind: PheromoneType)
        ensures
            kind == Self::of_ant_spec(carrying_food),
    {
        if carrying_food {
            PheromoneType::Nest
        } else {
            PheromoneType::Food
        }
    }
}

/// The grid index of a fixed-point coordinate: its whole cell, wrapped
/// around an axis of `extent` cells.
pub open spec fn cell_index(coordinate: int, extent: int) -> int {
    (coordinate / (UNIT as int)) % extent
}

/// What remains of an intensity after one tick at decay factor `rate`.
pub open spec fn decayed(value: int, rate: int) -> int {
    value * rate / (FULL_INTENSITY as int)
}

/// What an intensity becomes when `amount` is added to it.
pub open spec fn deposited(value: int, amount: int) -> int {
    if value + amount <= FULL_INTENSITY {
        value + amount
    } else {
        FULL_INTENSITY as int
    }
}

/// A column of cells after one tick of decay.
pub open spec fn decayed_column(column: Seq<u64>, rate: int) -> Seq<u64> {
    Seq::new(column.len(), |y: int| decayed(column[y] as int, rate) as u64)
}

/// Decay never raises an intensity, and lowers every positive one.
pub proof fn lemma_decayed_bounds(value: int, rate: int)
    requires
        0 <= value,
        0 <= rate < FULL_INTENSITY,
    ensures
        0 <= decayed(value, rate) <= value,
        value > 0 ==> decayed(value, rate) < value,
{
    let full = FULL_INTENSITY as int;
    assert(0 <= value * rate <= value * full - value) by (nonlinear_arith)
        requires
            0 <= value,
            0 <= rate <= full - 1,
    ;
    vstd::arithmetic::div_mod::lemma_fundamental_div_mod(value * rate, full);
    let q = value * rate / full;
    assert(0 <= q && (value > 0 ==> q < value)) by (nonlinear_arith)
        requires
            0 <= value * rate <= value * full - value,
            value * rate == full * q + (value * rate) % full,
            0 <= (value * rate) % full < full,
            full == 1_000_000_000,
    ;
}

/// The grid index of a fixed-point coordinate on an axis of `extent` cells.
pub fn grid_index(coordinate: i64, extent: usize) -> (index: usize)
    requires
        0 < extent <= MAX_EXTENT,
    ensures
        index == cell_index(coordinate as int, extent as int),
        index < extent,
{
    let whole = div_floor(coordinate, UNIT);
    wrap(whole, extent as i64) as usize
}

/// Lets every cell of one column decay by one tick.
pub fn decay_column(column: &mut Vec<u64>, rate: u64)
    requires
        rate < FULL_INTENSITY,
        forall|y: int| 0 <= y < old(column)@.len() ==> old(column)@[y] <= FULL_INTENSITY,
    ensures
        final(column)@ == decayed_column(old(column)@, rate as int),
{
    let ghost before = column@;
    let mut y: usize = 0;
    while y < column.len()
        invariant
            rate < FULL_INTENSITY,
            y <= column@.len(),
            column@.len() == before.len(),
            forall|j: int| 0 <= j < before.len() ==> before[j] <= FULL_INTENSITY,
            forall|j: int| 0 <= j < y ==> column@[j] == decayed(before[j] as int, rate as int),
            forall|j: int| y <= j < before.len() ==> column@[j] == before[j],
        decreases column@.len() - y,
    {
        let value = column[y];
        proof {
            assert(value == before[y as int]);
            lemma_decayed_bounds(value as int, rate as int);
            assert(value * rate <= 1_000_000_000 * 1_000_000_000) by (nonlinear_arith)
                requires
                    0 <= value <= 1_000_000_000,
                    0 <= rate <= 1_000_000_000,
            ;
        }
        column[y] = value * rate / FULL_INTENSITY;
        y += 1;
    }
    proof {
        assert forall|j: int| 0 <= j < before.len() implies column@[j] == decayed_column(
            before,
            rate as int,
        )[j] by {
            lemma_decayed_bounds(before[j] as int, rate as int);
        }
        assert(column@ =~= decayed_column(before, rate as int));
    }
}

/// Hands the columns to rayon's `par_iter_mut().for_each`, which runs the
/// closure once on every element, in parallel; the closure lets one column
/// decay. Each column ends as `decay_column` leaves it, and their number
/// stays.
#[verifier::external_body]
fn decay_columns(grid: &mut Vec<Vec<u64>>, rate: u64)
    requires
        rate < FULL_INTENSITY,
        forall|x: int, y: int|
            0 <= x < old(grid)@.len() && 0 <= y < old(grid)@[x]@.len() ==> old(grid)@[x]@[y]
                <= FULL_INTENSITY,
    ensures
        final(grid)@.len() == old(grid)@.len(),
        forall|x: int|
            0 <= x < old(grid)@.len() ==> (#[trigger] final(grid)@[x])@ == decayed_column(
                old(grid)@[x]@,
                rate as int,
            ),
{
    grid.par_iter_mut().for_each(|column| decay_column(column, rate));
}

/// Whether `ant` marks cell `(x, y)` of a field of category `kind`.
pub open spec fn marks(ant: Ant, kind: PheromoneType, width: int, height: int, x: int, y: int)
    -> bool {
    &&& PheromoneType::of_ant_spec(ant.carrying_food) == kind
    &&& cell_index(ant.position.x as int, width) == x
    &&& cell_index(ant.position.y as int, height) == y
}

/// How many of `ants` mark cell `(x, y)` of a field of category `kind`.
pub open spec fn deposits_at(
    ants: Seq<Ant>,
    kind: PheromoneType,
    width: int,
    height: int,
    x: int,
    y: int,
) -> nat
    decreases ants.len(),
{
    if ants.len() == 0 {
        0
    } else {
        let rest = deposits_at(ants.drop_last(), kind, width, height, x, y);
        if marks(ants.last(), kind, width, height, x, y) {
            rest + 1
        } else {
            rest
        }
    }
}

/// What a cell holds after one field update in which `count` ants marked
/// it: the deposits are summed and clamped, then the cell decays.
pub open spec fn updated(value: int, amount: int, count: int, rate: int) -> int {
    decayed(deposited(value, amount * count), rate)
}

/// A 2D field of pheromone intensities, one cell per grid coordinate,
/// stored column by column.
pub struct PheromoneGrid {
    pub grid: Vec<Vec<u64>>,
    pub width: usize,
    pub height: usize,
    pub kind: PheromoneType,
}

impl PheromoneGrid {
    /// The intensity of cell `(x, y)`.
    pub open spec fn cell(&self, x: int, y: int) -> int {
        self.grid@[x]@[y] as int
    }

    /// The grid has `width` columns of `height` cells, both positive, and
    /// no cell exceeds `FULL_INTENSITY`.
    pub open spec fn wf(&self) -> bool {
        &&& 0 < self.width <= MAX_EXTENT
        &&& 0 < self.height <= MAX_EXTENT
        &&& self.grid@.len() == self.width
        &&& forall|x: int| 0 <= x < self.width ==> (#[trigger] self.grid@[x])@.len() == self.height
        &&& forall|x: int, y: int|
            0 <= x < self.width && 0 <= y < self.height ==> 0 <= #[trigger] self.cell(x, y)
                <= FULL_INTENSITY
    }

    /// The intensity of the cell that `position` falls into.
    pub open spec fn intensity_at(&self, position: Vec2) -> int {
        self.cell(
            cell_index(position.x as int, self.width as int),
            cell_index(position.y as int, self.height as int),
        )
    }

    /// A field of `width` by `height` cells, all zero.
    pub fn new(kind: PheromoneType, width: usize, height: usize) -> (field: PheromoneGrid)
        requires
            0 < width <= MAX_EXTENT,
            0 < height <= MAX_EXTENT,
        ensures
            field.wf(),
            field.kind == kind,
            field.width == width,
            field.height == height,
            forall|x: int, y: int| 0 <= x < width && 0 <= y < height ==> field.cell(x, y) == 0,
    {
        let mut grid: Vec<Vec<u64>> = Vec::new();
        let mut x: usize = 0;
        while x < width
            invariant
                x <= width,
                grid@.len() == x,
                forall|i: int| 0 <= i < x ==> (#[trigger] grid@[i])@.len() == height,
                forall|i: int, j: int| 0 <= i < x && 0 <= j < height ==> grid@[i]@[j] == 0,
            decreases width - x,
        {
            let mut column: Vec<u64> = Vec::new();
            let mut y: usize = 0;
            while y < height
                invariant
                    y <= height,
                    column@.len() == y,
                    forall|j: int| 0 <= j < y ==> column@[j] == 0,
                decreases height - y,
            {
                column.push(0);
                y += 1;
            }
            grid.push(column);
            x += 1;
        }
        PheromoneGrid { grid, width, height, kind }
    }

    /// Adds `amount` to the cell that `position` falls into, up to
    /// `FULL_INTENSITY`. Positions outside the world wrap around.
    pub fn deposit(&mut self, position: Vec2, amount: u64)
        requires
            old(self).wf(),
        ensures
            final(self).wf(),
            final(self).width == old(self).width,
            final(self).height == old(self).height,
            final(self).kind == old(self).kind,
            forall|x: int, y: int|
                0 <= x < old(self).width && 0 <= y < old(self).height
                    ==> #[trigger] final(self).cell(x, y) == if x == cell_index(
                    position.x as int,
                    old(self).width as int,
                ) && y == cell_index(position.y as int, old(self).height as int) {
                    deposited(old(self).cell(x, y), amount as int)
                } else {
                    old(self).cell(x, y)
                },
    {
        let x = grid_index(position.x, self.width);
        let y = grid_index(position.y, self.height);
        assert(self.cell(x as int, y as int) <= FULL_INTENSITY);
        let current = self.grid[x][y];
        let raised = if amount >= FULL_INTENSITY - current {
            FULL_INTENSITY
        } else {
            current + amount
        };
        self.grid[x][y] = raised;
        proof {
            assert forall|i: int, j: int| 0 <= i < self.width && 0 <= j < self.height implies 0
                <= #[trigger] self.cell(i, j) <= FULL_INTENSITY by {
                assert(old(self).cell(i, j) <= FULL_INTENSITY);
            }
        }
    }

    /// Multiplies every cell by `rate / FULL_INTENSITY`, rounding down.
    pub fn decay(&mut self, rate: u64)
        requires
            old(self).wf(),
            0 < rate < FULL_INTENSITY,
        ensures
            final(self).wf(),
            final(self).width == old(self).width,
            final(self).height == old(self).height,
            final(self).kind == old(self).kind,
            forall|x: int, y: int|
                0 <= x < old(self).width && 0 <= y < old(self).height
                    ==> #[trigger] final(self).cell(x, y) == decayed(
                    old(self).cell(x, y),
                    rate as int,
                ),
    {
        proof {
            assert forall|x: int, y: int|
                0 <= x < self.grid@.len() && 0 <= y < self.grid@[x]@.len() implies self.grid@[x]@[y]
                <= FULL_INTENSITY by {
                assert(self.cell(x, y) <= FULL_INTENSITY);
            }
        }
        decay_columns(&mut self.grid, rate);
        proof {
            assert forall|x: int, y: int| 0 <= x < self.width && 0 <= y < self.height implies
                #[trigger] self.cell(x, y) == decayed(old(self).cell(x, y), rate as int) && 0
                <= self.cell(x, y) <= FULL_INTENSITY by {
                assert(self.grid@[x]@ == decayed_column(old(self).grid@[x]@, rate as int));
                assert(old(self).cell(x, y) <= FULL_INTENSITY);
                lemma_decayed_bounds(old(self).cell(x, y), rate as int);
            }
            assert forall|x: int| 0 <= x < self.width implies (#[trigger] self.grid@[x])@.len()
                == self.height by {
                assert(self.grid@[x]@ == decayed_column(old(self).grid@[x]@, rate as int));
            }
        }
    }

    /// Whether the grid has the shape it claims and no cell above
    /// `FULL_INTENSITY`.
    pub fn is_valid(&self) -> (valid: bool)
        ensures
            valid == self.wf(),
    {
        if self.width == 0 || self.width > MAX_EXTENT || self.height == 0 || self.height
            > MAX_EXTENT || self.grid.len() != self.width {
            return false;
        }
        let mut x: usize = 0;
        while x < self.width
            invariant
                x <= self.width,
                self.grid@.len() == self.width,
                forall|i: int| 0 <= i < x ==> (#[trigger] self.grid@[i])@.len() == self.height,
                forall|i: int, j: int|
                    0 <= i < x && 0 <= j < self.height ==> 0 <= #[trigger] self.cell(i, j)
                        <= FULL_INTENSITY,
            decreases self.width - x,
        {
            if self.grid[x].len() != self.height {
                return false;
            }
            let mut y: usize = 0;
            while y < self.height
                invariant
                    x < self.width,
                    y <= self.height,
                    self.grid@.len() == self.width,
                    self.grid@[x as int]@.len() == self.height,
                    forall|j: int|
                        0 <= j < y ==> 0 <= #[trigger] self.cell(x as int, j) <= FULL_INTENSITY,
                decreases self.height - y,
            {
                if self.grid[x][y] > FULL_INTENSITY {
                    assert(self.cell(x as int, y as int) > FULL_INTENSITY);
                    return false;
                }
                y += 1;
            }
            x += 1;
        }
        true
    }
}

/// Read access to a pheromone field.
pub trait PheromoneGridTrait {
    /// The cells, column by column.
    fn get_grid(&self) -> &Vec<Vec<u64>>;

    /// The number of columns.
    fn get_width(&self) -> usize;

    /// The number of cells in a column.
    fn get_height(&self) -> usize;
}

impl PheromoneGridTrait for PheromoneGrid {
    fn get_grid(&self) -> (grid: &Vec<Vec<u64>>)
        ensures
            *grid == self.grid,
    {
        &self.grid
    }

    fn get_width(&self) -> (width: usize)
        ensures
            width == self.width,
    {
        self.width
    }

    fn get_height(&self) -> (height: usize)
        ensures
            height == self.height,
    {
        self.height
    }
}

/// Sizes `pheromone_grid` to a world of `width` by `height` cells and clears
/// it.
pub fn setup_pheromone_grid(pheromone_grid: &mut PheromoneGrid, width: usize, height: usize)
    requires
        0 < width <= MAX_EXTENT,
        0 < height <= MAX_EXTENT,
    ensures
        final(pheromone_grid).wf(),
        final(pheromone_grid).kind == old(pheromone_grid).kind,
        final(pheromone_grid).width == width,
        final(pheromone_grid).height == height,
        forall|x: int, y: int|
            0 <= x < width && 0 <= y < height ==> final(pheromone_grid).cell(x, y) == 0,
{
    *pheromone_grid = PheromoneGrid::new(pheromone_grid.kind, width, height);
}

/// Two deposits in a row amount to one deposit of their sum.
proof fn lemma_deposited_twice(value: int, first: int, second: int)
    requires
        0 <= value <= FULL_INTENSITY,
        0 <= first,
        0 <= second,
    ensures
        deposited(deposited(value, first), second) == deposited(value, first + second),
{
}

/// One tick of a field: every ant that marks this field deposits the field's
/// increment at its position, then the whole field decays. Deposits into one
/// cell add up before they are clamped.
pub fn update_pheromone_grid(pheromone_grid: &mut PheromoneGrid, ants: &Vec<Ant>)
    requires
        old(pheromone_grid).wf(),
    ensures
        final(pheromone_grid).wf(),
        final(pheromone_grid).width == old(pheromone_grid).width,
        final(pheromone_grid).height == old(pheromone_grid).height,
        final(pheromone_grid).kind == old(pheromone_grid).kind,
        forall|x: int, y: int|
            0 <= x < old(pheromone_grid).width && 0 <= y < old(pheromone_grid).height
                ==> #[trigger] final(pheromone_grid).cell(x, y) == updated(
                old(pheromone_grid).cell(x, y),
                old(pheromone_grid).kind.increment_spec() as int,
                deposits_at(
                    ants@,
                    old(pheromone_grid).kind,
                    old(pheromone_grid).width as int,
                    old(pheromone_grid).height as int,
                    x,
                    y,
                ) as int,
                PHEROMONE_DECAY_RATE as int,
            ),
{
    let ghost before = *pheromone_grid;
    let kind = pheromone_grid.kind;
    let amount = kind.increment();
    let ghost width = pheromone_grid.width as int;
    let ghost height = pheromone_grid.height as int;
    let mut i: usize = 0;
    while i < ants.len()
        invariant
            i <= ants@.len(),
            before.wf(),
            pheromone_grid.wf(),
            pheromone_grid.width == before.width == width,
            pheromone_grid.height == before.height == height,
            pheromone_grid.kind == kind,
            before.kind == kind,
            amount == kind.increment_spec(),
            forall|x: int, y: int|
                0 <= x < width && 0 <= y < height ==> #[trigger] pheromone_grid.cell(x, y)
                    == deposited(
                    before.cell(x, y),
                    amount * deposits_at(ants@.take(i as int), kind, width, height, x, y),
                ),
        decreases ants@.len() - i,
    {
        let ant = ants[i];
        let ghost earlier = *pheromone_grid;
        if PheromoneType::of_ant(ant.carrying_food) == kind {
            pheromone_grid.deposit(ant.position, amount);
        }
        proof {
            let prefix = ants@.take(i as int + 1);
            assert(prefix.drop_last() =~= ants@.take(i as int));
            assert(prefix.last() == ant);
            assert forall|x: int, y: int| 0 <= x < width && 0 <= y < height implies
                #[trigger] pheromone_grid.cell(x, y) == deposited(
                before.cell(x, y),
                amount * deposits_at(prefix, kind, width, height, x, y),
            ) by {
                let count = deposits_at(ants@.take(i as int), kind, width, height, x, y);
                assert(earlier.cell(x, y) == deposited(before.cell(x, y), amount * count));
                assert(0 <= before.cell(x, y) <= FULL_INTENSITY);
                assert(amount * (count + 1) == amount * count + amount && amount * count >= 0)
                    by (nonlinear_arith)
                    requires
                        amount >= 0,
                        count >= 0,
                ;
                if marks(ant, kind, width, height, x, y) {
                    lemma_deposited_twice(before.cell(x, y), amount * count, amount as int);
                }
            }
        }
        i += 1;
    }
    assert(ants@.take(ants@.len() as int) =~= ants@);
    pheromone_grid.decay(PHEROMONE_DECAY_RATE);
}

/// The brightness, from 0 to 255, in which an intensity is drawn.
pub open spec fn shade(value: int) -> int {
    value * 255 / (FULL_INTENSITY as int)
}

/// Byte `index` of the texture of `width` by `height` pixels that shows
/// `grid`. The texture holds its pixels row by row from the top, four bytes
/// each; the rows of the grid count from the bottom. A pixel over a cell has
/// the channels of the field's colour scaled by the shade of the cell, and a
/// pixel beside the grid is zero.
pub open spec fn texture_byte(grid: PheromoneGrid, width: int, height: int, index: int) -> int {
    let pixel = index / 4;
    let x = pixel % width;
    let y = height - 1 - pixel / width;
    if x < grid.width && 0 <= y < grid.height {
        grid.kind.color_spec().channel_spec(index % 4) * shade(grid.cell(x, y)) / 255
    } else {
        0
    }
}

/// The bytes of the texture of `width` by `height` pixels that shows
/// `pheromone_grid`.
pub fn update_pheromone_texture(pheromone_grid: &PheromoneGrid, width: u32, height: u32) -> (data:
    Vec<u8>)
    requires
        pheromone_grid.wf(),
        width * height * 4 <= usize::MAX,
    ensures
        data@.len() == width * height * 4,
        forall|index: int|
            0 <= index < data@.len() ==> #[trigger] data@[index] == texture_byte(
                *pheromone_grid,
                width as int,
                height as int,
                index,
            ),
{
    let color = pheromone_grid.kind.color();
    let mut data: Vec<u8> = Vec::new();
    if width == 0 || height == 0 {
        assert(width * height * 4 == 0) by (nonlinear_arith)
            requires
                width == 0 || height == 0,
        ;
        return data;
    }
    assert(width * height <= width * height * 4 && width * height >= 0) by (nonlinear_arith)
        requires
            width > 0,
            height > 0,
    ;
    let pixels = width as usize * height as usize;
    let length = pixels * 4;
    let mut index: usize = 0;
    while index < length
        invariant
            pheromone_grid.wf(),
            color == pheromone_grid.kind.color_spec(),
            width > 0,
            height > 0,
            pixels == width * height,
            length == pixels * 4,
            index <= length,
            data@.len() == index,
            forall|i: int|
                0 <= i < index ==> #[trigger] data@[i] == texture_byte(
                    *pheromone_grid,
                    width as int,
                    height as int,
                    i,
                ),
        decreases length - index,
    {
        let pixel = index / 4;
        let x = pixel % (width as usize);
        let row = pixel / (width as usize);
        proof {
            assert(row < height) by (nonlinear_arith)
                requires
                    row == pixel / (width as usize),
                    pixel < width * height,
                    width > 0,
            ;
        }
        let y = height as usize - 1 - row;
        let byte = if x < pheromone_grid.get_width() && y < pheromone_grid.get_height() {
            let value = pheromone_grid.get_grid()[x][y];
            assert(value == pheromone_grid.cell(x as int, y as int));
            let intensity = value * 255 / FULL_INTENSITY;
            let channel = color.channel(index % 4) as u64;
            assert(channel * intensity <= 255 * 255) by (nonlinear_arith)
                requires
                    channel <= 255,
                    intensity <= 255,
            ;
            (channel * intensity / 255) as u8
        } else {
            0
        };
        data.push(byte);
        index += 1;
    }
    data
}

/// What remains of an intensity after `ticks` ticks of decay at factor
/// `rate`, with no deposit in between.
pub open spec fn decayed_times(value: int, rate: int, ticks: nat) -> int
    decreases ticks,
{
    if ticks == 0 {
        value
    } else {
        decayed(decayed_times(value, rate, (ticks - 1) as nat), rate)
    }
}

/// What a cell holds after `ticks` field updates in which no ant marked it.
pub open spec fn updated_unmarked(value: int, amount: int, rate: int, ticks: nat) -> int
    decreases ticks,
{
    if ticks == 0 {
        value
    } else {
        updated(updated_unmarked(value, amount, rate, (ticks - 1) as nat), amount, 0, rate)
    }
}

/// A field update in which no ant marks a cell only lets the cell decay.
pub proof fn lemma_update_without_ants(
    value: int,
    amount: int,
    rate: int,
    kind: PheromoneType,
    width: int,
    height: int,
    x: int,
    y: int,
)
    requires
        0 <= value <= FULL_INTENSITY,
    ensures
        deposits_at(Seq::<Ant>::empty(), kind, width, height, x, y) == 0,
        updated(value, amount, 0, rate) == decayed(value, rate),
{
    assert(amount * 0 == 0) by (nonlinear_arith);
}

/// Under decay alone an intensity never rises: after one more tick it is no
/// larger than before, and never negative.
pub proof fn lemma_decay_non_increasing(value: int, rate: int, ticks: nat)
    requires
        0 <= value,
        0 < rate < FULL_INTENSITY,
    ensures
        0 <= decayed_times(value, rate, ticks + 1) <= decayed_times(value, rate, ticks) <= value,
    decreases ticks,
{
    if ticks > 0 {
        lemma_decay_non_increasing(value, rate, (ticks - 1) as nat);
    }
    lemma_decayed_bounds(decayed_times(value, rate, ticks), rate);
}

/// Under decay alone an intensity goes to zero: every tick lowers a positive
/// intensity by at least one unit, so after `value` ticks nothing is left.
pub proof fn lemma_decay_converges(value: int, rate: int, ticks: nat)
    requires
        0 <= value,
        0 < rate < FULL_INTENSITY,
    ensures
        0 <= decayed_times(value, rate, ticks),
        decayed_times(value, rate, ticks) + ticks <= value || decayed_times(value, rate, ticks)
            == 0,
        ticks >= value ==> decayed_times(value, rate, ticks) == 0,
    decreases ticks,
{
    if ticks > 0 {
        lemma_decay_converges(value, rate, (ticks - 1) as nat);
        lemma_decayed_bounds(decayed_times(value, rate, (ticks - 1) as nat), rate);
    }
}

/// `ticks` ticks of decay multiply an intensity by the `ticks`-th power of
/// the decay factor `rate / FULL_INTENSITY`, up to the rounding of each
/// tick: the exact product lies at most `ticks` units above what is left.
pub proof fn lemma_decay_follows_power(value: int, rate: int, ticks: nat)
    requires
        0 <= value,
        0 < rate < FULL_INTENSITY,
    ensures
        decayed_times(value, rate, ticks) * pow(FULL_INTENSITY as int, ticks) <= value * pow(
            rate,
            ticks,
        ) <= (decayed_times(value, rate, ticks) + ticks) * pow(FULL_INTENSITY as int, ticks),
    decreases ticks,
{
    let full = FULL_INTENSITY as int;
    if ticks == 0 {
        assert(pow(full, 0) == 1 && pow(rate, 0) == 1) by {
            vstd::arithmetic::power::lemma_pow0(full);
            vstd::arithmetic::power::lemma_pow0(rate);
        }
    } else {
        let n = (ticks - 1) as nat;
        lemma_decay_follows_power(value, rate, n);
        lemma_decay_non_increasing(value, rate, n);
        let before = decayed_times(value, rate, n);
        let after = decayed_times(value, rate, ticks);
        let fp = pow(full, n);
        let rp = pow(rate, n);
        vstd::arithmetic::power::lemma_pow_positive(full, n);
        vstd::arithmetic::power::lemma_pow_positive(rate, n);
        assert(pow(full, ticks) == full * fp && pow(rate, ticks) == rate * rp) by {
            reveal(pow);
        }
        vstd::arithmetic::div_mod::lemma_fundamental_div_mod(before * rate, full);
        let rem = (before * rate) % full;
        assert(before * rate == full * after + rem);
        assert(after * (full * fp) <= value * (rate * rp)) by (nonlinear_arith)
            requires
                before * fp <= value * rp,
                before * rate == full * after + rem,
                0 <= rem,
                fp > 0,
                rate > 0,
                0 <= after,
        ;
        assert(value * (rate * rp) <= (after + ticks) * (full * fp)) by (nonlinear_arith)
            requires
                value * rp <= (before + n) * fp,
                before * rate == full * after + rem,
                0 <= rem < full,
                fp > 0,
                0 < rate < full,
                0 <= after,
                0 <= before,
                ticks == n + 1,
        ;
    }
}

/// Field updates without ants multiply every cell by a power of the decay
/// factor: `ticks` updates in which no ant marks a cell leave what `ticks`
/// ticks of decay leave, which is the cell times the `ticks`-th power of
/// `rate / FULL_INTENSITY` up to the rounding of each tick.
pub proof fn lemma_updates_without_ants_follow_power(
    value: int,
    amount: int,
    rate: int,
    ticks: nat,
)
    requires
        0 <= value <= FULL_INTENSITY,
        0 < rate < FULL_INTENSITY,
    ensures
        updated_unmarked(value, amount, rate, ticks) == decayed_times(value, rate, ticks),
        updated_unmarked(value, amount, rate, ticks) * pow(FULL_INTENSITY as int, ticks) <= value
            * pow(rate, ticks) <= (updated_unmarked(value, amount, rate, ticks) + ticks) * pow(
            FULL_INTENSITY as int,
            ticks,
        ),
    decreases ticks,
{
    lemma_decay_follows_power(value, rate, ticks);
    if ticks > 0 {
        let n = (ticks - 1) as nat;
        lemma_updates_without_ants_follow_power(value, amount, rate, n);
        lemma_decay_non_increasing(value, rate, n);
        assert(amount * 0 == 0) by (nonlinear_arith);
    }
}

} // verus!
