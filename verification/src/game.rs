use vstd::prelude::*;

use crate::command::Command;
use crate::direction::Direction;
use crate::points::{translate_defined, translated, Point};
use crate::snake::{slither_model, Snake, SnakeModel};

verus! {

broadcast use vstd::seq_lib::lemma_seq_contains_after_push;

/// The longest tick interval, in milliseconds, taken at speed zero.
pub const MAX_INTERVAL: u16 = 700;

/// The shortest tick interval, in milliseconds, taken at full speed.
pub const MIN_INTERVAL: u16 = 200;

/// The speed at which the tick interval bottoms out; speed never rises
/// beyond it.
pub const MAX_SPEED: u16 = 20;

/// Whether `p` lies on the playable grid: coordinates range over
/// [0, width) x [0, height); the walls sit one cell outside.
pub open spec fn in_grid(p: Point, width: u16, height: u16) -> bool {
    p.x < width && p.y < height
}

/// The mathematical content of a game: the fixed grid, the snake, the food
/// cell if one is placed, and the speed and score counters.
pub struct GameModel {
    pub width: u16,
    pub height: u16,
    pub food: Option<Point>,
    pub snake: SnakeModel,
    pub speed: u16,
    pub score: u16,
}

impl GameModel {
    /// The invariant every game state keeps: a grid of at least 5 x 5
    /// whose cell count fits in u16, a non-empty snake that lies entirely
    /// on the grid, a speed within [0, MAX_SPEED], and food (when placed)
    /// on the grid.
    pub open spec fn wf(self) -> bool {
        &&& self.width >= 5
        &&& self.height >= 5
        &&& self.width * self.height <= u16::MAX
        &&& self.width * self.height >= MAX_SPEED
        &&& self.snake.wf()
        &&& (forall|i: int|
            0 <= i < self.snake.body.len() ==> in_grid(
                #[trigger] self.snake.body[i],
                self.width,
                self.height,
            ))
        &&& self.speed <= MAX_SPEED
        &&& (self.food matches Some(p) ==> in_grid(p, self.width, self.height))
    }

    /// The cell the head would move to on the next advance.
    pub open spec fn next_head(self) -> Point {
        translated(self.snake.head(), self.snake.direction, 1)
    }

    /// Head-on-boundary in the direction of travel: the next advance would
    /// leave the grid.
    pub open spec fn wall_collision(self) -> bool {
        match self.snake.direction {
            Direction::Up => self.snake.head().y == 0,
            Direction::Right => self.snake.head().x == self.width - 1,
            Direction::Down => self.snake.head().y == self.height - 1,
            Direction::Left => self.snake.head().x == 0,
        }
    }

    /// The would-be next head lands on a body cell that stays occupied
    /// after the move: membership over the body with the head and the tail
    /// cell excluded (the tail vacates the cell as the head arrives).
    pub open spec fn self_collision(self) -> bool {
        exists|i: int|
            1 <= i < self.snake.body.len() - 1 && self.snake.body[i] == self.next_head()
    }
}

/// What holds of the food right after a placement over the snake `g.snake`:
/// either a grid cell off the snake's body, or no cell at all because the
/// body covers the whole grid.
pub open spec fn food_placed(g: GameModel) -> bool {
    match g.food {
        Some(p) => in_grid(p, g.width, g.height) && !g.snake.body.contains(p),
        None => forall|p: Point| in_grid(p, g.width, g.height) ==> g.snake.body.contains(p),
    }
}

/// The heading after a turn command is weighed against the snapshot taken
/// at tick start: adopted only when it is neither the snapshot itself nor
/// its reverse, so the snake never turns back into its own neck.
pub open spec fn turn_outcome(snapshot: Direction, current: Direction, towards: Direction)
    -> Direction {
    if towards != snapshot && towards != snapshot.spec_opposite() {
        towards
    } else {
        current
    }
}

/// The speed after a score lands on a multiple of the threshold
/// (width * height) / MAX_SPEED: one step faster, but never beyond
/// MAX_SPEED.
pub open spec fn speed_after(speed: u16, score: u16, width: u16, height: u16) -> u16 {
    if (score as int) % (((width as int) * (height as int)) / (MAX_SPEED as int)) == 0
        && speed < MAX_SPEED {
        (speed + 1) as u16
    } else {
        speed
    }
}

/// Milliseconds of one tick at `speed`: MAX_INTERVAL at speed zero,
/// shrinking by (MAX_INTERVAL - MIN_INTERVAL) / MAX_SPEED per speed step
/// down to MIN_INTERVAL at MAX_SPEED and beyond.
pub open spec fn interval_ms(speed: u16) -> u16 {
    if speed >= MAX_SPEED {
        MIN_INTERVAL
    } else {
        ((MIN_INTERVAL as int) + (((MAX_INTERVAL - MIN_INTERVAL) as int) / (MAX_SPEED as int)) * (
        (MAX_SPEED as int) - (speed as int))) as u16
    }
}

/// Law (turn rejection): against heading h, a turn to h itself or to its
/// reverse leaves the heading alone, and a turn to any other direction is
/// adopted.
pub proof fn lemma_turn_rejection(h: Direction, d: Direction)
    ensures
        turn_outcome(h, h, h) == h,
        turn_outcome(h, h, h.spec_opposite()) == h,
        d != h && d != h.spec_opposite() ==> turn_outcome(h, h, d) == d,
{
}

/// A grid of at least 5 x 5 offers at least MAX_SPEED cells, so the
/// speed-step threshold (width * height) / MAX_SPEED is at least one.
proof fn lemma_grid_area(width: u16, height: u16)
    requires
        width >= 5,
        height >= 5,
    ensures
        width * height >= MAX_SPEED,
{
    assert(width * height >= 25) by (nonlinear_arith)
        requires
            width >= 5,
            height >= 5,
    ;
}

/// With at least five columns and rows and at most u16::MAX cells, each
/// grid dimension leaves room for the border ring around the playable
/// area.
pub proof fn lemma_grid_dims(g: GameModel)
    requires
        g.wf(),
    ensures
        g.width + 2 <= u16::MAX,
        g.height + 2 <= u16::MAX,
{
    assert(g.width <= 13107 && g.height <= 13107) by (nonlinear_arith)
        requires
            g.width >= 5,
            g.height >= 5,
            g.width * g.height <= u16::MAX,
    ;
}

/// When no wall collision is pending, the next head cell exists and lies
/// on the grid.
proof fn lemma_next_head_in_grid(g: GameModel)
    requires
        g.wf(),
        !g.wall_collision(),
    ensures
        translate_defined(g.snake.head(), g.snake.direction, 1),
        in_grid(g.next_head(), g.width, g.height),
{
    assert(in_grid(g.snake.body[0], g.width, g.height));
}

/// Relies on rand::random_range over `0..bound`: the sampled value lies in
/// the half-open range, so it is strictly below `bound`; the range must
/// not be empty.
#[verifier::external_body]
fn random_below(bound: usize) -> (r: usize)
    requires
        bound > 0,
    ensures
        r < bound,
{
    rand::random_range(0..bound)
}

/// One session of snake on a fixed grid: the snake, the food cell, and the
/// speed and score counters. The terminal is not here: a caller polls keys,
/// feeds commands in, drives ticks, and draws the command list `render`
/// hands back.
#[derive(Debug)]
pub struct Game {
    width: u16,
    height: u16,
    food: Option<Point>,
    snake: Snake,
    speed: u16,
    score: u16,
}

impl View for Game {
    type V = GameModel;

    closed spec fn view(&self) -> GameModel {
        GameModel {
            width: self.width,
            height: self.height,
            food: self.food,
            snake: self.snake@,
            speed: self.speed,
            score: self.score,
        }
    }
}

impl Game {
    /// Starts a session on a width x height grid: a three-cell snake in
    /// the middle with a randomly drawn heading, no food yet, full speed
    /// and a zero score.
    pub fn new(width: u16, height: u16) -> (r: Game)
        requires
            width >= 5,
            height >= 5,
            width * height <= u16::MAX,
        ensures
            r@.wf(),
            r@.width == width,
            r@.height == height,
            r@.food is None,
            r@.speed == MAX_SPEED,
            r@.score == 0,
            r@.snake.body.len() == 3,
            r@.snake.head() == (Point { x: (width / 2) as u16, y: (height / 2) as u16 }),
            r@.snake.body == crate::snake::initial_body(r@.snake.head(), 3, r@.snake.direction),
            !r@.snake.digesting,
    {
        let start = Point::new(width / 2, height / 2);
        let drawn = random_below(4);
        let direction = if drawn == 0 {
            Direction::Up
        } else if drawn == 1 {
            Direction::Right
        } else if drawn == 2 {
            Direction::Down
        } else {
            Direction::Left
        };
        let snake = Snake::new(start, 3, direction);
        let r = Game { width, height, food: None, snake, speed: MAX_SPEED, score: 0 };
        proof {
            lemma_grid_area(width, height);
            assert forall|i: int| 0 <= i < r@.snake.body.len() implies in_grid(
                #[trigger] r@.snake.body[i],
                width,
                height,
            ) by {
                assert(r@.snake.body[i] == translated(start, direction.spec_opposite(), i));
            }
        }
        r
    }

    /// Starts a session around an explicitly placed snake: no food yet,
    /// full speed and a zero score. This is how a caller sets up a known
    /// position.
    pub fn with_snake(width: u16, height: u16, snake: Snake) -> (r: Game)
        requires
            width >= 5,
            height >= 5,
            width * height <= u16::MAX,
            snake@.wf(),
            forall|i: int|
                0 <= i < snake@.body.len() ==> in_grid(#[trigger] snake@.body[i], width, height),
        ensures
            r@ == (GameModel {
                width,
                height,
                food: None,
                snake: snake@,
                speed: MAX_SPEED,
                score: 0,
            }),
            r@.wf(),
    {
        proof {
            lemma_grid_area(width, height);
        }
        Game { width, height, food: None, snake, speed: MAX_SPEED, score: 0 }
    }

    /// The grid width.
    pub fn width(&self) -> (r: u16)
        ensures
            r == self@.width,
    {
        self.width
    }

    /// The grid height.
    pub fn height(&self) -> (r: u16)
        ensures
            r == self@.height,
    {
        self.height
    }

    /// The current score: one point per food eaten.
    pub fn score(&self) -> (r: u16)
        ensures
            r == self@.score,
    {
        self.score
    }

    /// The current speed level.
    pub fn speed(&self) -> (r: u16)
        ensures
            r == self@.speed,
    {
        self.speed
    }

    /// The food cell, if one is placed.
    pub fn food(&self) -> (r: Option<Point>)
        ensures
            r == self@.food,
    {
        self.food
    }

    /// The snake, read-only.
    pub fn snake(&self) -> (r: &Snake)
        ensures
            r@ == self@.snake,
    {
        &self.snake
    }

    /// Milliseconds between ticks at the current speed.
    pub fn calculate_interval(&self) -> (r: u16)
        requires
            self@.wf(),
        ensures
            r == interval_ms(self@.speed),
    {
        let step_ms: u16 = (MAX_INTERVAL - MIN_INTERVAL) / MAX_SPEED;
        assert(step_ms == 25);
        let remaining: u16 = MAX_SPEED - self.speed;
        MIN_INTERVAL + step_ms * remaining
    }

    /// Decides one polled command against the heading snapshot taken at
    /// tick start. Quit ends the session and changes nothing; a turn
    /// towards the snapshot heading or its reverse is rejected, and any
    /// other turn takes effect at once.
    pub fn apply_command(&mut self, snapshot: Direction, command: Command) -> (quit: bool)
        ensures
            quit == (command == Command::Quit),
            final(self)@.width == old(self)@.width,
            final(self)@.height == old(self)@.height,
            final(self)@.food == old(self)@.food,
            final(self)@.speed == old(self)@.speed,
            final(self)@.score == old(self)@.score,
            final(self)@.snake.body == old(self)@.snake.body,
            final(self)@.snake.digesting == old(self)@.snake.digesting,
            final(self)@.snake.direction == (match command {
                Command::Quit => old(self)@.snake.direction,
                Command::Turn(towards) => turn_outcome(
                    snapshot,
                    old(self)@.snake.direction,
                    towards,
                ),
            }),
            old(self)@.wf() ==> final(self)@.wf(),
    {
        match command {
            Command::Quit => true,
            Command::Turn(towards) => {
                if towards != snapshot && towards != snapshot.opposite() {
                    self.snake.set_direction(towards);
                }
                false
            },
        }
    }

    /// Whether the head sits on the boundary it is about to cross: heading
    /// Up on the top row, Right on the last column, Down on the bottom
    /// row, Left on the first column.
    pub fn has_collidated_with_wall(&self) -> (r: bool)
        requires
            self@.wf(),
        ensures
            r == self@.wall_collision(),
    {
        let head_point = self.snake.get_head_point();

        match self.snake.get_direction() {
            Direction::Up => head_point.y == 0,
            Direction::Right => head_point.x == self.width - 1,
            Direction::Down => head_point.y == self.height - 1,
            Direction::Left => head_point.x == 0,
        }
    }

    /// Whether the would-be next head lands on the body, the current head
    /// and tail cells excluded: the tail vacates its cell as the head
    /// arrives. Checked only while no wall collision is pending, which
    /// keeps the next head on the grid.
    pub fn has_bitten_itself(&self) -> (r: bool)
        requires
            self@.wf(),
            !self@.wall_collision(),
        ensures
            r == self@.self_collision(),
    {
        proof {
            lemma_next_head_in_grid(self@);
        }
        let next_head_point = self.snake.get_head_point().transform(self.snake.get_direction(), 1);
        let next_body_points = self.snake.get_body_points();
        let len = next_body_points.len();
        if len < 3 {
            return false;
        }
        let mut i: usize = 1;
        while i < len - 1
            invariant
                1 <= i <= len - 1,
                3 <= len,
                len == self@.snake.body.len(),
                next_body_points@ == self@.snake.body,
                next_head_point == self@.next_head(),
                forall|j: int| 1 <= j < i ==> self@.snake.body[j] != self@.next_head(),
            decreases len - i,
        {
            if next_body_points[i] == next_head_point {
                return true;
            }
            i = i + 1;
        }
        false
    }

    /// Picks the next food cell: a cell drawn among the grid cells the
    /// snake does not occupy. When the body covers the whole grid there is
    /// no such cell and the food is cleared instead. Nothing else changes.
    #[verifier::loop_isolation(false)]
    pub fn place_food(&mut self)
        requires
            old(self)@.wf(),
        ensures
            final(self)@.width == old(self)@.width,
            final(self)@.height == old(self)@.height,
            final(self)@.snake == old(self)@.snake,
            final(self)@.speed == old(self)@.speed,
            final(self)@.score == old(self)@.score,
            final(self)@.wf(),
            food_placed(final(self)@),
    {
        let mut free: Vec<Point> = Vec::new();
        let mut y: u16 = 0;
        while y < self.height
            invariant
                y <= self.height,
                forall|j: int|
                    0 <= j < free@.len() ==> in_grid(#[trigger] free@[j], self@.width, self@.height)
                        && !self@.snake.body.contains(free@[j]),
                forall|p: Point|
                    p.x < self@.width && p.y < y ==> (free@.contains(p)
                        || self@.snake.body.contains(p)),
            decreases self.height - y,
        {
            let mut x: u16 = 0;
            while x < self.width
                invariant
                    x <= self.width,
                    y < self.height,
                    forall|j: int|
                        0 <= j < free@.len() ==> in_grid(
                            #[trigger] free@[j],
                            self@.width,
                            self@.height,
                        ) && !self@.snake.body.contains(free@[j]),
                    forall|p: Point|
                        (p.x < self@.width && p.y < y) || (p.y == y && p.x < x) ==> (
                        free@.contains(p) || self@.snake.body.contains(p)),
                decreases self.width - x,
            {
                let point = Point::new(x, y);
                if !self.snake.contains_point(&point) {
                    free.push(point);
                }
                proof {
                    assert forall|p: Point|
                        (p.x < self@.width && p.y < y) || (p.y == y && p.x < x + 1) implies (
                    free@.contains(p) || self@.snake.body.contains(p)) by {
                        if p.y == y && p.x == x {
                            assert(p == point);
                        } else {
                            assert((p.x < self@.width && p.y < y) || (p.y == y && p.x < x));
                        }
                    }
                }
                x = x + 1;
            }
            y = y + 1;
        }
        if free.len() > 0 {
            let chosen = random_below(free.len());
            self.food = Some(free[chosen]);
        } else {
            self.food = None;
            proof {
                assert forall|p: Point| in_grid(p, self@.width, self@.height) implies self@
                    .snake.body.contains(p) by {
                    assert(free@.contains(p) || self@.snake.body.contains(p));
                    if free@.contains(p) {
                        let j = choose|j: int| 0 <= j < free@.len() && free@[j] == p;
                        assert(free@.len() == 0);
                    }
                }
            }
        }
    }

    /// Places the food at a chosen free grid cell; everything else stays.
    pub fn force_food(&mut self, point: Point)
        requires
            old(self)@.wf(),
            in_grid(point, old(self)@.width, old(self)@.height),
            !old(self)@.snake.body.contains(point),
        ensures
            final(self)@ == (GameModel { food: Some(point), ..old(self)@ }),
            final(self)@.wf(),
            food_placed(final(self)@),
    {
        self.food = Some(point);
    }

    /// One simulation tick after input handling. A pending wall or self
    /// collision ends the game with the state untouched. Otherwise the
    /// snake advances; if its new head lands on the food, a growth is
    /// marked, the food is replaced, the score rises by one, and the speed
    /// steps up when the new score hits a multiple of
    /// (width * height) / MAX_SPEED.
    pub fn step(&mut self) -> (done: bool)
        requires
            old(self)@.wf(),
            old(self)@.score < u16::MAX,
        ensures
            final(self)@.wf(),
            done == (old(self)@.wall_collision() || old(self)@.self_collision()),
            done ==> final(self)@ == old(self)@,
            !done ==> final(self)@.width == old(self)@.width && final(self)@.height == old(
                self,
            )@.height,
            !done ==> final(self)@.snake.body == slither_model(old(self)@.snake).body,
            !done ==> final(self)@.snake.direction == old(self)@.snake.direction,
            !done ==> {
                let ate = old(self)@.food == Some(old(self)@.next_head());
                &&& final(self)@.snake.digesting == ate
                &&& final(self)@.score == old(self)@.score + (if ate {
                    1int
                } else {
                    0int
                })
                &&& final(self)@.speed == (if ate {
                    speed_after(
                        old(self)@.speed,
                        final(self)@.score,
                        old(self)@.width,
                        old(self)@.height,
                    )
                } else {
                    old(self)@.speed
                })
                &&& (!ate ==> final(self)@.food == old(self)@.food)
                &&& (ate ==> food_placed(final(self)@))
            },
    {
        if self.has_collidated_with_wall() {
            return true;
        }
        if self.has_bitten_itself() {
            return true;
        }
        proof {
            lemma_next_head_in_grid(self@);
        }
        let ghost pre = self@;

        self.snake.slither();

        proof {
            assert(self@.snake.body == seq![pre.next_head()] + (if pre.snake.digesting {
                pre.snake.body
            } else {
                pre.snake.body.drop_last()
            }));
            assert forall|i: int| 0 <= i < self@.snake.body.len() implies in_grid(
                #[trigger] self@.snake.body[i],
                self@.width,
                self@.height,
            ) by {
                lemma_next_head_in_grid(pre);
                if i > 0 {
                    if pre.snake.digesting {
                        assert(self@.snake.body[i] == pre.snake.body[i - 1]);
                    } else {
                        assert(self@.snake.body[i] == pre.snake.body.drop_last()[i - 1]);
                        assert(pre.snake.body.drop_last()[i - 1] == pre.snake.body[i - 1]);
                    }
                }
            }
        }

        if let Some(food_point) = self.food {
            if self.snake.get_head_point() == food_point {
                self.snake.grow();
                self.place_food();
                self.score = self.score + 1;

                if self.score % ((self.width * self.height) / MAX_SPEED) == 0 {
                    if self.speed < MAX_SPEED {
                        self.speed = self.speed + 1;
                    }
                }
            }
        }
        false
    }
}

} // verus!
