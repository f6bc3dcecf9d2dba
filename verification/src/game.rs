use vstd::prelude::*;
use std::collections::VecDeque;
use crate::food::Food;
use crate::snake::CELL_SIZE;
use crate::snake::Direction;
use crate::snake::Snake;
use crate::snake::dx;
use crate::snake::dy;
use crate::snake::occupies;
use crate::snake::opposite;
use crate::snake::snake_step;

verus! {

/// A key the game reacts to; anything else is `Other`.
#[derive(Clone, Copy, PartialEq, Eq, Structural, Debug)]
pub enum Key {
    W,
    A,
    S,
    D,
    Other,
}

/// The heading a key requests, if any: W up, S down, A left, D right.
pub open spec fn key_direction(k: Key) -> Option<Direction> {
    match k {
        Key::W => Option::Some(Direction::Up),
        Key::S => Option::Some(Direction::Down),
        Key::A => Option::Some(Direction::Left),
        Key::D => Option::Some(Direction::Right),
        Key::Other => Option::None,
    }
}

/// Whether some cell of the `bound` x `bound` grid is not covered by `body`.
pub open spec fn free_cell_exists(body: Seq<(i32, i32)>, bound: int) -> bool {
    exists|x: int, y: int| 0 <= x < bound && 0 <= y < bound && !occupies(body, x, y)
}

/// The game: the score, the board extent in pixels, and the snake and food
/// it owns.
pub struct Game {
    pub score: i32,
    pub size: u32,
    pub snake: Snake,
    pub food: Food,
}

impl Game {
    /// The snake has a body, the score is a counter, and the board holds at
    /// least one cell while its pixel extent still fits a signed coordinate.
    pub open spec fn wf(self) -> bool {
        &&& self.snake.wf()
        &&& self.score >= 0
        &&& CELL_SIZE as int <= self.size as int <= i32::MAX as int
    }

    /// The board extent in cells: pixels divided by the cell size.
    pub open spec fn cell_bound(self) -> int {
        self.size as int / (CELL_SIZE as int)
    }

    /// Whether this tick's snake movement lands the snake on the food.
    pub open spec fn eats(self) -> bool {
        occupies(
            snake_step(self.snake.body@, self.snake.dir),
            self.food.pos_x as int,
            self.food.pos_y as int,
        )
    }

    /// The body after a tick that eats: the moved body with one provisional
    /// tail cell appended; the appended cell takes its real place on the
    /// following tick.
    pub open spec fn grown_body(self) -> Seq<(i32, i32)> {
        snake_step(self.snake.body@, self.snake.dir).push((0i32, -1i32))
    }
}

/// How one simulation tick may change the game. Without a snake/food
/// collision the snake moves and nothing else changes. With one, the score
/// rises by one, the body grows by the provisional tail cell, and the food
/// moves to a random free cell of the grid; only when the grid has no free
/// cell left does the food stay where it was.
pub open spec fn update_rel(pre: Game, post: Game) -> bool {
    &&& post.size == pre.size
    &&& post.snake.dir == pre.snake.dir
    &&& (!pre.eats() ==> {
        &&& post.snake.body@ == snake_step(pre.snake.body@, pre.snake.dir)
        &&& post.score == pre.score
        &&& post.food == pre.food
    })
    &&& (pre.eats() ==> {
        &&& post.score == pre.score + 1
        &&& post.snake.body@ == pre.grown_body()
        &&& (free_cell_exists(pre.grown_body(), pre.cell_bound()) ==> {
            &&& 0 <= (post.food.pos_x as int) < pre.cell_bound()
            &&& 0 <= (post.food.pos_y as int) < pre.cell_bound()
            &&& !occupies(post.snake.body@, post.food.pos_x as int, post.food.pos_y as int)
        })
        &&& (!free_cell_exists(pre.grown_body(), pre.cell_bound()) ==> post.food == pre.food)
    })
}

/// The first grid cell, scanned column by column, that the body does not
/// cover; `None` exactly when the body covers the whole grid.
fn find_free_cell(snake: &Snake, bound: i32) -> (r: Option<(i32, i32)>)
    requires
        bound >= 1,
    ensures
        match r {
            Option::Some(cell) => 0 <= cell.0 < bound && 0 <= cell.1 < bound && !occupies(
                snake.body@,
                cell.0 as int,
                cell.1 as int,
            ),
            Option::None => !free_cell_exists(snake.body@, bound as int),
        },
{
    let mut x: i32 = 0;
    while x < bound
        invariant
            0 <= x <= bound,
            forall|xi: int, yi: int|
                0 <= xi < x && 0 <= yi < bound ==> occupies(snake.body@, xi, yi),
        decreases bound - x,
    {
        let mut y: i32 = 0;
        while y < bound
            invariant
                0 <= y <= bound,
                0 <= x < bound,
                forall|xi: int, yi: int|
                    0 <= xi < x && 0 <= yi < bound ==> occupies(snake.body@, xi, yi),
                forall|yi: int| 0 <= yi < y ==> occupies(snake.body@, x as int, yi),
            decreases bound - y,
        {
            if !snake.is_collide(x, y) {
                return Option::Some((x, y));
            }
            y = y + 1;
        }
        x = x + 1;
    }
    Option::None
}

impl Game {
    /// The game as it starts: score nought on a 200-pixel board, a snake of
    /// two cells heading right, and the food at the origin.
    pub fn new() -> (g: Game)
        ensures
            g.wf(),
            g.score == 0,
            g.size == 200,
            g.snake.dir == Direction::Right,
            g.snake.body@ == seq![(0i32, 0i32), (0i32, 1i32)],
            g.food.pos_x == 0,
            g.food.pos_y == 0,
    {
        let mut body: VecDeque<(i32, i32)> = VecDeque::new();
        body.push_back((0, 0));
        body.push_back((0, 1));
        proof {
            assert(body@ =~= seq![(0i32, 0i32), (0i32, 1i32)]);
        }
        Game {
            score: 0,
            size: 200,
            snake: Snake { body, dir: Direction::Right },
            food: Food { pos_x: 0, pos_y: 0 },
        }
    }

    /// Moves the food to a cell the snake does not cover: random draws first,
    /// and, so that relocation always terminates, a scan of the grid once the
    /// draws have gone unused long enough. Only a grid with no free cell at
    /// all leaves the food in place.
    fn relocate_food(&mut self)
        requires
            old(self).wf(),
        ensures
            final(self).snake == old(self).snake,
            final(self).score == old(self).score,
            final(self).size == old(self).size,
            free_cell_exists(old(self).snake.body@, old(self).cell_bound()) ==> {
                &&& 0 <= (final(self).food.pos_x as int) < old(self).cell_bound()
                &&& 0 <= (final(self).food.pos_y as int) < old(self).cell_bound()
                &&& !occupies(
                    final(self).snake.body@,
                    final(self).food.pos_x as int,
                    final(self).food.pos_y as int,
                )
            },
            !free_cell_exists(old(self).snake.body@, old(self).cell_bound()) ==> final(self).food
                == old(self).food,
    {
        let ghost g0 = *self;
        let size_px: i32 = self.size as i32;
        let mut attempts: u32 = 128;
        let mut placed: bool = false;
        while attempts > 0 && !placed
            invariant
                self.snake == g0.snake,
                self.score == g0.score,
                self.size == g0.size,
                g0.wf(),
                size_px as int == g0.size as int,
                placed ==> {
                    &&& 0 <= (self.food.pos_x as int) < g0.cell_bound()
                    &&& 0 <= (self.food.pos_y as int) < g0.cell_bound()
                    &&& !occupies(self.snake.body@, self.food.pos_x as int, self.food.pos_y as int)
                },
                !placed ==> self.food == g0.food,
            decreases attempts,
        {
            let x: i32 = self.food.teleport(size_px);
            let y: i32 = self.food.teleport(size_px);
            if !self.snake.is_collide(x, y) {
                self.food.pos_x = x;
                self.food.pos_y = y;
                placed = true;
            }
            attempts = attempts - 1;
        }
        if !placed {
            let bound: i32 = size_px / CELL_SIZE;
            match find_free_cell(&self.snake, bound) {
                Option::Some(cell) => {
                    self.food.pos_x = cell.0;
                    self.food.pos_y = cell.1;
                },
                Option::None => {},
            }
        } else {
            proof {
                assert(free_cell_exists(g0.snake.body@, g0.cell_bound())) by {
                    assert(0 <= (self.food.pos_x as int) < g0.cell_bound());
                    assert(0 <= (self.food.pos_y as int) < g0.cell_bound());
                    assert(!occupies(
                        g0.snake.body@,
                        self.food.pos_x as int,
                        self.food.pos_y as int,
                    ));
                }
            }
        }
    }

    /// One simulation tick: the snake moves; landing on the food raises the
    /// score by one, grows the body by a provisional tail cell, and moves the
    /// food to a free cell.
    pub fn update(&mut self)
        requires
            old(self).wf(),
            old(self).score < i32::MAX,
            i32::MIN < old(self).snake.head().0 < i32::MAX,
            i32::MIN < old(self).snake.head().1 < i32::MAX,
        ensures
            final(self).wf(),
            update_rel(*old(self), *final(self)),
    {
        self.snake.update();
        if self.snake.is_collide(self.food.pos_x, self.food.pos_y) {
            self.score = self.score + 1;
            self.snake.body.push_back((0, -1));
            self.relocate_food();
        }
    }

    /// Routes a pressed key to the snake's heading, with the reversal guard:
    /// the opposite of the current heading, and any key the game does not
    /// know, leave the heading as it is.
    pub fn pressed(&mut self, key: Key)
        ensures
            final(self).score == old(self).score,
            final(self).size == old(self).size,
            final(self).food == old(self).food,
            final(self).snake.body == old(self).snake.body,
            final(self).snake.dir == (match key_direction(key) {
                Option::Some(d) => if d == opposite(old(self).snake.dir) {
                    old(self).snake.dir
                } else {
                    d
                },
                Option::None => old(self).snake.dir,
            }),
    {
        match key {
            Key::W => self.snake.set_direction(Direction::Up),
            Key::S => self.snake.set_direction(Direction::Down),
            Key::A => self.snake.set_direction(Direction::Left),
            Key::D => self.snake.set_direction(Direction::Right),
            Key::Other => {},
        }
    }
}

/// Eating is paid for once and grows the snake by one cell: a tick that
/// lands on the food raises the score by exactly one, and after the
/// following tick (one that does not eat again) the body is exactly one cell
/// longer than it was before the collision.
pub proof fn lemma_eating_scores_and_grows(pre: Game, mid: Game, post: Game)
    requires
        pre.snake.wf(),
        pre.eats(),
        update_rel(pre, mid),
        !mid.eats(),
        update_rel(mid, post),
    ensures
        mid.score == pre.score + 1,
        post.snake.body@.len() == pre.snake.body@.len() + 1,
{
    let b0 = pre.snake.body@;
    let b1 = mid.snake.body@;
    assert(snake_step(b0, pre.snake.dir).len() == b0.len()) by {
        if !occupies(b0, b0[0].0 + dx(pre.snake.dir), b0[0].1 + dy(pre.snake.dir)) {
            assert(snake_step(b0, pre.snake.dir).len() == 1 + b0.drop_last().len());
        }
    }
    assert(b1.len() == b0.len() + 1);
    assert(snake_step(b1, mid.snake.dir).len() == b1.len()) by {
        if !occupies(b1, b1[0].0 + dx(mid.snake.dir), b1[0].1 + dy(mid.snake.dir)) {
            assert(snake_step(b1, mid.snake.dir).len() == 1 + b1.drop_last().len());
        }
    }
}

} // verus!
