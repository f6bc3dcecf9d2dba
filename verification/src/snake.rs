use vstd::prelude::*;
use std::collections::VecDeque;

verus! {

/// One of the four headings the snake can move in.
#[derive(Clone, Copy, PartialEq, Eq, Structural, Debug)]
pub enum Direction {
    Up,
    Down,
    Left,
    Right,
}

/// The heading that would reverse the given one.
pub open spec fn opposite(d: Direction) -> Direction {
    match d {
        Direction::Up => Direction::Down,
        Direction::Down => Direction::Up,
        Direction::Left => Direction::Right,
        Direction::Right => Direction::Left,
    }
}

/// Horizontal offset of one step in the given heading.
pub open spec fn dx(d: Direction) -> int {
    match d {
        Direction::Left => -1,
        Direction::Right => 1,
        _ => 0,
    }
}

/// Vertical offset of one step in the given heading.
pub open spec fn dy(d: Direction) -> int {
    match d {
        Direction::Up => -1,
        Direction::Down => 1,
        _ => 0,
    }
}

/// Whether the cell `(x, y)` is one of the cells of `body`.
pub open spec fn occupies(body: Seq<(i32, i32)>, x: int, y: int) -> bool {
    exists|i: int| 0 <= i < body.len() && body[i].0 == x && body[i].1 == y
}

/// Side of one grid cell, in pixels.
pub const CELL_SIZE: i32 = 20;

/// The body after one tick: the head is offset one cell along the heading;
/// if that cell already lies on the body the tick is a no-op, otherwise the
/// new head is pushed to the front and the tail cell is dropped.
pub open spec fn snake_step(body: Seq<(i32, i32)>, dir: Direction) -> Seq<(i32, i32)>
    recommends
        body.len() >= 1,
{
    let nx = body[0].0 + dx(dir);
    let ny = body[0].1 + dy(dir);
    if occupies(body, nx, ny) {
        body
    } else {
        seq![((nx as i32), (ny as i32))] + body.drop_last()
    }
}

/// The snake: an ordered sequence of grid cells (head first) and a heading.
pub struct Snake {
    pub body: VecDeque<(i32, i32)>,
    pub dir: Direction,
}

impl Snake {
    /// The body is never empty.
    pub open spec fn wf(self) -> bool {
        self.body@.len() >= 1
    }

    /// The head cell: the front of the body.
    pub open spec fn head(self) -> (i32, i32) {
        self.body@[0]
    }

    /// True iff `(x, y)` coincides with some body cell.
    pub fn is_collide(&self, x: i32, y: i32) -> (r: bool)
        ensures
            r == occupies(self.body@, x as int, y as int),
    {
        let n: usize = self.body.len();
        let mut i: usize = 0;
        while i < n
            invariant
                i <= n,
                n == self.body@.len(),
                forall|j: int| 0 <= j < i ==> !(self.body@[j].0 == x && self.body@[j].1 == y),
            decreases n - i,
        {
            let cell = self.body[i];
            if cell.0 == x && cell.1 == y {
                return true;
            }
            i = i + 1;
        }
        false
    }

    /// Advances the snake one cell along its heading; a candidate head cell
    /// that lies on the body freezes the snake for this tick instead.
    pub fn update(&mut self)
        requires
            old(self).wf(),
            i32::MIN < old(self).head().0 < i32::MAX,
            i32::MIN < old(self).head().1 < i32::MAX,
        ensures
            final(self).wf(),
            final(self).dir == old(self).dir,
            final(self).body@ == snake_step(old(self).body@, old(self).dir),
    {
        let head: (i32, i32) = self.body[0];
        let mut nx: i32 = head.0;
        let mut ny: i32 = head.1;
        match self.dir {
            Direction::Left => {
                nx = nx - 1;
            },
            Direction::Right => {
                nx = nx + 1;
            },
            Direction::Up => {
                ny = ny - 1;
            },
            Direction::Down => {
                ny = ny + 1;
            },
        }
        if self.is_collide(nx, ny) {
            return ;
        }
        self.body.push_front((nx, ny));
        let _popped: Option<(i32, i32)> = self.body.pop_back();
        proof {
            assert(self.body@ =~= snake_step(old(self).body@, old(self).dir));
        }
    }

    /// Adopts the requested heading unless it is the exact opposite of the
    /// current one, which is rejected so the snake cannot reverse into its
    /// second body cell.
    pub fn set_direction(&mut self, requested: Direction)
        ensures
            final(self).body == old(self).body,
            final(self).dir == (if requested == opposite(old(self).dir) {
                old(self).dir
            } else {
                requested
            }),
    {
        let opp: Direction = match self.dir {
            Direction::Up => Direction::Down,
            Direction::Down => Direction::Up,
            Direction::Left => Direction::Right,
            Direction::Right => Direction::Left,
        };
        if requested != opp {
            self.dir = requested;
        }
    }

    /// One pixel-space square origin per body cell, each cell scaled by
    /// `CELL_SIZE`.
    pub fn render_squares(&self) -> (r: Vec<(i64, i64)>)
        ensures
            r@.len() == self.body@.len(),
            forall|i: int|
                0 <= i < r@.len() ==> r@[i].0 == self.body@[i].0 * CELL_SIZE && r@[i].1
                    == self.body@[i].1 * CELL_SIZE,
    {
        let n: usize = self.body.len();
        let mut r: Vec<(i64, i64)> = Vec::new();
        let mut i: usize = 0;
        while i < n
            invariant
                i <= n,
                n == self.body@.len(),
                r@.len() == i,
                forall|j: int|
                    0 <= j < i ==> r@[j].0 == self.body@[j].0 * CELL_SIZE && r@[j].1
                        == self.body@[j].1 * CELL_SIZE,
            decreases n - i,
        {
            let cell: (i32, i32) = self.body[i];
            let px: i64 = (cell.0 as i64) * 20;
            let py: i64 = (cell.1 as i64) * 20;
            r.push((px, py));
            i = i + 1;
        }
        r
    }
}

/// A tick whose candidate head cell is free translates the body: the length
/// is unchanged, the new head is the old head offset one cell along the
/// heading, and the cells behind the head are the old body without its tail.
pub proof fn lemma_translation_keeps_length(body: Seq<(i32, i32)>, dir: Direction)
    requires
        body.len() >= 1,
        !occupies(body, body[0].0 + dx(dir), body[0].1 + dy(dir)),
    ensures
        snake_step(body, dir).len() == body.len(),
        snake_step(body, dir).skip(1) == body.drop_last(),
{
    assert(snake_step(body, dir).skip(1) =~= body.drop_last());
}

/// A tick whose candidate head cell lies on the body freezes the snake: the
/// body after the tick is identical to the body before it.
pub proof fn lemma_self_collision_freezes(body: Seq<(i32, i32)>, dir: Direction)
    requires
        body.len() >= 1,
        occupies(body, body[0].0 + dx(dir), body[0].1 + dy(dir)),
    ensures
        snake_step(body, dir) == body,
{
}

} // verus!
