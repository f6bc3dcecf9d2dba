use vstd::prelude::*;
use crate::snake::CELL_SIZE;

verus! {

/// The food: a single grid cell.
pub struct Food {
    pub pos_x: i32,
    pub pos_y: i32,
}

/// Relies on rand::random_range over `0..bound`: the draw is uniform over the
/// half-open range and panics only when the range is empty. The value is
/// random, so nothing beyond its bounds is stated.
#[verifier::external_body]
fn random_below(bound: i32) -> (r: i32)
    requires
        bound >= 1,
    ensures
        0 <= r < bound,
{
    rand::random_range(0..bound)
}

impl Food {
    /// Draws one coordinate uniformly from `[0, size / CELL_SIZE)`, `size`
    /// being the board extent in pixels.
    pub fn teleport(&self, size: i32) -> (r: i32)
        requires
            size >= CELL_SIZE,
        ensures
            0 <= r < (size as int) / (CELL_SIZE as int),
    {
        random_below(size / CELL_SIZE)
    }

    /// The pixel-space origin of the square this food occupies.
    pub fn render_square(&self) -> (r: (i64, i64))
        ensures
            r.0 == self.pos_x * CELL_SIZE,
            r.1 == self.pos_y * CELL_SIZE,
    {
        ((self.pos_x as i64) * 20, (self.pos_y as i64) * 20)
    }
}

} // verus!
