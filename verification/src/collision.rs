//! Collision detection: axis-aligned rectangle overlap between the
//! controlled entity and each obstacle, and the vertical field-bounds test.
//!
//! All comparisons are strict, so rectangles whose edges exactly touch do
//! not count as overlapping, and an entity exactly on a field bound is still
//! inside.
use vstd::prelude::*;

use crate::consts::BIRD_HALF_HEIGHT;
use crate::consts::BIRD_HALF_WIDTH;
use crate::consts::FIELD_HALF_HEIGHT;
use crate::consts::PIPE_HALF_HEIGHT;
use crate::consts::PIPE_HALF_WIDTH;
use crate::motion::Bird;
use crate::motion::Obstacle;

verus! {

/// Rectangle overlap on both axes between the controlled entity and an
/// obstacle, using each one's fixed half-extents and strict inequalities.
pub open spec fn overlaps(bird: Bird, o: Obstacle) -> bool {
    &&& o.x + PIPE_HALF_WIDTH > bird.x - BIRD_HALF_WIDTH
    &&& o.x - PIPE_HALF_WIDTH < bird.x + BIRD_HALF_WIDTH
    &&& o.y + PIPE_HALF_HEIGHT > bird.y - BIRD_HALF_HEIGHT
    &&& o.y - PIPE_HALF_HEIGHT < bird.y + BIRD_HALF_HEIGHT
}

/// A vertical position strictly beyond the upper or lower field bound.
pub open spec fn out_of_bounds(y: int) -> bool {
    y > FIELD_HALF_HEIGHT || y < -FIELD_HALF_HEIGHT
}

/// A hit: the controlled entity overlaps some obstacle, or left the field
/// vertically. No horizontal bound is tested.
pub open spec fn hit(bird: Bird, obstacles: Seq<Obstacle>) -> bool {
    ||| out_of_bounds(bird.y as int)
    ||| exists|i: int| 0 <= i < obstacles.len() && overlaps(bird, obstacles[i])
}

/// Tests the controlled entity against one obstacle for rectangle overlap
/// on both axes.
pub fn overlaps_one(bird: &Bird, o: &Obstacle) -> (r: bool)
    ensures
        r == overlaps(*bird, *o),
{
    (o.x as i128) + (PIPE_HALF_WIDTH as i128) > (bird.x as i128) - (BIRD_HALF_WIDTH as i128)
        && (o.x as i128) - (PIPE_HALF_WIDTH as i128) < (bird.x as i128) + (BIRD_HALF_WIDTH as i128)
        && (o.y as i128) + (PIPE_HALF_HEIGHT as i128) > (bird.y as i128) - (BIRD_HALF_HEIGHT
        as i128) && (o.y as i128) - (PIPE_HALF_HEIGHT as i128) < (bird.y as i128)
        + (BIRD_HALF_HEIGHT as i128)
}

/// Tests the controlled entity against every active obstacle and the
/// vertical field bounds; reports whether this tick hit.
pub fn check_collisions(bird: &Bird, obstacles: &Vec<Obstacle>) -> (r: bool)
    ensures
        r == hit(*bird, obstacles@),
{
    if bird.y > FIELD_HALF_HEIGHT || bird.y < -FIELD_HALF_HEIGHT {
        return true;
    }
    let n = obstacles.len();
    let mut i: usize = 0;
    while i < n
        invariant
            0 <= i <= n,
            n == obstacles@.len(),
            forall|j: int| 0 <= j < i ==> !overlaps(*bird, obstacles@[j]),
        decreases n - i,
    {
        if overlaps_one(bird, &obstacles[i]) {
            return true;
        }
        i = i + 1;
    }
    false
}

} // verus!
