//! The player's paddle: moved by the up and down keys, stopped by the walls.

use vstd::prelude::*;
use crate::ball::Transform;
use crate::geometry::{overlap, overlap_side, Side};
use crate::opponent::PADDLE_STEP;

verus! {

/// The side of the paddle that wall `i` struck, if any.
pub open spec fn wall_contact(walls: Seq<Transform>, paddle: Transform, i: int) -> Option<Side> {
    overlap_side(walls[i].translation, walls[i].scale, paddle.translation, paddle.scale)
}

/// Some wall among the first `n` strikes the paddle on `side`.
pub open spec fn blocked_within(walls: Seq<Transform>, paddle: Transform, side: Side, n: int) -> bool {
    exists|i: int| 0 <= i < n && #[trigger] wall_contact(walls, paddle, i) == Some(side)
}

/// Some wall strikes the paddle on `side`.
pub open spec fn blocked(walls: Seq<Transform>, paddle: Transform, side: Side) -> bool {
    blocked_within(walls, paddle, side, walls.len() as int)
}

/// The paddle's height after one frame: a step up while the up key is held,
/// unless a wall touches its top; a step down while the down key is held,
/// unless a wall touches its bottom. Both apply when both keys are held.
pub open spec fn moved_height(walls: Seq<Transform>, paddle: Transform, up: bool, down: bool) -> int {
    paddle.translation.y
        + (if up && !blocked(walls, paddle, Side::Top) { PADDLE_STEP as int } else { 0 })
        - (if down && !blocked(walls, paddle, Side::Bottom) { PADDLE_STEP as int } else { 0 })
}

/// Moves the player's paddle for one frame of key state.
pub fn movement(paddle: &mut Transform, walls: &Vec<Transform>, up: bool, down: bool)
    requires
        i32::MIN + PADDLE_STEP <= old(paddle).translation.y <= i32::MAX - PADDLE_STEP,
    ensures
        final(paddle).translation.y == moved_height(walls@, *old(paddle), up, down),
        final(paddle).translation.x == old(paddle).translation.x,
        final(paddle).scale == old(paddle).scale,
{
    let mut top_blocked = false;
    let mut bottom_blocked = false;
    let mut i: usize = 0;
    while i < walls.len()
        invariant
            i <= walls.len(),
            top_blocked == blocked_within(walls@, *paddle, Side::Top, i as int),
            bottom_blocked == blocked_within(walls@, *paddle, Side::Bottom, i as int),
        decreases walls.len() - i,
    {
        let wall = walls[i];
        let contact = overlap(wall.translation, wall.scale, paddle.translation, paddle.scale);
        proof {
            assert(contact == wall_contact(walls@, *paddle, i as int));
        }
        match contact {
            Some(Side::Top) => top_blocked = true,
            Some(Side::Bottom) => bottom_blocked = true,
            _ => {},
        }
        i = i + 1;
    }
    let y: i32 = paddle.translation.y;
    let mut new_y: i32 = y;
    if up && !top_blocked {
        new_y = new_y + PADDLE_STEP;
    }
    if down && !bottom_blocked {
        new_y = new_y - PADDLE_STEP;
    }
    paddle.translation.y = new_y;
}

} // verus!
