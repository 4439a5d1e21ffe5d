//! The ball and its per-frame motion.

use vstd::prelude::*;
use crate::geometry::Point;

verus! {

/// Horizontal distance the ball covers per frame.
pub const BALL_SPEED_X: i32 = 4;

/// Vertical distance the ball covers per frame.
pub const BALL_SPEED_Y: i32 = 1;

/// An entity's placement: center and full size.
#[derive(Clone, Copy, Debug, PartialEq, Eq, Structural)]
pub struct Transform {
    pub translation: Point,
    pub scale: Point,
}

impl Transform {
    pub fn new(translation: Point, scale: Point) -> (r: Transform)
        ensures
            r.translation == translation,
            r.scale == scale,
    {
        Transform { translation, scale }
    }
}

/// The ball's state: where it is, where it was one frame earlier, and the
/// sign of its motion along each axis.
#[derive(Clone, Copy, Debug, PartialEq, Eq, Structural)]
pub struct Ball {
    pub position: Point,
    pub previous_position: Point,
    pub x_change: i32,
    pub y_change: i32,
}

/// A sign multiplier: one or minus one.
pub open spec fn is_sign(v: int) -> bool {
    v == 1 || v == -1
}

impl Ball {
    /// Both direction multipliers are signs.
    pub open spec fn wf(self) -> bool {
        is_sign(self.x_change as int) && is_sign(self.y_change as int)
    }

    /// A ball at the origin, moving right and up.
    pub fn new() -> (r: Ball)
        ensures
            r.wf(),
            r.position == (Point { x: 0, y: 0 }),
            r.previous_position == (Point { x: 0, y: 0 }),
            r.x_change == 1,
            r.y_change == 1,
    {
        Ball {
            x_change: 1,
            y_change: 1,
            position: Point { x: 0, y: 0 },
            previous_position: Point { x: 0, y: 0 },
        }
    }
}

/// The per-frame displacement fits the board's coordinate range.
pub open spec fn can_advance(ball: Ball, t: Transform) -> bool {
    &&& i32::MIN <= t.translation.x + BALL_SPEED_X * ball.x_change <= i32::MAX
    &&& i32::MIN <= t.translation.y + BALL_SPEED_Y * ball.y_change <= i32::MAX
}

/// Ball and transform after one frame of motion: the transform moves by the
/// per-frame displacement, the ball remembers where it was and takes the new
/// translation as its position.
pub open spec fn advanced(ball: Ball, t: Transform) -> (Ball, Transform) {
    let p = Point {
        x: (t.translation.x + BALL_SPEED_X * ball.x_change) as i32,
        y: (t.translation.y + BALL_SPEED_Y * ball.y_change) as i32,
    };
    (
        Ball { position: p, previous_position: ball.position, ..ball },
        Transform { translation: p, ..t },
    )
}

/// Moves the ball one frame along its direction signs.
pub fn ball_movement(ball: &mut Ball, transform: &mut Transform)
    requires
        old(ball).wf(),
        can_advance(*old(ball), *old(transform)),
    ensures
        (*final(ball), *final(transform)) == advanced(*old(ball), *old(transform)),
        final(ball).wf(),
{
    ball.previous_position = ball.position;
    transform.translation.x = transform.translation.x + BALL_SPEED_X * ball.x_change;
    transform.translation.y = transform.translation.y + BALL_SPEED_Y * ball.y_change;
    ball.position = transform.translation;
}

/// Two frames of motion with no collision in between move the ball by twice
/// the per-frame displacement and keep both direction signs.
pub proof fn lemma_two_frames(ball: Ball, t: Transform)
    requires
        ball.wf(),
        i32::MIN <= t.translation.x + 2 * BALL_SPEED_X * ball.x_change <= i32::MAX,
        i32::MIN <= t.translation.y + 2 * BALL_SPEED_Y * ball.y_change <= i32::MAX,
    ensures
        can_advance(ball, t),
        can_advance(advanced(ball, t).0, advanced(ball, t).1),
        ({
            let (b1, t1) = advanced(ball, t);
            let (b2, t2) = advanced(b1, t1);
            &&& b2.position.x == t.translation.x + 2 * BALL_SPEED_X * ball.x_change
            &&& b2.position.y == t.translation.y + 2 * BALL_SPEED_Y * ball.y_change
            &&& b2.position == t2.translation
            &&& b2.previous_position == b1.position
            &&& b2.x_change == ball.x_change
            &&& b2.y_change == ball.y_change
        }),
{
    assert(BALL_SPEED_X * ball.x_change == 4 * ball.x_change
        && 2 * BALL_SPEED_X * ball.x_change == 8 * ball.x_change) by {
        if ball.x_change == 1 {} else {}
    }
    assert(BALL_SPEED_Y * ball.y_change == ball.y_change
        && 2 * BALL_SPEED_Y * ball.y_change == 2 * ball.y_change) by {
        if ball.y_change == 1 {} else {}
    }
}

} // verus!
