//! Collision response: the ball against every collidable entity.

use vstd::prelude::*;
use crate::ball::{Ball, Transform};
use crate::geometry::{overlap, overlap_side, Side};

verus! {

/// The side of `other` that the ball struck this frame, if any.
pub open spec fn hit(ball_transform: Transform, other: Transform) -> Option<Side> {
    overlap_side(ball_transform.translation, ball_transform.scale, other.translation, other.scale)
}

/// A hit that reverses the horizontal direction: a left or right side, or
/// `Inside`, reported where neither axis shows the side the ball came from.
/// An `Inside` hit is answered on the horizontal axis only.
pub open spec fn flips_x(h: Option<Side>) -> bool {
    h == Some(Side::Left) || h == Some(Side::Right) || h == Some(Side::Inside)
}

/// A hit that reverses the vertical direction: a top or bottom side.
pub open spec fn flips_y(h: Option<Side>) -> bool {
    h == Some(Side::Top) || h == Some(Side::Bottom)
}

/// The ball after answering each collider in turn; each hit flips one sign.
pub open spec fn responded(ball: Ball, ball_transform: Transform, colliders: Seq<Transform>) -> Ball
    decreases colliders.len(),
{
    if colliders.len() == 0 {
        ball
    } else {
        let b = responded(ball, ball_transform, colliders.drop_last());
        let h = hit(ball_transform, colliders.last());
        Ball {
            x_change: if flips_x(h) { (-b.x_change) as i32 } else { b.x_change },
            y_change: if flips_y(h) { (-b.y_change) as i32 } else { b.y_change },
            ..b
        }
    }
}

/// How many colliders the ball meets: one notification each.
pub open spec fn hit_count(ball_transform: Transform, colliders: Seq<Transform>) -> nat
    decreases colliders.len(),
{
    if colliders.len() == 0 {
        0
    } else {
        hit_count(ball_transform, colliders.drop_last()) + if hit(ball_transform, colliders.last()) is Some {
            1nat
        } else {
            0nat
        }
    }
}

/// Answering collisions keeps both multipliers signs and touches nothing else.
pub proof fn lemma_responded_wf(ball: Ball, ball_transform: Transform, colliders: Seq<Transform>)
    requires
        ball.wf(),
    ensures
        responded(ball, ball_transform, colliders).wf(),
        responded(ball, ball_transform, colliders).position == ball.position,
        responded(ball, ball_transform, colliders).previous_position == ball.previous_position,
    decreases colliders.len(),
{
    if colliders.len() > 0 {
        lemma_responded_wf(ball, ball_transform, colliders.drop_last());
    }
}

/// Tests the ball (placed by `ball_transform`) against each collider and
/// reverses the direction for each hit: horizontal for a left, right or
/// inside hit, vertical for a top or bottom hit. Returns the number of hits,
/// one collision notification each. No position is corrected.
pub fn ball_collision(ball: &mut Ball, ball_transform: &Transform, colliders: &Vec<Transform>) -> (notifications: usize)
    requires
        old(ball).wf(),
    ensures
        *final(ball) == responded(*old(ball), *ball_transform, colliders@),
        notifications == hit_count(*ball_transform, colliders@),
        final(ball).wf(),
{
    let mut notifications: usize = 0;
    let mut i: usize = 0;
    while i < colliders.len()
        invariant
            i <= colliders.len(),
            notifications <= i,
            *ball == responded(*old(ball), *ball_transform, colliders@.subrange(0, i as int)),
            notifications == hit_count(*ball_transform, colliders@.subrange(0, i as int)),
            old(ball).wf(),
        decreases colliders.len() - i,
    {
        proof {
            lemma_responded_wf(*old(ball), *ball_transform, colliders@.subrange(0, i as int));
            assert(colliders@.subrange(0, i + 1).drop_last() =~= colliders@.subrange(0, i as int));
        }
        let other = colliders[i];
        match overlap(ball_transform.translation, ball_transform.scale, other.translation, other.scale) {
            Some(side) => {
                match side {
                    Side::Left | Side::Right | Side::Inside => ball.x_change = -ball.x_change,
                    Side::Top | Side::Bottom => ball.y_change = -ball.y_change,
                }
                notifications = notifications + 1;
            },
            None => {},
        }
        i = i + 1;
    }
    proof {
        assert(colliders@.subrange(0, colliders@.len() as int) =~= colliders@);
        lemma_responded_wf(*old(ball), *ball_transform, colliders@);
    }
    notifications
}

/// A single hit on a left or right side negates the horizontal multiplier
/// and keeps the vertical one; a hit on the top or bottom does the reverse;
/// no hit changes nothing.
pub proof fn lemma_velocity_flip(ball: Ball, ball_transform: Transform, other: Transform)
    requires
        ball.wf(),
    ensures
        ({
            let h = hit(ball_transform, other);
            let after = responded(ball, ball_transform, seq![other]);
            &&& (h == Some(Side::Left) || h == Some(Side::Right)) ==> after.x_change == -ball.x_change
                && after.y_change == ball.y_change
            &&& (h == Some(Side::Top) || h == Some(Side::Bottom)) ==> after.y_change == -ball.y_change
                && after.x_change == ball.x_change
            &&& h is None ==> after == ball
        }),
{
    assert(seq![other].drop_last() =~= Seq::<Transform>::empty());
    assert(responded(ball, ball_transform, Seq::<Transform>::empty()) == ball);
}

} // verus!
