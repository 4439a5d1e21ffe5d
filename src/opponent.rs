//! The computer opponent: a two-state controller that chases the ball's
//! predicted height along its own vertical line.

use vstd::prelude::*;
use crate::ball::{Ball, Transform};
use crate::geometry::{create_linear_equation, fit_denom, fit_intercept, fit_slope, lemma_fit_bounds};

verus! {

/// Half-width of the band around the prediction in which the opponent stops.
pub const DEAD_ZONE: i32 = 5;

/// The opponent's paddle stays within `-BOARD_LIMIT..=BOARD_LIMIT`.
pub const BOARD_LIMIT: i32 = 250;

/// Distance a paddle moves per frame.
pub const PADDLE_STEP: i32 = 10;

/// The opponent's state: idle (`goal_reached`) or chasing.
#[derive(Clone, Copy, Debug, PartialEq, Eq, Structural)]
pub struct Enemy {
    pub goal_reached: bool,
}

impl Enemy {
    /// An opponent that waits, idle, for the first collision.
    pub fn new() -> (r: Enemy)
        ensures
            r.goal_reached,
    {
        Enemy { goal_reached: true }
    }
}

/// A predicted height `num / den`, with `den` positive.
#[derive(Clone, Copy, Debug, PartialEq, Eq, Structural)]
pub struct Prediction {
    pub num: i128,
    pub den: i128,
}

/// Numerator of the height at `x` of the line through the ball's last two
/// positions, over `fit_denom` of those positions.
pub open spec fn predicted_num(ball: Ball, x: int) -> int {
    fit_slope(ball.previous_position, ball.position) * x + fit_intercept(
        ball.previous_position,
        ball.position,
    )
}

/// The prediction's numerator stays well inside the range of `i128`.
proof fn lemma_prediction_bounds(ball: Ball, x: int)
    requires
        -0x8000_0000 <= x < 0x8000_0000,
    ensures
        -0x4_0000_0000_0000_0000 < predicted_num(ball, x) < 0x4_0000_0000_0000_0000,
        -0x1_0000_0000_0000_0000 < fit_slope(ball.previous_position, ball.position) * x
            < 0x1_0000_0000_0000_0000,
{
    lemma_fit_bounds(ball.previous_position, ball.position);
    let m = fit_slope(ball.previous_position, ball.position);
    assert(-0x1_0000_0000_0000_0000 < m * x < 0x1_0000_0000_0000_0000) by (nonlinear_arith)
        requires
            -0x1_0000_0000 < m < 0x1_0000_0000,
            -0x8000_0000 <= x < 0x8000_0000,
    ;
}

/// The height at which the ball, going straight on, crosses the vertical line
/// at `enemy_horizontal_position`; `None` where its last two positions share a
/// horizontal coordinate, so that no such line can be fitted.
pub fn predict_ball(ball: &Ball, enemy_horizontal_position: i32) -> (r: Option<Prediction>)
    ensures
        r is None <==> ball.previous_position.x == ball.position.x,
        r matches Some(p) ==> {
            &&& p.den == fit_denom(ball.previous_position, ball.position)
            &&& p.num == predicted_num(*ball, enemy_horizontal_position as int)
        },
{
    match create_linear_equation(ball.previous_position, ball.position) {
        None => None,
        Some(line) => {
            let x: i128 = enemy_horizontal_position as i128;
            proof {
                lemma_prediction_bounds(*ball, x as int);
            }
            Some(Prediction { num: line.slope_num * x + line.intercept_num, den: line.denom })
        },
    }
}

/// A collision notification sets the opponent chasing; without one its state
/// is kept.
pub fn update_enemy(enemy: &mut Enemy, notifications: usize)
    ensures
        final(enemy).goal_reached == (old(enemy).goal_reached && notifications == 0),
{
    if notifications > 0 {
        enemy.goal_reached = false;
    }
}

/// One chasing frame for a paddle at height `y` and a prediction `num / den`:
/// whether the goal is reached, and the paddle's new height. Within the dead
/// zone the goal is reached; otherwise the paddle moves one step towards the
/// prediction, never past the board limit, and holds where it already stands
/// at or beyond it.
pub open spec fn chase_step(y: int, num: int, den: int) -> (bool, int) {
    if y * den - num > DEAD_ZONE * den {
        (false, if y > -BOARD_LIMIT {
            if y - PADDLE_STEP < -BOARD_LIMIT { -BOARD_LIMIT as int } else { y - PADDLE_STEP }
        } else {
            y
        })
    } else if y * den - num < -DEAD_ZONE * den {
        (false, if y < BOARD_LIMIT {
            if y + PADDLE_STEP > BOARD_LIMIT { BOARD_LIMIT as int } else { y + PADDLE_STEP }
        } else {
            y
        })
    } else {
        (true, y)
    }
}

/// Moves a chasing opponent's paddle towards the ball's predicted height at
/// the paddle's horizontal position. An idle opponent does nothing; so does
/// one for which no prediction is available this frame (it holds position and
/// keeps chasing).
pub fn reach_ball(enemy: &mut Enemy, enemy_transform: &mut Transform, ball: &Ball)
    ensures
        final(enemy_transform).translation.x == old(enemy_transform).translation.x,
        final(enemy_transform).scale == old(enemy_transform).scale,
        old(enemy).goal_reached || ball.previous_position.x == ball.position.x ==> {
            &&& *final(enemy) == *old(enemy)
            &&& *final(enemy_transform) == *old(enemy_transform)
        },
        !old(enemy).goal_reached && ball.previous_position.x != ball.position.x ==> ({
            let (reached, y) = chase_step(
                old(enemy_transform).translation.y as int,
                predicted_num(*ball, old(enemy_transform).translation.x as int),
                fit_denom(ball.previous_position, ball.position),
            );
            &&& final(enemy).goal_reached == reached
            &&& final(enemy_transform).translation.y == y
        }),
        -BOARD_LIMIT <= old(enemy_transform).translation.y <= BOARD_LIMIT ==> -BOARD_LIMIT
            <= final(enemy_transform).translation.y <= BOARD_LIMIT,
{
    if enemy.goal_reached {
        return;
    }
    let prediction = match predict_ball(ball, enemy_transform.translation.x) {
        None => {
            return;
        },
        Some(p) => p,
    };
    let y: i32 = enemy_transform.translation.y;
    proof {
        lemma_fit_bounds(ball.previous_position, ball.position);
        lemma_prediction_bounds(*ball, enemy_transform.translation.x as int);
        lemma_chase_step(
            y as int,
            predicted_num(*ball, enemy_transform.translation.x as int),
            fit_denom(ball.previous_position, ball.position),
        );
        let d = prediction.den as int;
        let yy = y as int;
        assert(0 <= DEAD_ZONE * d < 0x10_0000_0000) by (nonlinear_arith)
            requires
                0 <= d < 0x1_0000_0000,
                DEAD_ZONE == 5,
        ;
        assert(-0x1_0000_0000_0000_0000 < yy * d < 0x1_0000_0000_0000_0000) by (nonlinear_arith)
            requires
                0 <= d < 0x1_0000_0000,
                -0x8000_0000 <= yy < 0x8000_0000,
        ;
    }
    let gap: i128 = (y as i128) * prediction.den - prediction.num;
    let band: i128 = (DEAD_ZONE as i128) * prediction.den;
    if gap > band {
        if y > -BOARD_LIMIT {
            enemy_transform.translation.y = if y - PADDLE_STEP < -BOARD_LIMIT {
                -BOARD_LIMIT
            } else {
                y - PADDLE_STEP
            };
        }
    } else if gap < -band {
        if y < BOARD_LIMIT {
            enemy_transform.translation.y = if y + PADDLE_STEP > BOARD_LIMIT {
                BOARD_LIMIT
            } else {
                y + PADDLE_STEP
            };
        }
    } else {
        enemy.goal_reached = true;
    }
}

/// The chase step's laws: the goal is reached exactly when the paddle is
/// within the dead zone of the prediction (`|y - num / den| <= DEAD_ZONE`); a
/// paddle within the board limits stays within them; a paddle that moves,
/// moves towards the prediction.
pub proof fn lemma_chase_step(y: int, num: int, den: int)
    requires
        den > 0,
    ensures
        chase_step(y, num, den).0 <==> -DEAD_ZONE * den <= y * den - num <= DEAD_ZONE * den,
        -BOARD_LIMIT <= y <= BOARD_LIMIT ==> -BOARD_LIMIT <= chase_step(y, num, den).1 <= BOARD_LIMIT,
        chase_step(y, num, den).1 < y ==> y * den > num,
        chase_step(y, num, den).1 > y ==> y * den < num,
{
    assert(DEAD_ZONE * den > 0) by (nonlinear_arith)
        requires
            den > 0,
            DEAD_ZONE == 5,
    ;
}

} // verus!
