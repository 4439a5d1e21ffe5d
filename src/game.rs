//! The whole board and the frame driver that runs the stages in order:
//! player, ball, collisions, opponent.

use vstd::prelude::*;
use crate::ball::{advanced, ball_movement, can_advance, Ball, Transform, BALL_SPEED_X, BALL_SPEED_Y};
use crate::collision::{ball_collision, hit_count, responded};
use crate::geometry::{fit_denom, Point};
use crate::opponent::{chase_step, predicted_num, reach_ball, update_enemy, Enemy, BOARD_LIMIT, PADDLE_STEP};
use crate::player::{moved_height, movement};

verus! {

/// Every entity on the board. The player's paddle, the opponent's paddle and
/// the walls are collidable; the ball is not.
#[derive(Debug)]
pub struct Game {
    pub player: Transform,
    pub enemy: Enemy,
    pub enemy_transform: Transform,
    pub ball: Ball,
    pub ball_transform: Transform,
    pub walls: Vec<Transform>,
}

/// What the ball is tested against in a frame, in order: the player's paddle,
/// the opponent's paddle, then the walls.
pub open spec fn colliders_of(player: Transform, enemy: Transform, walls: Seq<Transform>) -> Seq<Transform> {
    seq![player, enemy] + walls
}

impl Game {
    /// The ball's multipliers are signs.
    pub open spec fn wf(self) -> bool {
        self.ball.wf()
    }

    /// A frame fits the coordinate range: the ball can take its step and the
    /// player's paddle can move either way.
    pub open spec fn can_step_spec(self) -> bool {
        &&& can_advance(self.ball, self.ball_transform)
        &&& i32::MIN + PADDLE_STEP <= self.player.translation.y <= i32::MAX - PADDLE_STEP
    }

    /// The opening board: paddles at either end, the ball at the center moving
    /// right and up, an idle opponent and a wall along the top and the bottom.
    pub fn setup() -> (r: Game)
        ensures
            r.wf(),
            r.player == (Transform { translation: Point { x: 400, y: 0 }, scale: Point { x: 50, y: 100 } }),
            r.enemy_transform == (Transform {
                translation: Point { x: -400i32, y: 0 },
                scale: Point { x: 50, y: 100 },
            }),
            r.enemy.goal_reached,
            r.ball == (Ball {
                position: Point { x: 0, y: 0 },
                previous_position: Point { x: 0, y: 0 },
                x_change: 1,
                y_change: 1,
            }),
            r.ball_transform == (Transform { translation: Point { x: 0, y: 0 }, scale: Point { x: 1, y: 1 } }),
            r.walls@ == seq![
                Transform { translation: Point { x: 0, y: -300i32 }, scale: Point { x: 1000, y: 50 } },
                Transform { translation: Point { x: 0, y: 300 }, scale: Point { x: 1000, y: 50 } },
            ],
    {
        let mut walls: Vec<Transform> = Vec::new();
        walls.push(Transform { translation: Point { x: 0, y: -300i32 }, scale: Point { x: 1000, y: 50 } });
        walls.push(Transform { translation: Point { x: 0, y: 300 }, scale: Point { x: 1000, y: 50 } });
        proof {
            assert(walls@ =~= seq![
                Transform { translation: Point { x: 0, y: -300i32 }, scale: Point { x: 1000, y: 50 } },
                Transform { translation: Point { x: 0, y: 300 }, scale: Point { x: 1000, y: 50 } },
            ]);
        }
        Game {
            player: Transform { translation: Point { x: 400, y: 0 }, scale: Point { x: 50, y: 100 } },
            enemy: Enemy::new(),
            enemy_transform: Transform { translation: Point { x: -400i32, y: 0 }, scale: Point { x: 50, y: 100 } },
            ball: Ball::new(),
            ball_transform: Transform { translation: Point { x: 0, y: 0 }, scale: Point { x: 1, y: 1 } },
            walls,
        }
    }

    /// Whether the next frame fits the coordinate range.
    pub fn can_step(&self) -> (r: bool)
        ensures
            r == self.can_step_spec(),
    {
        let xc: i64 = self.ball.x_change as i64;
        let yc: i64 = self.ball.y_change as i64;
        proof {
            assert(-0x100_0000_0000 < BALL_SPEED_X * xc < 0x100_0000_0000) by (nonlinear_arith)
                requires
                    BALL_SPEED_X == 4,
                    -0x8000_0000 <= xc < 0x8000_0000,
            ;
            assert(-0x100_0000_0000 < BALL_SPEED_Y * yc < 0x100_0000_0000) by (nonlinear_arith)
                requires
                    BALL_SPEED_Y == 1,
                    -0x8000_0000 <= yc < 0x8000_0000,
            ;
        }
        let bx: i64 = self.ball_transform.translation.x as i64 + (BALL_SPEED_X as i64) * xc;
        let by: i64 = self.ball_transform.translation.y as i64 + (BALL_SPEED_Y as i64) * yc;
        let py: i32 = self.player.translation.y;
        i32::MIN as i64 <= bx && bx <= i32::MAX as i64 && i32::MIN as i64 <= by && by <= i32::MAX as i64
            && i32::MIN + PADDLE_STEP <= py && py <= i32::MAX - PADDLE_STEP
    }

    /// Runs one frame: the player's paddle, the ball's motion, the ball against
    /// every collider, then the opponent, which first takes the frame's
    /// collision notifications. Returns the number of notifications.
    pub fn step(&mut self, up: bool, down: bool) -> (notifications: usize)
        requires
            old(self).wf(),
            old(self).can_step_spec(),
        ensures
            final(self).wf(),
            final(self).walls@ == old(self).walls@,
            final(self).player.translation.y == moved_height(old(self).walls@, old(self).player, up, down),
            final(self).player.translation.x == old(self).player.translation.x,
            final(self).player.scale == old(self).player.scale,
            final(self).ball_transform == advanced(old(self).ball, old(self).ball_transform).1,
            final(self).ball == responded(
                advanced(old(self).ball, old(self).ball_transform).0,
                final(self).ball_transform,
                colliders_of(final(self).player, old(self).enemy_transform, old(self).walls@),
            ),
            notifications == hit_count(
                final(self).ball_transform,
                colliders_of(final(self).player, old(self).enemy_transform, old(self).walls@),
            ),
            final(self).enemy_transform.translation.x == old(self).enemy_transform.translation.x,
            final(self).enemy_transform.scale == old(self).enemy_transform.scale,
            -BOARD_LIMIT <= old(self).enemy_transform.translation.y <= BOARD_LIMIT ==> -BOARD_LIMIT
                <= final(self).enemy_transform.translation.y <= BOARD_LIMIT,
            ({
                let idle = old(self).enemy.goal_reached && notifications == 0;
                let b = final(self).ball;
                &&& idle || b.previous_position.x == b.position.x ==> {
                    &&& final(self).enemy.goal_reached == idle
                    &&& final(self).enemy_transform == old(self).enemy_transform
                }
                &&& !idle && b.previous_position.x != b.position.x ==> ({
                    let (reached, y) = chase_step(
                        old(self).enemy_transform.translation.y as int,
                        predicted_num(b, old(self).enemy_transform.translation.x as int),
                        fit_denom(b.previous_position, b.position),
                    );
                    &&& final(self).enemy.goal_reached == reached
                    &&& final(self).enemy_transform.translation.y == y
                })
            }),
    {
        movement(&mut self.player, &self.walls, up, down);
        ball_movement(&mut self.ball, &mut self.ball_transform);
        let mut colliders: Vec<Transform> = Vec::new();
        colliders.push(self.player);
        colliders.push(self.enemy_transform);
        let mut i: usize = 0;
        while i < self.walls.len()
            invariant
                i <= self.walls.len(),
                colliders@ == seq![self.player, self.enemy_transform] + self.walls@.subrange(0, i as int),
            decreases self.walls.len() - i,
        {
            colliders.push(self.walls[i]);
            i = i + 1;
            proof {
                assert(colliders@ =~= seq![self.player, self.enemy_transform] + self.walls@.subrange(0, i as int));
            }
        }
        proof {
            assert(self.walls@.subrange(0, self.walls@.len() as int) =~= self.walls@);
        }
        let notifications = ball_collision(&mut self.ball, &self.ball_transform, &colliders);
        update_enemy(&mut self.enemy, notifications);
        reach_ball(&mut self.enemy, &mut self.enemy_transform, &self.ball);
        notifications
    }
}

} // verus!
