//! A two-paddle Pong game core: box overlap, ball kinematics, collision
//! response, the computer opponent's line-fit heuristic and the player's paddle.
//! Coordinates are whole board units.

pub mod geometry;
pub mod ball;
pub mod collision;
pub mod opponent;
pub mod player;
pub mod game;
