use approx::AbsDiffEq;
use pong::ball::{ball_movement, Ball, Transform};
use pong::collision::ball_collision;
use pong::game::Game;
use pong::geometry::{create_linear_equation, overlap, Point, Side};
use pong::opponent::{predict_ball, reach_ball, update_enemy, Enemy};
use pong::player::movement;

fn t(x: i32, y: i32, w: i32, h: i32) -> Transform {
    Transform::new(Point::new(x, y), Point::new(w, h))
}

fn ball_at(prev: (i32, i32), pos: (i32, i32)) -> Ball {
    let mut ball = Ball::new();
    ball.previous_position = Point::new(prev.0, prev.1);
    ball.position = Point::new(pos.0, pos.1);
    ball
}

fn walls() -> Vec<Transform> {
    vec![t(0, -300, 1000, 50), t(0, 300, 1000, 50)]
}

#[test]
fn test_linear_equation() {
    let point1 = Point::new(1, 2);
    let point2 = Point::new(4, 5);

    let result = create_linear_equation(point1, point2).unwrap();
    let m = result.slope_num as f32 / result.denom as f32;
    let b = result.intercept_num as f32 / result.denom as f32;

    assert!(m.abs_diff_eq(&1.0, f32::default_epsilon()));
    assert!(b.abs_diff_eq(&1.0, f32::default_epsilon()));
}

#[test]
fn test_predict_ball() {
    let mut ball = Ball::new();
    ball.previous_position = Point::new(1, 2);
    ball.position = Point::new(4, 5);

    let prediction = predict_ball(&ball, 10).unwrap();
    let value = prediction.num as f32 / prediction.den as f32;
    let expected = 11.0;
    assert!(value.abs_diff_eq(&expected, f32::default_epsilon()));
    assert_eq!((prediction.num, prediction.den), (33, 3));
}

#[test]
fn fitted_line_passes_through_both_points() {
    let pairs = [((-3, 7), (5, -1)), ((5, -1), (-3, 7)), ((0, 0), (7, 3)), ((10, 4), (2, 4))];
    for ((ax, ay), (bx, by)) in pairs {
        let e = create_linear_equation(Point::new(ax, ay), Point::new(bx, by)).unwrap();
        assert!(e.denom > 0);
        assert_eq!(e.slope_num * ax as i128 + e.intercept_num, ay as i128 * e.denom);
        assert_eq!(e.slope_num * bx as i128 + e.intercept_num, by as i128 * e.denom);
    }
}

#[test]
fn fitted_line_exact_parts() {
    let e = create_linear_equation(Point::new(5, -1), Point::new(-3, 7)).unwrap();
    assert_eq!((e.slope_num, e.intercept_num, e.denom), (-8, 32, 8));
}

#[test]
fn fitted_line_extreme_coordinates() {
    let a = Point::new(i32::MIN, i32::MAX);
    let b = Point::new(i32::MAX, i32::MIN);
    let e = create_linear_equation(a, b).unwrap();
    assert_eq!(e.slope_num * a.x as i128 + e.intercept_num, a.y as i128 * e.denom);
    assert_eq!(e.slope_num * b.x as i128 + e.intercept_num, b.y as i128 * e.denom);
}

#[test]
fn vertical_line_has_no_fit() {
    assert_eq!(create_linear_equation(Point::new(3, 3), Point::new(3, 5)), None);
    assert_eq!(create_linear_equation(Point::new(3, 3), Point::new(3, 3)), None);
    assert_eq!(predict_ball(&ball_at((3, 3), (3, 5)), 10), None);
}

#[test]
fn ball_at_wall_edge_hits_expected_side() {
    let small = Point::new(2, 2);
    // top wall: centered on its top and on its bottom edge
    assert_eq!(overlap(Point::new(0, 325), small, Point::new(0, 300), Point::new(1000, 50)), Some(Side::Top));
    assert_eq!(overlap(Point::new(0, 275), small, Point::new(0, 300), Point::new(1000, 50)), Some(Side::Bottom));
    // paddle: centered on its left and on its right edge
    assert_eq!(overlap(Point::new(375, 0), small, Point::new(400, 0), Point::new(50, 100)), Some(Side::Left));
    assert_eq!(overlap(Point::new(425, 0), small, Point::new(400, 0), Point::new(50, 100)), Some(Side::Right));
}

#[test]
fn ball_far_from_colliders_hits_nothing() {
    let small = Point::new(2, 2);
    for wall in walls() {
        assert_eq!(overlap(Point::new(0, 0), small, wall.translation, wall.scale), None);
    }
    // touching edges do not overlap
    assert_eq!(overlap(Point::new(0, 326), small, Point::new(0, 300), Point::new(1000, 50)), None);
}

#[test]
fn overlap_inside_and_depth_ties() {
    let paddle = Point::new(400, 0);
    let size = Point::new(50, 100);
    assert_eq!(overlap(Point::new(0, 300), Point::new(2, 2), Point::new(0, 300), Point::new(1000, 50)), Some(Side::Inside));
    // equal depth on both axes: horizontal wins
    assert_eq!(overlap(Point::new(375, 50), Point::new(2, 2), paddle, size), Some(Side::Left));
    // shallower horizontally
    assert_eq!(overlap(Point::new(374, 50), Point::new(4, 4), paddle, size), Some(Side::Left));
    // shallower vertically
    assert_eq!(overlap(Point::new(376, 51), Point::new(4, 4), paddle, size), Some(Side::Top));
}

#[test]
fn two_frames_move_twice_the_displacement() {
    let mut ball = Ball::new();
    let mut tr = t(0, 0, 1, 1);
    ball_movement(&mut ball, &mut tr);
    assert_eq!(ball.position, Point::new(4, 1));
    assert_eq!(ball.previous_position, Point::new(0, 0));
    ball_movement(&mut ball, &mut tr);
    assert_eq!(ball.position, Point::new(8, 2));
    assert_eq!(ball.previous_position, Point::new(4, 1));
    assert_eq!(tr.translation, Point::new(8, 2));
    assert_eq!((ball.x_change, ball.y_change), (1, 1));

    let mut ball = Ball::new();
    ball.x_change = -1;
    ball.y_change = -1;
    ball.position = Point::new(10, 10);
    let mut tr = t(10, 10, 1, 1);
    ball_movement(&mut ball, &mut tr);
    ball_movement(&mut ball, &mut tr);
    assert_eq!(ball.position, Point::new(2, 8));
    assert_eq!((ball.x_change, ball.y_change), (-1, -1));
}

#[test]
fn side_hit_flips_horizontal_only() {
    let mut ball = Ball::new();
    let n = ball_collision(&mut ball, &t(375, 0, 2, 2), &vec![t(400, 0, 50, 100)]);
    assert_eq!(n, 1);
    assert_eq!((ball.x_change, ball.y_change), (-1, 1));

    let mut ball = Ball::new();
    let n = ball_collision(&mut ball, &t(425, 0, 2, 2), &vec![t(400, 0, 50, 100)]);
    assert_eq!(n, 1);
    assert_eq!((ball.x_change, ball.y_change), (-1, 1));
}

#[test]
fn top_hit_flips_vertical_only() {
    let mut ball = Ball::new();
    let n = ball_collision(&mut ball, &t(0, 275, 2, 2), &walls());
    assert_eq!(n, 1);
    assert_eq!((ball.x_change, ball.y_change), (1, -1));

    let mut ball = Ball::new();
    ball.y_change = -1;
    let n = ball_collision(&mut ball, &t(0, -275, 2, 2), &walls());
    assert_eq!(n, 1);
    assert_eq!((ball.x_change, ball.y_change), (1, 1));
}

#[test]
fn inside_hit_flips_horizontal() {
    let mut ball = Ball::new();
    let n = ball_collision(&mut ball, &t(0, 300, 2, 2), &walls());
    assert_eq!(n, 1);
    assert_eq!((ball.x_change, ball.y_change), (-1, 1));
}

#[test]
fn two_hits_in_one_frame_flip_both() {
    let mut ball = Ball::new();
    let colliders = vec![t(0, 0, 10, 10), t(9, 0, 10, 10)];
    // the first box is struck on its right side, the second on its top
    let n = ball_collision(&mut ball, &t(5, 5, 2, 2), &colliders);
    assert_eq!(n, 2);
    assert_eq!((ball.x_change, ball.y_change), (-1, -1));
}

#[test]
fn no_hit_changes_nothing() {
    let mut ball = Ball::new();
    let before = ball;
    let n = ball_collision(&mut ball, &t(0, 0, 1, 1), &walls());
    assert_eq!(n, 0);
    assert_eq!(ball, before);
}

#[test]
fn opponent_starts_idle_and_chases_after_notification() {
    let mut enemy = Enemy::new();
    assert!(enemy.goal_reached);
    update_enemy(&mut enemy, 0);
    assert!(enemy.goal_reached);
    update_enemy(&mut enemy, 1);
    assert!(!enemy.goal_reached);
    update_enemy(&mut enemy, 0);
    assert!(!enemy.goal_reached);
}

#[test]
fn idle_opponent_does_not_move() {
    let mut enemy = Enemy::new();
    let mut tr = t(-400, 0, 50, 100);
    reach_ball(&mut enemy, &mut tr, &ball_at((0, 0), (4, 4)));
    assert_eq!(tr.translation, Point::new(-400, 0));
    assert!(enemy.goal_reached);
}

#[test]
fn opponent_moves_towards_prediction_and_stops_in_dead_zone() {
    // prediction at x = -400 through (0, 0) and (4, 1): -100
    let ball = ball_at((0, 0), (4, 1));
    let mut enemy = Enemy { goal_reached: false };
    let mut tr = t(-400, 0, 50, 100);
    reach_ball(&mut enemy, &mut tr, &ball);
    assert_eq!(tr.translation, Point::new(-400, -10));
    assert!(!enemy.goal_reached);

    let mut tr = t(-400, -95, 50, 100);
    reach_ball(&mut enemy, &mut tr, &ball);
    assert_eq!(tr.translation.y, -95);
    assert!(enemy.goal_reached);

    let mut enemy = Enemy { goal_reached: false };
    let mut tr = t(-400, -106, 50, 100);
    reach_ball(&mut enemy, &mut tr, &ball);
    assert_eq!(tr.translation.y, -96);
    assert!(!enemy.goal_reached);
}

#[test]
fn opponent_never_leaves_the_board() {
    // prediction -400, below the board
    let low = ball_at((0, 0), (4, 4));
    let mut enemy = Enemy { goal_reached: false };
    let mut tr = t(-400, -245, 50, 100);
    reach_ball(&mut enemy, &mut tr, &low);
    assert_eq!(tr.translation.y, -250);
    reach_ball(&mut enemy, &mut tr, &low);
    assert_eq!(tr.translation.y, -250);
    assert!(!enemy.goal_reached);

    // prediction 400, above the board
    let high = ball_at((0, 0), (4, -4));
    let mut tr = t(-400, 245, 50, 100);
    reach_ball(&mut enemy, &mut tr, &high);
    assert_eq!(tr.translation.y, 250);
    reach_ball(&mut enemy, &mut tr, &high);
    assert_eq!(tr.translation.y, 250);
    assert!(!enemy.goal_reached);
}

#[test]
fn opponent_holds_without_prediction() {
    let mut enemy = Enemy { goal_reached: false };
    let mut tr = t(-400, 30, 50, 100);
    reach_ball(&mut enemy, &mut tr, &ball_at((3, 3), (3, 5)));
    assert_eq!(tr.translation.y, 30);
    assert!(!enemy.goal_reached);
}

#[test]
fn player_moves_with_keys() {
    let ws = walls();
    let mut p = t(400, 0, 50, 100);
    movement(&mut p, &ws, true, false);
    assert_eq!(p.translation, Point::new(400, 10));
    movement(&mut p, &ws, false, true);
    assert_eq!(p.translation, Point::new(400, 0));
    movement(&mut p, &ws, true, true);
    assert_eq!(p.translation, Point::new(400, 0));
    movement(&mut p, &ws, false, false);
    assert_eq!(p.translation, Point::new(400, 0));
}

#[test]
fn walls_stop_the_player() {
    let ws = walls();
    let mut p = t(400, 250, 50, 100);
    movement(&mut p, &ws, true, false);
    assert_eq!(p.translation.y, 250);
    movement(&mut p, &ws, false, true);
    assert_eq!(p.translation.y, 240);

    let mut p = t(400, -250, 50, 100);
    movement(&mut p, &ws, false, true);
    assert_eq!(p.translation.y, -250);
    movement(&mut p, &ws, true, false);
    assert_eq!(p.translation.y, -240);
}

#[test]
fn setup_places_the_board() {
    let g = Game::setup();
    assert_eq!(g.player, t(400, 0, 50, 100));
    assert_eq!(g.enemy_transform, t(-400, 0, 50, 100));
    assert!(g.enemy.goal_reached);
    assert_eq!(g.ball, Ball::new());
    assert_eq!(g.ball_transform, t(0, 0, 1, 1));
    assert_eq!(g.walls, walls());
}

#[test]
fn first_frame_moves_ball_only() {
    let mut g = Game::setup();
    assert!(g.can_step());
    let n = g.step(false, false);
    assert_eq!(n, 0);
    assert_eq!(g.ball.position, Point::new(4, 1));
    assert_eq!(g.ball_transform.translation, Point::new(4, 1));
    assert_eq!(g.player.translation, Point::new(400, 0));
    assert_eq!(g.enemy_transform.translation, Point::new(-400, 0));
    assert!(g.enemy.goal_reached);
}

#[test]
fn frame_with_paddle_hit_sets_opponent_chasing() {
    let mut g = Game::setup();
    g.ball_transform.translation = Point::new(372, 0);
    g.ball.position = Point::new(372, 0);
    let n = g.step(false, false);
    assert_eq!(n, 1);
    assert_eq!(g.ball.position, Point::new(376, 1));
    assert_eq!((g.ball.x_change, g.ball.y_change), (-1, 1));
    // prediction at -400 through (372, 0) and (376, 1) is -193
    assert!(!g.enemy.goal_reached);
    assert_eq!(g.enemy_transform.translation, Point::new(-400, -10));
}

#[test]
fn frame_at_coordinate_limit_is_refused() {
    let mut g = Game::setup();
    g.ball_transform.translation = Point::new(i32::MAX - 2, 0);
    assert!(!g.can_step());
    let mut g = Game::setup();
    g.player.translation = Point::new(400, i32::MIN + 5);
    assert!(!g.can_step());
}
