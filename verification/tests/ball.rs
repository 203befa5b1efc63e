use pong::body::Body;
use pong::frame::FrameResult;
use pong::geometry::{Rect, Size, Vector};
use pong::model::{BALL_ACC, BALL_SPEED, PADDLE_SPIN};
use pong::rules::{reflect, spin};

const BALL: Size = Size { width: 16, height: 16 };
const PADDLE: Size = Size { width: 16, height: 64 };

fn ball(x: i64, y: i64, vx: i64, vy: i64) -> Body {
    Body::with_velocity(BALL, Vector::new(x, y), Vector::new(vx, vy))
}

#[test]
fn ball_constants_are_in_units() {
    assert_eq!(BALL_SPEED, 5000);
    assert_eq!(BALL_ACC, 50);
    assert_eq!(PADDLE_SPIN, 4000);
}

#[test]
fn new_body_is_at_rest() {
    let body = Body::new(PADDLE, Vector::from_pixels(16, 168));
    assert_eq!(body.position(), Vector::new(16_000, 168_000));
    assert_eq!(body.velocity(), Vector::new(0, 0));
    assert_eq!(body.size(), PADDLE);
    assert_eq!(body.width(), 16);
    assert_eq!(body.height(), 64);
}

#[test]
fn body_with_velocity_keeps_what_it_is_given() {
    let body = ball(312_000, 192_000, -5000, 250);
    assert_eq!(body.position(), Vector::new(312_000, 192_000));
    assert_eq!(body.velocity(), Vector::new(-5000, 250));
    assert_eq!(body.size(), BALL);
}

#[test]
fn bounds_start_at_the_position_and_span_the_size() {
    let body = Body::new(PADDLE, Vector::new(16_000, 168_500));
    assert_eq!(body.bounds(), Rect::new(16_000, 168_500, 16_000, 64_000));
}

#[test]
fn centre_is_half_the_size_from_the_corner() {
    let body = Body::new(PADDLE, Vector::from_pixels(16, 100));
    assert_eq!(body.centre(), Vector::new(24_000, 132_000));
}

#[test]
fn centre_of_an_odd_sized_body_is_exact() {
    let body = Body::new(Size::new(15, 7), Vector::new(0, 0));
    assert_eq!(body.centre(), Vector::new(7500, 3500));
}

#[test]
fn centre_stops_at_the_end_of_the_range() {
    let body = Body::new(BALL, Vector::new(i64::MAX, i64::MAX - 8000));
    assert_eq!(body.centre(), Vector::new(i64::MAX, i64::MAX));
}

#[test]
fn integration_adds_the_velocity_to_the_position() {
    let mut body = ball(320_000, 200_000, -5000, 0);
    body.integrate();
    assert_eq!(body.position(), Vector::new(315_000, 200_000));
    assert_eq!(body.velocity(), Vector::new(-5000, 0));
    body.integrate();
    assert_eq!(body.position(), Vector::new(310_000, 200_000));
}

#[test]
fn integration_moves_on_both_axes() {
    let mut body = ball(100_000, 50_000, 5050, -2031);
    body.integrate();
    assert_eq!(body.position(), Vector::new(105_050, 47_969));
    assert_eq!(body.size(), BALL);
}

#[test]
fn integration_stops_at_the_end_of_the_range() {
    let mut body = ball(i64::MAX, i64::MIN + 3, 1, -5);
    body.integrate();
    assert_eq!(body.position(), Vector::new(i64::MAX, i64::MIN));
    assert_eq!(body.velocity(), Vector::new(1, -5));
}

#[test]
fn hit_reverses_and_adds_a_twentieth_of_a_pixel() {
    assert_eq!(reflect(-5000), 5050);
    assert_eq!(reflect(5050), -5100);
    assert_eq!(reflect(-5100), 5150);
    assert_eq!(reflect(1), -51);
    assert_eq!(reflect(-1), 51);
}

#[test]
fn hit_speed_grows_by_the_same_amount_each_time() {
    let mut vx: i64 = -5000;
    for hit in 1..=40 {
        let before = vx;
        vx = reflect(vx);
        assert_eq!(vx.abs(), before.abs() + 50);
        assert_eq!(vx.signum(), -before.signum());
        assert_eq!(vx.abs(), 5000 + 50 * hit);
    }
}

#[test]
fn hit_leaves_zero_horizontal_velocity_at_zero() {
    assert_eq!(reflect(0), 0);
}

#[test]
fn hit_stops_at_the_ends_of_the_range() {
    assert_eq!(reflect(i64::MAX), i64::MIN);
    assert_eq!(reflect(i64::MAX - 49), i64::MIN);
    assert_eq!(reflect(i64::MAX - 50), -i64::MAX);
    assert_eq!(reflect(i64::MIN), i64::MAX);
    assert_eq!(reflect(i64::MIN + 50), i64::MAX);
    assert_eq!(reflect(i64::MIN + 51), i64::MAX);
    assert_eq!(reflect(i64::MIN + 52), i64::MAX - 1);
}

#[test]
fn spin_is_four_pixels_per_paddle_height_of_offset() {
    assert_eq!(spin(132_000, 100_000, 64), -2000);
    assert_eq!(spin(132_000, 164_000, 64), 2000);
    assert_eq!(spin(132_000, 68_000, 64), -4000);
    assert_eq!(spin(132_000, 196_000, 64), 4000);
}

#[test]
fn spin_is_zero_for_level_centres() {
    assert_eq!(spin(132_000, 132_000, 64), 0);
    assert_eq!(spin(0, 0, 1), 0);
    assert_eq!(spin(-7, -7, -3), 0);
}

#[test]
fn spin_rounds_toward_zero() {
    assert_eq!(spin(132_000, 100_000, 63), -2031);
    assert_eq!(spin(100_000, 132_000, 63), 2031);
    assert_eq!(spin(132_015, 132_000, 64), 0);
    assert_eq!(spin(132_000, 132_015, 64), 0);
    assert_eq!(spin(132_016, 132_000, 64), -1);
    assert_eq!(spin(132_000, 132_016, 64), 1);
}

#[test]
fn spin_turns_with_the_sign_of_the_height() {
    assert_eq!(spin(132_000, 100_000, -64), 2000);
    assert_eq!(spin(100_000, 132_000, -64), -2000);
}

#[test]
fn spin_is_exact_for_the_farthest_centres() {
    assert_eq!(spin(i64::MAX, i64::MIN, 1), -73_786_976_294_838_206_460);
    assert_eq!(spin(i64::MIN, i64::MAX, 1), 73_786_976_294_838_206_460);
}

#[test]
fn deflect_reverses_and_spins() {
    let paddle = Body::new(PADDLE, Vector::from_pixels(16, 100));
    let mut body = ball(30_000, 92_000, -5000, 0);
    body.deflect(&paddle);
    assert_eq!(body.velocity(), Vector::new(5050, -2000));
    assert_eq!(body.position(), Vector::new(30_000, 92_000));
    assert_eq!(body.size(), BALL);
}

#[test]
fn deflect_adds_spin_to_the_vertical_velocity() {
    let paddle = Body::new(PADDLE, Vector::from_pixels(16, 100));
    let mut body = ball(30_000, 156_000, -5050, 700);
    body.deflect(&paddle);
    assert_eq!(body.velocity(), Vector::new(5100, 2700));
}

#[test]
fn deflect_at_the_paddle_centre_adds_no_spin() {
    let paddle = Body::new(PADDLE, Vector::from_pixels(16, 100));
    let mut body = ball(30_000, 124_000, -5000, 700);
    body.deflect(&paddle);
    assert_eq!(body.velocity(), Vector::new(5050, 700));
}

#[test]
fn deflect_stops_at_the_ends_of_the_range() {
    let paddle = Body::new(PADDLE, Vector::from_pixels(16, 100));
    let mut rising = ball(30_000, 92_000, 0, i64::MIN + 5);
    rising.deflect(&paddle);
    assert_eq!(rising.velocity(), Vector::new(0, i64::MIN));
    let mut falling = ball(30_000, 156_000, 0, i64::MAX - 5);
    falling.deflect(&paddle);
    assert_eq!(falling.velocity(), Vector::new(0, i64::MAX));
}

#[test]
fn ball_above_the_top_wall_bounces() {
    let mut body = ball(320_000, -1000, -5000, -3000);
    body.bounce(400);
    assert_eq!(body.velocity(), Vector::new(-5000, 3000));
    assert_eq!(body.position(), Vector::new(320_000, -1000));
}

#[test]
fn ball_on_the_top_wall_bounces() {
    let mut body = ball(320_000, 0, 5050, -3000);
    body.bounce(400);
    assert_eq!(body.velocity(), Vector::new(5050, 3000));
}

#[test]
fn ball_just_below_the_top_wall_does_not_bounce() {
    let mut body = ball(320_000, 1, 5050, -3000);
    body.bounce(400);
    assert_eq!(body.velocity(), Vector::new(5050, -3000));
}

#[test]
fn ball_on_the_bottom_wall_bounces() {
    let mut body = ball(320_000, 384_000, -5000, 2500);
    body.bounce(400);
    assert_eq!(body.velocity(), Vector::new(-5000, -2500));
    assert_eq!(body.position(), Vector::new(320_000, 384_000));
}

#[test]
fn ball_below_the_bottom_wall_bounces() {
    let mut body = ball(320_000, 390_000, -5000, 2500);
    body.bounce(400);
    assert_eq!(body.velocity(), Vector::new(-5000, -2500));
}

#[test]
fn ball_just_above_the_bottom_wall_does_not_bounce() {
    let mut body = ball(320_000, 383_999, -5000, 2500);
    body.bounce(400);
    assert_eq!(body.velocity(), Vector::new(-5000, 2500));
}

#[test]
fn ball_beyond_a_wall_bounces_whichever_way_it_moves() {
    let mut body = ball(320_000, -1000, -5000, 3000);
    body.bounce(400);
    assert_eq!(body.velocity(), Vector::new(-5000, -3000));
    body.bounce(400);
    assert_eq!(body.velocity(), Vector::new(-5000, 3000));
}

#[test]
fn bounce_stops_at_the_end_of_the_range() {
    let mut body = ball(320_000, 0, 0, i64::MIN);
    body.bounce(400);
    assert_eq!(body.velocity(), Vector::new(0, i64::MAX));
    body.bounce(400);
    assert_eq!(body.velocity(), Vector::new(0, -i64::MAX));
}

#[test]
fn ball_left_of_the_window_is_a_win_for_player_two() {
    let result = ball(-10, 200_000, -5000, 0).outcome(640);
    assert_eq!(result, FrameResult { player1_wins: false, player2_wins: true });
}

#[test]
fn ball_right_of_the_window_is_a_win_for_player_one() {
    let result = ball(640_010, 200_000, 5000, 0).outcome(640);
    assert_eq!(result, FrameResult { player1_wins: true, player2_wins: false });
}

#[test]
fn ball_on_either_edge_is_no_win() {
    let idle = FrameResult { player1_wins: false, player2_wins: false };
    assert_eq!(ball(0, 200_000, -5000, 0).outcome(640), idle);
    assert_eq!(ball(640_000, 200_000, 5000, 0).outcome(640), idle);
    assert_eq!(ball(320_000, 200_000, 5000, 0).outcome(640), idle);
}

#[test]
fn ball_one_unit_past_an_edge_is_a_win() {
    assert!(ball(-1, 0, 0, 0).outcome(640).player2_wins);
    assert!(ball(640_001, 0, 0, 0).outcome(640).player1_wins);
}

#[test]
fn win_conditions_are_independent() {
    let result = ball(-5000, 0, 0, 0).outcome(-10);
    assert_eq!(result, FrameResult { player1_wins: true, player2_wins: true });
}
