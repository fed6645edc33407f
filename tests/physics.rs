use pong::ball::{Ball, Velocity, Wall};
use pong::geometry::{move_paddle, Rect};
use pong::settings::{
    BALL_MAX_VEL, BALL_MIN_VEL, BALL_RADIUS, PADDLE_HEIGHT, PADDLE_SPEED, PADDLE_WIDTH,
    SCREEN_HEIGHT, X_OFFSET,
};
use rand::SeedableRng;
use rand_chacha::ChaCha8Rng;

fn paddle_at(y: i64) -> Rect {
    Rect::new(X_OFFSET, y, PADDLE_WIDTH, PADDLE_HEIGHT)
}

#[test]
fn paddle_moves_by_the_whole_delta_inside_the_field() {
    let mut p = paddle_at(262_500);
    move_paddle(&mut p, -PADDLE_SPEED);
    assert_eq!(p.y, 254_500);
    move_paddle(&mut p, PADDLE_SPEED);
    move_paddle(&mut p, PADDLE_SPEED);
    assert_eq!(p.y, 270_500);
    assert_eq!(p.x, X_OFFSET);
    assert_eq!(p.h, PADDLE_HEIGHT);
}

#[test]
fn paddle_snaps_to_the_top_edge() {
    let mut p = paddle_at(3_000);
    move_paddle(&mut p, -PADDLE_SPEED);
    assert_eq!(p.y, 0);
    move_paddle(&mut p, -1);
    assert_eq!(p.y, 0);
}

#[test]
fn paddle_snaps_to_the_bottom_edge() {
    let mut p = paddle_at(SCREEN_HEIGHT - PADDLE_HEIGHT - 3_000);
    move_paddle(&mut p, PADDLE_SPEED);
    assert_eq!(p.y, SCREEN_HEIGHT - PADDLE_HEIGHT);
    assert_eq!(p.bottom(), SCREEN_HEIGHT);
}

#[test]
fn paddle_stays_in_the_field_for_any_start_and_delta() {
    let starts = [-900_000, -1, 0, 1, 262_500, 524_999, 525_000, 525_001, 2_000_000];
    let deltas = [-1_000_000, -8_000, -1, 0, 1, 8_000, 1_000_000, i64::MIN, i64::MAX];
    for &y in starts.iter() {
        for &d in deltas.iter() {
            let mut p = paddle_at(y);
            move_paddle(&mut p, d);
            assert!(p.top() >= 0);
            assert!(p.bottom() <= SCREEN_HEIGHT);
        }
    }
}

#[test]
fn full_height_wall_snaps_to_its_own_height() {
    let mut wall = Rect::new(768_000, 0, PADDLE_WIDTH, SCREEN_HEIGHT);
    move_paddle(&mut wall, PADDLE_SPEED);
    assert_eq!(wall.y, 0);
    move_paddle(&mut wall, -PADDLE_SPEED);
    assert_eq!(wall.y, 0);
}

#[test]
fn rects_overlap_when_edges_touch() {
    let a = Rect::new(0, 0, 10, 10);
    assert!(a.overlaps(&Rect::new(10, 10, 5, 5)));
    assert!(!a.overlaps(&Rect::new(11, 0, 5, 5)));
    assert!(!a.overlaps(&Rect::new(0, 11, 5, 5)));
    assert!(Rect::new(5, 5, 1, 1).overlaps(&a));
}

#[test]
fn rect_edges_and_centre() {
    let r = Rect::new(20_000, 262_500, 12_000, 75_000);
    assert_eq!(r.top(), 262_500);
    assert_eq!(r.bottom(), 337_500);
    assert_eq!(r.left(), 20_000);
    assert_eq!(r.right(), 32_000);
    assert_eq!(r.center(), (26_000, 300_000));
}

#[test]
fn translate_moves_both_coordinates() {
    let mut r = Rect::new(395_000, 295_000, 10_000, 10_000);
    r.translate(-2_000, 500);
    assert_eq!((r.x, r.y, r.w, r.h), (393_000, 295_500, 10_000, 10_000));
}

#[test]
fn ball_new_computes_its_speed() {
    let b = Ball::new(0, 0, 3_000, -4_000);
    assert_eq!(b.spd, 5_000);
    assert_eq!(b.rect.w, BALL_RADIUS);
    let c = Ball::new(0, 0, 2_000, 2_000);
    assert_eq!(c.spd, 2_828);
}

#[test]
fn wall_bounce_turns_a_falling_ball_up() {
    let mut b = Ball::new(100_000, 595_000, 2_000, 2_500);
    b.bounce_off(Wall::Bottom);
    assert_eq!(b.vel, Velocity { x: 2_000, y: -2_500 });
    assert_eq!(b.rect.y, 595_000);
}

#[test]
fn wall_bounce_turns_a_rising_ball_down() {
    let mut b = Ball::new(100_000, -1_000, 2_000, -2_500);
    b.bounce_off(Wall::Top);
    assert_eq!(b.vel.y, 2_500);
}

#[test]
fn wall_bounce_clamps_the_vertical_speed() {
    let mut fast = Ball::new(0, 0, 2_000, 9_000);
    fast.bounce_off(Wall::Bottom);
    assert_eq!(fast.vel.y, -BALL_MAX_VEL);
    let mut slow = Ball::new(0, 0, 2_000, -500);
    slow.bounce_off(Wall::Top);
    assert_eq!(slow.vel.y, BALL_MIN_VEL);
    let mut still = Ball::new(0, 0, 2_000, 0);
    still.bounce_off(Wall::Top);
    assert_eq!(still.vel.y, BALL_MIN_VEL);
    for vy in [-1_000_000, -3_001, -2_999, -1, 0, 1, 1_999, 2_001, 1_000_000] {
        let mut b = Ball::new(0, 0, 0, vy);
        b.bounce_off(Wall::Bottom);
        assert!(BALL_MIN_VEL <= b.vel.y.abs() && b.vel.y.abs() <= BALL_MAX_VEL);
    }
}

#[test]
fn side_walls_do_not_bounce() {
    let b = Ball::new(-5_000, 300_000, -2_000, 2_000);
    let mut left = b;
    left.bounce_off(Wall::Left);
    assert_eq!(left, b);
    let mut right = b;
    right.bounce_off(Wall::Right);
    assert_eq!(right, b);
}

#[test]
fn paddle_bounce_grows_the_horizontal_speed() {
    let mut b = Ball::new(30_000, 295_000, -2_000, 1_000);
    b.bounce_off_paddle();
    assert_eq!(b.vel, Velocity { x: 2_020, y: 1_000 });
    b.bounce_off_paddle();
    assert_eq!(b.vel.x, -2_040);
}

#[test]
fn paddle_bounce_stops_at_the_speed_limit() {
    let mut b = Ball::new(0, 0, 999_000, 0);
    b.bounce_off_paddle();
    assert_eq!(b.vel.x, -1_000_000);
}

#[test]
fn ball_from_draws_is_centred() {
    let b = Ball::from_draws(true, 2_500, false, 3_000);
    assert_eq!(b.rect, Rect::new(395_000, 295_000, BALL_RADIUS, BALL_RADIUS));
    assert_eq!(b.vel, Velocity { x: -2_500, y: 3_000 });
    assert_eq!(b.spd, 3_905);
}

#[test]
fn random_balls_are_served_within_the_speed_range() {
    let mut rng = ChaCha8Rng::from_seed(Default::default());
    let mut speeds = Vec::new();
    let mut signs = Vec::new();
    for _ in 0..50 {
        let b = Ball::random(&mut rng);
        assert_eq!(b.rect, Rect::new(395_000, 295_000, BALL_RADIUS, BALL_RADIUS));
        for v in [b.vel.x, b.vel.y] {
            assert!(BALL_MIN_VEL <= v.abs() && v.abs() <= BALL_MAX_VEL);
            speeds.push(v.abs());
            signs.push(v > 0);
        }
    }
    assert!(speeds.iter().any(|&s| s != BALL_MIN_VEL));
    assert!(speeds.iter().any(|&s| s != speeds[0]));
    assert!(signs.iter().any(|&s| s) && signs.iter().any(|&s| !s));
}

#[test]
fn hit_checks_follow_the_ball() {
    let left = Rect::new(X_OFFSET, 262_500, PADDLE_WIDTH, PADDLE_HEIGHT);
    let right = Rect::new(768_000, 0, PADDLE_WIDTH, SCREEN_HEIGHT);
    let towards = Ball::new(30_000, 295_000, -2_000, 0);
    assert_eq!(towards.paddle_hit(&left, &right), Some(pong::ball::Paddle::Left));
    let away = Ball::new(30_000, 295_000, 2_000, 0);
    assert_eq!(away.paddle_hit(&left, &right), None);
    assert_eq!(Ball::new(300_000, -1, 0, -2_000).wall_hit(), Some(Wall::Top));
    assert_eq!(Ball::new(300_000, 590_001 - BALL_RADIUS + 1, 0, 2_000).wall_hit(), Some(Wall::Bottom));
    assert_eq!(Ball::new(-1, 300_000, -2_000, 0).wall_hit(), Some(Wall::Left));
    assert_eq!(Ball::new(780_001, 300_000, 2_000, 0).wall_hit(), Some(Wall::Right));
    assert_eq!(Ball::new(400_000, 300_000, 2_000, 2_000).wall_hit(), None);
}
