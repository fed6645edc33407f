use pong::cli::{get_game_mode, ModeError, Opt};
use pong::mode::{players_for, Mode, Player};
use pong::players::{ai_move, HumanPlayer, Snapshot};
use pong::ball::Ball;
use pong::geometry::Rect;
use pong::score::Score;
use pong::settings::PADDLE_SPEED;
use rand::SeedableRng;
use std::cmp::Ordering;

#[test]
fn mode_numbers_select_modes() {
    let expect = [
        (1, Mode::TwoPlayer(Player::Human, Player::Human)),
        (2, Mode::TwoPlayer(Player::Human, Player::Computer)),
        (3, Mode::TwoPlayer(Player::Computer, Player::Human)),
        (4, Mode::TwoPlayer(Player::Computer, Player::Computer)),
        (5, Mode::OnePlayer(Player::Human)),
        (6, Mode::OnePlayer(Player::Computer)),
    ];
    for (n, m) in expect {
        assert_eq!(get_game_mode(&Opt { mode: n, fps: 0 }), Ok(m));
    }
}

#[test]
fn unknown_mode_number_is_an_error() {
    for n in [0u8, 7, 255] {
        assert_eq!(get_game_mode(&Opt { mode: n, fps: 60 }), Err(ModeError));
    }
}

#[test]
fn human_moves_follow_the_keys() {
    let p = HumanPlayer::new('w', 's');
    assert_eq!((p.controls.up, p.controls.down), ('w', 's'));
    assert_eq!(p.make_move(true, false), -PADDLE_SPEED);
    assert_eq!(p.make_move(false, true), PADDLE_SPEED);
    assert_eq!(p.make_move(true, true), -PADDLE_SPEED);
    assert_eq!(p.make_move(false, false), 0);
}

#[test]
fn ai_moves_follow_the_response_sign() {
    assert_eq!(ai_move(Some(Ordering::Less)), -PADDLE_SPEED);
    assert_eq!(ai_move(Some(Ordering::Greater)), PADDLE_SPEED);
    assert_eq!(ai_move(Some(Ordering::Equal)), 0);
    assert_eq!(ai_move(None), 0);
    assert_eq!(ai_move((-0.3f32).partial_cmp(&0.0)), -PADDLE_SPEED);
    assert_eq!(ai_move(f32::NAN.partial_cmp(&0.0)), 0);
}

#[test]
fn snapshot_copies_paddle_and_ball() {
    let paddle = Rect::new(20_000, 262_500, 12_000, 75_000);
    let ball = Ball::new(395_000, 295_000, -2_000, 0);
    let snap = Snapshot::new(&paddle, &ball);
    assert_eq!(snap.paddle, paddle);
    assert_eq!(snap.ball, ball);
}

#[test]
fn score_starts_at_zero() {
    assert_eq!(Score::default(), Score { p1: 0, p2: 0 });
}

#[test]
fn random_moves_are_full_steps_both_ways() {
    let mut rng = rand_chacha::ChaCha8Rng::from_seed(Default::default());
    let moves: Vec<i64> = (0..40).map(|_| pong::players::random_move(&mut rng)).collect();
    assert!(moves.iter().all(|&m| m == PADDLE_SPEED || m == -PADDLE_SPEED));
    assert!(moves.contains(&PADDLE_SPEED) && moves.contains(&-PADDLE_SPEED));
}

#[test]
fn modes_name_their_players() {
    let (h, c) = (Player::Human, Player::Computer);
    assert_eq!(players_for(Mode::OnePlayer(h)), (h, None));
    assert_eq!(players_for(Mode::TwoPlayer(c, h)), (c, Some(h)));
    assert_eq!(players_for(Mode::TrainAi(h)), (c, None));
}
