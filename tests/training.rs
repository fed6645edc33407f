use pong::ball::Ball;
use pong::brain::Brain;
use pong::game::left_paddle;
use pong::settings::Config;
use pong::simulation::{SimGame, Simulation};
use rand::{Rng, SeedableRng};
use rand_chacha::ChaCha8Rng;

fn config(serves: usize) -> Config {
    Config { generation_length: serves, ..Config::default() }
}

fn miss_ball() -> Ball {
    Ball::new(1_000, 100_000, -2_000, 0)
}

#[test]
fn sim_game_finishes_after_exactly_its_serves() {
    let mut rng = ChaCha8Rng::from_seed(Default::default());
    let mut g = SimGame::new(&config(2), "trainee", &mut rng);
    assert_eq!(g.serves, 2);
    assert!(!g.finished);
    g.serve(miss_ball());
    assert!(g.step(0));
    assert_eq!((g.serves, g.score.p1, g.finished), (1, -1, false));
    assert_eq!(g.paddle_left, left_paddle());
    g.serve(miss_ball());
    assert!(g.step(0));
    assert_eq!((g.serves, g.score.p1, g.finished), (0, -2, false));
    g.serve(Ball::new(400_000, 300_000, 2_000, 2_000));
    let before = (g.paddle_left, g.ball, g.score);
    assert!(!g.step(8_000));
    assert!(g.finished);
    assert_eq!((g.paddle_left, g.ball, g.score), before);
    g.handle_input(-8_000, &mut rng);
    assert!(g.finished);
    assert_eq!((g.paddle_left, g.ball, g.score), before);
}

#[test]
fn sim_game_handle_input_counts_misses_to_the_end() {
    let mut rng = ChaCha8Rng::from_seed(Default::default());
    let mut g = SimGame::new(&config(3), (), &mut rng);
    let mut misses = 0;
    for _ in 0..3 {
        g.serve(miss_ball());
        g.handle_input(0, &mut rng);
        misses += 1;
        assert!(!g.finished);
        assert_eq!(g.serves, 3 - misses);
    }
    g.handle_input(0, &mut rng);
    assert!(g.finished);
    assert_eq!(g.score.p1, -3);
}

#[test]
fn sim_game_with_no_serves_finishes_at_once() {
    let mut rng = ChaCha8Rng::from_seed(Default::default());
    let mut g = SimGame::new(&config(0), (), &mut rng);
    let ball = g.ball;
    g.handle_input(8_000, &mut rng);
    assert!(g.finished);
    assert_eq!(g.ball, ball);
    assert_eq!(g.paddle_left, left_paddle());
}

#[test]
fn sim_game_rewards_a_paddle_hit() {
    let mut rng = ChaCha8Rng::from_seed(Default::default());
    let mut g = SimGame::new(&config(3), (), &mut rng);
    g.serve(Ball::new(34_000, 295_000, -2_000, 0));
    g.handle_input(0, &mut rng);
    assert_eq!(g.score.p1, 1);
    assert_eq!(g.ball.vel.x, 2_020);
    assert_eq!(g.serves, 3);
}

#[test]
fn sim_game_serves_a_fresh_ball_after_a_miss() {
    let mut rng = ChaCha8Rng::from_seed(Default::default());
    let mut g = SimGame::new(&config(3), (), &mut rng);
    g.serve(miss_ball());
    g.paddle_left.y = 0;
    let right = g.paddle_right;
    g.handle_input(0, &mut rng);
    assert_eq!(g.serves, 2);
    assert_eq!(g.score.p1, -1);
    assert_eq!(g.paddle_left, left_paddle());
    assert_eq!(g.paddle_right, right);
    assert_eq!((g.ball.rect.x, g.ball.rect.y), (395_000, 295_000));
    assert!(2_000 <= g.ball.vel.x.abs() && g.ball.vel.x.abs() <= 3_000);
    assert!(2_000 <= g.ball.vel.y.abs() && g.ball.vel.y.abs() <= 3_000);
    let served = g.ball;
    g.handle_input(0, &mut rng);
    assert_eq!(g.serves, 2);
    assert_eq!(g.score.p1, -1);
    assert_eq!(g.ball.rect.x, served.rect.x + served.vel.x);
}

#[test]
fn simulation_steps_only_unfinished_games() {
    let mut rng = ChaCha8Rng::from_seed(Default::default());
    let mut sim = Simulation::new(&config(1), vec!['a', 'b'], &mut rng);
    assert_eq!(sim.games().len(), 2);
    assert_eq!(sim.games()[0].ai_player, 'a');
    assert_eq!(sim.games()[1].ai_player, 'b');
    assert!(!sim.all_finished());
    sim.games[0].serve(miss_ball());
    assert!(!sim.step(&vec![0, 0], &mut rng));
    assert_eq!(sim.games[0].serves, 0);
    assert_eq!(sim.games[1].serves, 1);
    assert!(!sim.step(&vec![0, 0], &mut rng));
    assert!(sim.games[0].finished);
    let frozen = (sim.games[0].ball, sim.games[0].paddle_left);
    sim.games[1].serve(miss_ball());
    assert!(!sim.step(&vec![8_000, 0], &mut rng));
    assert_eq!((sim.games[0].ball, sim.games[0].paddle_left), frozen);
    assert!(sim.step(&vec![8_000, 0], &mut rng));
    assert!(sim.all_finished());
    assert_eq!(sim.fitness(), vec![-1, -1]);
}

#[test]
fn random_simulation() {
    let mut prng = ChaCha8Rng::from_seed(Default::default());
    let config = Config::default();
    let genes = pong::brain::chromosome_len(&config).unwrap();
    let players: Vec<Brain<f32>> = (0..2)
        .map(|_| {
            let c: Vec<f32> = (0..genes).map(|_| prng.gen_range(-1.0..1.0)).collect();
            Brain::from_chromosome(&config, c)
        })
        .collect();
    let first = players[0].to_chromosome();
    let simulation = Simulation::new(&config, players, &mut prng);
    assert_eq!(simulation.games()[0].ai_player.to_chromosome(), first);
    let weights1 = simulation.games()[0].ai_player.to_chromosome();
    let weights2 = simulation.games()[1].ai_player.to_chromosome();
    assert_ne!(weights1, weights2);
}
