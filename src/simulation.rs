use vstd::prelude::*;

use rand_chacha::ChaCha8Rng;

use crate::ball::{advanced, bounced_off_paddle, bounced_off_wall, Ball, Paddle, Wall};
use crate::game::{left_paddle, left_paddle_start, paddle_wf, right_paddle, right_paddle_start};
use crate::geometry::{move_paddle, moved_paddle, Rect};
use crate::mode::{Mode, Player};
use crate::score::{add_point, dec, inc, take_point, Score};
use crate::settings::Config;

verus! {

/// One headless training match: a trainee on the left against a
/// full-height wall, for a fixed number of serves.
pub struct SimGame<P> {
    pub paddle_left: Rect,
    pub paddle_right: Rect,
    pub ball: Ball,
    pub score: Score,
    /// Serves left; each miss uses one up.
    pub serves: usize,
    pub ai_player: P,
    /// Set once no serves are left; a finished game never changes again.
    pub finished: bool,
}

/// The right-hand wall of a training match.
pub open spec fn training_wall() -> Rect {
    right_paddle_start(Mode::TrainAi(Player::Computer))
}

/// `g` after one tick of play: the trainee's move, the ball's move, then
/// the paddle check (a hit of the left paddle earns a point) and the wall
/// check (a miss on the left costs a point, puts the paddle back and uses
/// up a serve).
pub open spec fn sim_play_spec<P>(g: SimGame<P>, p1_move: i64) -> (SimGame<P>, bool) {
    let m = SimGame {
        paddle_left: moved_paddle(g.paddle_left, p1_move),
        ball: advanced(g.ball),
        ..g
    };
    let h = match m.ball.paddle_hit_spec(m.paddle_left, m.paddle_right) {
        Some(p) => SimGame {
            ball: bounced_off_paddle(m.ball),
            score: if p == Paddle::Left {
                Score { p1: inc(m.score.p1), ..m.score }
            } else {
                m.score
            },
            ..m
        },
        None => m,
    };
    match h.ball.wall_hit_spec() {
        Some(Wall::Top) | Some(Wall::Bottom) => (
            SimGame { ball: bounced_off_wall(h.ball, Wall::Top), ..h },
            false,
        ),
        Some(Wall::Left) => (
            SimGame {
                score: Score { p1: dec(h.score.p1), ..h.score },
                paddle_left: left_paddle_start(),
                serves: (h.serves - 1) as usize,
                ..h
            },
            true,
        ),
        _ => (h, false),
    }
}

/// One tick from `g`, and whether a new ball must now be served. With no
/// serves left the game is finished and nothing else changes.
pub open spec fn sim_step_spec<P>(g: SimGame<P>, p1_move: i64) -> (SimGame<P>, bool) {
    if g.serves == 0 {
        (SimGame { finished: true, ..g }, false)
    } else {
        sim_play_spec(g, p1_move)
    }
}

/// `g2` is `g` after one tick and, where it asked for one, a serve.
pub open spec fn sim_updated<P>(g: SimGame<P>, g2: SimGame<P>, p1_move: i64) -> bool {
    let (t, serve) = sim_step_spec(g, p1_move);
    if serve {
        g2.ball.is_served() && g2 == SimGame { ball: g2.ball, ..t }
    } else {
        g2 == t
    }
}

/// The game after `moves`, one tick each; a serve after tick `i` puts
/// `balls[i]` in play.
pub open spec fn sim_run<P>(g: SimGame<P>, moves: Seq<i64>, balls: Seq<Ball>) -> SimGame<P>
    decreases moves.len(),
{
    if moves.len() == 0 {
        g
    } else {
        let (t, serve) = sim_step_spec(g, moves[0]);
        let t2 = if serve {
            SimGame { ball: balls[0], ..t }
        } else {
            t
        };
        sim_run(t2, moves.drop_first(), balls.drop_first())
    }
}

/// The misses in the run `sim_run(g, moves, balls)`.
pub open spec fn sim_misses<P>(g: SimGame<P>, moves: Seq<i64>, balls: Seq<Ball>) -> nat
    decreases moves.len(),
{
    if moves.len() == 0 {
        0
    } else {
        let (t, serve) = sim_step_spec(g, moves[0]);
        let t2 = if serve {
            SimGame { ball: balls[0], ..t }
        } else {
            t
        };
        (if serve {
            1nat
        } else {
            0nat
        }) + sim_misses(t2, moves.drop_first(), balls.drop_first())
    }
}

impl<P> SimGame<P> {
    pub open spec fn wf(&self) -> bool {
        &&& paddle_wf(self.paddle_left)
        &&& paddle_wf(self.paddle_right)
        &&& self.ball.wf()
        &&& self.finished ==> self.serves == 0
    }

    /// A training match for `ai_player`, with `config.generation_length`
    /// serves, about to serve a ball drawn from `rng`.
    pub fn new(config: &Config, ai_player: P, rng: &mut ChaCha8Rng) -> (r: SimGame<P>)
        ensures
            r.wf(),
            r.paddle_left == left_paddle_start(),
            r.paddle_right == training_wall(),
            r.ball.is_served(),
            r.score == (Score { p1: 0, p2: 0 }),
            r.serves == config.generation_length,
            r.ai_player == ai_player,
            !r.finished,
    {
        SimGame {
            paddle_left: left_paddle(),
            paddle_right: right_paddle(Mode::TrainAi(Player::Computer)),
            ball: Ball::random(rng),
            score: Score::default(),
            serves: config.generation_length,
            ai_player,
            finished: false,
        }
    }

    /// Checks whether the ball hits a paddle; a hit of the left paddle
    /// earns the trainee a point. The bounce itself is left to the caller.
    pub fn ball_hit_paddle(&mut self) -> (r: Option<Paddle>)
        requires
            old(self).wf(),
        ensures
            r == old(self).ball.paddle_hit_spec(old(self).paddle_left, old(self).paddle_right),
            *final(self) == (SimGame {
                score: if r == Some(Paddle::Left) {
                    Score { p1: inc(old(self).score.p1), ..old(self).score }
                } else {
                    old(self).score
                },
                ..*old(self)
            }),
    {
        let hit = self.ball.paddle_hit(&self.paddle_left, &self.paddle_right);
        if let Some(Paddle::Left) = hit {
            self.score.p1 = add_point(self.score.p1);
        }
        hit
    }

    /// Checks whether the ball hits a wall.
    pub fn ball_hit_wall(&mut self) -> (r: Option<Wall>)
        requires
            old(self).wf(),
        ensures
            r == old(self).ball.wall_hit_spec(),
            *final(self) == *old(self),
    {
        self.ball.wall_hit()
    }

    /// One tick of play (see `sim_step_spec`) with the trainee's move,
    /// short of serving: returns whether the ball was missed, in which
    /// case a new ball must be put in play with `serve`.
    pub fn step(&mut self, p1_move: i64) -> (r: bool)
        requires
            old(self).wf(),
        ensures
            final(self).wf(),
            (*final(self), r) == sim_step_spec(*old(self), p1_move),
    {
        if self.serves == 0 {
            self.finished = true;
            return false;
        }
        move_paddle(&mut self.paddle_left, p1_move);
        self.ball.advance();
        if self.ball_hit_paddle().is_some() {
            self.ball.bounce_off_paddle();
        }
        match self.ball_hit_wall() {
            Some(Wall::Top) | Some(Wall::Bottom) => {
                self.ball.bounce_off(Wall::Top);
                false
            },
            Some(Wall::Left) => {
                self.score.p1 = take_point(self.score.p1);
                self.reset_paddle();
                self.serves = self.serves - 1;
                true
            },
            _ => false,
        }
    }

    /// Puts the trainee's paddle back at its starting place.
    pub fn reset_paddle(&mut self)
        requires
            old(self).wf(),
        ensures
            final(self).wf(),
            *final(self) == (SimGame { paddle_left: left_paddle_start(), ..*old(self) }),
    {
        self.paddle_left = left_paddle();
    }

    /// Puts `ball` in play.
    pub fn serve(&mut self, ball: Ball)
        requires
            old(self).wf(),
            ball.wf(),
        ensures
            final(self).wf(),
            *final(self) == (SimGame { ball, ..*old(self) }),
    {
        self.ball = ball;
    }

    /// One tick with the trainee's move. A miss takes a point off the
    /// trainee, puts its paddle back, uses up a serve and puts a fresh
    /// ball, drawn from `rng`, in play; with no serves left the game is
    /// finished instead and nothing else changes.
    pub fn handle_input(&mut self, p1_move: i64, rng: &mut ChaCha8Rng)
        requires
            old(self).wf(),
        ensures
            final(self).wf(),
            sim_updated(*old(self), *final(self), p1_move),
            sim_step_spec(*old(self), p1_move).1 ==> final(self).ball.is_served(),
    {
        if self.step(p1_move) {
            let ball = Ball::random(rng);
            self.serve(ball);
        }
    }
}

/// A generation of training matches, stepped together.
pub struct Simulation<P> {
    pub games: Vec<SimGame<P>>,
    pub config: Config,
}

impl<P> Simulation<P> {
    pub open spec fn wf(&self) -> bool {
        forall|i: int| 0 <= i < self.games@.len() ==> #[trigger] self.games@[i].wf()
    }

    /// Whether every game is finished.
    pub open spec fn all_finished_spec(&self) -> bool {
        forall|i: int| 0 <= i < self.games@.len() ==> #[trigger] self.games@[i].finished
    }

    /// One training match for each player, in order, each about to serve
    /// a ball drawn from `rng`.
    pub fn new(config: &Config, players: Vec<P>, rng: &mut ChaCha8Rng) -> (r: Simulation<P>)
        ensures
            r.wf(),
            r.config == *config,
            r.games@.len() == players@.len(),
            forall|i: int|
                0 <= i < players@.len() ==> {
                    let g = #[trigger] r.games@[i];
                    &&& g.ai_player == players@[i]
                    &&& g.paddle_left == left_paddle_start()
                    &&& g.paddle_right == training_wall()
                    &&& g.ball.is_served()
                    &&& g.score == (Score { p1: 0, p2: 0 })
                    &&& g.serves == config.generation_length
                    &&& !g.finished
                },
    {
        let mut players = players;
        let ghost all = players@;
        let mut games: Vec<SimGame<P>> = Vec::new();
        while players.len() > 0
            invariant
                games@.len() + players@.len() == all.len(),
                players@ == all.subrange(games@.len() as int, all.len() as int),
                forall|i: int|
                    0 <= i < games@.len() ==> {
                        let g = #[trigger] games@[i];
                        &&& g.wf()
                        &&& g.ai_player == all[i]
                        &&& g.paddle_left == left_paddle_start()
                        &&& g.paddle_right == training_wall()
                        &&& g.ball.is_served()
                        &&& g.score == (Score { p1: 0, p2: 0 })
                        &&& g.serves == config.generation_length
                        &&& !g.finished
                    },
            decreases players@.len(),
        {
            let player = players.remove(0);
            games.push(SimGame::new(config, player, rng));
        }
        Simulation { games, config: *config }
    }

    /// The training matches, in order.
    pub fn games(&self) -> (r: &[SimGame<P>])
        ensures
            r@ == self.games@,
    {
        self.games.as_slice()
    }

    /// Whether every game is finished, so the generation can be judged.
    pub fn all_finished(&self) -> (r: bool)
        ensures
            r == self.all_finished_spec(),
    {
        let mut i: usize = 0;
        while i < self.games.len()
            invariant
                0 <= i <= self.games@.len(),
                forall|j: int| 0 <= j < i ==> #[trigger] self.games@[j].finished,
            decreases self.games@.len() - i,
        {
            if !self.games[i].finished {
                return false;
            }
            i = i + 1;
        }
        true
    }

    /// Advances every unfinished game by one tick, game `i` with the move
    /// `moves[i]` of its trainee; finished games stay as they are. Returns
    /// whether every game is now finished.
    pub fn step(&mut self, moves: &Vec<i64>, rng: &mut ChaCha8Rng) -> (r: bool)
        requires
            old(self).wf(),
            moves@.len() == old(self).games@.len(),
        ensures
            final(self).wf(),
            final(self).config == old(self).config,
            final(self).games@.len() == old(self).games@.len(),
            forall|i: int|
                0 <= i < old(self).games@.len() ==> if old(self).games@[i].finished {
                    #[trigger] final(self).games@[i] == old(self).games@[i]
                } else {
                    sim_updated(old(self).games@[i], final(self).games@[i], moves@[i])
                },
            r == final(self).all_finished_spec(),
    {
        let n = self.games.len();
        let mut i: usize = 0;
        while i < n
            invariant
                0 <= i <= n,
                n == self.games@.len(),
                n == old(self).games@.len(),
                moves@.len() == n,
                self.config == old(self).config,
                forall|j: int| 0 <= j < n ==> #[trigger] self.games@[j].wf(),
                forall|j: int|
                    i <= j < n ==> #[trigger] self.games@[j] == old(self).games@[j],
                forall|j: int|
                    0 <= j < i ==> if old(self).games@[j].finished {
                        #[trigger] self.games@[j] == old(self).games@[j]
                    } else {
                        sim_updated(old(self).games@[j], self.games@[j], moves@[j])
                    },
            decreases n - i,
        {
            if !self.games[i].finished {
                self.games[i].handle_input(moves[i], rng);
            }
            i = i + 1;
        }
        self.all_finished()
    }

    /// The trainees' scores, in order: what a generation is judged by.
    pub fn fitness(&self) -> (r: Vec<i16>)
        ensures
            r@.len() == self.games@.len(),
            forall|i: int| 0 <= i < r@.len() ==> #[trigger] r@[i] == self.games@[i].score.p1,
    {
        let mut r: Vec<i16> = Vec::new();
        let mut i: usize = 0;
        while i < self.games.len()
            invariant
                0 <= i <= self.games@.len(),
                r@.len() == i,
                forall|j: int| 0 <= j < i ==> #[trigger] r@[j] == self.games@[j].score.p1,
            decreases self.games@.len() - i,
        {
            r.push(self.games[i].score.p1);
            i = i + 1;
        }
        r
    }
}

/// A training match that starts with `n` serves left finishes only after
/// exactly `n` misses: along any run, the misses so far and the serves
/// left add up to `n`, and a finished game has no serves left. A game with
/// none left finishes on its next tick, changing nothing else, and a
/// finished game is never changed again.
pub proof fn lemma_sim_termination<P>(g: SimGame<P>, moves: Seq<i64>, balls: Seq<Ball>)
    requires
        g.finished ==> g.serves == 0,
    ensures
        sim_run(g, moves, balls).serves + sim_misses(g, moves, balls) == g.serves,
        sim_run(g, moves, balls).finished ==> sim_run(g, moves, balls).serves == 0,
        sim_run(g, moves, balls).finished ==> sim_misses(g, moves, balls) == g.serves,
        g.serves == 0 && moves.len() > 0 ==> sim_run(g, moves, balls) == (SimGame {
            finished: true,
            ..g
        }),
        g.finished ==> sim_run(g, moves, balls) == g,
    decreases moves.len(),
{
    if moves.len() > 0 {
        let (t, serve) = sim_step_spec(g, moves[0]);
        let t2 = if serve {
            SimGame { ball: balls[0], ..t }
        } else {
            t
        };
        lemma_sim_termination(t2, moves.drop_first(), balls.drop_first());
        if g.serves == 0 {
            assert(t2 == SimGame { finished: true, ..g });
            lemma_sim_finished_stays(t2, moves.drop_first(), balls.drop_first());
        }
    }
}

/// Ticks change a finished game with no serves left in nothing.
proof fn lemma_sim_finished_stays<P>(g: SimGame<P>, moves: Seq<i64>, balls: Seq<Ball>)
    requires
        g.finished,
        g.serves == 0,
    ensures
        sim_run(g, moves, balls) == g,
    decreases moves.len(),
{
    if moves.len() > 0 {
        assert(sim_step_spec(g, moves[0]) == (g, false));
        lemma_sim_finished_stays(g, moves.drop_first(), balls.drop_first());
    }
}

} // verus!
