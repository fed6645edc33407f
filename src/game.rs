use vstd::prelude::*;

use rand_chacha::ChaCha8Rng;

use crate::ball::{advanced, bounced_off_paddle, bounced_off_wall, Ball, Paddle, Wall};
use crate::geometry::{move_paddle, moved_paddle, Rect};
use crate::mode::Mode;
use crate::score::{add_point, dec, inc, take_point, Score};
use crate::ball::{serve_rect, Velocity};
use crate::settings::{
    BALL_RADIUS, PADDLE_HEIGHT, PADDLE_WIDTH, SCREEN_HEIGHT, SCREEN_WIDTH, X_OFFSET,
};

verus! {

/// One match: the paddles, the ball, the score and the countdown of a
/// pause after a point.
#[derive(Clone, Copy, Debug, PartialEq, Eq, Structural)]
pub struct GameState {
    pub paddle_left: Rect,
    pub paddle_right: Rect,
    pub ball: Ball,
    pub score: Score,
    /// Ticks left before the next serve; play goes on only at zero.
    pub pause_for: u64,
    pub mode: Mode,
}

/// Where the left paddle starts: centred vertically.
pub open spec fn left_paddle_start() -> Rect {
    Rect {
        x: X_OFFSET,
        y: (SCREEN_HEIGHT / 2 - PADDLE_HEIGHT / 2) as i64,
        w: PADDLE_WIDTH,
        h: PADDLE_HEIGHT,
    }
}

/// Where the right paddle starts: a full-height wall unless two play.
pub open spec fn right_paddle_start(mode: Mode) -> Rect {
    match mode {
        Mode::TwoPlayer(_, _) => Rect {
            x: (SCREEN_WIDTH - X_OFFSET - PADDLE_WIDTH) as i64,
            y: (SCREEN_HEIGHT / 2 - PADDLE_HEIGHT / 2) as i64,
            w: PADDLE_WIDTH,
            h: PADDLE_HEIGHT,
        },
        _ => Rect {
            x: (SCREEN_WIDTH - X_OFFSET - PADDLE_WIDTH) as i64,
            y: 0,
            w: PADDLE_WIDTH,
            h: SCREEN_HEIGHT,
        },
    }
}

/// A paddle that `move_paddle` can move.
pub open spec fn paddle_wf(p: Rect) -> bool {
    p.wf() && p.h <= SCREEN_HEIGHT
}

/// `s` with both paddles back at their starting places.
pub open spec fn reset_paddles_spec(s: GameState) -> GameState {
    GameState {
        paddle_left: left_paddle_start(),
        paddle_right: right_paddle_start(s.mode),
        ..s
    }
}

/// `s` after the players' moves; the right paddle moves only when a
/// second player moved it.
pub open spec fn moved_paddles(s: GameState, p1_move: i64, p2_move: Option<i64>) -> GameState {
    GameState {
        paddle_left: moved_paddle(s.paddle_left, p1_move),
        paddle_right: match p2_move {
            Some(d) => moved_paddle(s.paddle_right, d),
            None => s.paddle_right,
        },
        ..s
    }
}

/// `s` after checking for a paddle hit: the ball bounces back, and in a
/// one-player match a hit of the left paddle earns player one a point.
pub open spec fn after_paddle_hit(s: GameState) -> GameState {
    match s.ball.paddle_hit_spec(s.paddle_left, s.paddle_right) {
        Some(p) => GameState {
            ball: bounced_off_paddle(s.ball),
            score: if p == Paddle::Left && s.mode is OnePlayer {
                Score { p1: inc(s.score.p1), ..s.score }
            } else {
                s.score
            },
            ..s
        },
        None => s,
    }
}

/// `s` after checking for a wall hit. The top and bottom walls bounce the
/// ball. The left wall is a point for player two in a two-player match and
/// a point off player one otherwise; the right wall is a point for player
/// one in a two-player match and nothing otherwise. A point starts a pause
/// of `ticks_per_second` ticks.
pub open spec fn after_wall_hit(s: GameState, ticks_per_second: u64) -> GameState {
    match s.ball.wall_hit_spec() {
        Some(Wall::Top) | Some(Wall::Bottom) => GameState {
            ball: bounced_off_wall(s.ball, Wall::Top),
            ..s
        },
        Some(Wall::Left) => if s.mode is TwoPlayer {
            GameState {
                score: Score { p2: inc(s.score.p2), ..s.score },
                pause_for: ticks_per_second,
                ..s
            }
        } else {
            GameState {
                score: Score { p1: dec(s.score.p1), ..s.score },
                pause_for: ticks_per_second,
                ..s
            }
        },
        Some(Wall::Right) => if s.mode is TwoPlayer {
            GameState {
                score: Score { p1: inc(s.score.p1), ..s.score },
                pause_for: ticks_per_second,
                ..s
            }
        } else {
            s
        },
        None => s,
    }
}

/// `s` after its paddles and ball have moved, before any hit is checked.
pub open spec fn moved_spec(s: GameState, p1_move: i64, p2_move: Option<i64>) -> GameState {
    let m = moved_paddles(s, p1_move, p2_move);
    GameState { ball: advanced(m.ball), ..m }
}

/// One tick of play: moves, then the paddle check, then the wall check.
pub open spec fn play_spec(
    s: GameState,
    p1_move: i64,
    p2_move: Option<i64>,
    ticks_per_second: u64,
) -> GameState {
    after_wall_hit(after_paddle_hit(moved_spec(s, p1_move, p2_move)), ticks_per_second)
}

/// One tick from `s`, and whether a new ball must now be served. In play
/// the tick is `play_spec`; the last tick of a pause puts the paddles back
/// and asks for a serve; an earlier one only counts down.
pub open spec fn step_spec(
    s: GameState,
    p1_move: i64,
    p2_move: Option<i64>,
    ticks_per_second: u64,
) -> (GameState, bool) {
    if s.pause_for == 0 {
        (play_spec(s, p1_move, p2_move, ticks_per_second), false)
    } else if s.pause_for == 1 {
        (reset_paddles_spec(GameState { pause_for: 0, ..s }), true)
    } else {
        (GameState { pause_for: (s.pause_for - 1) as u64, ..s }, false)
    }
}

impl GameState {
    /// The paddles move only vertically, each in its own column, and the
    /// ball keeps its size.
    pub open spec fn wf(&self) -> bool {
        &&& paddle_wf(self.paddle_left)
        &&& paddle_wf(self.paddle_right)
        &&& self.ball.wf()
        &&& self.paddle_left.x == X_OFFSET
        &&& self.paddle_left.w == PADDLE_WIDTH
        &&& self.paddle_right.x == SCREEN_WIDTH - X_OFFSET - PADDLE_WIDTH
        &&& self.paddle_right.w == PADDLE_WIDTH
        &&& self.ball.rect.w == BALL_RADIUS
        &&& self.ball.rect.h == BALL_RADIUS
    }

    /// A match of the given mode, about to serve a ball drawn from `rng`.
    pub fn new(mode: Mode, rng: &mut ChaCha8Rng) -> (r: GameState)
        ensures
            r.wf(),
            r.paddle_left == left_paddle_start(),
            r.paddle_right == right_paddle_start(mode),
            r.ball.is_served(),
            r.score == (Score { p1: 0, p2: 0 }),
            r.pause_for == 0,
            r.mode == mode,
    {
        GameState {
            paddle_left: left_paddle(),
            paddle_right: right_paddle(mode),
            ball: Ball::random(rng),
            score: Score::default(),
            pause_for: 0,
            mode,
        }
    }

    /// Checks whether the ball hits a paddle, scoring a one-player hit of
    /// the left paddle. The bounce itself is left to the caller.
    pub fn ball_hit_paddle(&mut self) -> (r: Option<Paddle>)
        requires
            old(self).wf(),
        ensures
            r == old(self).ball.paddle_hit_spec(old(self).paddle_left, old(self).paddle_right),
            *final(self) == (GameState {
                score: if r == Some(Paddle::Left) && old(self).mode is OnePlayer {
                    Score { p1: inc(old(self).score.p1), ..old(self).score }
                } else {
                    old(self).score
                },
                ..*old(self)
            }),
    {
        let hit = self.ball.paddle_hit(&self.paddle_left, &self.paddle_right);
        if let Some(Paddle::Left) = hit {
            if let Mode::OnePlayer(_) = self.mode {
                self.score.p1 = add_point(self.score.p1);
            }
        }
        hit
    }

    /// Checks whether the ball hits a wall.
    pub fn ball_hit_wall(&mut self) -> (r: Option<Wall>)
        requires
            old(self).wf(),
        ensures
            r == old(self).ball.wall_hit_spec(),
            *final(self) == *old(self),
    {
        self.ball.wall_hit()
    }

    /// Moves the paddles by the players' moves; the right one only when
    /// there is a second player.
    pub fn handle_input(&mut self, p1_move: i64, p2_move: Option<i64>)
        requires
            old(self).wf(),
        ensures
            final(self).wf(),
            final(self).paddle_left.within_field(),
            p2_move is Some ==> final(self).paddle_right.within_field(),
            *final(self) == moved_paddles(*old(self), p1_move, p2_move),
    {
        move_paddle(&mut self.paddle_left, p1_move);
        if let Some(d) = p2_move {
            move_paddle(&mut self.paddle_right, d);
        }
    }

    /// Puts both paddles back at their starting places.
    pub fn reset_paddles(&mut self)
        requires
            old(self).wf(),
        ensures
            final(self).wf(),
            *final(self) == reset_paddles_spec(*old(self)),
    {
        self.paddle_left = left_paddle();
        self.paddle_right = right_paddle(self.mode);
    }

    /// One tick (see `step_spec`); returns whether a new ball must be
    /// served, which `serve` does.
    pub fn step(&mut self, p1_move: i64, p2_move: Option<i64>, ticks_per_second: u64) -> (r: bool)
        requires
            old(self).wf(),
        ensures
            final(self).wf(),
            (*final(self), r) == step_spec(*old(self), p1_move, p2_move, ticks_per_second),
    {
        if self.pause_for == 0 {
            self.handle_input(p1_move, p2_move);
            self.ball.advance();
            if self.ball_hit_paddle().is_some() {
                self.ball.bounce_off_paddle();
            }
            match self.ball_hit_wall() {
                Some(Wall::Top) | Some(Wall::Bottom) => {
                    self.ball.bounce_off(Wall::Top);
                },
                Some(Wall::Left) => {
                    if let Mode::TwoPlayer(_, _) = self.mode {
                        self.score.p2 = add_point(self.score.p2);
                    } else {
                        self.score.p1 = take_point(self.score.p1);
                    }
                    self.pause_for = ticks_per_second;
                },
                Some(Wall::Right) => {
                    if let Mode::TwoPlayer(_, _) = self.mode {
                        self.score.p1 = add_point(self.score.p1);
                        self.pause_for = ticks_per_second;
                    }
                },
                None => {},
            }
            false
        } else if self.pause_for == 1 {
            self.pause_for = 0;
            self.reset_paddles();
            true
        } else {
            self.pause_for = self.pause_for - 1;
            false
        }
    }

    /// Puts `ball` in play.
    pub fn serve(&mut self, ball: Ball)
        requires
            old(self).wf(),
            ball.wf(),
            ball.rect.w == BALL_RADIUS,
            ball.rect.h == BALL_RADIUS,
        ensures
            final(self).wf(),
            *final(self) == (GameState { ball, ..*old(self) }),
    {
        self.ball = ball;
    }

    /// One tick, serving a ball drawn from `rng` where the tick asks for it.
    pub fn update(
        &mut self,
        p1_move: i64,
        p2_move: Option<i64>,
        ticks_per_second: u64,
        rng: &mut ChaCha8Rng,
    )
        requires
            old(self).wf(),
        ensures
            final(self).wf(),
            ({
                let (t, serve) = step_spec(*old(self), p1_move, p2_move, ticks_per_second);
                if serve {
                    final(self).ball.is_served() && *final(self) == (GameState {
                        ball: final(self).ball,
                        ..t
                    })
                } else {
                    *final(self) == t
                }
            }),
    {
        if self.step(p1_move, p2_move, ticks_per_second) {
            let ball = Ball::random(rng);
            self.serve(ball);
        }
    }
}

/// The left paddle at its starting place.
pub fn left_paddle() -> (r: Rect)
    ensures
        r == left_paddle_start(),
        paddle_wf(r),
{
    Rect::new(X_OFFSET, SCREEN_HEIGHT / 2 - PADDLE_HEIGHT / 2, PADDLE_WIDTH, PADDLE_HEIGHT)
}

/// The right paddle at its starting place for `mode`.
pub fn right_paddle(mode: Mode) -> (r: Rect)
    ensures
        r == right_paddle_start(mode),
        paddle_wf(r),
{
    match mode {
        Mode::TwoPlayer(_, _) => Rect::new(
            SCREEN_WIDTH - X_OFFSET - PADDLE_WIDTH,
            SCREEN_HEIGHT / 2 - PADDLE_HEIGHT / 2,
            PADDLE_WIDTH,
            PADDLE_HEIGHT,
        ),
        _ => Rect::new(SCREEN_WIDTH - X_OFFSET - PADDLE_WIDTH, 0, PADDLE_WIDTH, SCREEN_HEIGHT),
    }
}

/// The match after `moves`, one tick each, with no ball served.
pub open spec fn ticks(s: GameState, moves: Seq<(i64, Option<i64>)>, ticks_per_second: u64) -> GameState
    decreases moves.len(),
{
    if moves.len() == 0 {
        s
    } else {
        ticks(
            step_spec(s, moves[0].0, moves[0].1, ticks_per_second).0,
            moves.drop_first(),
            ticks_per_second,
        )
    }
}

/// Fewer ticks than a pause has left only count it down, whatever the
/// moves.
pub proof fn lemma_pause_counts_down(
    u: GameState,
    moves: Seq<(i64, Option<i64>)>,
    ticks_per_second: u64,
)
    requires
        moves.len() < u.pause_for,
    ensures
        ticks(u, moves, ticks_per_second) == (GameState {
            pause_for: (u.pause_for - moves.len()) as u64,
            ..u
        }),
    decreases moves.len(),
{
    if moves.len() > 0 {
        let next = step_spec(u, moves[0].0, moves[0].1, ticks_per_second).0;
        assert(next == GameState { pause_for: (u.pause_for - 1) as u64, ..u });
        lemma_pause_counts_down(next, moves.drop_first(), ticks_per_second);
    }
}

/// The ball of a tick of play from `s` crosses the left boundary without
/// touching the top or bottom wall.
pub open spec fn crosses_left(s: GameState, p1_move: i64, p2_move: Option<i64>) -> bool {
    let b = moved_spec(s, p1_move, p2_move).ball;
    &&& b.rect.left_spec() < 0
    &&& !(b.vel.y < 0 && b.rect.top_spec() < 0)
    &&& !(b.vel.y > 0 && b.rect.bottom_spec() > SCREEN_HEIGHT - BALL_RADIUS)
}

/// The ball of a tick of play from `s` crosses the right boundary, and
/// not the left one, without touching the top or bottom wall.
pub open spec fn crosses_right(s: GameState, p1_move: i64, p2_move: Option<i64>) -> bool {
    let b = moved_spec(s, p1_move, p2_move).ball;
    &&& b.rect.right_spec() > SCREEN_WIDTH - BALL_RADIUS
    &&& b.rect.left_spec() >= 0
    &&& !(b.vel.y < 0 && b.rect.top_spec() < 0)
    &&& !(b.vel.y > 0 && b.rect.bottom_spec() > SCREEN_HEIGHT - BALL_RADIUS)
}

/// Outside a two-player match, a tick of play in which the ball crosses
/// the left boundary takes exactly one point off player one, leaves player
/// two's score alone, and starts a pause of exactly `ticks_per_second`
/// ticks: whatever the moves, the ticks before the last only count down,
/// and the last puts the paddles back and asks for a new ball.
pub proof fn lemma_one_player_miss(
    s: GameState,
    p1_move: i64,
    p2_move: Option<i64>,
    ticks_per_second: u64,
    later: Seq<(i64, Option<i64>)>,
)
    requires
        s.wf(),
        !(s.mode is TwoPlayer),
        s.pause_for == 0,
        crosses_left(s, p1_move, p2_move),
        s.score.p1 > i16::MIN,
        ticks_per_second >= 1,
        later.len() == ticks_per_second,
    ensures
        ({
            let t = step_spec(s, p1_move, p2_move, ticks_per_second).0;
            &&& t.score == (Score { p1: (s.score.p1 - 1) as i16, p2: s.score.p2 })
            &&& t.pause_for == ticks_per_second
            &&& forall|j: int|
                0 <= j < ticks_per_second - 1 ==> #[trigger] step_spec(
                    ticks(t, later.take(j), ticks_per_second),
                    later[j].0,
                    later[j].1,
                    ticks_per_second,
                ) == (GameState { pause_for: (ticks_per_second - j - 1) as u64, ..t }, false)
            &&& step_spec(
                ticks(t, later.take(ticks_per_second - 1), ticks_per_second),
                later[ticks_per_second - 1].0,
                later[ticks_per_second - 1].1,
                ticks_per_second,
            ) == (reset_paddles_spec(GameState { pause_for: 0, ..t }), true)
        }),
{
    let m = moved_spec(s, p1_move, p2_move);
    assert(after_paddle_hit(m) == m);
    let t = step_spec(s, p1_move, p2_move, ticks_per_second).0;
    assert forall|j: int| 0 <= j < ticks_per_second - 1 implies #[trigger] step_spec(
        ticks(t, later.take(j), ticks_per_second),
        later[j].0,
        later[j].1,
        ticks_per_second,
    ) == (GameState { pause_for: (ticks_per_second - j - 1) as u64, ..t }, false) by {
        lemma_pause_counts_down(t, later.take(j), ticks_per_second);
    }
    lemma_pause_counts_down(t, later.take(ticks_per_second - 1), ticks_per_second);
}

/// In a two-player match, a tick of play in which the ball crosses the
/// left boundary is exactly one point for player two, one in which it
/// crosses the right boundary exactly one point for player one, and both
/// start a pause of `ticks_per_second` ticks. A paddle hit scores for
/// nobody, and in any match it leaves player two's score alone.
pub proof fn lemma_two_player_scoring(
    s: GameState,
    p1_move: i64,
    p2_move: Option<i64>,
    ticks_per_second: u64,
)
    requires
        s.wf(),
        s.mode is TwoPlayer,
        s.pause_for == 0,
        s.score.p1 < i16::MAX,
        s.score.p2 < i16::MAX,
    ensures
        ({
            let t = step_spec(s, p1_move, p2_move, ticks_per_second).0;
            &&& crosses_left(s, p1_move, p2_move) ==> t.score == (Score {
                p1: s.score.p1,
                p2: (s.score.p2 + 1) as i16,
            }) && t.pause_for == ticks_per_second
            &&& crosses_right(s, p1_move, p2_move) ==> t.score == (Score {
                p1: (s.score.p1 + 1) as i16,
                p2: s.score.p2,
            }) && t.pause_for == ticks_per_second
            &&& after_paddle_hit(moved_spec(s, p1_move, p2_move)).score == s.score
        }),
        forall|u: GameState| #[trigger] after_paddle_hit(u).score.p2 == u.score.p2,
{
    let m = moved_spec(s, p1_move, p2_move);
    if crosses_left(s, p1_move, p2_move) || crosses_right(s, p1_move, p2_move) {
        assert(after_paddle_hit(m) == m);
    }
}

/// The match after `n` ticks in which nobody moves.
pub open spec fn idle_moves(n: nat) -> Seq<(i64, Option<i64>)> {
    Seq::new(n, |i: int| (0i64, Some(0i64)))
}

/// A match with its paddles at their starting places and a ball of its
/// usual size at `(x, 295)` pixels, moving straight left at two pixels a
/// tick.
pub open spec fn approaching(s: GameState, x: int) -> bool {
    &&& s.wf()
    &&& s.pause_for == 0
    &&& s.paddle_left == left_paddle_start()
    &&& s.paddle_right == right_paddle_start(s.mode)
    &&& s.ball.rect == (Rect { x: x as i64, ..serve_rect() })
    &&& s.ball.vel.x == -2000
    &&& s.ball.vel.y == 0
}

/// While the ball is still clear of the left paddle, each idle tick moves
/// it exactly two pixels left and changes nothing else.
pub proof fn lemma_approach(s: GameState, x: int, n: nat, ticks_per_second: u64)
    requires
        approaching(s, x),
        x - 2000 * n > 32000,
        x <= 780000,
    ensures
        ticks(s, idle_moves(n), ticks_per_second) == (GameState {
            ball: Ball { rect: Rect { x: (x - 2000 * n) as i64, ..s.ball.rect }, ..s.ball },
            ..s
        }),
    decreases n,
{
    if n > 0 {
        let next = step_spec(s, 0, Some(0), ticks_per_second).0;
        let u = GameState {
            ball: Ball { rect: Rect { x: (x - 2000) as i64, ..s.ball.rect }, ..s.ball },
            ..s
        };
        assert(moved_paddle(s.paddle_left, 0) == s.paddle_left);
        assert(moved_paddle(s.paddle_right, 0) == s.paddle_right);
        assert(after_paddle_hit(moved_spec(s, 0, Some(0))) == moved_spec(s, 0, Some(0)));
        assert(next == u);
        assert(idle_moves(n).drop_first() =~= idle_moves((n - 1) as nat));
        lemma_approach(u, x - 2000, (n - 1) as nat, ticks_per_second);
    }
}

/// A ball at `(395, 295)` pixels, moving left at two pixels a tick with
/// nobody moving, first reaches the left paddle (at `(20, 262.5)`, 75
/// pixels tall) on tick 182: each of the 181 ticks before it moves the ball
/// exactly two pixels left, to 33 pixels, and changes nothing else; tick
/// 182 moves it to 31 pixels, where it overlaps the paddle, and turns it
/// right at 2.02 pixels a tick.
pub proof fn lemma_served_ball_meets_left_paddle(s: GameState, ticks_per_second: u64)
    requires
        approaching(s, 395000),
    ensures
        forall|n: nat|
            n <= 181 ==> #[trigger] ticks(s, idle_moves(n), ticks_per_second).ball == (Ball {
                rect: Rect { x: (395000 - 2000 * n) as i64, ..s.ball.rect },
                ..s.ball
            }),
        ({
            let u = ticks(s, idle_moves(181), ticks_per_second);
            let v = step_spec(u, 0, Some(0), ticks_per_second).0;
            &&& !u.ball.rect.overlaps_spec(u.paddle_left)
            &&& moved_spec(u, 0, Some(0)).ball.rect.x == 31000
            &&& moved_spec(u, 0, Some(0)).ball.rect.overlaps_spec(u.paddle_left)
            &&& v.ball.vel == (Velocity { x: 2020, y: 0 })
            &&& v.ball.rect.x == 31000
        }),
{
    assert forall|n: nat| n <= 181 implies #[trigger] ticks(
        s,
        idle_moves(n),
        ticks_per_second,
    ).ball == (Ball { rect: Rect { x: (395000 - 2000 * n) as i64, ..s.ball.rect }, ..s.ball }) by {
        lemma_approach(s, 395000, n, ticks_per_second);
    }
    lemma_approach(s, 395000, 181, ticks_per_second);
    let u = ticks(s, idle_moves(181), ticks_per_second);
    assert(moved_paddle(u.paddle_left, 0) == u.paddle_left);
    assert(moved_paddle(u.paddle_right, 0) == u.paddle_right);
}

} // verus!
