use vstd::prelude::*;

use rand_chacha::ChaCha8Rng;

use crate::geometry::{clamp_coord, Rect};
use crate::rng::{draw_bool, draw_in};
use crate::settings::{
    BALL_ACCELERATION_PERCENT, BALL_MAX_VEL, BALL_MIN_VEL, BALL_RADIUS, BALL_SPEED_LIMIT, COORD_LIMIT,
    PADDLE_BOUNCE_PERCENT, SCREEN_HEIGHT, SCREEN_WIDTH,
};

verus! {

/// The four sides of the field.
#[derive(Clone, Copy, Debug, PartialEq, Eq, Structural)]
pub enum Wall {
    Top,
    Bottom,
    Left,
    Right,
}

/// The two paddles.
#[derive(Clone, Copy, Debug, PartialEq, Eq, Structural)]
pub enum Paddle {
    Left,
    Right,
}

/// A velocity, in thousandths of a pixel per tick.
#[derive(Clone, Copy, Debug, PartialEq, Eq, Structural)]
pub struct Velocity {
    pub x: i64,
    pub y: i64,
}

#[derive(Clone, Copy, Debug, PartialEq, Eq, Structural)]
pub struct Ball {
    pub rect: Rect,
    pub vel: Velocity,
    /// The length of `vel`, rounded down.
    pub spd: i64,
}

/// `r` is the square root of `n`, rounded down.
pub open spec fn is_floor_sqrt(r: int, n: int) -> bool {
    0 <= r && r * r <= n < (r + 1) * (r + 1)
}

pub open spec fn abs(v: int) -> int {
    if v < 0 {
        -v
    } else {
        v
    }
}

/// A magnitude held within `[BALL_MIN_VEL, BALL_MAX_VEL]`.
pub open spec fn clamp_speed(v: int) -> int {
    if v < BALL_MIN_VEL {
        BALL_MIN_VEL as int
    } else if v > BALL_MAX_VEL {
        BALL_MAX_VEL as int
    } else {
        v
    }
}

/// The vertical velocity after a bounce off the top or bottom wall: the
/// sign turns, the magnitude is scaled by `BALL_ACCELERATION_PERCENT` and
/// held within `[BALL_MIN_VEL, BALL_MAX_VEL]`. A ball at rest vertically
/// leaves downwards.
pub open spec fn wall_bounce_vy(vy: int) -> int {
    if vy > 0 {
        -clamp_speed(vy * BALL_ACCELERATION_PERCENT / 100)
    } else {
        clamp_speed(-vy * BALL_ACCELERATION_PERCENT / 100)
    }
}

/// The horizontal velocity after a paddle hit: the sign turns and the
/// magnitude grows by `PADDLE_BOUNCE_PERCENT`, below `BALL_SPEED_LIMIT`.
pub open spec fn paddle_bounce_vx(vx: int) -> int {
    let grown = abs(vx) * PADDLE_BOUNCE_PERCENT / 100;
    let m = if grown > BALL_SPEED_LIMIT {
        BALL_SPEED_LIMIT as int
    } else {
        grown
    };
    if vx > 0 {
        -m
    } else {
        m
    }
}

/// The square of a velocity's length.
pub open spec fn norm_sq(v: Velocity) -> int {
    v.x * v.x + v.y * v.y
}

/// The square root of `n`, rounded down (for `n >= 0`).
pub open spec fn floor_sqrt_of(n: int) -> int {
    choose|r: int| is_floor_sqrt(r, n)
}

/// The length of `v`, rounded down.
pub open spec fn speed_spec(v: Velocity) -> int {
    floor_sqrt_of(norm_sq(v))
}

/// The rounded-down square root is unique.
proof fn lemma_floor_sqrt_unique(a: int, b: int, n: int)
    requires
        is_floor_sqrt(a, n),
        is_floor_sqrt(b, n),
    ensures
        a == b,
{
    if a < b {
        assert((a + 1) * (a + 1) <= b * b) by (nonlinear_arith)
            requires
                0 <= a,
                a + 1 <= b,
        ;
    } else if b < a {
        assert((b + 1) * (b + 1) <= a * a) by (nonlinear_arith)
            requires
                0 <= b,
                b + 1 <= a,
        ;
    }
}

/// `b` moved by its velocity for one tick.
pub open spec fn advanced(b: Ball) -> Ball {
    Ball {
        rect: Rect {
            x: clamp_coord(b.rect.x + b.vel.x) as i64,
            y: clamp_coord(b.rect.y + b.vel.y) as i64,
            ..b.rect
        },
        ..b
    }
}

/// `b` after a bounce off `wall`.
pub open spec fn bounced_off_wall(b: Ball, wall: Wall) -> Ball {
    match wall {
        Wall::Top | Wall::Bottom => {
            let vel = Velocity { y: wall_bounce_vy(b.vel.y as int) as i64, ..b.vel };
            Ball { vel, spd: speed_spec(vel) as i64, ..b }
        },
        Wall::Left | Wall::Right => b,
    }
}

/// `b` after a paddle hit.
pub open spec fn bounced_off_paddle(b: Ball) -> Ball {
    let vel = Velocity { x: paddle_bounce_vx(b.vel.x as int) as i64, ..b.vel };
    Ball { vel, spd: speed_spec(vel) as i64, ..b }
}

/// Where a ball starts each serve: the centre of the field.
pub open spec fn serve_rect() -> Rect {
    Rect {
        x: (SCREEN_WIDTH / 2 - BALL_RADIUS / 2) as i64,
        y: (SCREEN_HEIGHT / 2 - BALL_RADIUS / 2) as i64,
        w: BALL_RADIUS,
        h: BALL_RADIUS,
    }
}

/// The square root of `n`, rounded down.
fn floor_sqrt(n: i64) -> (r: i64)
    requires
        0 <= n <= 2 * BALL_SPEED_LIMIT * BALL_SPEED_LIMIT,
    ensures
        is_floor_sqrt(r as int, n as int),
{
    let mut lo: i64 = 0;
    let mut hi: i64 = 2 * BALL_SPEED_LIMIT;
    assert(n < hi * hi) by (nonlinear_arith)
        requires
            n <= 2 * BALL_SPEED_LIMIT * BALL_SPEED_LIMIT,
            hi == 2 * BALL_SPEED_LIMIT,
    ;
    while hi - lo > 1
        invariant
            0 <= lo < hi <= 2 * BALL_SPEED_LIMIT,
            lo * lo <= n,
            n < hi * hi,
        decreases hi - lo,
    {
        let mid: i64 = lo + (hi - lo) / 2;
        assert(mid * mid <= 4 * BALL_SPEED_LIMIT * BALL_SPEED_LIMIT) by (nonlinear_arith)
            requires
                0 <= mid <= 2 * BALL_SPEED_LIMIT,
        ;
        if mid * mid <= n {
            lo = mid;
        } else {
            hi = mid;
        }
    }
    assert(hi == lo + 1);
    lo
}

/// The length of `(vx, vy)`, rounded down.
fn speed_of(vx: i64, vy: i64) -> (r: i64)
    requires
        abs(vx as int) <= BALL_SPEED_LIMIT,
        abs(vy as int) <= BALL_SPEED_LIMIT,
    ensures
        is_floor_sqrt(r as int, vx * vx + vy * vy),
        r == speed_spec(Velocity { x: vx, y: vy }),
{
    assert(vx * vx <= BALL_SPEED_LIMIT * BALL_SPEED_LIMIT) by (nonlinear_arith)
        requires
            abs(vx as int) <= BALL_SPEED_LIMIT,
    ;
    assert(vy * vy <= BALL_SPEED_LIMIT * BALL_SPEED_LIMIT) by (nonlinear_arith)
        requires
            abs(vy as int) <= BALL_SPEED_LIMIT,
    ;
    assert(0 <= vx * vx && 0 <= vy * vy) by (nonlinear_arith);
    let r = floor_sqrt(vx * vx + vy * vy);
    proof {
        let n = norm_sq(Velocity { x: vx, y: vy });
        lemma_floor_sqrt_unique(r as int, floor_sqrt_of(n), n);
    }
    r
}

impl Ball {
    /// The paddle that the ball hits: one that it overlaps while moving
    /// towards it, the left one first.
    pub open spec fn paddle_hit_spec(&self, left: Rect, right: Rect) -> Option<Paddle> {
        if self.vel.x < 0 && self.rect.overlaps_spec(left) {
            Some(Paddle::Left)
        } else if self.vel.x > 0 && self.rect.overlaps_spec(right) {
            Some(Paddle::Right)
        } else {
            None
        }
    }

    /// The wall that the ball hits: the top or bottom one that it has
    /// passed while moving towards it, else the left one that it has
    /// passed, else the right one, in that order.
    pub open spec fn wall_hit_spec(&self) -> Option<Wall> {
        if self.vel.y < 0 && self.rect.top_spec() < 0 {
            Some(Wall::Top)
        } else if self.vel.y > 0 && self.rect.bottom_spec() > SCREEN_HEIGHT - BALL_RADIUS {
            Some(Wall::Bottom)
        } else if self.rect.left_spec() < 0 {
            Some(Wall::Left)
        } else if self.rect.right_spec() > SCREEN_WIDTH - BALL_RADIUS {
            Some(Wall::Right)
        } else {
            None
        }
    }

    pub fn paddle_hit(&self, left: &Rect, right: &Rect) -> (r: Option<Paddle>)
        requires
            self.wf(),
            left.wf(),
            right.wf(),
        ensures
            r == self.paddle_hit_spec(*left, *right),
    {
        if self.vel.x < 0 && self.rect.overlaps(left) {
            Some(Paddle::Left)
        } else if self.vel.x > 0 && self.rect.overlaps(right) {
            Some(Paddle::Right)
        } else {
            None
        }
    }

    pub fn wall_hit(&self) -> (r: Option<Wall>)
        requires
            self.wf(),
        ensures
            r == self.wall_hit_spec(),
    {
        if self.vel.y < 0 && self.rect.top() < 0 {
            Some(Wall::Top)
        } else if self.vel.y > 0 && self.rect.bottom() > SCREEN_HEIGHT - BALL_RADIUS {
            Some(Wall::Bottom)
        } else if self.rect.left() < 0 {
            Some(Wall::Left)
        } else if self.rect.right() > SCREEN_WIDTH - BALL_RADIUS {
            Some(Wall::Right)
        } else {
            None
        }
    }

    /// The rectangle is in range, the speed in bounds on both axes, and
    /// `spd` is the length of `vel`.
    pub open spec fn wf(&self) -> bool {
        &&& self.rect.wf()
        &&& abs(self.vel.x as int) <= BALL_SPEED_LIMIT
        &&& abs(self.vel.y as int) <= BALL_SPEED_LIMIT
        &&& self.spd == speed_spec(self.vel)
    }

    /// A ball as it is served: centred, each velocity component of a
    /// magnitude within `[BALL_MIN_VEL, BALL_MAX_VEL]`.
    pub open spec fn is_served(&self) -> bool {
        &&& self.wf()
        &&& self.rect == serve_rect()
        &&& BALL_MIN_VEL <= abs(self.vel.x as int) <= BALL_MAX_VEL
        &&& BALL_MIN_VEL <= abs(self.vel.y as int) <= BALL_MAX_VEL
    }

    /// A ball of side `BALL_RADIUS` at `(x, y)` moving by `(vx, vy)`.
    pub fn new(x: i64, y: i64, vx: i64, vy: i64) -> (r: Ball)
        requires
            -COORD_LIMIT <= x <= COORD_LIMIT,
            -COORD_LIMIT <= y <= COORD_LIMIT,
            abs(vx as int) <= BALL_SPEED_LIMIT,
            abs(vy as int) <= BALL_SPEED_LIMIT,
        ensures
            r.wf(),
            r.rect == (Rect { x, y, w: BALL_RADIUS, h: BALL_RADIUS }),
            r.vel == (Velocity { x: vx, y: vy }),
    {
        Ball {
            rect: Rect::new(x, y, BALL_RADIUS, BALL_RADIUS),
            vel: Velocity { x: vx, y: vy },
            spd: speed_of(vx, vy),
        }
    }

    /// The served ball that the given draws make: a magnitude for each
    /// axis, and whether that axis runs in the negative direction.
    pub fn from_draws(neg_x: bool, speed_x: i64, neg_y: bool, speed_y: i64) -> (r: Ball)
        requires
            BALL_MIN_VEL <= speed_x <= BALL_MAX_VEL,
            BALL_MIN_VEL <= speed_y <= BALL_MAX_VEL,
        ensures
            r.is_served(),
            r.vel.x == (if neg_x { -speed_x } else { speed_x as int }),
            r.vel.y == (if neg_y { -speed_y } else { speed_y as int }),
    {
        let vx: i64 = if neg_x { -speed_x } else { speed_x };
        let vy: i64 = if neg_y { -speed_y } else { speed_y };
        Ball::new(SCREEN_WIDTH / 2 - BALL_RADIUS / 2, SCREEN_HEIGHT / 2 - BALL_RADIUS / 2, vx, vy)
    }

    /// A freshly served ball, its velocity drawn from `rng`.
    pub fn random(rng: &mut ChaCha8Rng) -> (r: Ball)
        ensures
            r.is_served(),
    {
        let neg_x = draw_bool(rng);
        let speed_x = draw_in(rng, BALL_MIN_VEL, BALL_MAX_VEL);
        let neg_y = draw_bool(rng);
        let speed_y = draw_in(rng, BALL_MIN_VEL, BALL_MAX_VEL);
        Ball::from_draws(neg_x, speed_x, neg_y, speed_y)
    }

    /// Moves the ball by its velocity for one tick.
    pub fn advance(&mut self)
        requires
            old(self).wf(),
        ensures
            final(self).wf(),
            *final(self) == advanced(*old(self)),
    {
        self.rect.translate(self.vel.x, self.vel.y);
    }

    /// Bounces off `wall`. The top and bottom walls turn the vertical
    /// velocity (see `wall_bounce_vy`); the side walls are scoring events
    /// and leave the ball as it is.
    pub fn bounce_off(&mut self, wall: Wall)
        requires
            old(self).wf(),
        ensures
            final(self).wf(),
            *final(self) == bounced_off_wall(*old(self), wall),
            wall == Wall::Top || wall == Wall::Bottom ==> final(self).vel.y == wall_bounce_vy(
                old(self).vel.y as int,
            ),
            wall == Wall::Top || wall == Wall::Bottom ==> BALL_MIN_VEL <= abs(
                final(self).vel.y as int,
            ) <= BALL_MAX_VEL,
    {
        match wall {
            Wall::Top | Wall::Bottom => {
                let scaled: i64 = if self.vel.y > 0 {
                    self.vel.y * BALL_ACCELERATION_PERCENT / 100
                } else {
                    -self.vel.y * BALL_ACCELERATION_PERCENT / 100
                };
                let m: i64 = if scaled < BALL_MIN_VEL {
                    BALL_MIN_VEL
                } else if scaled > BALL_MAX_VEL {
                    BALL_MAX_VEL
                } else {
                    scaled
                };
                self.vel.y = if self.vel.y > 0 {
                    -m
                } else {
                    m
                };
                self.spd = speed_of(self.vel.x, self.vel.y);
            },
            Wall::Left | Wall::Right => {},
        }
    }

    /// Bounces off a paddle: see `paddle_bounce_vx`.
    pub fn bounce_off_paddle(&mut self)
        requires
            old(self).wf(),
        ensures
            final(self).wf(),
            *final(self) == bounced_off_paddle(*old(self)),
    {
        let mag: i64 = if self.vel.x < 0 {
            -self.vel.x
        } else {
            self.vel.x
        };
        let grown: i64 = mag * PADDLE_BOUNCE_PERCENT / 100;
        let m: i64 = if grown > BALL_SPEED_LIMIT {
            BALL_SPEED_LIMIT
        } else {
            grown
        };
        self.vel.x = if self.vel.x > 0 {
            -m
        } else {
            m
        };
        self.spd = speed_of(self.vel.x, self.vel.y);
    }
}

} // verus!
