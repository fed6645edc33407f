use vstd::prelude::*;

use rand_chacha::ChaCha8Rng;

use crate::ball::Ball;
use crate::rng::draw_bool;
use crate::geometry::Rect;
use crate::settings::PADDLE_SPEED;

verus! {

/// What a player sees in one tick: its own paddle and the ball, by value,
/// so that deciding a move cannot change the match.
#[derive(Clone, Copy, Debug, PartialEq, Eq, Structural)]
pub struct Snapshot {
    pub paddle: Rect,
    pub ball: Ball,
}

impl Snapshot {
    pub fn new(paddle: &Rect, ball: &Ball) -> (r: Snapshot)
        ensures
            r.paddle == *paddle,
            r.ball == *ball,
    {
        Snapshot { paddle: *paddle, ball: *ball }
    }
}

/// The pair of keys that moves a human's paddle.
#[derive(Debug)]
pub struct Controls<K> {
    pub up: K,
    pub down: K,
}

/// A paddle moved from the keyboard.
#[derive(Debug)]
pub struct HumanPlayer<K> {
    pub controls: Controls<K>,
}

/// The move a human asks for: up wins when both keys are held.
pub open spec fn human_move(up_held: bool, down_held: bool) -> int {
    if up_held {
        -PADDLE_SPEED
    } else if down_held {
        PADDLE_SPEED as int
    } else {
        0
    }
}

/// The move a network's response asks for: a full step against its sign.
/// A response that is not a number asks for none.
pub open spec fn response_move(sign: Option<core::cmp::Ordering>) -> int {
    match sign {
        Some(core::cmp::Ordering::Less) => -PADDLE_SPEED,
        Some(core::cmp::Ordering::Greater) => PADDLE_SPEED as int,
        _ => 0,
    }
}

impl<K> HumanPlayer<K> {
    pub fn new(up: K, down: K) -> (r: HumanPlayer<K>)
        ensures
            r.controls.up == up,
            r.controls.down == down,
    {
        HumanPlayer { controls: Controls { up, down } }
    }

    /// The move for this tick, given whether each of the player's keys is
    /// held.
    pub fn make_move(&self, up_held: bool, down_held: bool) -> (r: i64)
        ensures
            r == human_move(up_held, down_held),
    {
        if up_held {
            -PADDLE_SPEED
        } else if down_held {
            PADDLE_SPEED
        } else {
            0
        }
    }
}

/// The move for a network response of the given sign (the response's
/// `partial_cmp` with zero). The paddle moves as fast as a human's.
pub fn ai_move(sign: Option<core::cmp::Ordering>) -> (r: i64)
    ensures
        r == response_move(sign),
{
    match sign {
        Some(core::cmp::Ordering::Less) => -PADDLE_SPEED,
        Some(core::cmp::Ordering::Greater) => PADDLE_SPEED,
        _ => 0,
    }
}

/// A full step up or down, drawn from `rng`.
pub fn random_move(rng: &mut ChaCha8Rng) -> (r: i64)
    ensures
        r == PADDLE_SPEED || r == -PADDLE_SPEED,
{
    if draw_bool(rng) {
        PADDLE_SPEED
    } else {
        -PADDLE_SPEED
    }
}

} // verus!
