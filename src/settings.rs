use vstd::prelude::*;

verus! {

/// Thousandths of a pixel in one pixel: the unit of every length below.
pub const UNITS_PER_PIXEL: i64 = 1000;

pub const SCREEN_WIDTH: i64 = 800_000;
pub const SCREEN_HEIGHT: i64 = 600_000;

/// Distance from each paddle to its own side wall.
pub const X_OFFSET: i64 = 20_000;
pub const PADDLE_WIDTH: i64 = 12_000;
pub const PADDLE_HEIGHT: i64 = 75_000;
/// How far a paddle moves in one tick.
pub const PADDLE_SPEED: i64 = 8_000;

pub const BALL_RADIUS: i64 = 10_000;
pub const BALL_MIN_VEL: i64 = 2_000;
pub const BALL_MAX_VEL: i64 = 3_000;
/// Factor, in percent, applied to the vertical speed on a wall bounce.
pub const BALL_ACCELERATION_PERCENT: i64 = 100;
/// Factor, in percent, applied to the horizontal speed on a paddle hit.
pub const PADDLE_BOUNCE_PERCENT: i64 = 101;
/// Paddle hits speed the ball up with no game-play cap. The speed is only
/// held below this bound, a thousand pixels a tick, past which the ball
/// crosses the whole field in one tick, so that it stays representable.
pub const BALL_SPEED_LIMIT: i64 = 1_000_000;
/// Every coordinate stays within this distance of the origin.
pub const COORD_LIMIT: i64 = 1_000_000_000_000;

} // verus!

verus! {

/// Shape of the networks and length of a training match.
#[derive(Clone, Copy, Debug, PartialEq, Eq, Structural)]
pub struct Config {
    /// Inputs to a network: paddle y, ball x, ball y, ball vx, ball vy.
    pub data_inputs: usize,
    /// Neurons in the hidden layer.
    pub brain_neurons: usize,
    /// Outputs of a network: which way to move the paddle.
    pub outputs: usize,
    /// Serves in one training match.
    pub generation_length: usize,
}

impl Default for Config {
    fn default() -> (r: Config)
        ensures
            r == (Config { data_inputs: 5, brain_neurons: 15, outputs: 1, generation_length: 10 }),
    {
        Config { data_inputs: 5, brain_neurons: 15, outputs: 1, generation_length: 10 }
    }
}

} // verus!
