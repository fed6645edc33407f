//! A Pong match and a headless trainer for neural-network paddles.
//!
//! Every length, position and velocity is an integer number of thousandths
//! of a pixel, so that the physics is exact and checked for overflow.
pub mod settings;
pub mod mode;
pub mod geometry;
pub mod rng;
pub mod ball;
pub mod score;
pub mod game;
pub mod simulation;
pub mod players;
pub mod cli;
pub mod brain;
