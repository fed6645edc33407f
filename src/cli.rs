use vstd::prelude::*;

use crate::mode::{Mode, Player};

verus! {

/// The command-line options.
#[derive(Clone, Copy, Debug, PartialEq, Eq, Structural)]
pub struct Opt {
    /// 1 = Human vs Human, 2 = Human vs AI, 3 = AI vs Human, 4 = AI vs AI,
    /// 5 = Human only, 6 = AI only.
    pub mode: u8,
    /// Target frames per second (0 = unlimited).
    pub fps: u8,
}

/// A game mode number outside `1..=6`.
#[derive(Clone, Copy, Debug, PartialEq, Eq, Structural)]
pub struct ModeError;

/// The mode that each selector number names.
pub open spec fn mode_of(n: u8) -> Option<Mode> {
    if n == 1 {
        Some(Mode::TwoPlayer(Player::Human, Player::Human))
    } else if n == 2 {
        Some(Mode::TwoPlayer(Player::Human, Player::Computer))
    } else if n == 3 {
        Some(Mode::TwoPlayer(Player::Computer, Player::Human))
    } else if n == 4 {
        Some(Mode::TwoPlayer(Player::Computer, Player::Computer))
    } else if n == 5 {
        Some(Mode::OnePlayer(Player::Human))
    } else if n == 6 {
        Some(Mode::OnePlayer(Player::Computer))
    } else {
        None
    }
}

/// The mode that the options select; an unknown number is an error.
pub fn get_game_mode(args: &Opt) -> (r: Result<Mode, ModeError>)
    ensures
        match mode_of(args.mode) {
            Some(m) => r == Ok::<Mode, ModeError>(m),
            None => r == Err::<Mode, ModeError>(ModeError),
        },
{
    match args.mode {
        1 => Ok(Mode::TwoPlayer(Player::Human, Player::Human)),
        2 => Ok(Mode::TwoPlayer(Player::Human, Player::Computer)),
        3 => Ok(Mode::TwoPlayer(Player::Computer, Player::Human)),
        4 => Ok(Mode::TwoPlayer(Player::Computer, Player::Computer)),
        5 => Ok(Mode::OnePlayer(Player::Human)),
        6 => Ok(Mode::OnePlayer(Player::Computer)),
        _ => Err(ModeError),
    }
}

} // verus!
