use vstd::prelude::*;

verus! {

/// Who moves a paddle.
#[derive(Clone, Copy, Debug, PartialEq, Eq, Structural)]
pub enum Player {
    Human,
    Computer,
}

/// The kind of match, fixed for its lifetime. One-player matches and
/// training put a full-height wall on the right; a two-player match has a
/// paddle on each side.
#[derive(Clone, Copy, Debug, PartialEq, Eq, Structural)]
pub enum Mode {
    OnePlayer(Player),
    TwoPlayer(Player, Player),
    TrainAi(Player),
}

/// Who plays a match of `mode`: player one, and player two if there is
/// one. Training always puts a computer on the left paddle.
pub open spec fn players_of(mode: Mode) -> (Player, Option<Player>) {
    match mode {
        Mode::OnePlayer(p) => (p, None),
        Mode::TwoPlayer(p1, p2) => (p1, Some(p2)),
        Mode::TrainAi(_) => (Player::Computer, None),
    }
}

/// Who plays a match of `mode` (see `players_of`).
pub fn players_for(mode: Mode) -> (r: (Player, Option<Player>))
    ensures
        r == players_of(mode),
{
    match mode {
        Mode::OnePlayer(p) => (p, None),
        Mode::TwoPlayer(p1, p2) => (p1, Some(p2)),
        Mode::TrainAi(_) => (Player::Computer, None),
    }
}

} // verus!
