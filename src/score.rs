use vstd::prelude::*;

verus! {

/// The two players' points. Signed: a one-player miss costs a point. Each
/// count stops at the ends of `i16` rather than wrapping.
#[derive(Clone, Copy, Debug, PartialEq, Eq, Structural)]
pub struct Score {
    pub p1: i16,
    pub p2: i16,
}

/// One point more, stopping at `i16::MAX`.
pub open spec fn inc(v: i16) -> i16 {
    if v < i16::MAX {
        (v + 1) as i16
    } else {
        v
    }
}

/// One point less, stopping at `i16::MIN`.
pub open spec fn dec(v: i16) -> i16 {
    if v > i16::MIN {
        (v - 1) as i16
    } else {
        v
    }
}

pub fn add_point(v: i16) -> (r: i16)
    ensures
        r == inc(v),
{
    if v < i16::MAX {
        v + 1
    } else {
        v
    }
}

pub fn take_point(v: i16) -> (r: i16)
    ensures
        r == dec(v),
{
    if v > i16::MIN {
        v - 1
    } else {
        v
    }
}

impl Default for Score {
    fn default() -> (r: Score)
        ensures
            r == (Score { p1: 0, p2: 0 }),
    {
        Score { p1: 0, p2: 0 }
    }
}

} // verus!
