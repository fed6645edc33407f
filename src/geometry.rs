use vstd::prelude::*;

use crate::settings::{COORD_LIMIT, SCREEN_HEIGHT};

verus! {

/// An axis-aligned rectangle; `y` grows downwards.
#[derive(Clone, Copy, Debug, PartialEq, Eq, Structural)]
pub struct Rect {
    pub x: i64,
    pub y: i64,
    pub w: i64,
    pub h: i64,
}

/// Clamps `v` into `[-COORD_LIMIT, COORD_LIMIT]`.
pub open spec fn clamp_coord(v: int) -> int {
    if v < -COORD_LIMIT {
        -COORD_LIMIT as int
    } else if v > COORD_LIMIT {
        COORD_LIMIT as int
    } else {
        v
    }
}

impl Rect {
    /// The coordinates are in range and the size is not negative.
    pub open spec fn wf(&self) -> bool {
        &&& -COORD_LIMIT <= self.x <= COORD_LIMIT
        &&& -COORD_LIMIT <= self.y <= COORD_LIMIT
        &&& 0 <= self.w <= COORD_LIMIT
        &&& 0 <= self.h <= COORD_LIMIT
    }

    pub open spec fn top_spec(&self) -> int {
        self.y as int
    }

    pub open spec fn bottom_spec(&self) -> int {
        self.y + self.h
    }

    pub open spec fn left_spec(&self) -> int {
        self.x as int
    }

    pub open spec fn right_spec(&self) -> int {
        self.x + self.w
    }

    /// Closed rectangles meet: touching edges count.
    pub open spec fn overlaps_spec(&self, other: Rect) -> bool {
        &&& self.left_spec() <= other.right_spec()
        &&& self.right_spec() >= other.left_spec()
        &&& self.top_spec() <= other.bottom_spec()
        &&& self.bottom_spec() >= other.top_spec()
    }

    /// Lies within the play field vertically.
    pub open spec fn within_field(&self) -> bool {
        self.top_spec() >= 0 && self.bottom_spec() <= SCREEN_HEIGHT
    }

    pub fn new(x: i64, y: i64, w: i64, h: i64) -> (r: Rect)
        requires
            (Rect { x, y, w, h }).wf(),
        ensures
            r == (Rect { x, y, w, h }),
    {
        Rect { x, y, w, h }
    }

    pub fn top(&self) -> (r: i64)
        ensures
            r == self.top_spec(),
    {
        self.y
    }

    pub fn bottom(&self) -> (r: i64)
        requires
            self.wf(),
        ensures
            r == self.bottom_spec(),
    {
        self.y + self.h
    }

    pub fn left(&self) -> (r: i64)
        ensures
            r == self.left_spec(),
    {
        self.x
    }

    pub fn right(&self) -> (r: i64)
        requires
            self.wf(),
        ensures
            r == self.right_spec(),
    {
        self.x + self.w
    }

    /// The centre point, rounded towards the top-left corner.
    pub fn center(&self) -> (r: (i64, i64))
        requires
            self.wf(),
        ensures
            r.0 == self.x + self.w / 2,
            r.1 == self.y + self.h / 2,
    {
        (self.x + self.w / 2, self.y + self.h / 2)
    }

    pub fn overlaps(&self, other: &Rect) -> (r: bool)
        requires
            self.wf(),
            other.wf(),
        ensures
            r == self.overlaps_spec(*other),
    {
        self.left() <= other.right() && self.right() >= other.left() && self.top()
            <= other.bottom() && self.bottom() >= other.top()
    }

    /// Moves the rectangle by `(dx, dy)`; a coordinate that would leave the
    /// representable range stops at its edge.
    pub fn translate(&mut self, dx: i64, dy: i64)
        requires
            old(self).wf(),
            -COORD_LIMIT <= dx <= COORD_LIMIT,
            -COORD_LIMIT <= dy <= COORD_LIMIT,
        ensures
            final(self).wf(),
            final(self).x == clamp_coord(old(self).x + dx),
            final(self).y == clamp_coord(old(self).y + dy),
            final(self).w == old(self).w,
            final(self).h == old(self).h,
    {
        self.x = clamp_i64(self.x + dx);
        self.y = clamp_i64(self.y + dy);
    }
}

fn clamp_i64(v: i64) -> (r: i64)
    requires
        -3 * COORD_LIMIT <= v <= 3 * COORD_LIMIT,
    ensures
        r == clamp_coord(v as int),
{
    if v < -COORD_LIMIT {
        -COORD_LIMIT
    } else if v > COORD_LIMIT {
        COORD_LIMIT
    } else {
        v
    }
}

/// The vertical position `move_paddle` gives a paddle at `y`, of height
/// `h`, that asks to move by `delta`: the whole move, or the field edge it
/// would cross.
pub open spec fn moved_paddle_y(y: int, h: int, delta: int) -> int {
    if y + delta < 0 {
        0
    } else if y + h + delta > SCREEN_HEIGHT {
        SCREEN_HEIGHT - h
    } else {
        y + delta
    }
}

/// `paddle` after `move_paddle(paddle, amount)`.
pub open spec fn moved_paddle(paddle: Rect, amount: i64) -> Rect {
    Rect { y: moved_paddle_y(paddle.y as int, paddle.h as int, amount as int) as i64, ..paddle }
}

/// Moves `paddle` vertically by `amount`, or up to the edge of the field
/// where the whole move would leave it.
pub fn move_paddle(paddle: &mut Rect, amount: i64)
    requires
        old(paddle).wf(),
        old(paddle).h <= SCREEN_HEIGHT,
    ensures
        final(paddle).wf(),
        final(paddle).within_field(),
        final(paddle).y == moved_paddle_y(old(paddle).y as int, old(paddle).h as int, amount as int),
        *final(paddle) == moved_paddle(*old(paddle), amount),
{
    if amount < -paddle.y {
        paddle.y = 0;
    } else if amount > SCREEN_HEIGHT - paddle.y - paddle.h {
        paddle.y = SCREEN_HEIGHT - paddle.h;
    } else {
        paddle.y = paddle.y + amount;
    }
}

} // verus!
