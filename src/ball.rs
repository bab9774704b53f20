use vstd::prelude::*;
use crate::bar::Bar;
use crate::geometry::{Rect, Vec2};

verus! {

/// Horizontal speed of a new ball, per tick.
pub const BALL_SPEED_X: i64 = 25;

/// Vertical speed of a new ball, per tick.
pub const BALL_SPEED_Y: i64 = 50;

/// Diameter of the ball as drawn.
pub const BALL_DIAMETER: i64 = 160;

/// `v` negated when `p` lies outside the closed range from `lo` to `hi`.
pub open spec fn reflect(v: int, p: int, lo: int, hi: int) -> int {
    if p > hi || p < lo {
        -v
    } else {
        v
    }
}

/// A ball moving at constant velocity between bounces.
#[derive(Clone, Copy, Debug, PartialEq, Eq, Structural)]
pub struct Ball {
    pub position: Vec2,
    pub velocity: Vec2,
}

impl Ball {
    /// The next position and both possible velocities fit in the coordinate type.
    pub open spec fn can_update(self) -> bool {
        &&& i64::MIN <= self.next_x() <= i64::MAX
        &&& i64::MIN <= self.next_y() <= i64::MAX
        &&& self.velocity.x != i64::MIN
        &&& self.velocity.y != i64::MIN
    }

    /// The horizontal position after one tick.
    pub open spec fn next_x(self) -> int {
        self.position.x + self.velocity.x
    }

    /// The vertical position after one tick.
    pub open spec fn next_y(self) -> int {
        self.position.y + self.velocity.y
    }

    /// The horizontal velocity after one tick: reflected when the moved ball
    /// is beyond the left or right edge of `rect`, and reflected (again) when
    /// it is inside `bar`.
    pub open spec fn next_vx(self, rect: Rect, bar: Bar) -> int {
        let vx = reflect(self.velocity.x as int, self.next_x(), rect.left as int, rect.right as int);
        if bar.covers(self.next_x(), self.next_y()) {
            -vx
        } else {
            vx
        }
    }

    /// The vertical velocity after one tick: reflected when the moved ball is
    /// above or below `rect`.
    pub open spec fn next_vy(self, rect: Rect) -> int {
        reflect(self.velocity.y as int, self.next_y(), rect.bottom as int, rect.top as int)
    }

    /// The ball after one tick; exact where [`Ball::can_update`] holds.
    pub open spec fn next(self, rect: Rect, bar: Bar) -> Ball {
        Ball {
            position: Vec2 { x: self.next_x() as i64, y: self.next_y() as i64 },
            velocity: Vec2 { x: self.next_vx(rect, bar) as i64, y: self.next_vy(rect) as i64 },
        }
    }

    /// A new ball.
    pub open spec fn initial() -> Ball {
        Ball { position: Vec2 { x: 0, y: 0 }, velocity: Vec2 { x: BALL_SPEED_X, y: BALL_SPEED_Y } }
    }

    /// A ball at the origin moving up and to the right.
    pub fn new() -> (r: Ball)
        ensures
            r == Ball::initial(),
            r.position.x == 0,
            r.position.y == 0,
            r.velocity.x == BALL_SPEED_X,
            r.velocity.y == BALL_SPEED_Y,
    {
        Ball { position: Vec2 { x: 0, y: 0 }, velocity: Vec2 { x: BALL_SPEED_X, y: BALL_SPEED_Y } }
    }

    /// Advance one tick: move by the velocity, then bounce off the edges of
    /// `rect` and off `bar`.
    pub fn update(&mut self, rect: &Rect, bar: &Bar)
        requires
            old(self).can_update(),
        ensures
            *final(self) == old(self).next(*rect, *bar),
            final(self).position.x == old(self).next_x(),
            final(self).position.y == old(self).next_y(),
            final(self).velocity.x == old(self).next_vx(*rect, *bar),
            final(self).velocity.y == old(self).next_vy(*rect),
    {
        // Add the current speed to the position.
        self.position.x = self.position.x + self.velocity.x;
        self.position.y = self.position.y + self.velocity.y;

        if self.position.x > rect.right || self.position.x < rect.left {
            self.velocity.x = -self.velocity.x;
        }
        if self.position.y > rect.top || self.position.y < rect.bottom {
            self.velocity.y = -self.velocity.y;
        }

        if bar.contains(self.position) {
            self.velocity.x = -self.velocity.x;
        }
    }
}

/// A ball that ends a tick beyond the left or right edge of the window, and
/// not inside the paddle, has its horizontal velocity negated; one that ends it
/// above the top or below the bottom has its vertical velocity negated.
pub proof fn lemma_edge_reflection(ball: Ball, rect: Rect, bar: Bar)
    requires
        ball.can_update(),
    ensures
        (ball.next_x() > rect.right || ball.next_x() < rect.left) && !bar.covers(
            ball.next_x(),
            ball.next_y(),
        ) ==> ball.next(rect, bar).velocity.x == -ball.velocity.x,
        (ball.next_y() > rect.top || ball.next_y() < rect.bottom) ==> ball.next(
            rect,
            bar,
        ).velocity.y == -ball.velocity.y,
{
}

/// A ball that ends a tick inside the paddle, between the left and right
/// edges of the window, has its horizontal velocity negated, while its
/// vertical velocity is what the top and bottom edges alone make of it.
pub proof fn lemma_paddle_reflection(ball: Ball, rect: Rect, bar: Bar)
    requires
        ball.can_update(),
        bar.covers(ball.next_x(), ball.next_y()),
        rect.left <= ball.next_x() <= rect.right,
    ensures
        ball.next(rect, bar).velocity.x == -ball.velocity.x,
        ball.next(rect, bar).velocity.y == reflect(
            ball.velocity.y as int,
            ball.next_y(),
            rect.bottom as int,
            rect.top as int,
        ),
{
}

} // verus!
