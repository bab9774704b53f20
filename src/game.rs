use vstd::prelude::*;
use crate::ball::Ball;
use crate::bar::{Bar, Key, keys_step, BAR_OFFSET};
use crate::geometry::Rect;

verus! {

/// The whole simulation: one ball and one paddle.
#[derive(Clone, Copy, Debug, PartialEq, Eq, Structural)]
pub struct Model {
    pub ball: Ball,
    pub bar: Bar,
}

impl Model {
    /// A fresh ball at the origin and a paddle near the middle of the left
    /// edge of `rect`.
    pub fn new(rect: Rect) -> (r: Model)
        requires
            rect.wf(),
            rect.left + BAR_OFFSET <= i64::MAX,
        ensures
            r.ball == Ball::initial(),
            r.bar == Bar::initial(rect),
    {
        Model { ball: Ball::new(), bar: Bar::new(rect) }
    }

    /// Whether [`Model::update`] may be called with `rect`: the window's
    /// edges are in order, the paddle's half-height is not negative, and the ball's next
    /// position and velocity fit the coordinate type.
    pub fn fits(&self, rect: &Rect) -> (r: bool)
        ensures
            r == (self.ball.can_update() && self.bar.length >= 0 && rect.wf()),
    {
        let b = &self.ball;
        let nx = (b.position.x as i128) + (b.velocity.x as i128);
        let ny = (b.position.y as i128) + (b.velocity.y as i128);
        (i64::MIN as i128) <= nx && nx <= (i64::MAX as i128)
            && (i64::MIN as i128) <= ny && ny <= (i64::MAX as i128)
            && b.velocity.x != i64::MIN && b.velocity.y != i64::MIN
            && self.bar.length >= 0
            && rect.left <= rect.right && rect.bottom <= rect.top
    }

    /// One tick: the ball moves and bounces against the paddle where it stood
    /// before this tick, then the paddle follows the keys held.
    pub fn update(&mut self, rect: &Rect, keys: &[Key])
        requires
            old(self).ball.can_update(),
            old(self).bar.length >= 0,
            rect.wf(),
        ensures
            final(self).ball == old(self).ball.next(*rect, old(self).bar),
            final(self).bar == old(self).bar.next(*rect, keys_step(keys@)),
    {
        self.ball.update(rect, &self.bar);
        self.bar.update(rect, keys);
    }
}

} // verus!
