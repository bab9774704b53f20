use vstd::prelude::*;
use crate::geometry::{Rect, Vec2, range_contains};

verus! {

/// Distance from the left window edge to the paddle's centre.
pub const BAR_OFFSET: i64 = 300;

/// Half the paddle's height.
pub const BAR_LENGTH: i64 = 500;

/// The paddle's thickness.
pub const BAR_WEIGHT: i64 = 200;

/// Vertical distance the paddle moves in one tick while a movement key is held.
pub const BAR_STEP: i64 = 100;

/// A key held down, as far as the paddle cares.
#[derive(Clone, Copy, Debug, PartialEq, Eq, Structural)]
pub enum Key {
    Up,
    Down,
    Other,
}

/// The vertical step that one key asks for.
pub open spec fn key_step(k: Key) -> int {
    match k {
        Key::Up => BAR_STEP as int,
        Key::Down => -BAR_STEP,
        Key::Other => 0,
    }
}

/// The vertical step for the keys held, in the order the host lists them:
/// the first key decides, and no key means no step.
pub open spec fn keys_step(keys: Seq<Key>) -> int {
    if keys.len() == 0 {
        0
    } else {
        key_step(keys[0])
    }
}

/// Where a paddle centre `y` of half-height `len` ends up in a window of
/// half-height `h`: pulled back so that its top or bottom edge lies on the
/// window's, and left alone when it already fits.
pub open spec fn clamp_y(y: int, len: int, h: int) -> int {
    if y + len > h {
        h - len
    } else if y - len < -h {
        -h + len
    } else {
        y
    }
}

/// The vertical step for the keys held (see [`keys_step`]).
pub fn step_for_keys(keys: &[Key]) -> (r: i64)
    ensures
        r == keys_step(keys@),
{
    if keys.len() == 0 {
        0
    } else {
        match keys[0] {
            Key::Up => BAR_STEP,
            Key::Down => -BAR_STEP,
            Key::Other => 0,
        }
    }
}

/// The player's paddle: a vertical segment centred on `position`.
#[derive(Clone, Copy, Debug, PartialEq, Eq, Structural)]
pub struct Bar {
    /// Half the height of the segment.
    pub length: i64,
    /// The centre of the segment.
    pub position: Vec2,
    /// The thickness of the segment, which is also the width of its collision box.
    pub weight: i64,
}

impl Bar {
    /// A paddle has a half-height and a thickness that are not negative.
    pub open spec fn wf(self) -> bool {
        self.length >= 0 && self.weight >= 0
    }

    /// Whether `(px, py)` lies in the closed collision box: `weight / 2` to either
    /// side of the centre and `length` above and below it. The horizontal test
    /// is made on doubled coordinates so that an odd weight loses nothing.
    pub open spec fn covers(self, px: int, py: int) -> bool {
        &&& range_contains(
            2 * self.position.x - self.weight,
            2 * self.position.x + self.weight,
            2 * px,
        )
        &&& range_contains(self.position.y - self.length, self.position.y + self.length, py)
    }

    /// The horizontal position the paddle is pinned to in `rect`.
    pub open spec fn pinned_x(rect: Rect) -> int {
        BAR_OFFSET - rect.half_w()
    }

    /// The vertical position after moving by `step` and clamping to `rect`.
    pub open spec fn next_y(self, rect: Rect, step: int) -> int {
        clamp_y(self.position.y + step, self.length as int, rect.half_h())
    }

    /// The paddle after one tick in which the keys ask for `step`; exact where
    /// the half-height is not negative and `rect` is well formed.
    pub open spec fn next(self, rect: Rect, step: int) -> Bar {
        Bar {
            position: Vec2 { x: Self::pinned_x(rect) as i64, y: self.next_y(rect, step) as i64 },
            ..self
        }
    }

    /// A new paddle in `rect`.
    pub open spec fn initial(rect: Rect) -> Bar {
        Bar {
            length: BAR_LENGTH,
            position: Vec2 { x: (rect.left + BAR_OFFSET) as i64, y: (rect.bottom + rect.half_h()) as i64 },
            weight: BAR_WEIGHT,
        }
    }

    /// A paddle at the middle of the left edge of `rect`, moved `BAR_OFFSET`
    /// to the right.
    pub fn new(rect: Rect) -> (r: Bar)
        requires
            rect.wf(),
            rect.left + BAR_OFFSET <= i64::MAX,
        ensures
            r == Bar::initial(rect),
            r.wf(),
            r.length == BAR_LENGTH,
            r.weight == BAR_WEIGHT,
            r.position.x == rect.left + BAR_OFFSET,
            r.position.y == rect.bottom + rect.half_h(),
    {
        let mid_y = rect.bottom + rect.half_height();
        Bar {
            length: BAR_LENGTH,
            position: Vec2 { x: rect.left + BAR_OFFSET, y: mid_y },
            weight: BAR_WEIGHT,
        }
    }

    /// Advance one tick: pin the paddle horizontally near the left edge of
    /// `rect`, move it by the step that `keys` ask for, and keep it inside the
    /// window vertically.
    pub fn update(&mut self, rect: &Rect, keys: &[Key])
        requires
            old(self).length >= 0,
            rect.wf(),
        ensures
            *final(self) == old(self).next(*rect, keys_step(keys@)),
            old(self).wf() ==> final(self).wf(),
            old(self).length <= rect.half_h() ==> -rect.half_h() + final(self).length
                <= final(self).position.y <= rect.half_h() - final(self).length,
            final(self).position.x == Self::pinned_x(*rect),
            final(self).position.y == old(self).next_y(*rect, keys_step(keys@)),
            final(self).length == old(self).length,
            final(self).weight == old(self).weight,
    {
        let half_w = rect.half_width() as i128;
        self.position.x = ((BAR_OFFSET as i128) - half_w) as i64;

        let diff = step_for_keys(keys);
        let y = (self.position.y as i128) + (diff as i128);

        // Keep in the window.
        let half_h = rect.half_height() as i128;
        let len = self.length as i128;
        if y + len > half_h {
            self.position.y = (half_h - len) as i64;
        } else if y - len < -half_h {
            self.position.y = (-half_h + len) as i64;
        } else {
            self.position.y = y as i64;
        }
    }

    /// Whether `point` lies in the paddle's collision box (see [`Bar::covers`]).
    pub fn contains(&self, point: Vec2) -> (r: bool)
        ensures
            r == self.covers(point.x as int, point.y as int),
    {
        let x2 = 2 * (self.position.x as i128);
        let w = self.weight as i128;
        let y = self.position.y as i128;
        let len = self.length as i128;
        in_range(x2 - w, x2 + w, 2 * (point.x as i128)) && in_range(y - len, y + len, point.y as i128)
    }
}

/// With no movement key held, a paddle that already fits inside the window
/// keeps its vertical position.
pub proof fn lemma_fitting_bar_stays(bar: Bar, rect: Rect)
    requires
        bar.wf(),
        rect.wf(),
        -rect.half_h() + bar.length <= bar.position.y <= rect.half_h() - bar.length,
    ensures
        bar.next(rect, keys_step(Seq::empty())).position.y == bar.position.y,
{
}

/// For a paddle no taller than the window, a second tick without input leaves
/// it where the first one put it.
pub proof fn lemma_clamp_idempotent(bar: Bar, rect: Rect)
    requires
        bar.wf(),
        rect.wf(),
        bar.length <= rect.half_h(),
    ensures
        bar.next(rect, 0).next(rect, 0) == bar.next(rect, 0),
{
    lemma_next_y_fits(bar, rect, 0);
    lemma_next_y_fits(bar.next(rect, 0), rect, 0);
}

/// A paddle whose moved centre plus half-height lies above the top of the
/// window ends the tick with its top edge exactly on the window's top.
pub proof fn lemma_clamp_top(bar: Bar, rect: Rect, keys: Seq<Key>)
    requires
        bar.wf(),
        rect.wf(),
        bar.position.y + keys_step(keys) + bar.length > rect.half_h(),
    ensures
        bar.next(rect, keys_step(keys)).position.y == rect.half_h() - bar.length,
{
    lemma_next_y_fits(bar, rect, keys_step(keys));
}

/// The collision box is closed: its corners are inside, and a point one unit
/// beyond any edge is outside.
pub proof fn lemma_contains_boundary(bar: Bar)
    requires
        bar.wf(),
    ensures
        ({
            let (x, y, hw, l) = (
                bar.position.x as int,
                bar.position.y as int,
                bar.weight / 2,
                bar.length as int,
            );
            &&& bar.covers(x - hw, y - l)
            &&& bar.covers(x - hw, y + l)
            &&& bar.covers(x + hw, y - l)
            &&& bar.covers(x + hw, y + l)
            &&& !bar.covers(x - hw - 1, y)
            &&& !bar.covers(x + hw + 1, y)
            &&& !bar.covers(x, y - l - 1)
            &&& !bar.covers(x, y + l + 1)
        }),
{
}

/// The clamped vertical position of a well-formed paddle fits the coordinate type.
proof fn lemma_next_y_fits(bar: Bar, rect: Rect, step: int)
    requires
        bar.wf(),
        rect.wf(),
        -BAR_STEP <= step <= BAR_STEP,
    ensures
        i64::MIN <= bar.next_y(rect, step) <= i64::MAX,
{
}

fn in_range(start: i128, end: i128, v: i128) -> (r: bool)
    ensures
        r == range_contains(start as int, end as int, v as int),
{
    if start <= end {
        start <= v && v <= end
    } else {
        end <= v && v <= start
    }
}

} // verus!
