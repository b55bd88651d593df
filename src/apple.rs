use vstd::prelude::*;

use crate::player::{in_arena, ARENA_MAX};
use crate::sprite::SpriteDraw;

verus! {

/// The sprite index of an apple.
pub const APPLE_SPRITE: usize = 4;

/// An apple's sprite command for an apple on tile `(x, y)`.
pub open spec fn apple_sprite(x: int, y: int) -> (int, int, int) {
    (APPLE_SPRITE as int, x * 8, 128 - y * 8)
}

/// An apple: a tile of the arena, fixed once the apple is made.
pub struct Apple {
    x: i32,
    y: i32,
}

impl View for Apple {
    type V = (int, int);

    closed spec fn view(&self) -> (int, int) {
        (self.x as int, self.y as int)
    }
}

impl Apple {
    /// Every apple stands on a tile of the arena.
    pub open spec fn wf(&self) -> bool {
        in_arena(self@.0, self@.1)
    }

    /// An apple on tile `(x, y)`, or `None` where that tile is outside the
    /// arena. The host places the apple at two random draws from `[0, 15)`,
    /// each rounded down, which always land inside.
    pub fn on_tile(x: i32, y: i32) -> (r: Option<Apple>)
        ensures
            r is Some <==> in_arena(x as int, y as int),
            r matches Some(a) ==> a@ == (x as int, y as int) && a.wf(),
    {
        if 0 <= x && x <= ARENA_MAX && 0 <= y && y <= ARENA_MAX {
            Some(Apple { x, y })
        } else {
            None
        }
    }

    /// The apple's column.
    pub fn x(&self) -> (r: i32)
        ensures
            r as int == self@.0,
    {
        self.x
    }

    /// The apple's row.
    pub fn y(&self) -> (r: i32)
        ensures
            r as int == self@.1,
    {
        self.y
    }

    /// The sprite command that draws the apple.
    pub fn draw(&self) -> (r: SpriteDraw)
        requires
            self.wf(),
        ensures
            r@ == apple_sprite(self@.0, self@.1),
    {
        SpriteDraw { sprite: APPLE_SPRITE, x: self.x * 8, y: 128 - self.y * 8 }
    }
}

} // verus!
