use vstd::prelude::*;

verus! {

/// One call of the engine's sprite primitive: draw sprite `sprite` with its
/// top-left corner at pixel `(x, y)` of the screen.
#[derive(Clone, Copy, Debug, PartialEq, Eq, Structural)]
pub struct SpriteDraw {
    pub sprite: usize,
    pub x: i32,
    pub y: i32,
}

impl View for SpriteDraw {
    type V = (int, int, int);

    open spec fn view(&self) -> (int, int, int) {
        (self.sprite as int, self.x as int, self.y as int)
    }
}

} // verus!
