use vstd::prelude::*;

verus! {

/// One of the four facings of the player. The names follow the game's own
/// convention: `West` steps towards larger `x`, `East` towards smaller `x`.
#[derive(Clone, Copy, Debug, PartialEq, Eq, Structural)]
pub enum Direction {
    North,
    West,
    South,
    East,
}

/// The step on the grid that one move in direction `d` makes.
pub open spec fn delta_of(d: Direction) -> (int, int) {
    match d {
        Direction::North => (0, 1),
        Direction::West => (1, 0),
        Direction::South => (0, -1),
        Direction::East => (-1, 0),
    }
}

impl Direction {
    /// The unit step `(dx, dy)` of this direction.
    pub fn to_delta(&self) -> (r: (i32, i32))
        ensures
            r.0 as int == delta_of(*self).0,
            r.1 as int == delta_of(*self).1,
    {
        match self {
            Direction::North => (0, 1),
            Direction::West => (1, 0),
            Direction::South => (0, -1),
            Direction::East => (-1, 0),
        }
    }
}

/// The direction chosen from the four buttons of one frame. The buttons are
/// looked at in the order right, left, up, down, and each one that is held
/// replaces the choice so far; with none held, `current` is kept.
pub open spec fn resolved(current: Direction, right: bool, left: bool, up: bool, down: bool) -> Direction {
    if down {
        Direction::South
    } else if up {
        Direction::North
    } else if left {
        Direction::East
    } else if right {
        Direction::West
    } else {
        current
    }
}

/// Resolves the held buttons of one frame into a facing: down wins over up,
/// up over left, left over right, and with no button held the current facing
/// stays.
pub fn resolve_direction(current: Direction, right: bool, left: bool, up: bool, down: bool) -> (r: Direction)
    ensures
        r == resolved(current, right, left, up, down),
{
    let mut direction = current;
    if right {
        direction = Direction::West;
    }
    if left {
        direction = Direction::East;
    }
    if up {
        direction = Direction::North;
    }
    if down {
        direction = Direction::South;
    }
    direction
}

} // verus!
