use vstd::prelude::*;

use crate::direction::{delta_of, Direction};
use crate::sprite::SpriteDraw;

verus! {

/// The largest tile coordinate of the arena on either axis; the smallest is 0.
pub const ARENA_MAX: i32 = 14;

/// Frames between two moves of a new player.
pub const MOVE_COOLDOWN: u32 = 30;

/// The sprite index of the player.
pub const PLAYER_SPRITE: usize = 1;

/// The middle one of three integers.
pub open spec fn median(a: int, b: int, c: int) -> int {
    if (a <= b && b <= c) || (c <= b && b <= a) {
        b
    } else if (b <= a && a <= c) || (c <= a && a <= b) {
        a
    } else {
        c
    }
}

/// `v` pulled back into the arena's range `[0, ARENA_MAX]`.
pub open spec fn clamp(v: int) -> int {
    if v < 0 {
        0
    } else if v > ARENA_MAX {
        ARENA_MAX as int
    } else {
        v
    }
}

/// Whether `(x, y)` is a tile of the arena.
pub open spec fn in_arena(x: int, y: int) -> bool {
    0 <= x <= ARENA_MAX && 0 <= y <= ARENA_MAX
}

/// Returns the middle value of `a`, `b` and `c`; with `a <= c` this is `b`
/// clamped into `[a, c]`.
pub fn mid(a: i32, b: i32, c: i32) -> (r: i32)
    ensures
        r as int == median(a as int, b as int, c as int),
{
    if (a <= b && b <= c) || (c <= b && b <= a) {
        b
    } else if (b <= a && a <= c) || (c <= a && a <= b) {
        a
    } else {
        c
    }
}

/// What a player is: its tile, its facing, the number of frames between two
/// moves, and the frames left until the next move.
pub ghost struct PlayerState {
    pub x: int,
    pub y: int,
    pub direction: Direction,
    pub cooldown_max: int,
    pub cooldown: int,
}

impl PlayerState {
    /// The player stands on a tile of the arena and its countdown lies in
    /// `[1, cooldown_max]`.
    pub open spec fn wf(self) -> bool {
        &&& in_arena(self.x, self.y)
        &&& 1 <= self.cooldown <= self.cooldown_max <= u32::MAX
    }

    /// Whether the next frame moves the player.
    pub open spec fn moves_next(self) -> bool {
        self.cooldown <= 1
    }

    /// The player after one frame that faces `d`: the facing becomes `d`, the
    /// countdown drops by one, and when it runs out the player steps one tile
    /// in `d` and the countdown starts again from `cooldown_max`. Either way
    /// both coordinates are clamped into the arena.
    pub open spec fn step(self, d: Direction) -> PlayerState {
        let moves = self.moves_next();
        PlayerState {
            x: clamp(self.x + if moves { delta_of(d).0 } else { 0 }),
            y: clamp(self.y + if moves { delta_of(d).1 } else { 0 }),
            direction: d,
            cooldown_max: self.cooldown_max,
            cooldown: if moves { self.cooldown_max } else { self.cooldown - 1 },
        }
    }
}

/// The player after `n` frames that all face `d`.
pub open spec fn run(p: PlayerState, d: Direction, n: nat) -> PlayerState
    decreases n,
{
    if n == 0 {
        p
    } else {
        run(p, d, (n - 1) as nat).step(d)
    }
}

/// The countdown after `n` frames that start from `c`, restarting from `max`
/// each time it runs out.
pub open spec fn cooldown_after(c: int, max: int, n: nat) -> int
    decreases n,
{
    if n == 0 {
        c
    } else {
        let before = cooldown_after(c, max, (n - 1) as nat);
        if before <= 1 {
            max
        } else {
            before - 1
        }
    }
}

/// A new player: on tile `(1, 1)`, facing `West`, moving every
/// `MOVE_COOLDOWN` frames, with a full countdown.
pub open spec fn start_state() -> PlayerState {
    PlayerState {
        x: 1,
        y: 1,
        direction: Direction::West,
        cooldown_max: MOVE_COOLDOWN as int,
        cooldown: MOVE_COOLDOWN as int,
    }
}

/// The player's sprite command for a player on tile `(x, y)`: the y axis of
/// the arena grows upwards, the screen's downwards.
pub open spec fn player_sprite(x: int, y: int) -> (int, int, int) {
    (PLAYER_SPRITE as int, (x + 1) * 8, 128 - (y + 1) * 8)
}

/// The player: a tile of the arena, a facing, and a countdown in frames that
/// gates how often it moves.
pub struct Player {
    x: i32,
    y: i32,
    direction: Direction,
    move_cooldown_max: u32,
    move_cooldown: u32,
}

impl View for Player {
    type V = PlayerState;

    closed spec fn view(&self) -> PlayerState {
        PlayerState {
            x: self.x as int,
            y: self.y as int,
            direction: self.direction,
            cooldown_max: self.move_cooldown_max as int,
            cooldown: self.move_cooldown as int,
        }
    }
}

impl Player {
    /// A player on tile `(1, 1)`, facing `West`, that moves every
    /// `MOVE_COOLDOWN` frames, with a full countdown.
    pub fn new() -> (r: Player)
        ensures
            r@ == start_state(),
            r@.wf(),
    {
        let move_cooldown_max: u32 = MOVE_COOLDOWN;
        Player {
            x: 1,
            y: 1,
            direction: Direction::West,
            move_cooldown_max,
            move_cooldown: move_cooldown_max,
        }
    }

    /// Plays one frame facing `direction`: see `PlayerState::step`.
    pub fn update(&mut self, direction: Direction)
        requires
            old(self)@.wf(),
        ensures
            final(self)@ == old(self)@.step(direction),
            final(self)@.wf(),
    {
        self.direction = direction;
        self.move_cooldown = self.move_cooldown - 1;
        if self.move_cooldown == 0 {
            let (delta_x, delta_y) = self.direction.to_delta();
            self.x = self.x + delta_x;
            self.y = self.y + delta_y;
            self.move_cooldown = self.move_cooldown_max;
        }
        self.x = mid(0, self.x, ARENA_MAX);
        self.y = mid(0, self.y, ARENA_MAX);
    }

    /// The sprite command that draws the player.
    pub fn draw(&self) -> (r: SpriteDraw)
        requires
            self@.wf(),
        ensures
            r@ == player_sprite(self@.x, self@.y),
    {
        SpriteDraw { sprite: PLAYER_SPRITE, x: (self.x + 1) * 8, y: 128 - (self.y + 1) * 8 }
    }

    /// The player's column.
    pub fn x(&self) -> (r: i32)
        ensures
            r as int == self@.x,
    {
        self.x
    }

    /// The player's row.
    pub fn y(&self) -> (r: i32)
        ensures
            r as int == self@.y,
    {
        self.y
    }

    /// The player's facing.
    pub fn direction(&self) -> (r: Direction)
        ensures
            r == self@.direction,
    {
        self.direction
    }

    /// The number of frames between two moves.
    pub fn move_cooldown_max(&self) -> (r: u32)
        ensures
            r as int == self@.cooldown_max,
    {
        self.move_cooldown_max
    }

    /// The frames left until the next move.
    pub fn move_cooldown(&self) -> (r: u32)
        ensures
            r as int == self@.cooldown,
    {
        self.move_cooldown
    }
}

impl Default for Player {
    /// The same player as `Player::new`.
    fn default() -> (r: Player)
        ensures
            r@ == start_state(),
    {
        Player::new()
    }
}

} // verus!
