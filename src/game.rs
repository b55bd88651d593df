use vstd::prelude::*;

use crate::apple::{apple_sprite, Apple};
use crate::direction::{resolve_direction, resolved};
use crate::player::{player_sprite, start_state, Player, PlayerState};
use crate::sprite::SpriteDraw;

verus! {

/// The sprite index of a border tile.
pub const BORDER_SPRITE: usize = 2;

/// The number of tiles along each side of the screen.
pub const SCREEN_TILES: i32 = 16;

/// The pixel offset of the last row or column of tiles on the screen.
pub const FAR_EDGE: i32 = 8 * 15;

/// The `i`-th border command of the background: first, for each row `r` from
/// the top, the tile at the left edge and the tile at the right edge; then,
/// for each column `c` from the left, the tile at the top and the tile at the
/// bottom.
pub open spec fn border_sprite(i: int) -> (int, int, int) {
    if i < 2 * SCREEN_TILES {
        let r = i / 2;
        if i % 2 == 0 {
            (BORDER_SPRITE as int, 0, 8 * r)
        } else {
            (BORDER_SPRITE as int, FAR_EDGE as int, 8 * r)
        }
    } else {
        let c = (i - 2 * SCREEN_TILES) / 2;
        if i % 2 == 0 {
            (BORDER_SPRITE as int, 8 * c, 0)
        } else {
            (BORDER_SPRITE as int, 8 * c, FAR_EDGE as int)
        }
    }
}

/// All the border commands of the background, in drawing order.
pub open spec fn border_sprites() -> Seq<(int, int, int)> {
    Seq::new((4 * SCREEN_TILES) as nat, |i: int| border_sprite(i))
}

/// The views of a sequence of sprite commands.
pub open spec fn views_of(s: Seq<SpriteDraw>) -> Seq<(int, int, int)> {
    s.map_values(|d: SpriteDraw| d@)
}

/// The sprite commands that frame the arena: border tiles along the four
/// edges of the 16 by 16 tile screen.
pub fn draw_background() -> (r: Vec<SpriteDraw>)
    ensures
        views_of(r@) == border_sprites(),
{
    let mut r: Vec<SpriteDraw> = Vec::new();
    let mut y: i32 = 0;
    while y < SCREEN_TILES
        invariant
            0 <= y <= SCREEN_TILES,
            r@.len() == 2 * y,
            forall|i: int| 0 <= i < r@.len() ==> (#[trigger] r@[i])@ == border_sprite(i),
        decreases SCREEN_TILES - y,
    {
        r.push(SpriteDraw { sprite: BORDER_SPRITE, x: 0, y: y * 8 });
        r.push(SpriteDraw { sprite: BORDER_SPRITE, x: FAR_EDGE, y: y * 8 });
        y = y + 1;
    }
    let mut x: i32 = 0;
    while x < SCREEN_TILES
        invariant
            0 <= x <= SCREEN_TILES,
            r@.len() == 2 * SCREEN_TILES + 2 * x,
            forall|i: int| 0 <= i < r@.len() ==> (#[trigger] r@[i])@ == border_sprite(i),
        decreases SCREEN_TILES - x,
    {
        r.push(SpriteDraw { sprite: BORDER_SPRITE, x: x * 8, y: 0 });
        r.push(SpriteDraw { sprite: BORDER_SPRITE, x: x * 8, y: FAR_EDGE });
        x = x + 1;
    }
    assert(views_of(r@) =~= border_sprites());
    r
}

/// The four direction buttons as the host read them for one frame.
#[derive(Clone, Copy, Debug, PartialEq, Eq, Structural)]
pub struct Buttons {
    pub right: bool,
    pub left: bool,
    pub up: bool,
    pub down: bool,
}

/// What a game is: its player and the tiles of its apples, in order.
pub ghost struct GameState {
    pub player: PlayerState,
    pub apples: Seq<(int, int)>,
}

/// The whole state of the demo: one player and the apples on the board.
pub struct Game {
    player: Player,
    apples: Vec<Apple>,
}

impl View for Game {
    type V = GameState;

    closed spec fn view(&self) -> GameState {
        GameState { player: self.player@, apples: self.apples@.map_values(|a: Apple| a@) }
    }
}

impl Game {
    /// The player is well-formed and every apple stands in the arena.
    pub closed spec fn wf(&self) -> bool {
        &&& self.player@.wf()
        &&& forall|i: int| 0 <= i < self.apples@.len() ==> (#[trigger] self.apples@[i]).wf()
    }

    /// The game at start: a new player and the one apple given.
    pub fn init(apple: Apple) -> (r: Game)
        requires
            apple.wf(),
        ensures
            r.wf(),
            r@.player == start_state(),
            r@.apples == seq![apple@],
    {
        let mut apples: Vec<Apple> = Vec::new();
        apples.push(apple);
        let r = Game { player: Player::new(), apples };
        assert(r@.apples =~= seq![apple@]);
        r
    }

    /// Plays one frame: the held buttons pick the player's facing (see
    /// `resolve_direction`) and the player takes its frame in it.
    pub fn update(&mut self, buttons: Buttons)
        requires
            old(self).wf(),
        ensures
            final(self).wf(),
            final(self)@ == (GameState {
                player: old(self)@.player.step(
                    resolved(
                        old(self)@.player.direction,
                        buttons.right,
                        buttons.left,
                        buttons.up,
                        buttons.down,
                    ),
                ),
                apples: old(self)@.apples,
            }),
    {
        let direction = resolve_direction(
            self.player.direction(),
            buttons.right,
            buttons.left,
            buttons.up,
            buttons.down,
        );
        self.player.update(direction);
    }

    /// The sprite commands of one frame, in drawing order: the border, then
    /// each apple, then the player. The host clears the screen before them.
    pub fn draw(&self) -> (r: Vec<SpriteDraw>)
        requires
            self.wf(),
        ensures
            views_of(r@) == border_sprites() + self@.apples.map_values(
                |t: (int, int)| apple_sprite(t.0, t.1),
            ).push(player_sprite(self@.player.x, self@.player.y)),
    {
        let mut r = draw_background();
        let ghost start = r@;
        let mut i: usize = 0;
        while i < self.apples.len()
            invariant
                self.wf(),
                0 <= i <= self.apples@.len(),
                r@.len() == start.len() + i,
                forall|j: int| 0 <= j < start.len() ==> r@[j] == start[j],
                forall|j: int|
                    0 <= j < i ==> (#[trigger] r@[start.len() + j])@ == apple_sprite(
                        self.apples@[j]@.0,
                        self.apples@[j]@.1,
                    ),
            decreases self.apples@.len() - i,
        {
            let d = self.apples[i].draw();
            r.push(d);
            i = i + 1;
        }
        r.push(self.player.draw());
        let ghost want = border_sprites() + self@.apples.map_values(
            |t: (int, int)| apple_sprite(t.0, t.1),
        ).push(player_sprite(self@.player.x, self@.player.y));
        assert(views_of(r@) =~= want) by {
            assert forall|j: int| 0 <= j < want.len() implies views_of(r@)[j] == want[j] by {
                if start.len() <= j < start.len() + self.apples@.len() {
                    assert(r@[start.len() + (j - start.len())] == r@[j]);
                }
            }
        }
        r
    }

    /// The player.
    pub fn player(&self) -> (r: &Player)
        ensures
            r@ == self@.player,
    {
        &self.player
    }

    /// The number of apples on the board.
    pub fn apple_count(&self) -> (r: usize)
        ensures
            r == self@.apples.len(),
    {
        self.apples.len()
    }

    /// The apple at position `i` of the board's list.
    pub fn apple(&self, i: usize) -> (r: &Apple)
        requires
            i < self@.apples.len(),
        ensures
            r@ == self@.apples[i as int],
    {
        &self.apples[i]
    }
}

} // verus!
