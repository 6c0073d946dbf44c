//! The game itself.

pub mod animation;
pub mod bomb;
pub mod jack;
pub mod laws;
pub mod rules;
pub mod texture;

pub use animation::Animation;
pub use bomb::Bomb;
pub use bomb::State;
pub use jack::Direction;
pub use jack::Jack;
pub use texture::TextureHelper;

use crate::game::bomb::initial_bomb;
use crate::game::bomb::BombView;
use crate::game::jack::initial_jack;
use crate::game::jack::lemma_glide_bounds;
use crate::game::laws::lemma_collected_count_bound;
use crate::game::laws::lemma_collected_count_update;
use crate::game::laws::lemma_none_collected;
use crate::game::laws::lemma_tick_preserves_wf;
use crate::game::rules::collected_count;
use crate::game::rules::sprite_in_world;
use crate::game::rules::GameView;
use crate::input::InputState;
use crate::shapes::Size;
use crate::shapes::Sprite;
use crate::shapes::Vector2;
use std::time::Instant;
use vstd::prelude::*;

verus! {

/// The character falls this far in every tick that it is off the ground:
/// 4 units.
pub const GRAVITY: i64 = 40;

/// The thrust that a jump starts with: 20 units a tick.
pub const LAUNCH_THRUST: i64 = 200;

/// What an airborne tick takes off the thrust: 0.4 units.
pub const THRUST_DECAY: i64 = 4;

/// How far one tick of walking carries the character: 2 units.
pub const WALK_STEP: i64 = 20;

/// How far below a platform's top edge the character still counts as
/// standing on it: 4 units.
pub const LANDING_BAND: i64 = 40;

/// The score for one bomb.
pub const REWARD: u32 = 100;

/// The least time between two ticks, in milliseconds: a sixtieth of a second,
/// rounded down.
pub const TICK_MILLIS: u128 = 16;

/// The width of the playing field: 600 units.
pub const CANVAS_WIDTH: i64 = 6000;

/// The height of the playing field: 650 units.
pub const CANVAS_HEIGHT: i64 = 6500;

/// No coordinate or extent of the level, and no extent of anything in it, is
/// further from zero than this.
pub const WORLD_LIMIT: i64 = 1_000_000_000_000;

/// The character never strays further from the origin than this.
pub const REACH_LIMIT: i64 = 3_000_000_000_000;

/// An axis-aligned region of the world, from its lower left to its upper right
/// corner.
#[derive(Clone, Copy, Debug, PartialEq, Eq, Structural)]
pub struct Rect {
    pub bottom_left: Vector2,
    pub top_right: Vector2,
}

impl Rect {
    /// The corners are in order on both axes and within the world limit.
    pub open spec fn wf(self) -> bool {
        &&& -WORLD_LIMIT <= self.bottom_left.x <= self.top_right.x <= WORLD_LIMIT
        &&& -WORLD_LIMIT <= self.bottom_left.y <= self.top_right.y <= WORLD_LIMIT
    }
}

/// A 32-bit counter's next value: one more, and zero after the largest.
pub open spec fn next_count(count: int) -> int {
    if count >= u32::MAX {
        0
    } else {
        count + 1
    }
}

/// The atlas that every texture of the game is cut from: 1162 by 650 pixels.
pub open spec fn atlas() -> TextureHelper {
    TextureHelper { size: Size { width: 1162, height: 650 } }
}

/// The backdrop: the whole playing field, textured with the left part of the
/// atlas.
pub open spec fn initial_background() -> Sprite {
    Sprite {
        position: Vector2 { x: 0, y: 0 },
        size: Size { width: CANVAS_WIDTH, height: CANVAS_HEIGHT },
        texture: atlas().spec_texture_coord(0, 0, 600, 650),
    }
}

/// The five platforms of the level, in drawing order.
pub open spec fn initial_platforms() -> Seq<Sprite> {
    seq![
        Sprite {
            position: Vector2 { x: 3250, y: 4590 },
            size: Size { width: 1500, height: 220 },
            texture: atlas().spec_texture_coord(780, 42, 150, 22),
        },
        Sprite {
            position: Vector2 { x: 3300, y: 590 },
            size: Size { width: 1800, height: 220 },
            texture: atlas().spec_texture_coord(600, 42, 180, 22),
        },
        Sprite {
            position: Vector2 { x: 2610, y: 1990 },
            size: Size { width: 1170, height: 220 },
            texture: atlas().spec_texture_coord(930, 42, 117, 22),
        },
        Sprite {
            position: Vector2 { x: 1350, y: 3890 },
            size: Size { width: 910, height: 220 },
            texture: atlas().spec_texture_coord(1047, 42, 91, 22),
        },
        Sprite {
            position: Vector2 { x: 750, y: 1290 },
            size: Size { width: 910, height: 220 },
            texture: atlas().spec_texture_coord(1047, 42, 91, 22),
        },
    ]
}

/// Where the twenty bombs lie, in spawn order: three at the top left, three
/// at the top right, a column of four on either side, three at the bottom
/// left and three over the lowest platform.
pub open spec fn bomb_spots() -> Seq<Vector2> {
    seq![
        Vector2 { x: 920, y: 5310 },
        Vector2 { x: 1540, y: 5310 },
        Vector2 { x: 2140, y: 5310 },
        Vector2 { x: 4140, y: 5310 },
        Vector2 { x: 4740, y: 5310 },
        Vector2 { x: 5340, y: 5310 },
        Vector2 { x: 240, y: 3360 },
        Vector2 { x: 240, y: 2760 },
        Vector2 { x: 240, y: 2160 },
        Vector2 { x: 240, y: 1560 },
        Vector2 { x: 5440, y: 3360 },
        Vector2 { x: 5440, y: 2760 },
        Vector2 { x: 5440, y: 2160 },
        Vector2 { x: 5440, y: 1560 },
        Vector2 { x: 940, y: 210 },
        Vector2 { x: 1540, y: 210 },
        Vector2 { x: 2040, y: 210 },
        Vector2 { x: 3440, y: 810 },
        Vector2 { x: 4040, y: 810 },
        Vector2 { x: 4640, y: 810 },
    ]
}

/// The game as it starts: the character idle at its starting place, a fresh
/// bomb on every spot, the level between (20, 20) and (580, 580), and no
/// score.
pub open spec fn initial_game() -> GameView {
    GameView {
        background: initial_background(),
        jack: initial_jack(atlas()),
        game_bounds: Rect {
            bottom_left: Vector2 { x: 200, y: 200 },
            top_right: Vector2 { x: 5800, y: 5800 },
        },
        platforms: initial_platforms(),
        bombs: Seq::new(
            bomb_spots().len(),
            |i: int| initial_bomb(bomb_spots()[i].x, bomb_spots()[i].y, atlas()),
        ),
        frame: 0,
        score: 0,
    }
}

/// What each bomb of a list is.
pub open spec fn bomb_views(bombs: Seq<Bomb>) -> Seq<BombView> {
    Seq::new(bombs.len(), |i: int| bombs[i]@)
}

/// A game in progress: the level, the character, the bombs, the score, and
/// the clock reading and count of the last tick.
pub struct BombJackGame {
    pub background: Sprite,
    pub jack: Jack,
    pub game_bounds: Rect,
    pub platforms: Vec<Sprite>,
    pub bombs: Vec<Bomb>,
    pub last_update: Instant,
    pub frame: u32,
    pub score: u32,
}

impl View for BombJackGame {
    type V = GameView;

    open spec fn view(&self) -> GameView {
        GameView {
            background: self.background,
            jack: self.jack@,
            game_bounds: self.game_bounds,
            platforms: self.platforms@,
            bombs: bomb_views(self.bombs@),
            frame: self.frame as int,
            score: self.score as int,
        }
    }
}

impl BombJackGame {
    /// The character and every bomb hold one animation per pose or state, and
    /// the view is well formed.
    pub open spec fn wf(&self) -> bool {
        &&& self.jack.wf()
        &&& forall|i: int| 0 <= i < self.bombs@.len() ==> (#[trigger] self.bombs@[i]).wf()
        &&& self@.wf()
    }

    /// The game as it starts, with the clock read now.
    pub fn new() -> (game: BombJackGame)
        ensures
            game.wf(),
            game@ == initial_game(),
    {
        let texture_helper = TextureHelper::new(1162, 650);
        let spots: Vec<Vector2> = vec![
            Vector2 { x: 920, y: 5310 },
            Vector2 { x: 1540, y: 5310 },
            Vector2 { x: 2140, y: 5310 },
            Vector2 { x: 4140, y: 5310 },
            Vector2 { x: 4740, y: 5310 },
            Vector2 { x: 5340, y: 5310 },
            Vector2 { x: 240, y: 3360 },
            Vector2 { x: 240, y: 2760 },
            Vector2 { x: 240, y: 2160 },
            Vector2 { x: 240, y: 1560 },
            Vector2 { x: 5440, y: 3360 },
            Vector2 { x: 5440, y: 2760 },
            Vector2 { x: 5440, y: 2160 },
            Vector2 { x: 5440, y: 1560 },
            Vector2 { x: 940, y: 210 },
            Vector2 { x: 1540, y: 210 },
            Vector2 { x: 2040, y: 210 },
            Vector2 { x: 3440, y: 810 },
            Vector2 { x: 4040, y: 810 },
            Vector2 { x: 4640, y: 810 },
        ];
        assert(spots@ =~= bomb_spots());
        let mut bombs: Vec<Bomb> = Vec::new();
        let mut i: usize = 0;
        while i < spots.len()
            invariant
                i <= spots@.len(),
                spots@ == bomb_spots(),
                texture_helper == atlas(),
                bombs@.len() == i,
                forall|j: int|
                    0 <= j < i ==> (#[trigger] bombs@[j]).wf() && bombs@[j]@ == initial_bomb(
                        spots@[j].x,
                        spots@[j].y,
                        atlas(),
                    ),
            decreases spots@.len() - i,
        {
            let spot: Vector2 = spots[i];
            bombs.push(Bomb::new(spot.x, spot.y, &texture_helper));
            i += 1;
        }
        let game = BombJackGame {
            background: Sprite {
                position: Vector2 { x: 0, y: 0 },
                size: Size { width: CANVAS_WIDTH, height: CANVAS_HEIGHT },
                texture: texture_helper.texture_coord(0, 0, 600, 650),
            },
            jack: Jack::new(&texture_helper),
            game_bounds: Rect {
                bottom_left: Vector2 { x: 200, y: 200 },
                top_right: Vector2 { x: 5800, y: 5800 },
            },
            platforms: vec![
                Sprite {
                    position: Vector2 { x: 3250, y: 4590 },
                    size: Size { width: 1500, height: 220 },
                    texture: texture_helper.texture_coord(780, 42, 150, 22),
                },
                Sprite {
                    position: Vector2 { x: 3300, y: 590 },
                    size: Size { width: 1800, height: 220 },
                    texture: texture_helper.texture_coord(600, 42, 180, 22),
                },
                Sprite {
                    position: Vector2 { x: 2610, y: 1990 },
                    size: Size { width: 1170, height: 220 },
                    texture: texture_helper.texture_coord(930, 42, 117, 22),
                },
                Sprite {
                    position: Vector2 { x: 1350, y: 3890 },
                    size: Size { width: 910, height: 220 },
                    texture: texture_helper.texture_coord(1047, 42, 91, 22),
                },
                Sprite {
                    position: Vector2 { x: 750, y: 1290 },
                    size: Size { width: 910, height: 220 },
                    texture: texture_helper.texture_coord(1047, 42, 91, 22),
                },
            ],
            bombs,
            last_update: Instant::now(),
            frame: 0,
            score: 0,
        };
        proof {
            assert(game@.platforms =~= initial_platforms());
            assert(game@.bombs =~= initial_game().bombs);
            lemma_none_collected(game@.bombs);
        }
        game
    }

    /// Whether the game is well formed, found out by looking. Every game that
    /// comes from `new` and is changed by ticks and updates alone is; one
    /// whose fields were written by hand may not be.
    pub fn is_well_formed(&self) -> (ok: bool)
        ensures
            ok == self.wf(),
    {
        let bounds = self.game_bounds;
        if !(-WORLD_LIMIT <= bounds.bottom_left.x && bounds.bottom_left.x <= bounds.top_right.x
            && bounds.top_right.x <= WORLD_LIMIT && -WORLD_LIMIT <= bounds.bottom_left.y
            && bounds.bottom_left.y <= bounds.top_right.y && bounds.top_right.y <= WORLD_LIMIT) {
            return false;
        }
        let mut i: usize = 0;
        while i < self.platforms.len()
            invariant
                i <= self.platforms@.len(),
                forall|j: int| 0 <= j < i ==> sprite_in_world(#[trigger] self.platforms@[j]),
            decreases self.platforms@.len() - i,
        {
            let platform: Sprite = self.platforms[i];
            if !(-WORLD_LIMIT <= platform.position.x && platform.position.x <= WORLD_LIMIT
                && -WORLD_LIMIT <= platform.position.y && platform.position.y <= WORLD_LIMIT
                && -WORLD_LIMIT <= platform.size.width && platform.size.width <= WORLD_LIMIT
                && -WORLD_LIMIT <= platform.size.height && platform.size.height <= WORLD_LIMIT) {
                assert(!sprite_in_world(self@.platforms[i as int]));
                return false;
            }
            i += 1;
        }
        if !self.jack.is_well_formed() {
            return false;
        }
        if self.bombs.len() > (u32::MAX / REWARD) as usize {
            return false;
        }
        let ghost views = bomb_views(self.bombs@);
        let mut expected: u32 = 0;
        let mut k: usize = 0;
        while k < self.bombs.len()
            invariant
                k <= self.bombs@.len(),
                views == bomb_views(self.bombs@),
                REWARD * self.bombs@.len() <= u32::MAX,
                expected == REWARD * collected_count(views.take(k as int)),
                forall|j: int| 0 <= j < k ==> (#[trigger] self.bombs@[j]).wf(),
            decreases self.bombs@.len() - k,
        {
            if !self.bombs[k].is_well_formed() {
                assert(!self@.bombs[k as int].wf() || !self.bombs@[k as int].wf());
                return false;
            }
            proof {
                assert(views.take(k + 1).drop_last() =~= views.take(k as int));
                lemma_collected_count_bound(views.take(k + 1));
            }
            match self.bombs[k].state {
                State::Collected => {
                    expected += REWARD;
                },
                State::Live => {},
            }
            k += 1;
        }
        assert(views.take(k as int) =~= views);
        self.score == expected
    }

    /// The ground probe: whether the character is at or below the floor of
    /// the level, or the middle of its lower edge rests on a platform.
    pub fn jack_on_ground(&self) -> (grounded: bool)
        requires
            self.wf(),
        ensures
            grounded == self@.grounded(),
    {
        if self.jack.position.y <= self.game_bounds.bottom_left.y {
            return true;
        }
        let probe_twice: i64 = 2 * self.jack.position.x + self.jack.size.width;
        let y: i64 = self.jack.position.y;
        let mut i: usize = 0;
        while i < self.platforms.len()
            invariant
                i <= self.platforms@.len(),
                self.wf(),
                probe_twice == 2 * self.jack.position.x + self.jack.size.width,
                y == self.jack.position.y,
                forall|j: int| 0 <= j < i ==> !self@.stands_on(#[trigger] self.platforms@[j]),
            decreases self.platforms@.len() - i,
        {
            let platform: Sprite = self.platforms[i];
            assert(sprite_in_world(self@.platforms[i as int]));
            let top: i64 = platform.position.y + platform.size.height;
            if probe_twice >= 2 * platform.position.x && probe_twice <= 2 * (platform.position.x
                + platform.size.width) && y >= top - LANDING_BAND && y <= top {
                assert(self@.stands_on(self@.platforms[i as int]));
                return true;
            }
            i += 1;
        }
        false
    }

    /// Advances the game by exactly one tick, whatever the clock says.
    pub fn tick(&mut self, input_state: &InputState)
        requires
            old(self).wf(),
        ensures
            final(self).wf(),
            final(self)@ == old(self)@.tick(*input_state),
            final(self).last_update == old(self).last_update,
    {
        let ghost before = self@;
        let ghost moved = before.moved_jack(*input_state);
        proof {
            lemma_glide_bounds(before.jack.thrust);
            lemma_tick_preserves_wf(before, *input_state);
        }
        self.jack.direction = Direction::Idle;
        self.frame = self.frame.wrapping_add(1);
        let start_y: i64 = self.jack.position.y;
        let on_ground = self.jack.thrust == 0 && self.jack_on_ground();
        proof {
            // The pose and the frame count have no part in the ground probe.
            assert(self@.platforms == before.platforms);
            assert forall|platform: Sprite| #[trigger]
                self@.stands_on(platform) == before.stands_on(platform) by {}
            assert(self@.grounded() ==> before.grounded());
            assert(before.grounded() ==> self@.grounded());
        }

        if !on_ground {
            self.jack.position.y -= GRAVITY;
        }
        self.jack.position.y += self.jack.thrust;

        self.jack.thrust = if on_ground {
            if input_state.up_pressed {
                LAUNCH_THRUST
            } else {
                self.jack.thrust
            }
        } else if self.jack.thrust < THRUST_DECAY {
            0
        } else {
            self.jack.thrust - THRUST_DECAY
        };

        let ceiling: i64 = self.game_bounds.top_right.y - self.jack.size.height;
        if self.jack.position.y > ceiling {
            self.jack.position.y = ceiling;
        }
        if self.jack.position.y > start_y {
            self.jack.direction = Direction::Up;
        } else if self.jack.position.y < start_y {
            self.jack.direction = Direction::Down;
        }

        if input_state.left_pressed && self.jack.position.x > self.game_bounds.bottom_left.x {
            self.jack.position.x -= WALK_STEP;
            self.jack.direction = if self.jack.position.y == start_y && on_ground {
                Direction::Left
            } else {
                Direction::UpLeft
            };
        }
        if input_state.right_pressed && self.jack.position.x + self.jack.size.width
            < self.game_bounds.top_right.x {
            self.jack.position.x += WALK_STEP;
            self.jack.direction = if self.jack.position.y == start_y && on_ground {
                Direction::Right
            } else {
                Direction::UpRight
            };
        }
        assert(self.jack@ == moved);

        let count: usize = self.bombs.len();
        let mut i: usize = 0;
        while i < count
            invariant
                i <= count == self.bombs@.len() == before.bombs.len(),
                before.wf(),
                moved == before.moved_jack(*input_state),
                self.jack@ == moved,
                self.jack.wf(),
                REWARD * count <= u32::MAX,
                self.score == REWARD * collected_count(bomb_views(self.bombs@)),
                forall|j: int| 0 <= j < count ==> (#[trigger] self.bombs@[j]).wf(),
                forall|j: int|
                    0 <= j < i ==> (#[trigger] self.bombs@[j])@ == before.bombs[j].after_tick(
                        moved,
                    ),
                forall|j: int| i <= j < count ==> (#[trigger] self.bombs@[j])@ == before.bombs[j],
                self.background == old(self).background,
                self.game_bounds == old(self).game_bounds,
                self.platforms == old(self).platforms,
                self.last_update == old(self).last_update,
                self.frame == next_count(before.frame),
            decreases count - i,
        {
            let ghost views = bomb_views(self.bombs@);
            let ghost k = i as int;
            assert(self.bombs@[k]@ == before.bombs[k]);
            assert(self.bombs@[k].wf());
            proof {
                lemma_glide_bounds(moved.thrust);
            }
            let position: Vector2 = self.bombs[i].position;
            let size: Size = self.bombs[i].size;
            if self.jack.position.x < position.x + size.width && self.jack.position.x
                + self.jack.size.width > position.x && self.jack.position.y < position.y
                + size.height && self.jack.position.y + self.jack.size.height > position.y
                && !self.bombs[i].disarmed {
                proof {
                    lemma_collected_count_bound(views.update(k, views[k].collect()));
                    lemma_collected_count_update(views, k, views[k].collect());
                }
                self.bombs[i].disarmed = true;
                self.bombs[i].state = State::Collected;
                self.score += REWARD;
                assert(bomb_views(self.bombs@) =~= views.update(k, views[k].collect()));
            }
            let ghost struck = bomb_views(self.bombs@);
            self.bombs[i].next_frame();
            proof {
                assert(bomb_views(self.bombs@) =~= struck.update(k, struck[k].next_frame()));
                lemma_collected_count_update(struck, k, struck[k].next_frame());
            }
            i += 1;
        }

        if self.frame % 2 == 0 {
            self.jack.next_frame();
        }
        assert(self@.bombs =~= before.tick(*input_state).bombs);
        assert(self@.jack == before.tick(*input_state).jack);
    }

    /// Answers a call for an update that comes `elapsed_millis` after the
    /// last tick: one tick if the tick interval has passed, nothing at all
    /// otherwise. Says whether it ticked.
    pub fn update_after(&mut self, elapsed_millis: u128, input_state: &InputState) -> (ticked: bool)
        requires
            old(self).wf(),
        ensures
            final(self).wf(),
            ticked == (elapsed_millis >= TICK_MILLIS),
            final(self)@ == old(self)@.update(elapsed_millis as int, *input_state),
            final(self).last_update == old(self).last_update,
    {
        if elapsed_millis < TICK_MILLIS {
            return false;
        }
        self.tick(input_state);
        true
    }

    /// Answers a call for an update now. The time since the last tick is read
    /// from the clock; if the game ticks, the clock is read again and that
    /// reading kept as the time of the last tick. Whatever the clock says, the
    /// game has either gone through exactly one tick or not changed at all,
    /// the time of the last tick included.
    pub fn update(&mut self, input_state: &InputState)
        requires
            old(self).wf(),
        ensures
            final(self).wf(),
            final(self)@ == old(self)@.tick(*input_state) || (final(self)@ == old(self)@
                && final(self).last_update == old(self).last_update),
    {
        let elapsed_millis: u128 = self.last_update.elapsed().as_millis();
        if self.update_after(elapsed_millis, input_state) {
            self.last_update = Instant::now();
        }
    }

    /// What to draw, back to front: the background, the platforms in their
    /// order, the bombs in spawn order, and the character on top.
    pub fn draw_list(&self) -> (list: Vec<Sprite>)
        requires
            self.wf(),
        ensures
            list@ == self@.draw_list(),
    {
        let mut list: Vec<Sprite> = Vec::new();
        list.push(self.background);
        let mut i: usize = 0;
        while i < self.platforms.len()
            invariant
                i <= self.platforms@.len(),
                list@ == seq![self.background] + self.platforms@.take(i as int),
            decreases self.platforms@.len() - i,
        {
            list.push(self.platforms[i]);
            assert(self.platforms@.take(i + 1) =~= self.platforms@.take(i as int).push(
                self.platforms@[i as int],
            ));
            i += 1;
        }
        assert(self.platforms@.take(i as int) =~= self.platforms@);
        let ghost bombs = Seq::new(self@.bombs.len(), |j: int| self@.bombs[j].sprite());
        let mut k: usize = 0;
        while k < self.bombs.len()
            invariant
                k <= self.bombs@.len(),
                self.wf(),
                bombs == Seq::new(self@.bombs.len(), |j: int| self@.bombs[j].sprite()),
                list@ == seq![self.background] + self.platforms@ + bombs.take(k as int),
            decreases self.bombs@.len() - k,
        {
            list.push(self.bombs[k].sprite());
            assert(bombs.take(k + 1) =~= bombs.take(k as int).push(bombs[k as int]));
            k += 1;
        }
        assert(bombs.take(k as int) =~= bombs);
        list.push(self.jack.sprite());
        list
    }
}

} // verus!
