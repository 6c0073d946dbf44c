//! The rules of the game, as functions from one state to the next.
//!
//! Everything here is mathematics over unbounded integers; the executable
//! game is held to it.

use crate::game::bomb::BombView;
use crate::game::bomb::State;
use crate::game::jack::Direction;
use crate::game::jack::JackView;
use crate::game::next_count;
use crate::game::Rect;
use crate::game::GRAVITY;
use crate::game::LANDING_BAND;
use crate::game::LAUNCH_THRUST;
use crate::game::REWARD;
use crate::game::THRUST_DECAY;
use crate::game::TICK_MILLIS;
use crate::game::WALK_STEP;
use crate::game::WORLD_LIMIT;
use crate::input::InputState;
use crate::shapes::Sprite;
use vstd::prelude::*;

verus! {

/// `value`, or the nearer end of `low ..= high` if it lies outside.
pub open spec fn clamp(value: int, low: int, high: int) -> int {
    if value < low {
        low
    } else if value > high {
        high
    } else {
        value
    }
}

/// How many of `bombs` have been collected.
pub open spec fn collected_count(bombs: Seq<BombView>) -> nat
    decreases bombs.len(),
{
    if bombs.len() == 0 {
        0
    } else {
        collected_count(bombs.drop_last()) + if bombs.last().state == State::Collected {
            1nat
        } else {
            0nat
        }
    }
}

/// How many of `bombs` the character collects where it stands as `jack`.
pub open spec fn struck_count(bombs: Seq<BombView>, jack: JackView) -> nat
    decreases bombs.len(),
{
    if bombs.len() == 0 {
        0
    } else {
        struck_count(bombs.drop_last(), jack) + if bombs.last().struck_by(jack) {
            1nat
        } else {
            0nat
        }
    }
}

/// The whole state of a game, the clock apart.
pub struct GameView {
    pub background: Sprite,
    pub jack: JackView,
    pub game_bounds: Rect,
    pub platforms: Seq<Sprite>,
    pub bombs: Seq<BombView>,
    pub frame: int,
    pub score: int,
}

/// A sprite whose position and extent are within the world limit.
pub open spec fn sprite_in_world(sprite: Sprite) -> bool {
    &&& -WORLD_LIMIT <= sprite.position.x <= WORLD_LIMIT
    &&& -WORLD_LIMIT <= sprite.position.y <= WORLD_LIMIT
    &&& -WORLD_LIMIT <= sprite.size.width <= WORLD_LIMIT
    &&& -WORLD_LIMIT <= sprite.size.height <= WORLD_LIMIT
}

impl GameView {
    /// The level lies within the world limit, the character and every bomb
    /// are well formed, the frame counter fits its 32 bits, and the score is
    /// the reward times the number of collected bombs, which also has to fit
    /// should every bomb be collected.
    pub open spec fn wf(self) -> bool {
        &&& self.game_bounds.wf()
        &&& forall|i: int|
            0 <= i < self.platforms.len() ==> sprite_in_world(#[trigger] self.platforms[i])
        &&& self.jack.wf()
        &&& forall|i: int| 0 <= i < self.bombs.len() ==> (#[trigger] self.bombs[i]).wf()
        &&& 0 <= self.frame <= u32::MAX
        &&& self.score == REWARD * collected_count(self.bombs)
        &&& REWARD * self.bombs.len() <= u32::MAX
    }

    /// The probe point, the middle of the character's lower edge, lies within
    /// the platform's span and no more than the landing band below its top
    /// edge. The horizontal test is made on doubled coordinates, so that an
    /// odd width loses nothing.
    pub open spec fn stands_on(self, platform: Sprite) -> bool {
        let probe_twice = 2 * self.jack.x + self.jack.size.width;
        let top = platform.position.y + platform.size.height;
        &&& 2 * platform.position.x <= probe_twice
        &&& probe_twice <= 2 * (platform.position.x + platform.size.width)
        &&& top - LANDING_BAND <= self.jack.y
        &&& self.jack.y <= top
    }

    /// The character is at or below the floor of the level, or stands on some
    /// platform.
    pub open spec fn grounded(self) -> bool {
        ||| self.jack.y <= self.game_bounds.bottom_left.y
        ||| exists|i: int| 0 <= i < self.platforms.len() && self.stands_on(#[trigger] self.platforms[i])
    }

    /// The character is at rest on the ground: grounded, and without thrust.
    pub open spec fn on_ground(self) -> bool {
        self.jack.thrust == 0 && self.grounded()
    }

    /// The highest the character's lower edge may be: its top edge then
    /// touches the top of the level.
    pub open spec fn ceiling(self) -> int {
        self.game_bounds.top_right.y - self.jack.size.height
    }

    /// The character's height after a tick: it falls by gravity unless it is
    /// on the ground, rises by its thrust, and stops at the ceiling.
    pub open spec fn next_y(self) -> int {
        let fallen = if self.on_ground() {
            self.jack.y
        } else {
            self.jack.y - GRAVITY
        };
        let risen = fallen + self.jack.thrust;
        if risen < self.ceiling() {
            risen
        } else {
            self.ceiling()
        }
    }

    /// The thrust after a tick: on the ground it jumps to the launch value if
    /// up is pressed and stays as it is otherwise; in the air it decays, and
    /// is kept between rest and launch.
    pub open spec fn next_thrust(self, input: InputState) -> int {
        if self.on_ground() {
            if input.up_pressed {
                LAUNCH_THRUST as int
            } else {
                self.jack.thrust
            }
        } else {
            clamp(self.jack.thrust - THRUST_DECAY, 0, LAUNCH_THRUST as int)
        }
    }

    /// The character takes a step to the left: left is pressed and its left
    /// edge is strictly right of the level's left bound.
    pub open spec fn steps_left(self, input: InputState) -> bool {
        input.left_pressed && self.jack.x > self.game_bounds.bottom_left.x
    }

    /// Where the character is once the step to the left, if any, is taken.
    pub open spec fn x_after_left(self, input: InputState) -> int {
        if self.steps_left(input) {
            self.jack.x - WALK_STEP
        } else {
            self.jack.x
        }
    }

    /// The character takes a step to the right: right is pressed and, after
    /// the step to the left if there was one, its right edge is strictly left
    /// of the level's right bound.
    pub open spec fn steps_right(self, input: InputState) -> bool {
        input.right_pressed && self.x_after_left(input) + self.jack.size.width
            < self.game_bounds.top_right.x
    }

    /// The character's horizontal position after a tick.
    pub open spec fn next_x(self, input: InputState) -> int {
        if self.steps_right(input) {
            self.x_after_left(input) + WALK_STEP
        } else {
            self.x_after_left(input)
        }
    }

    /// The character walks rather than flies: it is on the ground and its
    /// height does not change in this tick.
    pub open spec fn level_walk(self) -> bool {
        self.on_ground() && self.next_y() == self.jack.y
    }

    /// The pose after a tick, made afresh from this tick's motion alone. A
    /// step to the right decides over one to the left, and either over the
    /// vertical motion.
    pub open spec fn next_direction(self, input: InputState) -> Direction {
        if self.steps_right(input) {
            if self.level_walk() {
                Direction::Right
            } else {
                Direction::UpRight
            }
        } else if self.steps_left(input) {
            if self.level_walk() {
                Direction::Left
            } else {
                Direction::UpLeft
            }
        } else if self.next_y() > self.jack.y {
            Direction::Up
        } else if self.next_y() < self.jack.y {
            Direction::Down
        } else {
            Direction::Idle
        }
    }

    /// The character after this tick's motion, before its animation moves.
    pub open spec fn moved_jack(self, input: InputState) -> JackView {
        JackView {
            x: self.next_x(input),
            y: self.next_y(),
            thrust: self.next_thrust(input),
            direction: self.next_direction(input),
            ..self.jack
        }
    }

    /// The state after one tick. The character moves; every bomb it then
    /// touches for the first time is collected and pays the reward; every
    /// bomb is asked for a frame; the frame counter goes up, and on even
    /// counts the character's animation moves on. The level stays as it is.
    pub open spec fn tick(self, input: InputState) -> GameView {
        let moved = self.moved_jack(input);
        let frame = next_count(self.frame);
        GameView {
            jack: if frame % 2 == 0 {
                moved.animate()
            } else {
                moved
            },
            bombs: Seq::new(self.bombs.len(), |i: int| self.bombs[i].after_tick(moved)),
            frame,
            score: self.score + REWARD * struck_count(self.bombs, moved),
            ..self
        }
    }

    /// The state after a call for an update that comes `elapsed_millis` after
    /// the last tick: one tick if the tick interval has passed, and no change
    /// at all otherwise.
    pub open spec fn update(self, elapsed_millis: int, input: InputState) -> GameView {
        if elapsed_millis >= TICK_MILLIS {
            self.tick(input)
        } else {
            self
        }
    }

    /// The state after one tick for each of `inputs`, in order.
    pub open spec fn ticks(self, inputs: Seq<InputState>) -> GameView
        decreases inputs.len(),
    {
        if inputs.len() == 0 {
            self
        } else {
            self.ticks(inputs.drop_last()).tick(inputs.last())
        }
    }

    /// The state after a series of calls for an update, each given as the
    /// time since the last tick and the keys held.
    pub open spec fn updates(self, calls: Seq<(int, InputState)>) -> GameView
        decreases calls.len(),
    {
        if calls.len() == 0 {
            self
        } else {
            self.updates(calls.drop_last()).update(calls.last().0, calls.last().1)
        }
    }

    /// What to draw, back to front: the background, the platforms in their
    /// order, the bombs in theirs, and the character on top.
    pub open spec fn draw_list(self) -> Seq<Sprite> {
        seq![self.background] + self.platforms + Seq::new(
            self.bombs.len(),
            |i: int| self.bombs[i].sprite(),
        ) + seq![self.jack.sprite()]
    }
}

} // verus!
