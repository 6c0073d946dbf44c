//! The bombs that the character picks up.

use crate::game::animation::Animation;
use crate::game::animation::AnimationView;
use crate::game::jack::JackView;
use crate::game::next_count;
use crate::game::texture::TextureHelper;
use crate::game::WORLD_LIMIT;
use crate::shapes::Size;
use crate::shapes::Sprite;
use crate::shapes::UvRect;
use crate::shapes::Vector2;
use vstd::prelude::*;

verus! {

/// A bomb is live until the character touches it, and collected ever after.
#[derive(Clone, Copy, Debug, PartialEq, Eq, Structural)]
pub enum State {
    Live,
    Collected,
}

/// How many states a bomb has.
pub const STATES: usize = 2;

impl State {
    /// The state's place in the list above, from 0.
    pub open spec fn ordinal(self) -> int {
        match self {
            State::Live => 0,
            State::Collected => 1,
        }
    }

    /// The state at a place in the list above; `Live` for a place past its end.
    pub open spec fn at(ordinal: int) -> State {
        if ordinal == 1 {
            State::Collected
        } else {
            State::Live
        }
    }

    /// The state's place in the list above, from 0.
    pub fn index(self) -> (i: usize)
        ensures
            i == self.ordinal(),
            i < STATES,
    {
        match self {
            State::Live => 0,
            State::Collected => 1,
        }
    }
}

/// What a bomb is: a fixed box, whether it has been collected, the animation
/// kept for each state, and how many times it has been asked for a frame.
pub struct BombView {
    pub position: Vector2,
    pub size: Size,
    pub disarmed: bool,
    pub state: State,
    pub animations: Map<State, AnimationView>,
    pub update_count: int,
}

impl BombView {
    /// Both states have a well-formed animation.
    pub open spec fn animations_wf(self) -> bool {
        &&& forall|s: State| #[trigger] self.animations.dom().contains(s)
        &&& forall|s: State| (#[trigger] self.animations[s]).wf()
    }

    /// The box lies within the world limit, `disarmed` says the same as
    /// `state`, both animations are well formed and the counter fits its
    /// 32 bits.
    pub open spec fn wf(self) -> bool {
        &&& self.animations_wf()
        &&& self.disarmed == (self.state == State::Collected)
        &&& 0 <= self.update_count <= u32::MAX
        &&& -WORLD_LIMIT <= self.position.x <= WORLD_LIMIT
        &&& -WORLD_LIMIT <= self.position.y <= WORLD_LIMIT
        &&& -WORLD_LIMIT <= self.size.width <= WORLD_LIMIT
        &&& -WORLD_LIMIT <= self.size.height <= WORLD_LIMIT
    }

    /// The character's box and the bomb's box share some area: on each axis
    /// either box begins strictly before the other one ends.
    pub open spec fn overlaps(self, jack: JackView) -> bool {
        &&& jack.x < self.position.x + self.size.width
        &&& jack.x + jack.size.width > self.position.x
        &&& jack.y < self.position.y + self.size.height
        &&& jack.y + jack.size.height > self.position.y
    }

    /// The character collects the bomb now: it touches it, and nobody has
    /// collected it before.
    pub open spec fn struck_by(self, jack: JackView) -> bool {
        self.overlaps(jack) && !self.disarmed
    }

    /// The bomb once collected.
    pub open spec fn collect(self) -> BombView {
        BombView { disarmed: true, state: State::Collected, ..self }
    }

    /// The bomb after one request for a frame: the counter goes up by one,
    /// wrapping at 32 bits, and on every even count the animation of the
    /// current state moves on.
    pub open spec fn next_frame(self) -> BombView {
        let count = next_count(self.update_count);
        BombView {
            update_count: count,
            animations: if count % 2 == 0 {
                self.animations.insert(self.state, self.animations[self.state].advance())
            } else {
                self.animations
            },
            ..self
        }
    }

    /// The bomb after one tick in which the character ends up as `jack`:
    /// collected if struck, then asked for a frame.
    pub open spec fn after_tick(self, jack: JackView) -> BombView {
        if self.struck_by(jack) {
            self.collect().next_frame()
        } else {
            self.next_frame()
        }
    }

    /// The frame that shows the bomb now.
    pub open spec fn texture(self) -> UvRect {
        self.animations[self.state].current()
    }

    /// What to draw for the bomb.
    pub open spec fn sprite(self) -> Sprite {
        Sprite { position: self.position, size: self.size, texture: self.texture() }
    }
}

/// The frames of each state, cut from the atlas that `helper` describes.
pub open spec fn state_frames(helper: TextureHelper, s: State) -> Seq<UvRect> {
    match s {
        State::Live => seq![helper.spec_texture_coord(601, 112, 35, 47)],
        State::Collected => seq![
            helper.spec_texture_coord(600, 112, 48, 48),
            helper.spec_texture_coord(1138, 42, 48, 48),
            helper.spec_texture_coord(677, 112, 48, 48),
            helper.spec_texture_coord(600, 160, 48, 48),
            helper.spec_texture_coord(601, 64, 34, 47),
        ],
    }
}

/// A fresh bomb at `(x, y)`: live, 36 by 48 units, both animations at their
/// first frame, never yet asked for a frame.
pub open spec fn initial_bomb(x: i64, y: i64, helper: TextureHelper) -> BombView {
    BombView {
        position: Vector2 { x, y },
        size: Size { width: 360, height: 480 },
        disarmed: false,
        state: State::Live,
        animations: Map::new(
            |s: State| true,
            |s: State| AnimationView { frames: state_frames(helper, s), index: 0 },
        ),
        update_count: 0,
    }
}

/// A bomb. `animations` holds one animation per state, at the state's
/// ordinal.
pub struct Bomb {
    pub position: Vector2,
    pub size: Size,
    pub disarmed: bool,
    pub state: State,
    pub animations: Vec<Animation>,
    pub update_count: u32,
}

impl View for Bomb {
    type V = BombView;

    open spec fn view(&self) -> BombView {
        BombView {
            position: self.position,
            size: self.size,
            disarmed: self.disarmed,
            state: self.state,
            animations: Map::new(|s: State| true, |s: State| self.animations@[s.ordinal()]@),
            update_count: self.update_count as int,
        }
    }
}

impl Bomb {
    /// There is exactly one animation per state, and the view is well formed.
    pub open spec fn wf(&self) -> bool {
        &&& self.animations@.len() == STATES
        &&& self@.wf()
    }

    /// Whether the bomb is well formed, found out by looking.
    pub fn is_well_formed(&self) -> (ok: bool)
        ensures
            ok == self.wf(),
    {
        if self.animations.len() != STATES {
            return false;
        }
        let mut i: usize = 0;
        while i < STATES
            invariant
                i <= STATES == self.animations@.len(),
                forall|j: int| 0 <= j < i ==> (#[trigger] self.animations@[j])@.wf(),
            decreases STATES - i,
        {
            if !self.animations[i].is_well_formed() {
                assert(!self@.animations[State::at(i as int)].wf());
                return false;
            }
            i += 1;
        }
        assert forall|s: State| (#[trigger] self@.animations[s]).wf() by {
            assert(self.animations@[s.ordinal()]@.wf());
        }
        let consistent = match self.state {
            State::Live => !self.disarmed,
            State::Collected => self.disarmed,
        };
        consistent && -WORLD_LIMIT <= self.position.x && self.position.x <= WORLD_LIMIT
            && -WORLD_LIMIT <= self.position.y && self.position.y <= WORLD_LIMIT && -WORLD_LIMIT
            <= self.size.width && self.size.width <= WORLD_LIMIT && -WORLD_LIMIT
            <= self.size.height && self.size.height <= WORLD_LIMIT
    }

    /// A fresh bomb at `(x, y)`, with its frames cut from the atlas of
    /// `texture_helper`. It is well formed if the position is within the world
    /// limit.
    pub fn new(x: i64, y: i64, texture_helper: &TextureHelper) -> (bomb: Bomb)
        ensures
            bomb@ == initial_bomb(x, y, *texture_helper),
            bomb.wf() <==> (-WORLD_LIMIT <= x <= WORLD_LIMIT && -WORLD_LIMIT <= y <= WORLD_LIMIT),
    {
        let live: Vec<UvRect> = vec![texture_helper.texture_coord(601, 112, 35, 47)];
        let collected: Vec<UvRect> = vec![
            texture_helper.texture_coord(600, 112, 48, 48),
            texture_helper.texture_coord(1138, 42, 48, 48),
            texture_helper.texture_coord(677, 112, 48, 48),
            texture_helper.texture_coord(600, 160, 48, 48),
            texture_helper.texture_coord(601, 64, 34, 47),
        ];
        let animations: Vec<Animation> = vec![
            Animation::new(live).unwrap(),
            Animation::new(collected).unwrap(),
        ];
        let bomb = Bomb {
            position: Vector2 { x, y },
            size: Size { width: 360, height: 480 },
            disarmed: false,
            state: State::Live,
            animations,
            update_count: 0,
        };
        proof {
            let fresh = initial_bomb(x, y, *texture_helper);
            assert forall|s: State| #[trigger] bomb@.animations[s] == fresh.animations[s] by {
                assert(bomb.animations@[s.ordinal()]@.frames =~= state_frames(*texture_helper, s));
            }
            assert(bomb@.animations =~= fresh.animations);
        }
        bomb
    }

    /// Counts one more request for a frame and, on every even count, moves
    /// the animation of the current state on by one frame.
    pub fn next_frame(&mut self)
        requires
            old(self).wf(),
        ensures
            final(self).wf(),
            final(self)@ == old(self)@.next_frame(),
    {
        self.update_count = self.update_count.wrapping_add(1);
        if self.update_count % 2 == 0 {
            let i: usize = self.state.index();
            assert(old(self)@.animations[self.state].wf());
            let _ = self.animations[i].next_frame();
        }
        assert(self@.animations =~= old(self)@.next_frame().animations);
        assert forall|s: State| (#[trigger] self@.animations[s]).wf() by {
            assert(old(self)@.animations[s].wf());
        }
    }

    /// What to draw for the bomb: its box, textured with the current frame of
    /// the animation of its state.
    pub fn sprite(&self) -> (sprite: Sprite)
        requires
            self.wf(),
        ensures
            sprite == self@.sprite(),
    {
        assert(self@.animations[self.state].wf());
        Sprite {
            position: self.position,
            size: self.size,
            texture: self.animations[self.state.index()].current_frame(),
        }
    }
}

} // verus!
