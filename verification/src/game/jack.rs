//! The player's character.

use crate::game::animation::Animation;
use crate::game::animation::AnimationView;
use crate::game::texture::TextureHelper;
use crate::game::GRAVITY;
use crate::game::LAUNCH_THRUST;
use crate::game::REACH_LIMIT;
use crate::game::THRUST_DECAY;
use crate::game::WORLD_LIMIT;
use crate::shapes::Size;
use crate::shapes::Sprite;
use crate::shapes::UvRect;
use crate::shapes::Vector2;
use vstd::prelude::*;

verus! {

/// The character's pose for one tick; it picks the animation that is shown.
#[derive(Clone, Copy, Debug, PartialEq, Eq, Structural)]
pub enum Direction {
    Idle,
    Up,
    Down,
    Left,
    Right,
    UpLeft,
    UpRight,
}

/// How many poses there are.
pub const DIRECTIONS: usize = 7;

impl Direction {
    /// The pose's place in the list above, from 0.
    pub open spec fn ordinal(self) -> int {
        match self {
            Direction::Idle => 0,
            Direction::Up => 1,
            Direction::Down => 2,
            Direction::Left => 3,
            Direction::Right => 4,
            Direction::UpLeft => 5,
            Direction::UpRight => 6,
        }
    }

    /// The pose at a place in the list above; `Idle` for a place past its end.
    pub open spec fn at(ordinal: int) -> Direction {
        if ordinal == 1 {
            Direction::Up
        } else if ordinal == 2 {
            Direction::Down
        } else if ordinal == 3 {
            Direction::Left
        } else if ordinal == 4 {
            Direction::Right
        } else if ordinal == 5 {
            Direction::UpLeft
        } else if ordinal == 6 {
            Direction::UpRight
        } else {
            Direction::Idle
        }
    }

    /// The pose's place in the list above, from 0.
    pub fn index(self) -> (i: usize)
        ensures
            i == self.ordinal(),
            i < DIRECTIONS,
    {
        match self {
            Direction::Idle => 0,
            Direction::Up => 1,
            Direction::Down => 2,
            Direction::Left => 3,
            Direction::Right => 4,
            Direction::UpLeft => 5,
            Direction::UpRight => 6,
        }
    }
}

/// The height the character still gains from its thrust alone: while the
/// thrust is positive each tick lifts by the thrust, pulls down by gravity and
/// then takes the decay off the thrust. Small thrusts fall short of gravity, so
/// the sum may be negative.
pub open spec fn glide(thrust: int) -> int
    decreases thrust,
{
    if thrust <= 0 {
        0
    } else {
        thrust - GRAVITY + glide(
            if thrust > THRUST_DECAY {
                thrust - THRUST_DECAY
            } else {
                0
            },
        )
    }
}

/// What the character is: where it stands, how large it is, its thrust and
/// pose, and the animation kept for each pose.
pub struct JackView {
    pub x: int,
    pub y: int,
    pub size: Size,
    pub thrust: int,
    pub direction: Direction,
    pub animations: Map<Direction, AnimationView>,
}

impl JackView {
    /// Every pose has a well-formed animation.
    pub open spec fn animations_wf(self) -> bool {
        &&& forall|d: Direction| #[trigger] self.animations.dom().contains(d)
        &&& forall|d: Direction| (#[trigger] self.animations[d]).wf()
    }

    /// The thrust is between rest and launch, every pose has a well-formed
    /// animation, and the character is near enough to the origin for the
    /// arithmetic of a tick: in particular, gliding out its thrust would not
    /// take it below the reach limit.
    pub open spec fn wf(self) -> bool {
        &&& self.animations_wf()
        &&& 0 <= self.thrust <= LAUNCH_THRUST
        &&& -WORLD_LIMIT <= self.size.width <= WORLD_LIMIT
        &&& -WORLD_LIMIT <= self.size.height <= WORLD_LIMIT
        &&& -REACH_LIMIT <= self.x <= REACH_LIMIT
        &&& self.y <= REACH_LIMIT
        &&& -REACH_LIMIT <= self.y + glide(self.thrust)
    }

    /// The frame that shows the character now.
    pub open spec fn texture(self) -> UvRect {
        self.animations[self.direction].current()
    }

    /// What to draw for the character.
    pub open spec fn sprite(self) -> Sprite {
        Sprite {
            position: Vector2 { x: self.x as i64, y: self.y as i64 },
            size: self.size,
            texture: self.texture(),
        }
    }

    /// The character with the animation of its current pose moved on by one
    /// frame.
    pub open spec fn animate(self) -> JackView {
        JackView {
            animations: self.animations.insert(
                self.direction,
                self.animations[self.direction].advance(),
            ),
            ..self
        }
    }
}

/// The frames of each pose, cut from the atlas that `helper` describes.
pub open spec fn pose_frames(helper: TextureHelper, d: Direction) -> Seq<UvRect> {
    match d {
        Direction::Idle => seq![helper.spec_texture_coord(601, 256, 39, 45)],
        Direction::Up => seq![helper.spec_texture_coord(600, 208, 40, 48)],
        Direction::Down => seq![helper.spec_texture_coord(636, 64, 40, 48)],
        Direction::Left => seq![
            helper.spec_texture_coord(600, 301, 40, 48),
            helper.spec_texture_coord(639, 256, 40, 48),
        ],
        Direction::Right => seq![
            helper.spec_texture_coord(640, 208, 40, 48),
            helper.spec_texture_coord(648, 160, 40, 48),
        ],
        Direction::UpLeft => seq![helper.spec_texture_coord(636, 112, 40, 48)],
        Direction::UpRight => seq![helper.spec_texture_coord(676, 64, 40, 48)],
    }
}

/// The character as the game starts: idle and at rest at (300, 300), 39 by 45
/// units, every animation at its first frame.
pub open spec fn initial_jack(helper: TextureHelper) -> JackView {
    JackView {
        x: 3000,
        y: 3000,
        size: Size { width: 390, height: 450 },
        thrust: 0,
        direction: Direction::Idle,
        animations: Map::new(
            |d: Direction| true,
            |d: Direction| AnimationView { frames: pose_frames(helper, d), index: 0 },
        ),
    }
}

/// The player's character. `texture_map` holds one animation per pose, at the
/// pose's ordinal.
pub struct Jack {
    pub position: Vector2,
    pub size: Size,
    pub thrust: i64,
    pub direction: Direction,
    pub texture_map: Vec<Animation>,
}

impl View for Jack {
    type V = JackView;

    open spec fn view(&self) -> JackView {
        JackView {
            x: self.position.x as int,
            y: self.position.y as int,
            size: self.size,
            thrust: self.thrust as int,
            direction: self.direction,
            animations: Map::new(
                |d: Direction| true,
                |d: Direction| self.texture_map@[d.ordinal()]@,
            ),
        }
    }
}

/// Eight times the glide from a thrust `t` is `t * t - 76 * t`, less at most
/// 320 when `t` is not a multiple of the decay. (76 is twice the gravity less
/// the decay; 320 is eight times the gravity.)
pub proof fn lemma_glide_quadratic(t: int)
    requires
        0 <= t,
    ensures
        t * t - 76 * t - 320 <= 8 * glide(t) <= t * t - 76 * t,
    decreases t,
{
    if t == 0 {
    } else if t > 4 {
        lemma_glide_quadratic(t - 4);
        assert((t - 4) * (t - 4) == t * t - 8 * t + 16) by (nonlinear_arith);
    } else {
        assert(glide(0) == 0);
        assert(t * t - 84 * t <= 0 <= t * t - 84 * t + 320) by (nonlinear_arith)
            requires
                0 < t <= 4,
        ;
    }
}

/// The glide from any thrust between rest and launch is between -221 and
/// 3100 steps, and a launch from rest ends higher than it began.
pub proof fn lemma_glide_bounds(t: int)
    requires
        0 <= t <= LAUNCH_THRUST,
    ensures
        -221 <= glide(t) <= 3100,
        glide(LAUNCH_THRUST as int) >= 0,
{
    lemma_glide_quadratic(t);
    lemma_glide_quadratic(LAUNCH_THRUST as int);
    assert(-1444 <= t * t - 76 * t <= 24800) by (nonlinear_arith)
        requires
            0 <= t <= 200,
    ;
}

/// The glide from a thrust between rest and launch, summed tick by tick.
pub fn glide_of(thrust: i64) -> (sum: i64)
    requires
        0 <= thrust <= LAUNCH_THRUST,
    ensures
        sum == glide(thrust as int),
{
    let mut left: i64 = thrust;
    let mut sum: i64 = 0;
    while left > 0
        invariant
            0 <= left <= thrust <= LAUNCH_THRUST,
            sum + glide(left as int) == glide(thrust as int),
        decreases left,
    {
        proof {
            lemma_glide_bounds(left as int);
            lemma_glide_bounds(thrust as int);
        }
        sum += left - GRAVITY;
        left = if left > THRUST_DECAY {
            left - THRUST_DECAY
        } else {
            0
        };
    }
    sum
}

/// An animation over frames that are known to be there.
fn looping(frames: Vec<UvRect>) -> (animation: Animation)
    requires
        frames@.len() > 0,
    ensures
        animation@ == (AnimationView { frames: frames@, index: 0 }),
{
    Animation::new(frames).unwrap()
}

impl Jack {
    /// There is exactly one animation per pose, and the view is well formed.
    pub open spec fn wf(&self) -> bool {
        &&& self.texture_map@.len() == DIRECTIONS
        &&& self@.wf()
    }

    /// Whether the character is well formed, found out by looking.
    pub fn is_well_formed(&self) -> (ok: bool)
        ensures
            ok == self.wf(),
    {
        if self.texture_map.len() != DIRECTIONS {
            return false;
        }
        let mut i: usize = 0;
        while i < DIRECTIONS
            invariant
                i <= DIRECTIONS == self.texture_map@.len(),
                forall|j: int| 0 <= j < i ==> (#[trigger] self.texture_map@[j])@.wf(),
            decreases DIRECTIONS - i,
        {
            if !self.texture_map[i].is_well_formed() {
                assert(!self@.animations[Direction::at(i as int)].wf());
                return false;
            }
            i += 1;
        }
        assert forall|d: Direction| (#[trigger] self@.animations[d]).wf() by {
            assert(self.texture_map@[d.ordinal()]@.wf());
        }
        if !(0 <= self.thrust && self.thrust <= LAUNCH_THRUST) {
            return false;
        }
        let in_world = -WORLD_LIMIT <= self.size.width && self.size.width <= WORLD_LIMIT
            && -WORLD_LIMIT <= self.size.height && self.size.height <= WORLD_LIMIT;
        let in_reach = -REACH_LIMIT <= self.position.x && self.position.x <= REACH_LIMIT
            && self.position.y <= REACH_LIMIT;
        proof {
            lemma_glide_bounds(self.thrust as int);
        }
        // No glide is longer than 3100 steps, so from further down than that
        // below the reach limit there is no way back above it.
        if !in_world || !in_reach || self.position.y < -REACH_LIMIT - 3100 {
            return false;
        }
        -REACH_LIMIT <= self.position.y + glide_of(self.thrust)
    }

    /// The character as the game starts, with its frames cut from the atlas
    /// of `texture_helper`.
    pub fn new(texture_helper: &TextureHelper) -> (jack: Jack)
        ensures
            jack.wf(),
            jack@ == initial_jack(*texture_helper),
    {
        let texture_map: Vec<Animation> = vec![
            looping(vec![texture_helper.texture_coord(601, 256, 39, 45)]),
            looping(vec![texture_helper.texture_coord(600, 208, 40, 48)]),
            looping(vec![texture_helper.texture_coord(636, 64, 40, 48)]),
            looping(
                vec![
                    texture_helper.texture_coord(600, 301, 40, 48),
                    texture_helper.texture_coord(639, 256, 40, 48),
                ],
            ),
            looping(
                vec![
                    texture_helper.texture_coord(640, 208, 40, 48),
                    texture_helper.texture_coord(648, 160, 40, 48),
                ],
            ),
            looping(vec![texture_helper.texture_coord(636, 112, 40, 48)]),
            looping(vec![texture_helper.texture_coord(676, 64, 40, 48)]),
        ];
        let jack = Jack {
            position: Vector2 { x: 3000, y: 3000 },
            size: Size { width: 390, height: 450 },
            thrust: 0,
            direction: Direction::Idle,
            texture_map,
        };
        proof {
            assert forall|d: Direction| #[trigger] jack@.animations[d] == initial_jack(*texture_helper).animations[d] by {
                assert(jack.texture_map@[d.ordinal()]@.frames =~= pose_frames(*texture_helper, d));
            }
            assert(jack@.animations =~= initial_jack(*texture_helper).animations);
        }
        jack
    }

    /// Moves the animation of the current pose on by one frame.
    pub fn next_frame(&mut self)
        requires
            old(self).wf(),
        ensures
            final(self).wf(),
            final(self)@ == old(self)@.animate(),
    {
        let i: usize = self.direction.index();
        assert(old(self)@.animations.dom().contains(self.direction));
        let _ = self.texture_map[i].next_frame();
        assert(self@.animations =~= old(self)@.animate().animations);
        assert forall|d: Direction| (#[trigger] self@.animations[d]).wf() by {
            assert(old(self)@.animations[d].wf());
        }
    }

    /// What to draw for the character: its box, textured with the current
    /// frame of the animation of its pose.
    pub fn sprite(&self) -> (sprite: Sprite)
        requires
            self.wf(),
        ensures
            sprite == self@.sprite(),
    {
        assert(self@.animations[self.direction].wf());
        Sprite {
            position: self.position,
            size: self.size,
            texture: self.texture_map[self.direction.index()].current_frame(),
        }
    }
}

} // verus!
