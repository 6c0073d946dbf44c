//! What holds of the rules, proved once and for all.

use crate::game::bomb::BombView;
use crate::game::bomb::State;
use crate::game::bomb_spots;
use crate::game::initial_game;
use crate::game::jack::lemma_glide_bounds;
use crate::game::jack::Direction;
use crate::game::jack::JackView;
use crate::game::rules::clamp;
use crate::game::rules::collected_count;
use crate::game::rules::struck_count;
use crate::game::rules::GameView;
use crate::game::LAUNCH_THRUST;
use crate::game::REWARD;
use crate::game::THRUST_DECAY;
use crate::game::TICK_MILLIS;
use crate::game::WALK_STEP;
use crate::input::InputState;
use crate::shapes::Sprite;
use vstd::prelude::*;

verus! {

/// No more bombs are collected than there are.
pub proof fn lemma_collected_count_bound(bombs: Seq<BombView>)
    ensures
        collected_count(bombs) <= bombs.len(),
    decreases bombs.len(),
{
    if bombs.len() > 0 {
        lemma_collected_count_bound(bombs.drop_last());
    }
}

/// Where every bomb is live, none is collected.
pub proof fn lemma_none_collected(bombs: Seq<BombView>)
    requires
        forall|i: int| 0 <= i < bombs.len() ==> (#[trigger] bombs[i]).state == State::Live,
    ensures
        collected_count(bombs) == 0,
    decreases bombs.len(),
{
    if bombs.len() > 0 {
        lemma_none_collected(bombs.drop_last());
    }
}

/// Replacing one bomb changes the number of collected bombs by that bomb's
/// own change.
pub proof fn lemma_collected_count_update(bombs: Seq<BombView>, i: int, bomb: BombView)
    requires
        0 <= i < bombs.len(),
    ensures
        collected_count(bombs.update(i, bomb)) + (if bombs[i].state == State::Collected {
            1int
        } else {
            0int
        }) == collected_count(bombs) + (if bomb.state == State::Collected {
            1int
        } else {
            0int
        }),
    decreases bombs.len(),
{
    let updated = bombs.update(i, bomb);
    if i == bombs.len() - 1 {
        assert(updated.drop_last() =~= bombs.drop_last());
    } else {
        assert(updated.drop_last() =~= bombs.drop_last().update(i, bomb));
        lemma_collected_count_update(bombs.drop_last(), i, bomb);
    }
}

/// After a tick the collected bombs are those that were collected before and
/// those that the character struck, provided `disarmed` said the same as
/// `state` on every bomb.
pub proof fn lemma_collected_count_after_tick(bombs: Seq<BombView>, jack: JackView)
    requires
        forall|i: int|
            0 <= i < bombs.len() ==> (#[trigger] bombs[i]).disarmed == (bombs[i].state
                == State::Collected),
    ensures
        collected_count(Seq::new(bombs.len(), |i: int| bombs[i].after_tick(jack)))
            == collected_count(bombs) + struck_count(bombs, jack),
    decreases bombs.len(),
{
    let after = Seq::new(bombs.len(), |i: int| bombs[i].after_tick(jack));
    if bombs.len() > 0 {
        let front = bombs.drop_last();
        assert(after.drop_last() =~= Seq::new(front.len(), |i: int| front[i].after_tick(jack)));
        lemma_collected_count_after_tick(front, jack);
        assert(bombs.last() == bombs[bombs.len() - 1]);
    }
}

/// A tick takes well-formed states to well-formed states.
pub proof fn lemma_tick_preserves_wf(s: GameView, input: InputState)
    requires
        s.wf(),
    ensures
        s.tick(input).wf(),
{
    let t = s.tick(input);
    let moved = s.moved_jack(input);
    lemma_glide_bounds(s.jack.thrust);
    lemma_glide_bounds(moved.thrust);
    lemma_collected_count_after_tick(s.bombs, moved);
}

/// Any number of ticks takes well-formed states to well-formed states. In
/// particular the score is always the reward times the number of bombs
/// collected so far, and the thrust always between rest and launch.
pub proof fn lemma_ticks_preserve_wf(s: GameView, inputs: Seq<InputState>)
    requires
        s.wf(),
    ensures
        s.ticks(inputs).wf(),
        s.ticks(inputs).score == REWARD * collected_count(s.ticks(inputs).bombs),
        0 <= s.ticks(inputs).jack.thrust <= LAUNCH_THRUST,
    decreases inputs.len(),
{
    if inputs.len() > 0 {
        lemma_ticks_preserve_wf(s, inputs.drop_last());
        lemma_tick_preserves_wf(s.ticks(inputs.drop_last()), inputs.last());
    }
}

/// The game as it starts is well formed, and so is every state that ticks
/// lead to from there.
pub proof fn lemma_reachable_states_wf(inputs: Seq<InputState>)
    ensures
        initial_game().wf(),
        initial_game().ticks(inputs).wf(),
{
    let start = initial_game();
    assert forall|i: int| 0 <= i < start.bombs.len() implies (#[trigger] start.bombs[i]).wf() by {
        let spot = bomb_spots()[i];
        assert(0 <= spot.x <= 6000 && 0 <= spot.y <= 6000);
    }
    lemma_none_collected(start.bombs);
    lemma_ticks_preserve_wf(start, inputs);
}

/// The frame gate: a call for an update changes the state only if the tick
/// interval has passed since the last tick, and then by exactly one tick.
pub proof fn lemma_update_is_gated(s: GameView, elapsed_millis: int, input: InputState)
    ensures
        elapsed_millis < TICK_MILLIS ==> s.update(elapsed_millis, input) == s,
        elapsed_millis >= TICK_MILLIS ==> s.update(elapsed_millis, input) == s.tick(input),
{
}

/// However many calls for an update arrive, if each comes before the tick
/// interval has passed they leave the state exactly as it was.
pub proof fn lemma_early_updates_change_nothing(s: GameView, calls: Seq<(int, InputState)>)
    requires
        forall|i: int| 0 <= i < calls.len() ==> (#[trigger] calls[i]).0 < TICK_MILLIS,
    ensures
        s.updates(calls) == s,
    decreases calls.len(),
{
    if calls.len() > 0 {
        lemma_early_updates_change_nothing(s, calls.drop_last());
    }
}

/// A collected bomb stays collected through any number of ticks, wherever
/// the character goes; and the number of bombs never changes.
pub proof fn lemma_collected_is_final(s: GameView, inputs: Seq<InputState>, i: int)
    requires
        0 <= i < s.bombs.len(),
        s.bombs[i].state == State::Collected,
    ensures
        s.ticks(inputs).bombs.len() == s.bombs.len(),
        s.ticks(inputs).bombs[i].state == State::Collected,
        s.bombs[i].disarmed ==> s.ticks(inputs).bombs[i].disarmed,
    decreases inputs.len(),
{
    if inputs.len() > 0 {
        lemma_collected_is_final(s, inputs.drop_last(), i);
    }
}

/// A disarmed bomb earns nothing: the character strikes as many bombs with
/// it in the list as without it.
pub proof fn lemma_disarmed_bomb_scores_nothing(bombs: Seq<BombView>, i: int, jack: JackView)
    requires
        0 <= i < bombs.len(),
        bombs[i].disarmed,
    ensures
        struck_count(bombs.remove(i), jack) == struck_count(bombs, jack),
    decreases bombs.len(),
{
    if i == bombs.len() - 1 {
        assert(bombs.remove(i) =~= bombs.drop_last());
    } else {
        assert(bombs.remove(i).drop_last() =~= bombs.drop_last().remove(i));
        assert(bombs.remove(i).last() == bombs.last());
        lemma_disarmed_bomb_scores_nothing(bombs.drop_last(), i, jack);
    }
}

/// Where every bomb is disarmed, a tick leaves the score as it is.
pub proof fn lemma_nothing_left_to_score(bombs: Seq<BombView>, jack: JackView)
    requires
        forall|i: int| 0 <= i < bombs.len() ==> (#[trigger] bombs[i]).disarmed,
    ensures
        struck_count(bombs, jack) == 0,
    decreases bombs.len(),
{
    if bombs.len() > 0 {
        lemma_nothing_left_to_score(bombs.drop_last(), jack);
    }
}

/// The score grows by the reward for each bomb that a tick turns from live
/// to collected, and by nothing else, provided `disarmed` said the same as
/// `state` on every bomb.
pub proof fn lemma_score_counts_collections(s: GameView, input: InputState)
    requires
        forall|i: int|
            0 <= i < s.bombs.len() ==> (#[trigger] s.bombs[i]).disarmed == (s.bombs[i].state
                == State::Collected),
    ensures
        s.tick(input).score - s.score == REWARD * (collected_count(s.tick(input).bombs)
            - collected_count(s.bombs)),
        s.tick(input).score >= s.score,
{
    lemma_collected_count_after_tick(s.bombs, s.moved_jack(input));
}

/// The pose has no memory: whatever pose the character had, the tick ends in
/// the same state.
pub proof fn lemma_pose_is_made_afresh(s: GameView, pose: Direction, input: InputState)
    ensures
        (GameView { jack: JackView { direction: pose, ..s.jack }, ..s }).tick(input) == s.tick(
            input,
        ),
{
    let other = GameView { jack: JackView { direction: pose, ..s.jack }, ..s };
    assert forall|platform: Sprite| #[trigger]
        other.stands_on(platform) == s.stands_on(platform) by {}
    assert(other.grounded() ==> s.grounded());
    assert(s.grounded() ==> other.grounded());
    assert(other.moved_jack(input) == s.moved_jack(input));
    assert(other.tick(input).bombs =~= s.tick(input).bombs);
}

/// A tick moves the character and nothing else: the level stays as it is,
/// and every bomb keeps its place and size.
pub proof fn lemma_only_the_character_moves(s: GameView, input: InputState)
    ensures
        s.tick(input).background == s.background,
        s.tick(input).game_bounds == s.game_bounds,
        s.tick(input).platforms == s.platforms,
        s.tick(input).jack.size == s.jack.size,
        s.tick(input).bombs.len() == s.bombs.len(),
        forall|i: int|
            0 <= i < s.bombs.len() ==> (#[trigger] s.tick(input).bombs[i]).position
                == s.bombs[i].position && s.tick(input).bombs[i].size == s.bombs[i].size,
{
}

/// After a tick the thrust lies between rest and launch, whatever it was
/// before; and a tick that begins off the ground takes the decay off the
/// thrust, stopping at those ends.
pub proof fn lemma_thrust_clamped(s: GameView, input: InputState)
    ensures
        0 <= s.tick(input).jack.thrust <= LAUNCH_THRUST,
        !s.on_ground() ==> s.tick(input).jack.thrust == clamp(
            s.jack.thrust - THRUST_DECAY,
            0,
            LAUNCH_THRUST as int,
        ),
        s.on_ground() && input.up_pressed ==> s.tick(input).jack.thrust == LAUNCH_THRUST,
        s.on_ground() && !input.up_pressed ==> s.tick(input).jack.thrust == 0,
{
}

/// After a tick the character's top edge is at or below the top of the
/// level, wherever it was before.
pub proof fn lemma_top_edge_bounded(s: GameView, input: InputState)
    ensures
        s.tick(input).jack.y + s.tick(input).jack.size.height <= s.game_bounds.top_right.y,
{
}

/// At a bound, motion stops: with its left edge at or beyond the level's left
/// bound the character takes no step to the left, and with its right edge at
/// or beyond the right bound none to the right.
pub proof fn lemma_no_step_at_bound(s: GameView, input: InputState)
    ensures
        s.jack.x <= s.game_bounds.bottom_left.x ==> s.tick(input).jack.x >= s.jack.x,
        s.jack.x + s.jack.size.width >= s.game_bounds.top_right.x ==> s.tick(input).jack.x
            <= s.jack.x,
{
}

/// A character inside the level's left bound is still inside it after a
/// tick, unless it starts less than one step from the bound, steps left and
/// does not step back: a step is taken whole or not at all.
pub proof fn lemma_left_edge_kept(s: GameView, input: InputState)
    requires
        s.game_bounds.bottom_left.x <= s.jack.x,
        !(s.steps_left(input) && s.jack.x < s.game_bounds.bottom_left.x + WALK_STEP
            && !s.steps_right(input)),
    ensures
        s.game_bounds.bottom_left.x <= s.tick(input).jack.x,
{
}

/// A character inside the level's right bound is still inside it after a
/// tick, unless it steps right from less than one step before the bound.
pub proof fn lemma_right_edge_kept(s: GameView, input: InputState)
    requires
        s.jack.x + s.jack.size.width <= s.game_bounds.top_right.x,
        !(s.steps_right(input) && s.x_after_left(input) + s.jack.size.width + WALK_STEP
            > s.game_bounds.top_right.x),
    ensures
        s.tick(input).jack.x + s.tick(input).jack.size.width <= s.game_bounds.top_right.x,
{
}

} // verus!
