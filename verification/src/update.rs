//! The per-tick animation update and the end-of-tick flag commit.

use vstd::prelude::*;
use crate::clip::AnimationClip;
use crate::config::CharacterEntry;
use crate::state::AnimationController;
use crate::state::AnimationState;
use crate::timer::AnimationTimer;

verus! {

/// The timer and frame index one update tick produces from a character's
/// controller, transition flags, timer, frame index, content entry and
/// delta time.  A character whose clip does not resolve keeps both
/// unchanged: the engine skips it for the tick.
///
/// The update proceeds in the fixed order the engine guarantees: first
/// the safety clamp snaps an out-of-range frame back to the clip's start
/// and zeroes the timer's accumulator; then a detected transition resets
/// frame and timer outright; otherwise steady motion advances the timer
/// and, on an elapse, the frame; otherwise the idle character is pinned
/// to the clip's first frame with its timer untouched.
pub open spec fn spec_update(
    controller: AnimationController,
    state: AnimationState,
    timer: AnimationTimer,
    frame_index: usize,
    config: CharacterEntry,
    delta: u64,
) -> (AnimationTimer, usize) {
    match controller.spec_get_clip(config) {
        None => (timer, frame_index),
        Some(clip) => {
            let def = config.animations.spec_get(controller.current_animation)->Some_0;
            let clamped_timer = if !clip.spec_contains(frame_index as int) {
                AnimationTimer { duration: timer.duration, elapsed: 0 }
            } else {
                timer
            };
            let clamped_frame = if !clip.spec_contains(frame_index as int) {
                clip.first
            } else {
                frame_index
            };
            if state.any_transition() {
                (AnimationTimer { duration: def.frame_time, elapsed: 0 }, clip.first)
            } else if state.should_animate() {
                (
                    clamped_timer.spec_tick(delta),
                    if clamped_timer.spec_finishes(delta) {
                        clip.spec_next(clamped_frame as int) as usize
                    } else {
                        clamped_frame
                    },
                )
            } else {
                (clamped_timer, clip.first)
            }
        },
    }
}

/// Run one animation update tick for a single character.
///
/// After the call the frame index lies inside the resolved clip whenever
/// one resolves, and the timer stays well formed; a character without a
/// resolvable clip is left untouched.
pub fn animate_character(
    controller: &AnimationController,
    state: &AnimationState,
    timer: &mut AnimationTimer,
    frame_index: &mut usize,
    config: &CharacterEntry,
    delta: u64,
)
    requires
        config.wf(),
        old(timer).wf(),
        old(timer).elapsed + delta <= u64::MAX,
    ensures
        (*final(timer), *final(frame_index)) == spec_update(
            *controller,
            *state,
            *old(timer),
            *old(frame_index),
            *config,
            delta,
        ),
        final(timer).wf(),
        controller.spec_get_clip(*config) matches Some(clip) ==> clip.spec_contains(
            *final(frame_index) as int,
        ),
        controller.spec_get_clip(*config) is None ==> *final(timer) == *old(timer)
            && *final(frame_index) == *old(frame_index),
{
    let clip = match controller.get_clip(config) {
        None => {
            return ;
        },
        Some(clip) => clip,
    };
    let anim_def = match config.animations.get(controller.current_animation) {
        None => {
            // A resolved clip implies a present definition, so this arm
            // cannot be reached.
            proof {
                assert(false);
            }
            return ;
        },
        Some(def) => def,
    };

    // Safety clamp: a frame left over from another clip's row block is
    // snapped back before anything else looks at it.
    if !clip.contains(*frame_index) {
        *frame_index = clip.start();
        timer.reset();
    }

    let just_started_moving = state.is_moving && !state.was_moving;
    let just_stopped_moving = !state.is_moving && state.was_moving;
    let just_started_jumping = state.is_jumping && !state.was_jumping;
    let just_stopped_jumping = !state.is_jumping && state.was_jumping;

    let should_animate = state.is_jumping || state.is_moving;
    let animation_changed = just_started_moving || just_started_jumping || just_stopped_moving
        || just_stopped_jumping;

    if animation_changed {
        // A transition always wins: hard reset to the clip's start with a
        // fresh period of the current kind's frame time.
        *frame_index = clip.start();
        timer.restart(anim_def.frame_time);
    } else if should_animate {
        // Steady motion: accumulate time, step one frame per elapse.
        let finished = timer.tick(delta);
        if finished {
            *frame_index = clip.next(*frame_index);
        }
    } else {
        // Fully idle: stay pinned on the first frame, timer untouched.
        if *frame_index != clip.start() {
            *frame_index = clip.start();
        }
    }
}

/// One character's complete per-entity animation bundle, as the host
/// scheduler hands it to the engine each tick.
#[derive(Clone, Copy, Debug, PartialEq, Eq, Structural)]
pub struct CharacterAnimation {
    pub controller: AnimationController,
    pub state: AnimationState,
    pub timer: AnimationTimer,
    pub frame_index: usize,
    pub config: CharacterEntry,
}

impl CharacterAnimation {
    /// Well-formedness of the bundle: consistent content and a well
    /// formed timer.
    pub open spec fn wf(self) -> bool {
        &&& self.config.wf()
        &&& self.timer.wf()
    }

    /// This bundle after one update tick with delta time `delta`.
    pub open spec fn spec_animated(self, delta: u64) -> CharacterAnimation {
        CharacterAnimation {
            controller: self.controller,
            state: self.state,
            timer: spec_update(
                self.controller,
                self.state,
                self.timer,
                self.frame_index,
                self.config,
                delta,
            ).0,
            frame_index: spec_update(
                self.controller,
                self.state,
                self.timer,
                self.frame_index,
                self.config,
                delta,
            ).1,
            config: self.config,
        }
    }

    /// This bundle after the end-of-tick flag commit.
    pub open spec fn spec_committed(self) -> CharacterAnimation {
        CharacterAnimation {
            controller: self.controller,
            state: self.state.spec_committed(),
            timer: self.timer,
            frame_index: self.frame_index,
            config: self.config,
        }
    }
}

/// Run the animation update for every character, one tick's first phase.
/// Characters are independent: each bundle is updated exactly as
/// [`animate_character`] updates it, and nothing else changes.
pub fn animate_characters(characters: &mut Vec<CharacterAnimation>, delta: u64)
    requires
        forall|i: int|
            0 <= i < old(characters)@.len() ==> (#[trigger] old(characters)@[i]).wf() && old(
                characters,
            )@[i].timer.elapsed + delta <= u64::MAX,
    ensures
        final(characters)@.len() == old(characters)@.len(),
        forall|i: int|
            0 <= i < old(characters)@.len() ==> #[trigger] final(characters)@[i] == old(
                characters,
            )@[i].spec_animated(delta),
        forall|i: int|
            0 <= i < old(characters)@.len() ==> (#[trigger] final(characters)@[i]).wf(),
{
    let n = characters.len();
    let mut i: usize = 0;
    while i < n
        invariant
            i <= n,
            n == old(characters)@.len(),
            characters@.len() == n,
            forall|j: int|
                0 <= j < old(characters)@.len() ==> (#[trigger] old(characters)@[j]).wf() && old(
                    characters,
                )@[j].timer.elapsed + delta <= u64::MAX,
            forall|j: int| i <= j < n ==> #[trigger] characters@[j] == old(characters)@[j],
            forall|j: int|
                0 <= j < i ==> #[trigger] characters@[j] == old(characters)@[j].spec_animated(
                    delta,
                ),
            forall|j: int| 0 <= j < i ==> (#[trigger] characters@[j]).wf(),
        decreases n - i,
    {
        let mut character = characters[i];
        animate_character(
            &character.controller,
            &character.state,
            &mut character.timer,
            &mut character.frame_index,
            &character.config,
            delta,
        );
        characters.set(i, character);
        i = i + 1;
    }
}

/// Commit every character's transition flags, one tick's second phase.
/// Must run after [`animate_characters`] for the same tick and before
/// the next tick's motion writes, or transition detection breaks.
pub fn update_animation_flags(characters: &mut Vec<CharacterAnimation>)
    ensures
        final(characters)@.len() == old(characters)@.len(),
        forall|i: int|
            0 <= i < old(characters)@.len() ==> #[trigger] final(characters)@[i] == old(
                characters,
            )@[i].spec_committed(),
{
    let n = characters.len();
    let mut i: usize = 0;
    while i < n
        invariant
            i <= n,
            n == old(characters)@.len(),
            characters@.len() == n,
            forall|j: int| i <= j < n ==> #[trigger] characters@[j] == old(characters)@[j],
            forall|j: int|
                0 <= j < i ==> #[trigger] characters@[j] == old(characters)@[j].spec_committed(),
        decreases n - i,
    {
        let mut character = characters[i];
        character.state.commit_flags();
        characters.set(i, character);
        i = i + 1;
    }
}

/// Run one whole simulation tick: the update phase for every character,
/// then, strictly after all updates, the flag-commit barrier.
pub fn advance_tick(characters: &mut Vec<CharacterAnimation>, delta: u64)
    requires
        forall|i: int|
            0 <= i < old(characters)@.len() ==> (#[trigger] old(characters)@[i]).wf() && old(
                characters,
            )@[i].timer.elapsed + delta <= u64::MAX,
    ensures
        final(characters)@.len() == old(characters)@.len(),
        forall|i: int|
            0 <= i < old(characters)@.len() ==> #[trigger] final(characters)@[i] == old(
                characters,
            )@[i].spec_animated(delta).spec_committed(),
        forall|i: int|
            0 <= i < old(characters)@.len() ==> (#[trigger] final(characters)@[i]).wf(),
{
    animate_characters(characters, delta);
    update_animation_flags(characters);
}

/// A clip resolved from a well-formed content entry is a genuine range:
/// its definition is present in the catalog and its first frame does not
/// lie past its last.
pub proof fn lemma_resolved_clip_in_range(controller: AnimationController, config: CharacterEntry)
    requires
        config.wf(),
        controller.spec_get_clip(config) is Some,
    ensures
        config.animations.spec_get(controller.current_animation) is Some,
        ({
            let clip = controller.spec_get_clip(config)->Some_0;
            clip.first <= clip.last <= usize::MAX
        }),
{
    let def = config.animations.spec_get(controller.current_animation)->Some_0;
    let row = if def.directional {
        def.start_row + controller.facing.spec_direction_index()
    } else {
        def.start_row as int
    };
    assert(0 <= controller.facing.spec_direction_index() < 4);
    assert(row * config.atlas_columns + def.frame_count <= (def.start_row + 3)
        * config.atlas_columns + def.frame_count) by (nonlinear_arith)
        requires
            0 <= row <= def.start_row + 3,
            config.atlas_columns >= 0,
    ;
    assert(row * config.atlas_columns >= 0) by (nonlinear_arith)
        requires
            0 <= row,
            config.atlas_columns >= 0,
    ;
}

/// The range invariant the engine maintains for the renderer: whenever a
/// clip resolves, the frame index an update leaves behind lies inside
/// that clip, whatever state the tick started from.
pub proof fn lemma_update_frame_in_range(
    controller: AnimationController,
    state: AnimationState,
    timer: AnimationTimer,
    frame_index: usize,
    config: CharacterEntry,
    delta: u64,
)
    requires
        config.wf(),
        controller.spec_get_clip(config) is Some,
    ensures
        ({
            let clip = controller.spec_get_clip(config)->Some_0;
            clip.spec_contains(
                spec_update(controller, state, timer, frame_index, config, delta).1 as int,
            )
        }),
{
    lemma_resolved_clip_in_range(controller, config);
}

/// Idle updates are idempotent: with both motion flags false and no
/// pending transition, one update pins the frame to the clip's first
/// frame, an in-range frame leaves the timer untouched, and every
/// further idle update changes nothing at all, whatever its delta.
pub proof fn lemma_idle_update_idempotent(
    controller: AnimationController,
    state: AnimationState,
    timer: AnimationTimer,
    frame_index: usize,
    config: CharacterEntry,
    delta1: u64,
    delta2: u64,
)
    requires
        config.wf(),
        !state.is_moving,
        !state.is_jumping,
        !state.was_moving,
        !state.was_jumping,
        controller.spec_get_clip(config) is Some,
    ensures
        ({
            let clip = controller.spec_get_clip(config)->Some_0;
            let once = spec_update(controller, state, timer, frame_index, config, delta1);
            &&& once.1 == clip.first
            &&& clip.spec_contains(frame_index as int) ==> once.0 == timer
            &&& spec_update(controller, state, once.0, once.1, config, delta2) == once
        }),
{
    lemma_resolved_clip_in_range(controller, config);
}

/// Transition priority: when moving and jumping both start in the same
/// tick, the update is one single hard reset — frame at the clip's first
/// frame, timer on a fresh period of the current kind's frame time — and
/// the very same reset any other combination of transitions produces.
pub proof fn lemma_transition_priority(
    controller: AnimationController,
    state: AnimationState,
    timer: AnimationTimer,
    frame_index: usize,
    config: CharacterEntry,
    delta: u64,
)
    requires
        config.wf(),
        state.started_moving(),
        state.started_jumping(),
        controller.spec_get_clip(config) is Some,
    ensures
        ({
            let clip = controller.spec_get_clip(config)->Some_0;
            let def = config.animations.spec_get(controller.current_animation)->Some_0;
            spec_update(controller, state, timer, frame_index, config, delta) == (
                AnimationTimer { duration: def.frame_time, elapsed: 0 },
                clip.first,
            )
        }),
        forall|other: AnimationState|
            other.any_transition() ==> #[trigger] spec_update(
                controller,
                other,
                timer,
                frame_index,
                config,
                delta,
            ) == spec_update(controller, state, timer, frame_index, config, delta),
{
}

} // verus!


