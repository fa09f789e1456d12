//! Per-character animation state: the controller choosing what to play,
//! and the transition flags the movement collaborator writes each tick.

use vstd::prelude::*;
use crate::clip::AnimationClip;
use crate::config::AnimationType;
use crate::config::CharacterEntry;
use crate::direction::Facing;

verus! {

/// Which animation a character currently plays, and which way it faces.
///
/// Mutated only by the movement/input collaborator; read by the engine
/// every tick to resolve the active clip.
#[derive(Clone, Copy, Debug, PartialEq, Eq, Structural)]
pub struct AnimationController {
    pub current_animation: AnimationType,
    pub facing: Facing,
}

impl Default for AnimationController {
    /// A fresh character walks and faces down.
    fn default() -> (r: AnimationController)
        ensures
            r.current_animation == AnimationType::Walk,
            r.facing == Facing::Down,
    {
        AnimationController { current_animation: AnimationType::Walk, facing: Facing::Down }
    }
}

/// The transition window of one character: the motion flags of this tick
/// beside those of the previous tick.
///
/// `is_moving` and `is_jumping` are written by the movement collaborator
/// before the engine runs; `was_moving` and `was_jumping` are written
/// only by the flag-commit step, after the engine has run.
#[derive(Clone, Copy, Debug, PartialEq, Eq, Structural)]
pub struct AnimationState {
    pub is_moving: bool,
    pub was_moving: bool,
    pub is_jumping: bool,
    pub was_jumping: bool,
}

impl AnimationState {
    /// The character began moving this tick.
    pub open spec fn started_moving(self) -> bool {
        self.is_moving && !self.was_moving
    }

    /// The character stopped moving this tick.
    pub open spec fn stopped_moving(self) -> bool {
        !self.is_moving && self.was_moving
    }

    /// The character began jumping this tick.
    pub open spec fn started_jumping(self) -> bool {
        self.is_jumping && !self.was_jumping
    }

    /// The character stopped jumping this tick.
    pub open spec fn stopped_jumping(self) -> bool {
        !self.is_jumping && self.was_jumping
    }

    /// Some motion flag flipped this tick, forcing an animation reset.
    pub open spec fn any_transition(self) -> bool {
        ||| self.started_moving()
        ||| self.stopped_moving()
        ||| self.started_jumping()
        ||| self.stopped_jumping()
    }

    /// The character is in steady motion, so frames should advance.
    pub open spec fn should_animate(self) -> bool {
        self.is_jumping || self.is_moving
    }

    /// This state after the end-of-tick flag commit: the current flags
    /// copied into the previous slots.
    pub open spec fn spec_committed(self) -> AnimationState {
        AnimationState {
            is_moving: self.is_moving,
            was_moving: self.is_moving,
            is_jumping: self.is_jumping,
            was_jumping: self.is_jumping,
        }
    }

    /// Close this tick's transition-detection window: copy the current
    /// motion flags into the previous-tick slots.  Must run after the
    /// tick's animation update and before the next tick's motion writes.
    pub fn commit_flags(&mut self)
        ensures
            *final(self) == old(self).spec_committed(),
            !final(self).any_transition(),
    {
        self.was_moving = self.is_moving;
        self.was_jumping = self.is_jumping;
    }
}

impl Default for AnimationState {
    /// A fresh character is idle with no pending transition.
    fn default() -> (r: AnimationState)
        ensures
            r == (AnimationState {
                is_moving: false,
                was_moving: false,
                is_jumping: false,
                was_jumping: false,
            }),
    {
        AnimationState { is_moving: false, was_moving: false, is_jumping: false, was_jumping: false }
    }
}

impl AnimationController {
    /// The clip this controller selects from a character entry: the
    /// definition of the current kind, placed on its facing's row when
    /// directional.  `None` when the kind is absent from the catalog or
    /// its definition has no frames — both content mismatches the engine
    /// answers by skipping the character for the tick.
    pub open spec fn spec_get_clip(self, config: CharacterEntry) -> Option<AnimationClip> {
        match config.animations.spec_get(self.current_animation) {
            None => None,
            Some(def) => if def.frame_count == 0 {
                None
            } else {
                let row = if def.directional {
                    def.start_row + self.facing.spec_direction_index()
                } else {
                    def.start_row as int
                };
                Some(AnimationClip::spec_new(row, def.frame_count as int, config.atlas_columns as int))
            },
        }
    }

    /// Resolve the active clip for this tick from the character's
    /// catalog, or `None` when the content does not provide one.
    pub fn get_clip(&self, config: &CharacterEntry) -> (r: Option<AnimationClip>)
        requires
            config.wf(),
        ensures
            r == self.spec_get_clip(*config),
            r matches Some(clip) ==> clip.first <= clip.last,
    {
        let def = match config.animations.get(self.current_animation) {
            None => {
                return None;
            },
            Some(def) => def,
        };
        if def.frame_count == 0 {
            return None;
        }
        proof {
            assert(def.start_row + 3 <= (def.start_row + 3) * config.atlas_columns)
                by (nonlinear_arith)
                requires
                    config.atlas_columns >= 1,
                    def.start_row >= 0,
            ;
        }
        let row = if def.directional {
            def.start_row + self.facing.direction_index()
        } else {
            def.start_row
        };
        proof {
            assert(row * config.atlas_columns + def.frame_count <= (def.start_row + 3)
                * config.atlas_columns + def.frame_count) by (nonlinear_arith)
                requires
                    row <= def.start_row + 3,
                    config.atlas_columns >= 0,
            ;
        }
        Some(AnimationClip::new(row, def.frame_count, config.atlas_columns))
    }
}

} // verus!
