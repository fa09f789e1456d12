//! Character configuration: the externally authored animation catalog.
//!
//! The catalog is content data loaded by an external collaborator; this
//! module only models what the animation logic reads from it, together
//! with the consistency conditions that content must satisfy.

use vstd::prelude::*;

verus! {

/// The closed set of animation categories a character can play.
#[derive(Clone, Copy, Debug, PartialEq, Eq, Hash, Structural)]
pub enum AnimationType {
    Walk,
    Jump,
}

/// One animation kind's layout and timing inside a character's atlas.
///
/// A directional definition occupies the four consecutive rows
/// `start_row..=start_row + 3`, one per facing in Up, Left, Down, Right
/// order; a non-directional one occupies `start_row` alone.
#[derive(Clone, Copy, Debug, PartialEq, Eq, Structural)]
pub struct AnimationDefinition {
    /// First atlas row of this animation's block.
    pub start_row: usize,
    /// Number of frames in the clip; content with 0 here is skipped.
    pub frame_count: usize,
    /// Time one frame stays on screen, in microseconds.
    pub frame_time: u64,
    /// Whether the animation reserves one row per facing direction.
    pub directional: bool,
}

/// A character's animation catalog: one optional definition per kind.
///
/// An absent entry is the normal "not found" result of resolution; the
/// engine skips the character for the tick rather than failing.
#[derive(Clone, Copy, Debug, PartialEq, Eq, Structural)]
pub struct AnimationCatalog {
    pub walk: Option<AnimationDefinition>,
    pub jump: Option<AnimationDefinition>,
}

/// What the animation engine reads of one character's content entry:
/// the atlas width and the animation catalog.
#[derive(Clone, Copy, Debug, PartialEq, Eq, Structural)]
pub struct CharacterEntry {
    /// Number of frame columns in the character's atlas.
    pub atlas_columns: usize,
    /// The character's animations, keyed by kind.
    pub animations: AnimationCatalog,
}

impl AnimationCatalog {
    /// The definition stored for `kind`, if any.
    pub open spec fn spec_get(self, kind: AnimationType) -> Option<AnimationDefinition> {
        match kind {
            AnimationType::Walk => self.walk,
            AnimationType::Jump => self.jump,
        }
    }

    /// Look up the definition for an animation kind.
    pub fn get(&self, kind: AnimationType) -> (r: Option<AnimationDefinition>)
        ensures
            r == self.spec_get(kind),
    {
        match kind {
            AnimationType::Walk => self.walk,
            AnimationType::Jump => self.jump,
        }
    }
}

impl CharacterEntry {
    /// Consistency of one definition against this entry's atlas width:
    /// positive per-frame time, and every row the definition can address
    /// stays within the frame-index space of the machine, so that clip
    /// bounds never overflow.  A directional definition can address up to
    /// `start_row + 3`.
    pub open spec fn definition_fits(self, def: AnimationDefinition) -> bool {
        &&& def.frame_time >= 1
        &&& (def.start_row + 3) * self.atlas_columns + def.frame_count <= usize::MAX
    }

    /// Well-formedness of the content entry, a precondition on the
    /// externally authored configuration: a real atlas has at least one
    /// column, and every present definition fits it.
    pub open spec fn wf(self) -> bool {
        &&& self.atlas_columns >= 1
        &&& (self.animations.walk matches Some(def) ==> self.definition_fits(def))
        &&& (self.animations.jump matches Some(def) ==> self.definition_fits(def))
    }

    /// Check well-formedness of a content entry, so that an unverified
    /// caller can reject inconsistent content before running the engine.
    pub fn is_well_formed(&self) -> (r: bool)
        ensures
            r == self.wf(),
    {
        if self.atlas_columns < 1 {
            return false;
        }
        if !self.catalog_entry_fits(self.animations.walk) {
            return false;
        }
        if !self.catalog_entry_fits(self.animations.jump) {
            return false;
        }
        true
    }

    /// Check that one optional definition fits this entry's atlas.
    fn catalog_entry_fits(&self, entry: Option<AnimationDefinition>) -> (r: bool)
        requires
            self.atlas_columns >= 1,
        ensures
            r == (entry matches Some(def) ==> self.definition_fits(def)),
    {
        match entry {
            None => true,
            Some(def) => {
                if def.frame_time < 1 {
                    return false;
                }
                if def.start_row > usize::MAX - 3 {
                    proof {
                        assert((def.start_row + 3) * self.atlas_columns >= (def.start_row + 3) * 1)
                            by (nonlinear_arith)
                            requires
                                self.atlas_columns >= 1,
                                def.start_row >= 0,
                        ;
                    }
                    return false;
                }
                let row_cap = def.start_row + 3;
                match row_cap.checked_mul(self.atlas_columns) {
                    None => false,
                    Some(base) => {
                        if def.frame_count > usize::MAX - base {
                            false
                        } else {
                            true
                        }
                    },
                }
            },
        }
    }
}

} // verus!
