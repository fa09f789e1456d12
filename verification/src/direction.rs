//! Discrete facing directions and their derivation from motion vectors.

use vstd::prelude::*;
use vstd::math::abs;

verus! {

/// A 2D motion vector in fixed-point units, as produced by the movement
/// collaborator from the character's velocity.
#[derive(Clone, Copy, Debug, PartialEq, Eq, Structural)]
pub struct MotionVector {
    pub x: i32,
    pub y: i32,
}

/// One of the four discrete directions a character can face.
///
/// The default facing is `Down`, matching the tie-break of
/// [`Facing::from_direction`] on the zero vector.
#[derive(Clone, Copy, Debug, PartialEq, Eq, Hash, Structural)]
pub enum Facing {
    Up,
    Left,
    Down,
    Right,
}

impl Facing {
    /// The atlas row offset this facing selects inside a directional
    /// animation's block of four consecutive rows, in the fixed
    /// Up, Left, Down, Right order.
    pub open spec fn spec_direction_index(self) -> int {
        match self {
            Facing::Up => 0,
            Facing::Left => 1,
            Facing::Down => 2,
            Facing::Right => 3,
        }
    }

    /// Convert a motion vector into a discrete facing direction.
    ///
    /// The horizontal branch is taken only on strict dominance of `|x|`
    /// over `|y|`; ties and the zero vector fall to the vertical branch,
    /// so the zero vector yields `Down`.
    pub fn from_direction(direction: MotionVector) -> (r: Facing)
        ensures
            abs(direction.x as int) > abs(direction.y as int) ==> (r == if direction.x > 0 {
                Facing::Right
            } else {
                Facing::Left
            }),
            abs(direction.x as int) <= abs(direction.y as int) ==> (r == if direction.y > 0 {
                Facing::Up
            } else {
                Facing::Down
            }),
    {
        let ax: i64 = if direction.x >= 0 {
            direction.x as i64
        } else {
            -(direction.x as i64)
        };
        let ay: i64 = if direction.y >= 0 {
            direction.y as i64
        } else {
            -(direction.y as i64)
        };
        if ax > ay {
            if direction.x > 0 {
                Facing::Right
            } else {
                Facing::Left
            }
        } else {
            if direction.y > 0 {
                Facing::Up
            } else {
                Facing::Down
            }
        }
    }

    /// Map this facing to its row offset (0, 1, 2 or 3).
    pub fn direction_index(self) -> (r: usize)
        ensures
            r == self.spec_direction_index(),
    {
        match self {
            Facing::Up => 0,
            Facing::Left => 1,
            Facing::Down => 2,
            Facing::Right => 3,
        }
    }
}

/// The map from facings to row offsets is a bijection onto {0, 1, 2, 3}:
/// distinct facings select distinct rows, every offset stays below 4, and
/// every offset below 4 is selected by some facing.
pub proof fn lemma_direction_index_bijection()
    ensures
        forall|a: Facing, b: Facing|
            #[trigger] a.spec_direction_index() == #[trigger] b.spec_direction_index() ==> a == b,
        forall|a: Facing| 0 <= #[trigger] a.spec_direction_index() < 4,
        exists|a: Facing| (#[trigger] a.spec_direction_index()) == 0,
        exists|a: Facing| (#[trigger] a.spec_direction_index()) == 1,
        exists|a: Facing| (#[trigger] a.spec_direction_index()) == 2,
        exists|a: Facing| (#[trigger] a.spec_direction_index()) == 3,
{
    assert(Facing::Up.spec_direction_index() == 0);
    assert(Facing::Left.spec_direction_index() == 1);
    assert(Facing::Down.spec_direction_index() == 2);
    assert(Facing::Right.spec_direction_index() == 3);
}

} // verus!
