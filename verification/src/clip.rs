//! Clip addressing: contiguous frame-index ranges inside a shared atlas.

use vstd::prelude::*;

verus! {

/// A contiguous, inclusive range `first..=last` of frame indices inside a
/// shared texture atlas, holding one animation for one facing.
///
/// Well-formed clips satisfy `first <= last`; every constructor of this
/// crate establishes that, since frame counts are at least 1.
#[derive(Clone, Copy, Debug, PartialEq, Eq, Structural)]
pub struct AnimationClip {
    pub first: usize,
    pub last: usize,
}

impl AnimationClip {
    /// The clip a definition occupying `row` with `frame_count` frames
    /// addresses in an atlas that is `atlas_columns` frames wide.
    pub open spec fn spec_new(row: int, frame_count: int, atlas_columns: int) -> AnimationClip {
        AnimationClip {
            first: (row * atlas_columns) as usize,
            last: (row * atlas_columns + frame_count - 1) as usize,
        }
    }

    /// Whether `index` lies inside this clip's inclusive range.
    pub open spec fn spec_contains(self, index: int) -> bool {
        self.first <= index <= self.last
    }

    /// The frame after `index`: the next one, or `first` again once the
    /// end of the clip is reached.
    pub open spec fn spec_next(self, index: int) -> int {
        if index >= self.last {
            self.first as int
        } else {
            index + 1
        }
    }

    /// Build the clip for an animation on atlas row `row` with
    /// `frame_count` frames, in an atlas `atlas_columns` frames wide.
    ///
    /// A zero frame count is a content bug and is excluded by the caller's
    /// precondition; the resolver skips such definitions instead of
    /// building a clip from them.
    pub fn new(row: usize, frame_count: usize, atlas_columns: usize) -> (r: AnimationClip)
        requires
            frame_count >= 1,
            row * atlas_columns + frame_count - 1 <= usize::MAX,
        ensures
            r == Self::spec_new(row as int, frame_count as int, atlas_columns as int),
            r.first == row * atlas_columns,
            r.last == r.first + frame_count - 1,
            r.first <= r.last,
    {
        let first = row * atlas_columns;
        AnimationClip { first, last: first + (frame_count - 1) }
    }

    /// The first frame index of the clip.
    pub fn start(self) -> (r: usize)
        ensures
            r == self.first,
    {
        self.first
    }

    /// Check whether a frame index belongs to this clip.
    pub fn contains(self, index: usize) -> (r: bool)
        ensures
            r == self.spec_contains(index as int),
    {
        self.first <= index && index <= self.last
    }

    /// Calculate the next frame, looping back to the start of the clip
    /// once the last frame is reached.
    pub fn next(self, index: usize) -> (r: usize)
        ensures
            r == self.spec_next(index as int),
    {
        if index >= self.last {
            self.first
        } else {
            index + 1
        }
    }

    /// Whether a non-looping playback of this clip has completed: the
    /// last frame has been reached and the frame timer elapsed this tick.
    pub fn is_complete(self, current_index: usize, timer_finished: bool) -> (r: bool)
        ensures
            r == (current_index >= self.last && timer_finished),
    {
        current_index >= self.last && timer_finished
    }
}

/// A clip built from a row, a frame count of at least 1 and a positive
/// atlas width contains exactly `frame_count` consecutive indices,
/// starting at `row * atlas_columns`.
pub proof fn lemma_clip_contains_exact(row: int, frame_count: int, atlas_columns: int)
    requires
        0 <= row,
        1 <= frame_count,
        1 <= atlas_columns,
        row * atlas_columns + frame_count - 1 <= usize::MAX,
    ensures
        forall|index: int|
            AnimationClip::spec_new(row, frame_count, atlas_columns).spec_contains(index)
                <==> row * atlas_columns <= index < row * atlas_columns + frame_count,
{
    assert(row * atlas_columns >= 0) by (nonlinear_arith)
        requires
            0 <= row,
            0 <= atlas_columns,
    ;
}

/// Advancing loops without skips or overshoot: from the last frame the
/// clip wraps to `first`, and from any earlier in-range frame it moves to
/// the immediate successor.
pub proof fn lemma_clip_advance(clip: AnimationClip)
    requires
        clip.first <= clip.last,
    ensures
        clip.spec_next(clip.last as int) == clip.first,
        forall|index: int|
            clip.first <= index < clip.last ==> #[trigger] clip.spec_next(index) == index + 1,
{
}

} // verus!
