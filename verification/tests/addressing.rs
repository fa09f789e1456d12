//! Tests for direction resolution, clip addressing and clip resolution.

use sprite_anim::clip::AnimationClip;
use sprite_anim::config::AnimationCatalog;
use sprite_anim::config::AnimationDefinition;
use sprite_anim::config::AnimationType;
use sprite_anim::config::CharacterEntry;
use sprite_anim::direction::Facing;
use sprite_anim::direction::MotionVector;
use sprite_anim::state::AnimationController;

fn vector(x: i32, y: i32) -> MotionVector {
    MotionVector { x, y }
}

fn walk_definition() -> AnimationDefinition {
    AnimationDefinition { start_row: 0, frame_count: 4, frame_time: 100_000, directional: true }
}

fn walk_only_entry() -> CharacterEntry {
    CharacterEntry {
        atlas_columns: 6,
        animations: AnimationCatalog { walk: Some(walk_definition()), jump: None },
    }
}

#[test]
fn facing_horizontal_dominance() {
    assert_eq!(Facing::from_direction(vector(5, 3)), Facing::Right);
    assert_eq!(Facing::from_direction(vector(5, -3)), Facing::Right);
    assert_eq!(Facing::from_direction(vector(-5, 3)), Facing::Left);
    assert_eq!(Facing::from_direction(vector(-5, -3)), Facing::Left);
    assert_eq!(Facing::from_direction(vector(1, 0)), Facing::Right);
    assert_eq!(Facing::from_direction(vector(-1, 0)), Facing::Left);
    assert_eq!(Facing::from_direction(vector(i32::MIN, 7)), Facing::Left);
}

#[test]
fn facing_vertical_branch() {
    assert_eq!(Facing::from_direction(vector(3, 5)), Facing::Up);
    assert_eq!(Facing::from_direction(vector(-3, 5)), Facing::Up);
    assert_eq!(Facing::from_direction(vector(3, -5)), Facing::Down);
    assert_eq!(Facing::from_direction(vector(-3, -5)), Facing::Down);
    assert_eq!(Facing::from_direction(vector(0, 1)), Facing::Up);
    assert_eq!(Facing::from_direction(vector(0, -1)), Facing::Down);
}

#[test]
fn facing_ties_fall_to_vertical_branch() {
    assert_eq!(Facing::from_direction(vector(2, 2)), Facing::Up);
    assert_eq!(Facing::from_direction(vector(-2, 2)), Facing::Up);
    assert_eq!(Facing::from_direction(vector(2, -2)), Facing::Down);
    assert_eq!(Facing::from_direction(vector(-2, -2)), Facing::Down);
}

#[test]
fn facing_zero_vector_yields_down() {
    assert_eq!(Facing::from_direction(vector(0, 0)), Facing::Down);
}

#[test]
fn direction_index_is_the_fixed_row_order() {
    assert_eq!(Facing::Up.direction_index(), 0);
    assert_eq!(Facing::Left.direction_index(), 1);
    assert_eq!(Facing::Down.direction_index(), 2);
    assert_eq!(Facing::Right.direction_index(), 3);
}

#[test]
fn clip_new_computes_row_block() {
    let clip = AnimationClip::new(2, 4, 6);
    assert_eq!(clip.start(), 12);
    assert_eq!(clip, AnimationClip { first: 12, last: 15 });
}

#[test]
fn clip_contains_exactly_the_frame_count_indices() {
    let clip = AnimationClip::new(2, 4, 6);
    assert!(!clip.contains(11));
    assert!(clip.contains(12));
    assert!(clip.contains(13));
    assert!(clip.contains(14));
    assert!(clip.contains(15));
    assert!(!clip.contains(16));
    assert!(!clip.contains(0));
}

#[test]
fn clip_next_steps_and_loops() {
    let clip = AnimationClip::new(2, 4, 6);
    assert_eq!(clip.next(12), 13);
    assert_eq!(clip.next(13), 14);
    assert_eq!(clip.next(14), 15);
    assert_eq!(clip.next(15), 12);
    assert_eq!(clip.next(99), 12);
}

#[test]
fn clip_with_one_frame_loops_on_itself() {
    let clip = AnimationClip::new(3, 1, 8);
    assert_eq!(clip.start(), 24);
    assert!(clip.contains(24));
    assert!(!clip.contains(25));
    assert_eq!(clip.next(24), 24);
}

#[test]
fn clip_is_complete_needs_last_frame_and_elapse() {
    let clip = AnimationClip::new(2, 4, 6);
    assert!(clip.is_complete(15, true));
    assert!(!clip.is_complete(15, false));
    assert!(!clip.is_complete(14, true));
    assert!(clip.is_complete(16, true));
}

#[test]
fn catalog_lookup_by_kind() {
    let entry = walk_only_entry();
    assert_eq!(entry.animations.get(AnimationType::Walk), Some(walk_definition()));
    assert_eq!(entry.animations.get(AnimationType::Jump), None);
}

#[test]
fn get_clip_uses_facing_row_for_directional() {
    let entry = walk_only_entry();
    let down = AnimationController { current_animation: AnimationType::Walk, facing: Facing::Down };
    assert_eq!(down.get_clip(&entry), Some(AnimationClip { first: 12, last: 15 }));
    let right =
        AnimationController { current_animation: AnimationType::Walk, facing: Facing::Right };
    assert_eq!(right.get_clip(&entry), Some(AnimationClip { first: 18, last: 21 }));
    let up = AnimationController { current_animation: AnimationType::Walk, facing: Facing::Up };
    assert_eq!(up.get_clip(&entry), Some(AnimationClip { first: 0, last: 3 }));
}

#[test]
fn get_clip_ignores_facing_for_non_directional() {
    let entry = CharacterEntry {
        atlas_columns: 6,
        animations: AnimationCatalog {
            walk: Some(AnimationDefinition {
                start_row: 5,
                frame_count: 3,
                frame_time: 100_000,
                directional: false,
            }),
            jump: None,
        },
    };
    let left = AnimationController { current_animation: AnimationType::Walk, facing: Facing::Left };
    assert_eq!(left.get_clip(&entry), Some(AnimationClip { first: 30, last: 32 }));
}

#[test]
fn get_clip_missing_kind_is_none() {
    let entry = walk_only_entry();
    let jumper =
        AnimationController { current_animation: AnimationType::Jump, facing: Facing::Down };
    assert_eq!(jumper.get_clip(&entry), None);
}

#[test]
fn get_clip_zero_frame_count_is_none() {
    let entry = CharacterEntry {
        atlas_columns: 6,
        animations: AnimationCatalog {
            walk: Some(AnimationDefinition {
                start_row: 0,
                frame_count: 0,
                frame_time: 100_000,
                directional: true,
            }),
            jump: None,
        },
    };
    let walker =
        AnimationController { current_animation: AnimationType::Walk, facing: Facing::Down };
    assert_eq!(walker.get_clip(&entry), None);
}

#[test]
fn well_formedness_check_accepts_consistent_content() {
    assert!(walk_only_entry().is_well_formed());
    let empty = CharacterEntry {
        atlas_columns: 1,
        animations: AnimationCatalog { walk: None, jump: None },
    };
    assert!(empty.is_well_formed());
}

#[test]
fn well_formedness_check_rejects_inconsistent_content() {
    let mut zero_columns = walk_only_entry();
    zero_columns.atlas_columns = 0;
    assert!(!zero_columns.is_well_formed());

    let zero_frame_time = CharacterEntry {
        atlas_columns: 6,
        animations: AnimationCatalog {
            walk: Some(AnimationDefinition {
                start_row: 0,
                frame_count: 4,
                frame_time: 0,
                directional: true,
            }),
            jump: None,
        },
    };
    assert!(!zero_frame_time.is_well_formed());

    let overflowing = CharacterEntry {
        atlas_columns: 6,
        animations: AnimationCatalog {
            walk: Some(AnimationDefinition {
                start_row: usize::MAX / 2,
                frame_count: 4,
                frame_time: 100_000,
                directional: true,
            }),
            jump: None,
        },
    };
    assert!(!overflowing.is_well_formed());
}
