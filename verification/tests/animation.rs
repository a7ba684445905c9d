use crop_time::animation::{frame_step, next_frame, FrameStep};

#[test]
fn frame_holds_until_timer_fires() {
    assert_eq!(frame_step(false, true), FrameStep::Hold);
    assert_eq!(frame_step(false, false), FrameStep::Hold);
}

#[test]
fn animated_sprite_advances_on_timer() {
    assert_eq!(frame_step(true, true), FrameStep::Advance);
}

#[test]
fn resting_sprite_rewinds_on_timer() {
    assert_eq!(frame_step(true, false), FrameStep::Rewind);
}

#[test]
fn next_frame_steps_and_wraps() {
    assert_eq!(next_frame(0, 4), 1);
    assert_eq!(next_frame(1, 4), 2);
    assert_eq!(next_frame(2, 4), 3);
    assert_eq!(next_frame(3, 4), 0);
}

#[test]
fn next_frame_on_single_frame_sheet_is_zero() {
    assert_eq!(next_frame(0, 1), 0);
    assert_eq!(next_frame(7, 1), 0);
}

#[test]
fn next_frame_from_beyond_the_sheet_wraps_by_remainder() {
    assert_eq!(next_frame(9, 4), 2);
    assert_eq!(next_frame(usize::MAX - 1, 4), 3);
}

#[test]
fn apply_hold_keeps_the_frame() {
    assert_eq!(FrameStep::Hold.apply(3, 4), 3);
    assert_eq!(FrameStep::Hold.apply(3, 0), 3);
    assert_eq!(FrameStep::Hold.apply(usize::MAX, 0), usize::MAX);
}

#[test]
fn apply_rewind_goes_to_first_frame() {
    assert_eq!(FrameStep::Rewind.apply(3, 4), 0);
    assert_eq!(FrameStep::Rewind.apply(3, 0), 0);
}

#[test]
fn apply_advance_moves_on() {
    assert_eq!(FrameStep::Advance.apply(2, 4), 3);
    assert_eq!(FrameStep::Advance.apply(3, 4), 0);
}

#[test]
fn advancing_through_a_sheet_comes_back_to_the_start() {
    for start in 0..4usize {
        let mut index = start;
        for _ in 0..4 {
            index = next_frame(index, 4);
            assert!(index < 4);
        }
        assert_eq!(index, start);
    }
}
