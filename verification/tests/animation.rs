use beehive::animation::{AnimationIndices, FrameStep};

fn frames(mut a: AnimationIndices, mut index: usize, ticks: usize) -> Vec<usize> {
    let mut out = Vec::new();
    for _ in 0..ticks {
        index = match a.advance_frame(index) {
            FrameStep::Advance(i) => i,
            FrameStep::Restart(i) => i,
        };
        out.push(index);
    }
    out
}

#[test]
fn from_ping_pong_starts_on_the_way_up() {
    let a = AnimationIndices::from_ping_pong(6, 8);
    assert_eq!((a.first, a.last, a.ping_pong, a.is_back), (6, 8, true, false));
}

#[test]
fn from_normal_loops() {
    let a = AnimationIndices::from_normal(0, 2);
    assert_eq!((a.first, a.last, a.ping_pong, a.is_back), (0, 2, false, false));
}

#[test]
fn looping_animation_restarts_after_last_frame() {
    let mut a = AnimationIndices::from_normal(0, 2);
    assert_eq!(a.advance_frame(0), FrameStep::Advance(1));
    assert_eq!(a.advance_frame(1), FrameStep::Advance(2));
    assert_eq!(a.advance_frame(2), FrameStep::Restart(0));
    assert!(!a.is_back);
}

#[test]
fn looping_animation_has_period_of_its_run() {
    let a = AnimationIndices::from_normal(12, 14);
    assert_eq!(frames(a, 13, 6), vec![14, 12, 13, 14, 12, 13]);
}

#[test]
fn ping_pong_turns_at_both_ends() {
    let a = AnimationIndices::from_ping_pong(6, 8);
    assert_eq!(frames(a, 6, 8), vec![7, 8, 7, 6, 7, 8, 7, 6]);
}

#[test]
fn ping_pong_flags_the_way_back() {
    let mut a = AnimationIndices::from_ping_pong(6, 8);
    assert_eq!(a.advance_frame(8), FrameStep::Advance(7));
    assert!(a.is_back);
    assert_eq!(a.advance_frame(7), FrameStep::Advance(6));
    assert!(!a.is_back);
}

#[test]
fn ping_pong_of_two_frames_alternates() {
    let a = AnimationIndices::from_ping_pong(0, 1);
    assert_eq!(frames(a, 0, 4), vec![1, 0, 1, 0]);
}

#[test]
fn sprite_below_its_run_climbs_into_it() {
    // a queen's sprite starts on frame 0, below its run 6..=8
    let a = AnimationIndices::from_ping_pong(6, 8);
    assert_eq!(frames(a, 0, 10), vec![1, 2, 3, 4, 5, 6, 7, 8, 7, 6]);
}

#[test]
fn try_advance_refuses_frames_out_of_range() {
    let mut a = AnimationIndices { first: 0, last: 2, ping_pong: true, is_back: true };
    assert_eq!(a.try_advance_frame(0), None);
    assert!(a.is_back);
    let mut n = AnimationIndices::from_normal(0, 2);
    assert_eq!(n.try_advance_frame(usize::MAX), None);
    let mut wide = AnimationIndices::from_normal(0, usize::MAX);
    assert_eq!(wide.try_advance_frame(usize::MAX), Some(FrameStep::Restart(0)));
    let mut p = AnimationIndices::from_ping_pong(6, 8);
    assert_eq!(p.try_advance_frame(8), Some(FrameStep::Advance(7)));
    assert!(p.is_back);
}

#[test]
fn ping_pong_position_follows_the_bounce() {
    let (f, l) = (3usize, 7usize);
    let run = l - f;
    let mut a = AnimationIndices::from_ping_pong(f, l);
    let mut index = f;
    for k in 1..40usize {
        index = match a.advance_frame(index) {
            FrameStep::Advance(i) => i,
            FrameStep::Restart(i) => i,
        };
        let m = k % (2 * run);
        let offset = if m <= run { m } else { 2 * run - m };
        assert_eq!(index, f + offset);
        assert_eq!(a.is_back, m > run);
    }
}
