use hinjaku::config::{BackgroundMode, DisplayMode, FilterMode};
use hinjaku::cycles::{next_background_mode, next_display_mode, next_filter_mode};
use hinjaku::rotation::Rotation;

#[test]
fn rotation_turns() {
    assert_eq!(Rotation::R0.cw(), Rotation::R90);
    assert_eq!(Rotation::R270.cw(), Rotation::R0);
    assert_eq!(Rotation::R0.ccw(), Rotation::R270);
    assert_eq!(Rotation::R180.ccw(), Rotation::R90);
}

#[test]
fn rotation_turns_undo_and_full_turn() {
    for r in [Rotation::R0, Rotation::R90, Rotation::R180, Rotation::R270] {
        assert_eq!(r.cw().ccw(), r);
        assert_eq!(r.ccw().cw(), r);
        assert_eq!(r.cw().cw().cw().cw(), r);
    }
}

#[test]
fn mode_toggles_cycle() {
    assert_eq!(next_filter_mode(FilterMode::Lanczos), FilterMode::Nearest);
    assert_eq!(next_display_mode(DisplayMode::Fit), DisplayMode::WindowFit);
    assert_eq!(next_background_mode(BackgroundMode::Theme), BackgroundMode::Checkerboard);
    let mut b = BackgroundMode::Gray;
    for _ in 0..6 {
        b = next_background_mode(b);
    }
    assert_eq!(b, BackgroundMode::Gray);
}
