use hinjaku::animation::{frame_at, frame_delay_ms, keeps_all_frames, DEFAULT_FRAME_DELAY_MS};

#[test]
fn delay_from_fraction() {
    assert_eq!(frame_delay_ms(80, 1), 80);
    assert_eq!(frame_delay_ms(100, 3), 33);
}

#[test]
fn missing_or_short_delay_becomes_default() {
    assert_eq!(frame_delay_ms(80, 0), DEFAULT_FRAME_DELAY_MS);
    assert_eq!(frame_delay_ms(10, 1), 100);
    assert_eq!(frame_delay_ms(20, 1), 20);
}

#[test]
fn frame_limit() {
    assert!(keeps_all_frames(200));
    assert!(!keeps_all_frames(201));
}

#[test]
fn frame_chosen_by_elapsed_time() {
    let delays = vec![100, 50, 200];
    assert_eq!(frame_at(&delays, 0), (0, Some(100)));
    assert_eq!(frame_at(&delays, 99), (0, Some(1)));
    assert_eq!(frame_at(&delays, 100), (1, Some(50)));
    assert_eq!(frame_at(&delays, 149), (1, Some(1)));
    assert_eq!(frame_at(&delays, 150), (2, Some(200)));
    assert_eq!(frame_at(&delays, 349), (2, Some(1)));
}

#[test]
fn animation_loops() {
    let delays = vec![100, 50, 200];
    assert_eq!(frame_at(&delays, 350), (0, Some(100)));
    assert_eq!(frame_at(&delays, 350 * 7 + 120), (1, Some(30)));
}

#[test]
fn zero_delay_frames_are_skipped() {
    let delays = vec![0, 40, 0, 60];
    assert_eq!(frame_at(&delays, 0), (1, Some(40)));
    assert_eq!(frame_at(&delays, 40), (3, Some(60)));
}

#[test]
fn no_time_no_change() {
    assert_eq!(frame_at(&vec![], 500), (0, None));
    assert_eq!(frame_at(&vec![0, 0], 500), (0, None));
}
