use wirecube::session::{FrameSettings, Session, FRAME_LIMIT};

#[test]
fn session_starts_at_frame_thirty() {
    let mut s = Session::new();
    assert_eq!(s.frame, 30);
    assert_eq!(s.next_frame(), Some(FrameSettings { degrees: 30, feature: 0 }));
    assert_eq!(s.frame, 31);
}

#[test]
fn feature_moves_on_after_frame_ending_in_99() {
    let mut s = Session::new();
    let mut last = None;
    while s.frame < 100 {
        last = s.next_frame();
    }
    assert_eq!(last, Some(FrameSettings { degrees: 99, feature: 0 }));
    assert_eq!(s.feature_index, 1);
    assert_eq!(s.next_frame(), Some(FrameSettings { degrees: 100, feature: 1 }));
}

#[test]
fn rotation_wraps_at_360_and_feature_cycles_through_three() {
    let mut s = Session { frame: 360, feature_index: 3 };
    assert_eq!(s.next_frame(), Some(FrameSettings { degrees: 0, feature: 0 }));
    let mut s = Session { frame: 545, feature_index: 5 };
    assert_eq!(s.next_frame(), Some(FrameSettings { degrees: 185, feature: 2 }));
}

#[test]
fn session_ends_at_the_frame_limit() {
    let mut s = Session { frame: FRAME_LIMIT - 1, feature_index: (FRAME_LIMIT - 1) / 100 };
    assert!(!s.finished());
    assert_eq!(s.next_frame(), Some(FrameSettings { degrees: 999999 % 360, feature: (9999 % 3) }));
    assert!(s.finished());
    assert_eq!(s.next_frame(), None);
    assert_eq!(s.frame, FRAME_LIMIT);
}
