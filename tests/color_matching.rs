use colorbot::color::{color_matches, ColorSignature, DEFAULT_TOLERANCE};

#[test]
fn distant_channel_never_matches() {
    assert!(!color_matches((10, 20, 30, 0), (10, 20, 34, 0), 3));
    assert!(!color_matches((10, 20, 30, 0), (14, 20, 30, 0), 3));
    assert!(!color_matches((10, 20, 30, 0), (10, 16, 30, 0), 3));
    assert!(!color_matches((0, 0, 0, 0), (255, 255, 255, 0), 254));
}

#[test]
fn identical_colors_match_for_any_tolerance() {
    for t in [0u8, 1, 3, 255] {
        assert!(color_matches((7, 200, 33, 1), (7, 200, 33, 1), t));
    }
}

#[test]
fn difference_equal_to_tolerance_matches() {
    assert!(color_matches((10, 20, 30, 0), (13, 17, 33, 0), 3));
    assert!(color_matches((0, 0, 0, 0), (255, 255, 255, 0), 255));
}

#[test]
fn alpha_is_not_compared() {
    assert!(color_matches((10, 20, 30, 0), (10, 20, 30, 255), 0));
}

#[test]
fn signature_uses_default_tolerance() {
    let s = ColorSignature::new([1, 2, 3]);
    assert_eq!(s.tolerance, DEFAULT_TOLERANCE);
    assert_eq!(DEFAULT_TOLERANCE, 3);
    assert!(s.matches_rgba(4, 5, 6, 99));
    assert!(!s.matches_rgba(5, 2, 3, 0));
}
