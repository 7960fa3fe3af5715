use alternating_tiler::policy::{decide, Direction};

#[test]
fn tall_window_asks_for_vertical() {
    assert_eq!(decide(400, 800), Some(Direction::Vertical));
    assert_eq!(decide(0, 1), Some(Direction::Vertical));
    assert_eq!(decide(0, u64::MAX), Some(Direction::Vertical));
}

#[test]
fn wide_window_asks_for_horizontal() {
    assert_eq!(decide(800, 400), Some(Direction::Horizontal));
    assert_eq!(decide(1, 0), Some(Direction::Horizontal));
    assert_eq!(decide(u64::MAX, u64::MAX - 1), Some(Direction::Horizontal));
}

#[test]
fn square_window_asks_for_nothing() {
    assert_eq!(decide(500, 500), None);
    assert_eq!(decide(0, 0), None);
    assert_eq!(decide(u64::MAX, u64::MAX), None);
}

#[test]
fn decide_is_idempotent() {
    for &(w, h) in &[(400u64, 800u64), (800, 400), (500, 500), (0, 0), (u64::MAX, 1)] {
        let first = decide(w, h);
        let second = decide(w, h);
        assert_eq!(first, second);
    }
}

#[test]
fn decide_is_antisymmetric() {
    for &(w, h) in &[(400u64, 800u64), (800, 400), (1, 0), (u64::MAX, 0), (7, 7)] {
        let ab = decide(w, h);
        let ba = decide(h, w);
        if w == h {
            assert_eq!(ab, None);
            assert_eq!(ba, None);
        } else {
            assert_ne!(ab, ba);
        }
    }
}
