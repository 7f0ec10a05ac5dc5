use gbp_stack::sframe::replay::ReplayWindow;
use gbp_stack::vocab::bounded::BoundedSeen;
use gbp_stack::vocab::conformance::ConformanceClass;

#[test]
fn fresh_window_accepts_first() {
    let mut w = ReplayWindow::new();
    assert!(w.check_and_mark(0).is_ok());
}

#[test]
fn replay_is_rejected() {
    let mut w = ReplayWindow::new();
    w.check_and_mark(10).unwrap();
    assert!(w.check_and_mark(10).is_err());
}

#[test]
fn in_order_sequence() {
    let mut w = ReplayWindow::new();
    for i in 0..100u64 {
        assert!(w.check_and_mark(i).is_ok(), "ctr={i} should be accepted");
    }
}

#[test]
fn out_of_order_within_window() {
    let mut w = ReplayWindow::new();
    w.check_and_mark(0).unwrap();
    w.check_and_mark(1023).unwrap();
    assert!(w.check_and_mark(0).is_err(), "0 should be detected as replay");
    assert!(w.check_and_mark(500).is_ok());
}

#[test]
fn too_old_is_rejected() {
    let mut w = ReplayWindow::new();
    w.check_and_mark(2000).unwrap();
    assert!(w.check_and_mark(0).is_err(), "0 is 2000 behind and too old");
}

#[test]
fn window_advance_across_word_boundary() {
    let mut w = ReplayWindow::new();
    w.check_and_mark(63).unwrap();
    w.check_and_mark(127).unwrap();
    assert!(w.check_and_mark(63).is_err());
    assert!(w.check_and_mark(127).is_err());
    assert!(w.check_and_mark(100).is_ok());
}

#[test]
fn replay_reset_forgets_counters() {
    let mut w = ReplayWindow::new();
    w.check_and_mark(7).unwrap();
    w.reset();
    assert!(w.check_and_mark(7).is_ok());
}

#[test]
fn replay_window_edge_is_exactly_1023_behind() {
    let mut w = ReplayWindow::new();
    w.check_and_mark(1024).unwrap();
    assert!(w.check_and_mark(1).is_ok(), "1023 behind is still inside");
    assert!(w.check_and_mark(0).is_err(), "1024 behind is too old");
}

#[test]
fn insert_new_returns_true() {
    let mut s = BoundedSeen::new(10);
    assert!(s.insert(1u32));
}

#[test]
fn insert_duplicate_returns_false() {
    let mut s = BoundedSeen::new(10);
    s.insert(1u32);
    assert!(!s.insert(1u32));
}

#[test]
fn evicts_oldest_on_overflow() {
    let mut s = BoundedSeen::new(3);
    s.insert(1u32);
    s.insert(2);
    s.insert(3);
    s.insert(4);
    assert!(s.insert(1));
    assert!(!s.insert(4));
    assert_eq!(s.len(), 3);
}

#[test]
fn clear_resets() {
    let mut s = BoundedSeen::new(100);
    s.insert("a");
    s.clear();
    assert!(s.is_empty());
    assert!(s.insert("a"));
}

#[test]
fn bounded_zero_capacity_keeps_nothing() {
    let mut s = BoundedSeen::new(0);
    assert!(s.insert(5u64));
    assert_eq!(s.len(), 0);
    assert!(s.insert(5u64));
}

#[test]
fn tokens_are_cumulative() {
    assert_eq!(ConformanceClass::A.tokens(), &["gbp/class-a"]);
    assert_eq!(ConformanceClass::B.tokens(), &["gbp/class-a", "gbp/class-b"]);
    assert_eq!(
        ConformanceClass::C.tokens(),
        &["gbp/class-a", "gbp/class-b", "gbp/class-c"]
    );
}

#[test]
fn from_tokens_detects_class() {
    assert_eq!(ConformanceClass::from_tokens(&["gbp/class-a"]), Some(ConformanceClass::A));
    assert_eq!(
        ConformanceClass::from_tokens(&["gbp/class-a", "gbp/class-b"]),
        Some(ConformanceClass::B)
    );
    assert_eq!(
        ConformanceClass::from_tokens(&["gbp/class-a", "gbp/class-b", "gbp/class-c"]),
        Some(ConformanceClass::C)
    );
    assert_eq!(ConformanceClass::from_tokens(&["something-else"]), None);
}

#[test]
fn class_ordering() {
    assert!(ConformanceClass::A < ConformanceClass::B);
    assert!(ConformanceClass::B < ConformanceClass::C);
}

#[test]
fn from_tokens_needs_lower_classes() {
    assert_eq!(ConformanceClass::from_tokens(&["gbp/class-c"]), None);
    assert_eq!(
        ConformanceClass::from_tokens(&["gbp/class-c", "gbp/class-a"]),
        Some(ConformanceClass::A)
    );
}

#[test]
fn class_names() {
    assert_eq!(ConformanceClass::A.name(), "Class A (GBP+GSP)");
    assert_eq!(ConformanceClass::C.name(), "Class C (GBP+GSP+GTP+GAP)");
}

#[test]
fn accepted_counters_stay_rejected_until_reset() {
    let mut w = ReplayWindow::new();
    for c in [5u64, 9, 3, 7, 2000] {
        assert_eq!(w.check_and_mark(c), Ok(()));
    }
    for c in [5u64, 9, 3, 7, 2000] {
        assert_eq!(w.check_and_mark(c), Err(()));
    }
    w.reset();
    for c in [5u64, 3] {
        assert_eq!(w.check_and_mark(c), Ok(()));
    }
}

#[test]
fn bounded_seen_holds_owned_strings() {
    let mut s: BoundedSeen<String> = BoundedSeen::new(2);
    assert!(s.insert("a".to_string()));
    assert!(!s.insert("a".to_string()));
    assert!(s.insert("b".to_string()));
    assert!(s.insert("c".to_string()));
    assert!(!s.contains(&"a".to_string()));
    assert!(s.contains(&"c".to_string()));
}
