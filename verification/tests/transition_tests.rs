use retro_boot::transition::TransitionState;

#[test]
fn scale_starts_at_one_and_grows() {
    let t = TransitionState::new();
    let f = t.frame();
    assert_eq!(f.scale_num, 1_000_000_000);
    assert_eq!(f.alpha_milli, 0);

    let mut t = TransitionState::new();
    let mut last_scale = t.frame().scale_num;
    for _ in 0..50 {
        t.advance(100);
        let f = t.frame();
        assert!(f.scale_num > last_scale);
        last_scale = f.scale_num;
    }
}

#[test]
fn alpha_reaches_one_exactly_at_the_end_and_is_clamped() {
    let mut t = TransitionState::new();
    t.advance(2499);
    assert!(!t.is_complete());
    assert_eq!(t.frame().alpha_milli, 999);
    t.advance(1);
    assert!(t.is_complete());
    assert_eq!(t.frame().alpha_milli, 1000);
    t.advance(10_000);
    assert!(t.is_complete());
    assert_eq!(t.frame().alpha_milli, 1000);
}

#[test]
fn frame_values_at_one_second() {
    let mut t = TransitionState::new();
    t.advance(1000);
    let f = t.frame();
    // 1 + 2 * 1^3 = 3.
    assert_eq!(f.scale_num, 3_000_000_000);
    assert_eq!(f.alpha_milli, 400);
}

#[test]
fn deterministic_replay() {
    let mut a = TransitionState::new();
    let mut b = TransitionState::new();
    for dt in [16u64, 17, 16, 500, 1, 950, 1000].iter() {
        a.advance(*dt);
    }
    for dt in [16u64, 17, 16, 500, 1, 950, 1000].iter() {
        b.advance(*dt);
    }
    assert_eq!(a.frame().scale_num, b.frame().scale_num);
    assert_eq!(a.frame().alpha_milli, b.frame().alpha_milli);
    assert_eq!(a.timer.elapsed_ms, b.timer.elapsed_ms);
}
