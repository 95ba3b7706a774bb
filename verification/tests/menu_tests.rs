use retro_boot::menu::{CommitResult, MenuInput, MenuState, TickSignal};

fn idle() -> MenuInput {
    MenuInput { previous: false, next: false, confirm: false }
}

fn press_next() -> MenuInput {
    MenuInput { previous: false, next: true, confirm: false }
}

fn press_previous() -> MenuInput {
    MenuInput { previous: true, next: false, confirm: false }
}

fn press_confirm() -> MenuInput {
    MenuInput { previous: false, next: false, confirm: true }
}

#[test]
fn next_four_times_returns_to_start() {
    let mut m = MenuState::new();
    assert_eq!(m.selected_index, 0);
    for _ in 0..4 {
        let sig = m.update(16, press_next());
        assert_eq!(sig, TickSignal::Running);
    }
    assert_eq!(m.selected_index, 0);
}

#[test]
fn previous_four_times_returns_to_start() {
    let mut m = MenuState::new();
    let mut seen = Vec::new();
    for _ in 0..4 {
        m.update(16, press_previous());
        seen.push(m.selected_index);
    }
    assert_eq!(seen, vec![3, 2, 1, 0]);
}

#[test]
fn confirm_on_start_begins_transition_and_reports_ready_once() {
    let mut m = MenuState::new();
    for _ in 0..4 {
        m.update(16, press_next());
    }
    assert_eq!(m.selected_index, 0);
    let sig = m.update(16, press_confirm());
    assert_eq!(sig, TickSignal::Running);
    assert!(m.transition.is_some());
    assert!(!m.should_start_game);
    // 2500 ms of subsequent ticks make the phase ready.
    for _ in 0..24 {
        m.update(100, idle());
        assert!(!m.should_start_game);
    }
    m.update(100, idle());
    assert!(m.should_start_game);
    // Further ticks change nothing about readiness.
    for _ in 0..10 {
        m.update(100, idle());
        assert!(m.should_start_game);
    }
}

#[test]
fn input_is_suppressed_during_transition() {
    let mut m = MenuState::new();
    m.update(16, press_confirm());
    assert!(m.transition.is_some());
    let sig = m.update(100, press_next());
    assert_eq!(sig, TickSignal::Running);
    assert_eq!(m.selected_index, 0);
    let sig = m.update(100, press_confirm());
    assert_eq!(sig, TickSignal::Running);
    assert_eq!(m.selected_index, 0);
}

#[test]
fn confirm_on_exit_signals_termination_without_mutation() {
    let mut m = MenuState::new();
    m.update(16, press_previous());
    assert_eq!(m.selected_index, 3);
    let sig = m.update(16, press_confirm());
    assert_eq!(sig, TickSignal::Terminate);
    assert_eq!(m.selected_index, 3);
    assert!(m.transition.is_none());
    assert!(!m.should_start_game);
}

#[test]
fn commit_results_per_option() {
    let mut m = MenuState::new();
    assert_eq!(m.commit(), CommitResult::BeginTransition);

    let mut m = MenuState::new();
    m.select_next();
    assert_eq!(m.commit(), CommitResult::Ignored);

    let mut m = MenuState::new();
    m.select_next();
    m.select_next();
    assert_eq!(m.commit(), CommitResult::Ignored);

    let mut m = MenuState::new();
    m.select_previous();
    assert_eq!(m.commit(), CommitResult::TerminateProcess);
}

#[test]
fn menu_frame_marks_the_selection() {
    let mut m = MenuState::new();
    m.update(16, press_next());
    let f = m.draw();
    assert_eq!(f.title, "VIBECODED GAME MENU");
    assert_eq!(f.footer, "Use ARROW KEYS to select, ENTER to confirm");
    assert_eq!(
        f.entries,
        vec!["  Start Game", "> Options", "  Credits", "  Exit to DOS"]
    );
    assert_eq!(f.selected_index, 1);
    assert!(!f.transitioning);
    assert_eq!(f.scale_num, 1_000_000_000);
    assert_eq!(f.alpha_milli, 0);
}

#[test]
fn menu_frame_during_transition_carries_animation_values() {
    let mut m = MenuState::new();
    m.update(16, press_confirm());
    m.update(1000, idle());
    let f = m.draw();
    assert!(f.transitioning);
    // 1 + 2 * 1.0^3 as a numerator over 10^9.
    assert_eq!(f.scale_num, 3_000_000_000);
    // 1000 / 2500 in thousandths.
    assert_eq!(f.alpha_milli, 400);
}
