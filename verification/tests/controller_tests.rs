use retro_boot::controller::{GamePhase, MainState, PhaseFrame};
use retro_boot::menu::{MenuInput, TickSignal};

fn idle() -> MenuInput {
    MenuInput { previous: false, next: false, confirm: false }
}

fn press_next() -> MenuInput {
    MenuInput { previous: false, next: true, confirm: false }
}

fn press_confirm() -> MenuInput {
    MenuInput { previous: false, next: false, confirm: true }
}

fn is_bios(m: &MainState) -> bool {
    matches!(m.phase, GamePhase::Bios(_))
}

fn is_boot(m: &MainState) -> bool {
    matches!(m.phase, GamePhase::Boot(_))
}

fn is_menu(m: &MainState) -> bool {
    matches!(m.phase, GamePhase::Menu(_))
}

fn is_game(m: &MainState) -> bool {
    matches!(m.phase, GamePhase::Game(_))
}

#[test]
fn full_run_from_bios_to_game() {
    let mut ms = MainState::new();
    assert!(is_bios(&ms));

    // BIOS: five timed reveals, 64 counting ticks, nine more reveals,
    // then the three-second hold (exceeded at 3250 ms).
    for _ in 0..5 {
        ms.update(250, idle());
    }
    for _ in 0..64 {
        ms.update(1, idle());
    }
    for _ in 0..9 {
        ms.update(250, idle());
    }
    for _ in 0..12 {
        ms.update(250, idle());
        assert!(is_bios(&ms));
    }
    assert_eq!(ms.update(250, idle()), TickSignal::Running);
    assert!(is_boot(&ms));

    // Boot: fourteen timed reveals, then the one-second hold.
    for _ in 0..14 {
        ms.update(250, idle());
    }
    for _ in 0..4 {
        ms.update(250, idle());
        assert!(is_boot(&ms));
    }
    ms.update(250, idle());
    assert!(is_menu(&ms));

    // Menu: commit the start option, then 2500 ms of transition.
    ms.update(16, press_confirm());
    assert!(is_menu(&ms));
    for _ in 0..9 {
        ms.update(250, idle());
        assert!(is_menu(&ms));
    }
    ms.update(250, idle());
    assert!(is_game(&ms));

    // The game phase is absorbing.
    for _ in 0..10 {
        assert_eq!(ms.update(10_000, press_confirm()), TickSignal::Running);
        assert!(is_game(&ms));
    }
    match ms.draw() {
        PhaseFrame::Game(s) => assert_eq!(s, "GAME STARTED"),
        _ => panic!("the game frame must be drawn in the game phase"),
    }
}

#[test]
fn exit_commit_terminates_and_state_is_untouched() {
    let mut ms = MainState::new();
    // Drive the machine into the menu.
    loop {
        ms.update(250, idle());
        if is_menu(&ms) {
            break;
        }
    }
    // Navigate to the exit option and confirm.
    for _ in 0..3 {
        assert_eq!(ms.update(16, press_next()), TickSignal::Running);
    }
    let sig = ms.update(16, press_confirm());
    assert_eq!(sig, TickSignal::Terminate);
    // The machine did not leave the menu and started nothing.
    match &ms.phase {
        GamePhase::Menu(m) => {
            assert_eq!(m.selected_index, 3);
            assert!(m.transition.is_none());
            assert!(!m.should_start_game);
        }
        _ => panic!("the machine must still sit in the menu"),
    }
}

#[test]
fn bios_frame_is_drawn_in_bios_phase() {
    let mut ms = MainState::new();
    ms.update(250, idle());
    match ms.draw() {
        PhaseFrame::Bios(lines) => {
            assert_eq!(lines, vec!["Award Modular BIOS v4.51PG, An Energy Star Ally"]);
        }
        _ => panic!("the bios frame must be drawn in the bios phase"),
    }
}
