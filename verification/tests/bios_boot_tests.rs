use retro_boot::bios::BiosState;
use retro_boot::boot::BootState;
use retro_boot::revealer::RevealEvent;

#[test]
fn bios_first_block_reveals_in_five_ticks_counter_untouched() {
    let mut b = BiosState::new();
    for _ in 0..5 {
        b.update(250);
    }
    let lines = b.draw();
    assert_eq!(lines.len(), 5);
    assert_eq!(lines[0], "Award Modular BIOS v4.51PG, An Energy Star Ally");
    assert_eq!(lines[1], "Copyright (C) 1984-98, Award Software, Inc.");
    assert_eq!(lines[2], "");
    assert_eq!(lines[3], "PENTIUM-MMX CPU at 233MHz");
    // The placeholder is substituted, and the counter has not started yet.
    assert_eq!(lines[4], "Memory Test: 0K OK");
    match &b.revealer.gate {
        Some(g) => {
            assert_eq!(g.counter, 0);
            assert!(!g.appended);
        }
        None => panic!("bios revealer must carry the memory gate"),
    }
}

#[test]
fn bios_counter_steps_and_appends_extra_block_once() {
    let mut b = BiosState::new();
    for _ in 0..5 {
        b.update(250);
    }
    // 63 counting ticks: the counter runs but the cap is not yet reached.
    for _ in 0..63 {
        let ev = b.update(1);
        assert_eq!(ev, RevealEvent::StillRevealing);
    }
    match &b.revealer.gate {
        Some(g) => {
            assert_eq!(g.counter, 63 * 1024);
            assert!(!g.appended);
        }
        None => panic!("bios revealer must carry the memory gate"),
    }
    assert_eq!(b.revealer.lines.len(), 5);
    // The 64th counting tick reaches 65536: the extra block is appended
    // and the cursor moves past the placeholder in the same step.
    let ev = b.update(1);
    assert_eq!(ev, RevealEvent::JustRevealed(5));
    assert_eq!(b.revealer.lines.len(), 15);
    assert_eq!(b.revealer.revealed_count, 6);
    match &b.revealer.gate {
        Some(g) => {
            assert_eq!(g.counter, 65536);
            assert!(g.appended);
        }
        None => panic!("bios revealer must carry the memory gate"),
    }
    assert_eq!(b.draw()[4], "Memory Test: 65536K OK");
    // However many ticks follow, the block is never appended again.
    for _ in 0..200 {
        b.update(250);
    }
    assert_eq!(b.revealer.lines.len(), 15);
}

#[test]
fn bios_finishes_after_hold() {
    let mut b = BiosState::new();
    for _ in 0..5 {
        b.update(250);
    }
    for _ in 0..64 {
        b.update(1);
    }
    // Nine more lines remain after the append.
    for _ in 0..9 {
        b.update(250);
    }
    assert_eq!(b.revealer.revealed_count, 15);
    assert!(!b.is_finished());
    // The three-second hold: 3250 ms exceeds it on the 13th tick.
    for _ in 0..12 {
        b.update(250);
        assert!(!b.is_finished());
    }
    b.update(250);
    assert!(b.is_finished());
    // A finished revealer never moves again.
    b.update(10_000);
    assert!(b.is_finished());
    assert_eq!(b.revealer.revealed_count, 15);
}

#[test]
fn bios_revealed_count_is_monotone() {
    let mut b = BiosState::new();
    let mut last = b.revealer.revealed_count;
    let steps = [250u64, 1, 0, 500, 1, 250, 1, 1, 250, 199, 2, 250, 250];
    for _ in 0..30 {
        for &dt in steps.iter() {
            b.update(dt);
            let now = b.revealer.revealed_count;
            assert!(now >= last);
            assert!(now <= b.revealer.lines.len());
            last = now;
        }
    }
}

#[test]
fn boot_reveals_all_lines_then_finishes() {
    let mut b = BootState::new();
    let ev = b.update(200);
    assert_eq!(ev, RevealEvent::JustRevealed(0));
    assert_eq!(b.draw(), vec!["Starting MS-DOS..."]);
    for _ in 0..13 {
        b.update(200);
    }
    assert_eq!(b.revealer.revealed_count, 14);
    let lines = b.draw();
    assert_eq!(lines.len(), 14);
    assert_eq!(lines[13], "C:\\>vibecoded_game.exe");
    assert!(!b.is_finished());
    // One second of hold: 1200 ms exceeds it on the 6th tick of 200 ms.
    for _ in 0..5 {
        let ev = b.update(200);
        assert_eq!(ev, RevealEvent::FullyRevealed);
        assert!(!b.is_finished());
    }
    b.update(200);
    assert!(b.is_finished());
}

#[test]
fn boot_interval_is_strictly_exceeded() {
    let mut b = BootState::new();
    // 150 ms exactly does not fire; the next millisecond does.
    let ev = b.update(150);
    assert_eq!(ev, RevealEvent::StillRevealing);
    assert_eq!(b.revealer.revealed_count, 0);
    let ev = b.update(1);
    assert_eq!(ev, RevealEvent::JustRevealed(0));
}
