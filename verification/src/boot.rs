//! The boot-log phase: a fixed list of lines revealed on a 150 ms pace,
//! with a one second hold after the last line.

use vstd::prelude::*;
use crate::revealer::{Revealer, RevealEvent, advance_rel, spec_advance_event};
use crate::timer::ElapsedTimer;

verus! {

/// Pace of the timed reveal.
pub const BOOT_INTERVAL_MS: u64 = 150;

/// Hold after the last line before the phase reports completion.
pub const BOOT_HOLD_MS: u64 = 1000;

/// The scripted boot log.
pub open spec fn boot_lines() -> Seq<Seq<char>> {
    seq![
        "Starting MS-DOS..."@,
        ""@,
        "HIMEM is testing extended memory...done."@,
        "C:\\>echo off"@,
        "C:\\>PROMPT $p$g"@,
        "C:\\>PATH C:\\DOS;C:\\WINDOWS"@,
        "C:\\>SET TEMP=C:\\DOS"@,
        "C:\\>MODE CON CODEPAGE PREPARE=((850) C:\\DOS\\EGA.CPI)"@,
        "C:\\>MODE CON CODEPAGE SELECT=850"@,
        "C:\\>KEYB UK,,C:\\DOS\\KEYBOARD.SYS"@,
        "C:\\>DOSKEY"@,
        "DOSKey installed."@,
        ""@,
        "C:\\>vibecoded_game.exe"@,
    ]
}

pub struct BootState {
    pub revealer: Revealer,
}

/// What the boot log shows: the revealed prefix, verbatim.
pub open spec fn boot_display_ok(b: BootState, r: Vec<String>) -> bool {
    &&& r@.len() == b.revealer.revealed_count
    &&& forall|i: int| 0 <= i < r@.len() ==> r@[i]@ == b.revealer.lines@[i]@
}

impl BootState {
    pub open spec fn wf(self) -> bool {
        &&& self.revealer.wf()
        &&& self.revealer.interval_ms == BOOT_INTERVAL_MS
        &&& self.revealer.hold_ms == BOOT_HOLD_MS
        &&& self.revealer.gate is None
        &&& self.revealer.lines.deep_view() == boot_lines()
    }

    pub fn new() -> (r: BootState)
        ensures
            r.wf(),
            r.revealer.revealed_count == 0,
            r.revealer.timer.elapsed_ms == 0,
            !r.revealer.finished,
    {
        let mut lines: Vec<String> = Vec::new();
        lines.push(String::from_str("Starting MS-DOS..."));
        lines.push(String::from_str(""));
        lines.push(String::from_str("HIMEM is testing extended memory...done."));
        lines.push(String::from_str("C:\\>echo off"));
        lines.push(String::from_str("C:\\>PROMPT $p$g"));
        lines.push(String::from_str("C:\\>PATH C:\\DOS;C:\\WINDOWS"));
        lines.push(String::from_str("C:\\>SET TEMP=C:\\DOS"));
        lines.push(String::from_str("C:\\>MODE CON CODEPAGE PREPARE=((850) C:\\DOS\\EGA.CPI)"));
        lines.push(String::from_str("C:\\>MODE CON CODEPAGE SELECT=850"));
        lines.push(String::from_str("C:\\>KEYB UK,,C:\\DOS\\KEYBOARD.SYS"));
        lines.push(String::from_str("C:\\>DOSKEY"));
        lines.push(String::from_str("DOSKey installed."));
        lines.push(String::from_str(""));
        lines.push(String::from_str("C:\\>vibecoded_game.exe"));
        proof {
            assert(lines.deep_view() =~~= boot_lines());
        }
        BootState {
            revealer: Revealer {
                lines,
                revealed_count: 0,
                timer: ElapsedTimer::new(),
                interval_ms: BOOT_INTERVAL_MS,
                hold_ms: BOOT_HOLD_MS,
                finished: false,
                gate: None,
            },
        }
    }

    /// One tick of the boot log.
    pub fn update(&mut self, dt_ms: u64) -> (ev: RevealEvent)
        requires
            old(self).wf(),
        ensures
            final(self).wf(),
            advance_rel(old(self).revealer, final(self).revealer, dt_ms),
            ev == spec_advance_event(old(self).revealer, dt_ms),
    {
        self.revealer.advance(dt_ms)
    }

    /// The revealed prefix, rendered verbatim.
    pub fn draw(&self) -> (r: Vec<String>)
        requires
            self.wf(),
        ensures
            boot_display_ok(*self, r),
    {
        let r = self.revealer.display_lines();
        proof {
            assert forall|i: int| 0 <= i < r@.len() implies r@[i]@
                == self.revealer.lines@[i]@ by {
                assert(!self.revealer.is_counting_line(i));
            }
        }
        r
    }

    pub fn is_finished(&self) -> (r: bool)
        ensures
            r == self.revealer.finished,
    {
        self.revealer.finished
    }
}

} // verus!
