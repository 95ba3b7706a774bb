//! The BIOS splash phase: five scripted lines revealed on a 200 ms pace,
//! the last being the memory-test placeholder. While the cursor stands on
//! the placeholder a counter runs in steps of 1024 up to 65536; the moment
//! it caps, ten further boot-log lines are appended (exactly once) and the
//! reveal continues through them. Three seconds after the last line the
//! phase is finished.

use vstd::prelude::*;
use crate::revealer::{
    Revealer, CounterGate, RevealEvent, advance_rel, spec_advance_event, counter_text,
};
use crate::timer::ElapsedTimer;

verus! {

/// Pace of the timed reveal.
pub const BIOS_INTERVAL_MS: u64 = 200;

/// Hold after the last line before the phase reports completion.
pub const BIOS_HOLD_MS: u64 = 3000;

/// Index of the memory-test placeholder in the initial block.
pub const BIOS_COUNTING_INDEX: usize = 4;

/// The initial block of lines.
pub open spec fn bios_initial_lines() -> Seq<Seq<char>> {
    seq![
        "Award Modular BIOS v4.51PG, An Energy Star Ally"@,
        "Copyright (C) 1984-98, Award Software, Inc."@,
        ""@,
        "PENTIUM-MMX CPU at 233MHz"@,
        "Memory Test: "@,
    ]
}

/// The block appended when the memory counter caps.
pub open spec fn bios_extra_lines() -> Seq<Seq<char>> {
    seq![
        ""@,
        "Award Plug and Play BIOS Extension v1.0A"@,
        "Copyright (C) 1998, Award Software, Inc."@,
        "Detecting HDD Primary Master ... QUANTUM FIREBALL"@,
        "Detecting HDD Primary Slave  ... None"@,
        "Detecting HDD Secondary Master ... CD-ROM DRIVE"@,
        "Detecting HDD Secondary Slave  ... None"@,
        ""@,
        "Press DEL to enter SETUP"@,
        "06/15/1998-i440BX-8671-2A69KD4FC-00"@,
    ]
}

pub struct BiosState {
    pub revealer: Revealer,
}

/// The extra block is appended exactly once over the whole phase: once a
/// state carries it, every later tick leaves the line list unchanged — it
/// stays the initial block followed by the extra block, however many ticks
/// follow the one in which the counter reached its cap.
pub proof fn lemma_extra_block_appended_once(pre: BiosState, post: BiosState, dt: u64)
    requires
        pre.wf(),
        advance_rel(pre.revealer, post.revealer, dt),
        pre.revealer.gate->Some_0.appended,
    ensures
        post.revealer.lines.deep_view() == pre.revealer.lines.deep_view(),
        post.revealer.gate->Some_0.appended,
        post.revealer.lines.deep_view() == bios_initial_lines() + bios_extra_lines(),
{
}

/// What the splash shows: every revealed line verbatim, except the
/// placeholder, which carries the current counter value.
pub open spec fn bios_display_ok(b: BiosState, r: Vec<String>) -> bool {
    &&& r@.len() == b.revealer.revealed_count
    &&& forall|i: int|
        0 <= i < r@.len() && i != BIOS_COUNTING_INDEX ==> r@[i]@ == b.revealer.lines@[i]@
    &&& (BIOS_COUNTING_INDEX < r@.len() ==> r@[BIOS_COUNTING_INDEX as int]@ == counter_text(
        "Memory Test"@,
        b.revealer.gate->Some_0.counter as nat,
    ))
}

impl BiosState {
    /// Besides the revealer's own invariant: the BIOS pacing, the memory
    /// counter on the placeholder line, and the line list being exactly
    /// the initial block, followed by the extra block once the counter
    /// has capped.
    pub open spec fn wf(self) -> bool {
        &&& self.revealer.wf()
        &&& self.revealer.interval_ms == BIOS_INTERVAL_MS
        &&& self.revealer.hold_ms == BIOS_HOLD_MS
        &&& self.revealer.gate matches Some(g) && {
            &&& g.counting_index == BIOS_COUNTING_INDEX
            &&& g.label@ == "Memory Test"@
            &&& g.extra_lines.deep_view() == bios_extra_lines()
            &&& if g.appended {
                self.revealer.lines.deep_view() == bios_initial_lines() + bios_extra_lines()
            } else {
                self.revealer.lines.deep_view() == bios_initial_lines()
            }
        }
    }

    pub fn new() -> (r: BiosState)
        ensures
            r.wf(),
            r.revealer.revealed_count == 0,
            r.revealer.timer.elapsed_ms == 0,
            !r.revealer.finished,
            r.revealer.gate matches Some(g) && g.counter == 0 && !g.appended,
    {
        let mut lines: Vec<String> = Vec::new();
        lines.push(String::from_str("Award Modular BIOS v4.51PG, An Energy Star Ally"));
        lines.push(String::from_str("Copyright (C) 1984-98, Award Software, Inc."));
        lines.push(String::from_str(""));
        lines.push(String::from_str("PENTIUM-MMX CPU at 233MHz"));
        lines.push(String::from_str("Memory Test: "));
        let mut extra: Vec<String> = Vec::new();
        extra.push(String::from_str(""));
        extra.push(String::from_str("Award Plug and Play BIOS Extension v1.0A"));
        extra.push(String::from_str("Copyright (C) 1998, Award Software, Inc."));
        extra.push(String::from_str("Detecting HDD Primary Master ... QUANTUM FIREBALL"));
        extra.push(String::from_str("Detecting HDD Primary Slave  ... None"));
        extra.push(String::from_str("Detecting HDD Secondary Master ... CD-ROM DRIVE"));
        extra.push(String::from_str("Detecting HDD Secondary Slave  ... None"));
        extra.push(String::from_str(""));
        extra.push(String::from_str("Press DEL to enter SETUP"));
        extra.push(String::from_str("06/15/1998-i440BX-8671-2A69KD4FC-00"));
        proof {
            assert(lines.deep_view() =~~= bios_initial_lines());
            assert(extra.deep_view() =~~= bios_extra_lines());
        }
        BiosState {
            revealer: Revealer {
                lines,
                revealed_count: 0,
                timer: ElapsedTimer::new(),
                interval_ms: BIOS_INTERVAL_MS,
                hold_ms: BIOS_HOLD_MS,
                finished: false,
                gate: Some(
                    CounterGate {
                        counting_index: BIOS_COUNTING_INDEX,
                        counter: 0,
                        appended: false,
                        label: String::from_str("Memory Test"),
                        extra_lines: extra,
                    },
                ),
            },
        }
    }

    /// One tick of the splash.
    pub fn update(&mut self, dt_ms: u64) -> (ev: RevealEvent)
        requires
            old(self).wf(),
        ensures
            final(self).wf(),
            advance_rel(old(self).revealer, final(self).revealer, dt_ms),
            ev == spec_advance_event(old(self).revealer, dt_ms),
    {
        self.revealer.advance(dt_ms)
    }

    /// The lines to show, the placeholder substituted with the counter.
    pub fn draw(&self) -> (r: Vec<String>)
        requires
            self.wf(),
        ensures
            bios_display_ok(*self, r),
    {
        let r = self.revealer.display_lines();
        proof {
            assert forall|i: int|
                0 <= i < r@.len() && i != BIOS_COUNTING_INDEX implies r@[i]@
                == self.revealer.lines@[i]@ by {
                assert(!self.revealer.is_counting_line(i));
            }
            if BIOS_COUNTING_INDEX < r@.len() {
                assert(self.revealer.is_counting_line(BIOS_COUNTING_INDEX as int));
            }
        }
        r
    }

    pub fn is_finished(&self) -> (r: bool)
        ensures
            r == self.revealer.finished,
    {
        self.revealer.finished
    }
}

} // verus!
