//! The timed revealer: a growing prefix of a line list is made visible at a
//! fixed interval. One designated line may instead be gated by a counter
//! (the BIOS memory test): while the cursor stands on that line the counter
//! runs in place of the timer, and the moment it reaches its cap a fixed
//! extra block of lines is appended — exactly once — and the cursor moves
//! past the placeholder. Once every line is revealed, a separate hold timer
//! runs; its expiry marks the revealer finished.

use vstd::prelude::*;
use crate::timer::{ElapsedTimer, spec_accum, ELAPSED_CAP_MS};
use crate::digits::{u32_to_decimal, spec_decimal};

verus! {

/// Cap of the memory-test counter.
pub const MEMORY_CAP: u32 = 65536;

/// Fixed step the counter advances by each tick.
pub const MEMORY_STEP: u32 = 1024;

/// What one `advance` call observed.
#[derive(Debug, PartialEq, Eq)]
pub enum RevealEvent {
    /// Time accumulated (or the counter ran) but no line was revealed.
    StillRevealing,
    /// The line with this index became visible during this call.
    JustRevealed(usize),
    /// Every line was already visible when the call was made.
    FullyRevealed,
}

/// The per-line special case: a counting placeholder that gates the reveal
/// of an extra block of lines.
pub struct CounterGate {
    /// Index of the placeholder line inside `lines`.
    pub counting_index: usize,
    /// Current counter value.
    pub counter: u32,
    /// Whether the extra block has been appended (set in the same step in
    /// which the counter reaches its cap, and never cleared).
    pub appended: bool,
    /// Label shown in front of the counter value.
    pub label: String,
    /// The block appended when the counter caps.
    pub extra_lines: Vec<String>,
}

pub struct Revealer {
    pub lines: Vec<String>,
    pub revealed_count: usize,
    pub timer: ElapsedTimer,
    pub interval_ms: u64,
    pub hold_ms: u64,
    pub finished: bool,
    pub gate: Option<CounterGate>,
}

/// The parts of a gate that never change.
pub open spec fn gate_config_same(a: CounterGate, b: CounterGate) -> bool {
    &&& a.counting_index == b.counting_index
    &&& a.label@ == b.label@
    &&& a.extra_lines.deep_view() == b.extra_lines.deep_view()
}

/// Two gate options agreeing in full.
pub open spec fn gate_same(a: Option<CounterGate>, b: Option<CounterGate>) -> bool {
    match (a, b) {
        (Some(x), Some(y)) => gate_config_same(x, y) && x.counter == y.counter && x.appended
            == y.appended,
        (None, None) => true,
        _ => false,
    }
}

/// The counter value after one counting tick: one step further, saturated
/// at the cap.
pub open spec fn spec_next_counter(c: u32) -> u32 {
    if c + MEMORY_STEP >= MEMORY_CAP { MEMORY_CAP } else { (c + MEMORY_STEP) as u32 }
}

impl Revealer {
    pub open spec fn wf(self) -> bool {
        &&& self.revealed_count <= self.lines@.len()
        &&& self.timer.wf()
        &&& self.interval_ms < ELAPSED_CAP_MS
        &&& self.hold_ms < ELAPSED_CAP_MS
        &&& (self.finished ==> self.revealed_count == self.lines@.len())
        &&& match self.gate {
            Some(g) => {
                &&& g.counting_index < self.lines@.len()
                &&& g.counter <= MEMORY_CAP
                &&& (g.appended ==> g.counter == MEMORY_CAP)
                &&& (!g.appended ==> g.extra_lines@.len() > 0)
            },
            None => true,
        }
    }

    /// Whether the revealer is in its counting state: the placeholder is
    /// the line most recently revealed and the extra block is still
    /// pending. While this holds, the timer is ignored and only the
    /// counter moves.
    pub open spec fn counting_active(self) -> bool {
        match self.gate {
            Some(g) => !g.appended && self.revealed_count == g.counting_index + 1,
            None => false,
        }
    }

    /// Whether `lines[i]` is the counting placeholder.
    pub open spec fn is_counting_line(self, i: int) -> bool {
        match self.gate {
            Some(g) => g.counting_index == i,
            None => false,
        }
    }
}

/// The event one `advance` call returns, as a function of the incoming
/// state and the delta time.
pub open spec fn spec_advance_event(pre: Revealer, dt: u64) -> RevealEvent {
    if pre.finished {
        RevealEvent::FullyRevealed
    } else if pre.counting_active() {
        if spec_next_counter(pre.gate->Some_0.counter) == MEMORY_CAP {
            RevealEvent::JustRevealed(pre.revealed_count)
        } else {
            RevealEvent::StillRevealing
        }
    } else if pre.revealed_count < pre.lines@.len() {
        if spec_accum(pre.timer.elapsed_ms as int, dt as int) > pre.interval_ms {
            RevealEvent::JustRevealed(pre.revealed_count)
        } else {
            RevealEvent::StillRevealing
        }
    } else {
        RevealEvent::FullyRevealed
    }
}

/// How one `advance` call relates the outgoing state to the incoming one.
pub open spec fn advance_rel(pre: Revealer, post: Revealer, dt: u64) -> bool {
    &&& post.interval_ms == pre.interval_ms
    &&& post.hold_ms == pre.hold_ms
    &&& if pre.finished {
        // A finished revealer never moves again.
        &&& post.lines.deep_view() == pre.lines.deep_view()
        &&& post.revealed_count == pre.revealed_count
        &&& post.timer == pre.timer
        &&& post.finished
        &&& gate_same(pre.gate, post.gate)
    } else if pre.counting_active() {
        let g = pre.gate->Some_0;
        let c2 = spec_next_counter(g.counter);
        if c2 == MEMORY_CAP {
            // The cap is reached in this very step: append the extra block
            // and move the cursor past the placeholder, bypassing the timer.
            &&& post.lines.deep_view() == pre.lines.deep_view() + g.extra_lines.deep_view()
            &&& post.revealed_count == pre.revealed_count + 1
            &&& post.timer.elapsed_ms == 0
            &&& !post.finished
            &&& post.gate matches Some(g2) && gate_config_same(g, g2) && g2.counter
                == MEMORY_CAP && g2.appended
        } else {
            // The counter runs; the timer is ignored.
            &&& post.lines.deep_view() == pre.lines.deep_view()
            &&& post.revealed_count == pre.revealed_count
            &&& post.timer == pre.timer
            &&& !post.finished
            &&& post.gate matches Some(g2) && gate_config_same(g, g2) && g2.counter == c2
                && !g2.appended
        }
    } else if pre.revealed_count < pre.lines@.len() {
        // The generic timer rule.
        let e2 = spec_accum(pre.timer.elapsed_ms as int, dt as int);
        &&& post.lines.deep_view() == pre.lines.deep_view()
        &&& gate_same(pre.gate, post.gate)
        &&& !post.finished
        &&& if e2 > pre.interval_ms {
            post.revealed_count == pre.revealed_count + 1 && post.timer.elapsed_ms == 0
        } else {
            post.revealed_count == pre.revealed_count && post.timer.elapsed_ms == e2
        }
    } else {
        // Everything is revealed: the post-completion hold runs.
        let e2 = spec_accum(pre.timer.elapsed_ms as int, dt as int);
        &&& post.lines.deep_view() == pre.lines.deep_view()
        &&& gate_same(pre.gate, post.gate)
        &&& post.revealed_count == pre.revealed_count
        &&& post.timer.elapsed_ms == e2
        &&& post.finished == (e2 > pre.hold_ms)
    }
}

/// The text shown for the counting placeholder.
pub open spec fn counter_text(label: Seq<char>, value: nat) -> Seq<char> {
    label + ": "@ + spec_decimal(value) + "K OK"@
}

impl Revealer {
    /// Push the extra block onto the line list.
    fn append_extras(&mut self)
        requires
            old(self).gate is Some,
        ensures
            final(self).lines.deep_view() == old(self).lines.deep_view() + old(
                self,
            ).gate->Some_0.extra_lines.deep_view(),
            final(self).lines@.len() == old(self).lines@.len() + old(
                self,
            ).gate->Some_0.extra_lines@.len(),
            final(self).gate == old(self).gate,
            final(self).revealed_count == old(self).revealed_count,
            final(self).timer == old(self).timer,
            final(self).interval_ms == old(self).interval_ms,
            final(self).hold_ms == old(self).hold_ms,
            final(self).finished == old(self).finished,
    {
        let n = match &self.gate {
            Some(g) => g.extra_lines.len(),
            None => 0,
        };
        let ghost base = old(self).lines@.len() as int;
        let mut k: usize = 0;
        while k < n
            invariant
                k <= n,
                self.gate == old(self).gate,
                self.gate is Some,
                n == self.gate->Some_0.extra_lines@.len(),
                base == old(self).lines@.len(),
                self.lines@.len() == base + k,
                forall|j: int| 0 <= j < base ==> self.lines@[j] == old(self).lines@[j],
                forall|j: int|
                    0 <= j < k ==> self.lines@[base + j] == self.gate->Some_0.extra_lines@[j],
                self.revealed_count == old(self).revealed_count,
                self.timer == old(self).timer,
                self.interval_ms == old(self).interval_ms,
                self.hold_ms == old(self).hold_ms,
                self.finished == old(self).finished,
            decreases n - k,
        {
            let line = match &self.gate {
                Some(g) => g.extra_lines[k].clone(),
                None => String::new(),
            };
            self.lines.push(line);
            k = k + 1;
        }
        proof {
            assert(self.lines.deep_view() =~~= old(self).lines.deep_view() + old(
                self,
            ).gate->Some_0.extra_lines.deep_view());
        }
    }

    /// One tick: run the counter if the counting placeholder gates the
    /// reveal, otherwise accumulate time and reveal the next line when the
    /// interval is exceeded; once everything is revealed, run the hold
    /// timer and finish when it expires. The revealed count never
    /// decreases and never exceeds the number of lines; the counter never
    /// exceeds its cap and moves only while the counting state holds; the
    /// extra block is appended exactly once, in the step in which the
    /// counter reaches its cap, and the line list never changes otherwise.
    pub fn advance(&mut self, dt_ms: u64) -> (ev: RevealEvent)
        requires
            old(self).wf(),
        ensures
            final(self).wf(),
            advance_rel(*old(self), *final(self), dt_ms),
            ev == spec_advance_event(*old(self), dt_ms),
            final(self).revealed_count >= old(self).revealed_count,
            final(self).revealed_count <= final(self).lines@.len(),
            match (old(self).gate, final(self).gate) {
                (Some(g), Some(g2)) => {
                    &&& g2.counter <= MEMORY_CAP
                    &&& g2.counter >= g.counter
                    &&& (g2.counter != g.counter ==> old(self).counting_active())
                    &&& (g.appended ==> g2.appended && final(self).lines.deep_view() == old(
                        self,
                    ).lines.deep_view())
                },
                (None, None) => final(self).lines.deep_view() == old(self).lines.deep_view(),
                _ => false,
            },
    {
        if self.finished {
            return RevealEvent::FullyRevealed;
        }
        let counting = match &self.gate {
            Some(g) => !g.appended && self.revealed_count >= 1 && self.revealed_count - 1
                == g.counting_index,
            None => false,
        };
        if counting {
            let mut reached = false;
            match &mut self.gate {
                Some(g) => {
                    if g.counter >= MEMORY_CAP - MEMORY_STEP {
                        g.counter = MEMORY_CAP;
                        g.appended = true;
                        reached = true;
                    } else {
                        g.counter = g.counter + MEMORY_STEP;
                    }
                },
                None => {},
            }
            if reached {
                let idx = self.revealed_count;
                self.append_extras();
                let new_len = self.lines.len();
                assert(self.revealed_count < new_len);
                self.revealed_count = self.revealed_count + 1;
                self.timer.reset();
                RevealEvent::JustRevealed(idx)
            } else {
                RevealEvent::StillRevealing
            }
        } else if self.revealed_count < self.lines.len() {
            self.timer.accumulate(dt_ms);
            if self.timer.exceeds(self.interval_ms) {
                let idx = self.revealed_count;
                self.revealed_count = self.revealed_count + 1;
                self.timer.reset();
                RevealEvent::JustRevealed(idx)
            } else {
                RevealEvent::StillRevealing
            }
        } else {
            self.timer.accumulate(dt_ms);
            if self.timer.exceeds(self.hold_ms) {
                self.finished = true;
            }
            RevealEvent::FullyRevealed
        }
    }

    /// The revealed prefix as it is to be shown: the counting placeholder
    /// is substituted with its label and the current counter value, every
    /// other revealed line renders verbatim.
    pub fn display_lines(&self) -> (r: Vec<String>)
        requires
            self.wf(),
        ensures
            r@.len() == self.revealed_count,
            forall|i: int|
                0 <= i < self.revealed_count && !self.is_counting_line(i) ==> r@[i]@
                    == self.lines@[i]@,
            forall|i: int|
                0 <= i < self.revealed_count && self.is_counting_line(i) ==> r@[i]@
                    == counter_text(self.gate->Some_0.label@, self.gate->Some_0.counter as nat),
    {
        let mut r: Vec<String> = Vec::new();
        let mut i: usize = 0;
        while i < self.revealed_count
            invariant
                i <= self.revealed_count,
                self.wf(),
                r@.len() == i,
                forall|j: int|
                    0 <= j < i && !self.is_counting_line(j) ==> r@[j]@ == self.lines@[j]@,
                forall|j: int|
                    0 <= j < i && self.is_counting_line(j) ==> r@[j]@ == counter_text(
                        self.gate->Some_0.label@,
                        self.gate->Some_0.counter as nat,
                    ),
            decreases self.revealed_count - i,
        {
            let is_count = match &self.gate {
                Some(g) => i == g.counting_index,
                None => false,
            };
            let line = if is_count {
                match &self.gate {
                    Some(g) => {
                        let mut s = g.label.clone();
                        s.append(": ");
                        let digits = u32_to_decimal(g.counter);
                        s.append(digits.as_str());
                        s.append("K OK");
                        s
                    },
                    None => String::new(),
                }
            } else {
                self.lines[i].clone()
            };
            r.push(line);
            i = i + 1;
        }
        r
    }
}

} // verus!
