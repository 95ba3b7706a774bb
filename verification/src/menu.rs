//! The interactive menu: cyclic selection over a fixed option list driven
//! by discrete input events, a commit action, and the zoom-and-fade
//! transition that begins when the start option is committed. Process
//! termination is never performed here: committing the exit option is
//! reported as a signal for the top-level driver to act on.

use vstd::prelude::*;
use crate::timer::spec_accum;
use crate::transition::{
    TransitionState, TRANSITION_DURATION_MS, SCALE_DENOM, spec_scale_num, spec_alpha_milli,
};
use vstd::arithmetic::div_mod::{
    lemma_small_mod, lemma_mod_bound, lemma_add_mod_noop, lemma_sub_mod_noop,
    lemma_mod_add_multiples_vanish, lemma_mod_sub_multiples_vanish,
};

verus! {

/// Index of the option that begins the game transition.
pub const MENU_START_INDEX: usize = 0;

/// Index of the option that asks for process termination.
pub const MENU_EXIT_INDEX: usize = 3;

/// How many options the menu holds.
pub const MENU_OPTION_COUNT: usize = 4;

/// What committing the currently selected option did.
#[derive(Debug, PartialEq, Eq)]
pub enum CommitResult {
    BeginTransition,
    TerminateProcess,
    Ignored,
}

/// The discrete input events observed during one tick.
#[derive(Clone, Copy, Debug)]
pub struct MenuInput {
    pub previous: bool,
    pub next: bool,
    pub confirm: bool,
}

/// What one tick of a phase asks of the top-level driver.
#[derive(Debug, PartialEq, Eq)]
pub enum TickSignal {
    Running,
    Terminate,
}

/// Cyclic step towards the previous option.
pub open spec fn prev_index(i: int, n: int) -> int {
    if i == 0 { n - 1 } else { i - 1 }
}

/// Cyclic step towards the next option.
pub open spec fn next_index(i: int, n: int) -> int {
    if i + 1 == n { 0 } else { i + 1 }
}

/// Where one tick's directional events leave the selection: a "previous"
/// step, then a "next" step, each only if its event was seen.
pub open spec fn nav_index(i: int, n: int, input: MenuInput) -> int {
    let a = if input.previous { prev_index(i, n) } else { i };
    if input.next { next_index(a, n) } else { a }
}

/// The fixed option list.
pub open spec fn menu_options() -> Seq<Seq<char>> {
    seq!["Start Game"@, "Options"@, "Credits"@, "Exit to DOS"@]
}

pub struct MenuState {
    pub options: Vec<String>,
    pub selected_index: usize,
    pub transition: Option<TransitionState>,
    pub should_start_game: bool,
}

/// The selection after `k` applications of "next".
pub open spec fn iterate_next(i: int, n: int, k: nat) -> int
    decreases k,
{
    if k == 0 { i } else { next_index(iterate_next(i, n, (k - 1) as nat), n) }
}

/// The selection after `k` applications of "previous".
pub open spec fn iterate_prev(i: int, n: int, k: nat) -> int
    decreases k,
{
    if k == 0 { i } else { prev_index(iterate_prev(i, n, (k - 1) as nat), n) }
}

proof fn lemma_iterate_next_formula(i: int, n: int, k: nat)
    requires
        0 <= i < n,
    ensures
        iterate_next(i, n, k) == (i + k) % n,
        0 <= iterate_next(i, n, k) < n,
    decreases k,
{
    if k == 0 {
        lemma_small_mod(i as nat, n as nat);
    } else {
        let km1 = (k - 1) as nat;
        lemma_iterate_next_formula(i, n, km1);
        let m = (i + km1) % n;
        lemma_add_mod_noop(i + km1, 1, n);
        if n == 1 {
            lemma_mod_bound(i + k, 1);
        } else {
            lemma_small_mod(1, n as nat);
            if m + 1 == n {
                lemma_mod_add_multiples_vanish(0, n);
                lemma_small_mod(0, n as nat);
            } else {
                lemma_small_mod((m + 1) as nat, n as nat);
            }
        }
    }
}

proof fn lemma_iterate_prev_formula(i: int, n: int, k: nat)
    requires
        0 <= i < n,
    ensures
        iterate_prev(i, n, k) == (i - k) % n,
        0 <= iterate_prev(i, n, k) < n,
    decreases k,
{
    if k == 0 {
        lemma_small_mod(i as nat, n as nat);
    } else {
        let km1 = (k - 1) as nat;
        lemma_iterate_prev_formula(i, n, km1);
        let m = (i - km1) % n;
        lemma_sub_mod_noop(i - km1, 1, n);
        if n == 1 {
            lemma_mod_bound(i - k, 1);
        } else {
            lemma_small_mod(1, n as nat);
            if m == 0 {
                lemma_mod_add_multiples_vanish(-1, n);
                lemma_small_mod((n - 1) as nat, n as nat);
            } else {
                lemma_small_mod((m - 1) as nat, n as nat);
            }
        }
    }
}

/// Over any non-empty option list, applying "next" as many times as there
/// are options returns the selection to where it began.
pub proof fn lemma_next_full_cycle(i: int, n: int)
    requires
        0 <= i < n,
    ensures
        iterate_next(i, n, n as nat) == i,
{
    lemma_iterate_next_formula(i, n, n as nat);
    lemma_mod_add_multiples_vanish(i, n);
    lemma_small_mod(i as nat, n as nat);
}

/// Over any non-empty option list, applying "previous" as many times as
/// there are options returns the selection to where it began.
pub proof fn lemma_prev_full_cycle(i: int, n: int)
    requires
        0 <= i < n,
    ensures
        iterate_prev(i, n, n as nat) == i,
{
    lemma_iterate_prev_formula(i, n, n as nat);
    lemma_mod_sub_multiples_vanish(i, n);
    lemma_small_mod(i as nat, n as nat);
}

/// The signal one menu tick returns: termination exactly when, outside a
/// transition, the confirm event lands on the exit option.
pub open spec fn menu_update_sig(pre: MenuState, input: MenuInput) -> TickSignal {
    if pre.transition is None && input.confirm
        && nav_index(pre.selected_index as int, MENU_OPTION_COUNT as int, input)
            == MENU_EXIT_INDEX {
        TickSignal::Terminate
    } else {
        TickSignal::Running
    }
}

/// How one menu tick relates the outgoing state to the incoming one.
/// While a transition runs, input is suppressed and only the animator
/// advances; otherwise the directional events move the selection and a
/// confirm event commits it.
pub open spec fn menu_update_rel(pre: MenuState, post: MenuState, dt: u64, input: MenuInput) -> bool {
    &&& post.options@ == pre.options@
    &&& match pre.transition {
        Some(t) => {
            &&& post.selected_index == pre.selected_index
            &&& post.transition matches Some(t2) && t2.timer.elapsed_ms == spec_accum(
                t.timer.elapsed_ms as int,
                dt as int,
            )
            &&& post.should_start_game == (pre.should_start_game || spec_accum(
                t.timer.elapsed_ms as int,
                dt as int,
            ) >= TRANSITION_DURATION_MS)
        },
        None => {
            let nav = nav_index(pre.selected_index as int, MENU_OPTION_COUNT as int, input);
            &&& post.selected_index as int == nav
            &&& post.should_start_game == pre.should_start_game
            &&& if input.confirm && nav == MENU_START_INDEX {
                post.transition matches Some(t2) && t2.timer.elapsed_ms == 0
            } else {
                post.transition is None
            }
        },
    }
}

/// One rendered instant of the menu: the title, the option list with a
/// selection marker, the footer, and the current transition values (a
/// natural scale and a transparent overlay while no transition runs).
pub struct MenuFrame {
    pub title: String,
    pub entries: Vec<String>,
    pub selected_index: usize,
    pub footer: String,
    pub transitioning: bool,
    pub scale_num: u64,
    pub alpha_milli: u64,
}

/// What the menu shows for a given state.
pub open spec fn menu_frame_ok(m: MenuState, f: MenuFrame) -> bool {
    &&& f.title@ == "VIBECODED GAME MENU"@
    &&& f.footer@ == "Use ARROW KEYS to select, ENTER to confirm"@
    &&& f.entries@.len() == m.options@.len()
    &&& f.selected_index == m.selected_index
    &&& forall|i: int|
        0 <= i < m.options@.len() ==> f.entries@[i]@ == (if i == m.selected_index {
            "> "@
        } else {
            "  "@
        }) + m.options@[i]@
    &&& f.transitioning == (m.transition is Some)
    &&& match m.transition {
        Some(t) => f.scale_num == spec_scale_num(t.timer.elapsed_ms as int) && f.alpha_milli
            == spec_alpha_milli(t.timer.elapsed_ms as int),
        None => f.scale_num == SCALE_DENOM && f.alpha_milli == 0,
    }
}

impl MenuState {
    pub open spec fn wf(self) -> bool {
        &&& self.options@.len() == MENU_OPTION_COUNT
        &&& self.selected_index < MENU_OPTION_COUNT
        &&& (self.transition matches Some(t) ==> t.wf())
        &&& (self.should_start_game ==> self.transition is Some)
    }

    pub fn new() -> (r: MenuState)
        ensures
            r.wf(),
            r.options.deep_view() == menu_options(),
            r.selected_index == 0,
            r.transition is None,
            !r.should_start_game,
    {
        let mut options: Vec<String> = Vec::new();
        options.push(String::from_str("Start Game"));
        options.push(String::from_str("Options"));
        options.push(String::from_str("Credits"));
        options.push(String::from_str("Exit to DOS"));
        proof {
            assert(options.deep_view() =~~= menu_options());
        }
        MenuState { options, selected_index: 0, transition: None, should_start_game: false }
    }

    /// Move the selection one option up, wrapping at the top.
    pub fn select_previous(&mut self)
        requires
            old(self).wf(),
        ensures
            final(self).wf(),
            final(self).selected_index as int == prev_index(
                old(self).selected_index as int,
                MENU_OPTION_COUNT as int,
            ),
            final(self).options@ == old(self).options@,
            final(self).transition == old(self).transition,
            final(self).should_start_game == old(self).should_start_game,
    {
        if self.selected_index > 0 {
            self.selected_index = self.selected_index - 1;
        } else {
            self.selected_index = self.options.len() - 1;
        }
    }

    /// Move the selection one option down, wrapping at the bottom.
    pub fn select_next(&mut self)
        requires
            old(self).wf(),
        ensures
            final(self).wf(),
            final(self).selected_index as int == next_index(
                old(self).selected_index as int,
                MENU_OPTION_COUNT as int,
            ),
            final(self).options@ == old(self).options@,
            final(self).transition == old(self).transition,
            final(self).should_start_game == old(self).should_start_game,
    {
        if self.selected_index < self.options.len() - 1 {
            self.selected_index = self.selected_index + 1;
        } else {
            self.selected_index = 0;
        }
    }

    /// Act on the currently selected option: the start option begins the
    /// transition, the exit option asks for process termination, every
    /// other option is reserved and ignored.
    pub fn commit(&mut self) -> (r: CommitResult)
        requires
            old(self).wf(),
            old(self).transition is None,
        ensures
            final(self).wf(),
            final(self).options@ == old(self).options@,
            final(self).selected_index == old(self).selected_index,
            final(self).should_start_game == old(self).should_start_game,
            old(self).selected_index == MENU_START_INDEX ==> r == CommitResult::BeginTransition
                && (final(self).transition matches Some(t) && t.timer.elapsed_ms == 0),
            old(self).selected_index == MENU_EXIT_INDEX ==> r == CommitResult::TerminateProcess
                && final(self).transition is None,
            old(self).selected_index != MENU_START_INDEX && old(self).selected_index
                != MENU_EXIT_INDEX ==> r == CommitResult::Ignored && final(self).transition
                is None,
    {
        if self.selected_index == MENU_START_INDEX {
            self.transition = Some(TransitionState::new());
            CommitResult::BeginTransition
        } else if self.selected_index == MENU_EXIT_INDEX {
            CommitResult::TerminateProcess
        } else {
            CommitResult::Ignored
        }
    }

    /// One tick: advance the transition if one is running (input is
    /// suppressed), otherwise apply the tick's input events.
    pub fn update(&mut self, dt_ms: u64, input: MenuInput) -> (sig: TickSignal)
        requires
            old(self).wf(),
        ensures
            final(self).wf(),
            menu_update_rel(*old(self), *final(self), dt_ms, input),
            sig == menu_update_sig(*old(self), input),
    {
        if self.transition.is_some() {
            let mut became_ready = false;
            match &mut self.transition {
                Some(t) => {
                    t.advance(dt_ms);
                    became_ready = t.is_complete();
                },
                None => {},
            }
            if became_ready {
                self.should_start_game = true;
            }
            TickSignal::Running
        } else {
            if input.previous {
                self.select_previous();
            }
            if input.next {
                self.select_next();
            }
            if input.confirm {
                let r = self.commit();
                match r {
                    CommitResult::TerminateProcess => TickSignal::Terminate,
                    _ => TickSignal::Running,
                }
            } else {
                TickSignal::Running
            }
        }
    }

    /// The frame to render for the current state.
    pub fn draw(&self) -> (f: MenuFrame)
        requires
            self.wf(),
        ensures
            menu_frame_ok(*self, f),
    {
        let mut entries: Vec<String> = Vec::new();
        let n = self.options.len();
        let mut i: usize = 0;
        while i < n
            invariant
                i <= n,
                n == self.options@.len(),
                self.wf(),
                entries@.len() == i,
                forall|j: int|
                    0 <= j < i ==> entries@[j]@ == (if j == self.selected_index {
                        "> "@
                    } else {
                        "  "@
                    }) + self.options@[j]@,
            decreases n - i,
        {
            let mut e = if i == self.selected_index {
                String::from_str("> ")
            } else {
                String::from_str("  ")
            };
            e.append(self.options[i].as_str());
            entries.push(e);
            i = i + 1;
        }
        let transitioning = self.transition.is_some();
        let (scale_num, alpha_milli) = match &self.transition {
            Some(t) => {
                let fr = t.frame();
                (fr.scale_num, fr.alpha_milli)
            },
            None => (SCALE_DENOM, 0u64),
        };
        MenuFrame {
            title: String::from_str("VIBECODED GAME MENU"),
            entries,
            selected_index: self.selected_index,
            footer: String::from_str("Use ARROW KEYS to select, ENTER to confirm"),
            transitioning,
            scale_num,
            alpha_milli,
        }
    }
}

} // verus!
