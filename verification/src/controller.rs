//! The top-level state machine: exactly one phase is active. Each tick the
//! controller forwards the delta time and the tick's input events to the
//! active phase; when a phase reports completion, its successor is
//! constructed fresh and the outgoing phase is discarded and never
//! advanced again. The order is fixed: BIOS splash, boot log, menu, game;
//! the game phase is absorbing. A request for process termination (the
//! menu's exit option) is passed up as a signal for the driver loop, which
//! alone ends the process.

use vstd::prelude::*;
use crate::bios::{BiosState, bios_display_ok};
use crate::boot::{BootState, boot_display_ok};
use crate::game::GameState;
use crate::menu::{
    MenuState, MenuInput, MenuFrame, TickSignal, menu_update_rel, menu_update_sig, menu_options,
};
use crate::revealer::Revealer;
use crate::timer::spec_accum;
use crate::transition::TRANSITION_DURATION_MS;

verus! {

pub enum GamePhase {
    Bios(BiosState),
    Boot(BootState),
    Menu(MenuState),
    Game(GameState),
}

pub struct MainState {
    pub phase: GamePhase,
}

/// A BIOS splash as freshly constructed.
pub open spec fn bios_initial(b: BiosState) -> bool {
    &&& b.wf()
    &&& b.revealer.revealed_count == 0
    &&& b.revealer.timer.elapsed_ms == 0
    &&& !b.revealer.finished
    &&& b.revealer.gate matches Some(g) && g.counter == 0 && !g.appended
}

/// A boot log as freshly constructed.
pub open spec fn boot_initial(b: BootState) -> bool {
    &&& b.wf()
    &&& b.revealer.revealed_count == 0
    &&& b.revealer.timer.elapsed_ms == 0
    &&& !b.revealer.finished
}

/// A menu as freshly constructed.
pub open spec fn menu_initial(m: MenuState) -> bool {
    &&& m.wf()
    &&& m.options.deep_view() == menu_options()
    &&& m.selected_index == 0
    &&& m.transition is None
    &&& !m.should_start_game
}

/// Whether one revealer tick leaves the revealer finished.
pub open spec fn revealer_finishes(pre: Revealer, dt: u64) -> bool {
    if pre.finished {
        true
    } else if pre.counting_active() {
        false
    } else if pre.revealed_count < pre.lines@.len() {
        false
    } else {
        spec_accum(pre.timer.elapsed_ms as int, dt as int) > pre.hold_ms
    }
}

/// Whether one menu tick leaves the menu asking for the game phase.
pub open spec fn menu_becomes_ready(pre: MenuState, dt: u64) -> bool {
    match pre.transition {
        Some(t) => pre.should_start_game || spec_accum(t.timer.elapsed_ms as int, dt as int)
            >= TRANSITION_DURATION_MS,
        None => pre.should_start_game,
    }
}

/// One frame of whatever phase is active.
pub enum PhaseFrame {
    Bios(Vec<String>),
    Boot(Vec<String>),
    Menu(MenuFrame),
    Game(String),
}

impl MainState {
    pub open spec fn wf(self) -> bool {
        match self.phase {
            GamePhase::Bios(b) => b.wf(),
            GamePhase::Boot(b) => b.wf(),
            GamePhase::Menu(m) => m.wf(),
            GamePhase::Game(_) => true,
        }
    }

    /// The machine starts in the BIOS splash.
    pub fn new() -> (r: MainState)
        ensures
            r.wf(),
            r.phase matches GamePhase::Bios(b) && bios_initial(b),
    {
        MainState { phase: GamePhase::Bios(BiosState::new()) }
    }

    /// One tick: advance the active phase and, if it reports completion,
    /// replace it with its freshly constructed successor. The signal is
    /// `Terminate` exactly when the menu committed its exit option this
    /// tick; the driver loop is expected to end the process then, without
    /// ticking again.
    pub fn update(&mut self, dt_ms: u64, input: MenuInput) -> (sig: TickSignal)
        requires
            old(self).wf(),
        ensures
            final(self).wf(),
            old(self).phase matches GamePhase::Bios(b) ==> sig == TickSignal::Running && (if
                revealer_finishes(b.revealer, dt_ms) {
                final(self).phase matches GamePhase::Boot(nb) && boot_initial(nb)
            } else {
                final(self).phase matches GamePhase::Bios(b2) && crate::revealer::advance_rel(
                    b.revealer,
                    b2.revealer,
                    dt_ms,
                ) && !b2.revealer.finished
            }),
            old(self).phase matches GamePhase::Boot(b) ==> sig == TickSignal::Running && (if
                revealer_finishes(b.revealer, dt_ms) {
                final(self).phase matches GamePhase::Menu(nm) && menu_initial(nm)
            } else {
                final(self).phase matches GamePhase::Boot(b2) && crate::revealer::advance_rel(
                    b.revealer,
                    b2.revealer,
                    dt_ms,
                ) && !b2.revealer.finished
            }),
            old(self).phase matches GamePhase::Menu(m) ==> sig == menu_update_sig(m, input) && (
            if menu_becomes_ready(m, dt_ms) {
                final(self).phase matches GamePhase::Game(_)
            } else {
                final(self).phase matches GamePhase::Menu(m2) && menu_update_rel(
                    m,
                    m2,
                    dt_ms,
                    input,
                ) && !m2.should_start_game
            }),
            old(self).phase matches GamePhase::Game(g) ==> sig == TickSignal::Running
                && (final(self).phase matches GamePhase::Game(g2) && g2 == g),
    {
        match &mut self.phase {
            GamePhase::Bios(b) => {
                b.update(dt_ms);
                if b.is_finished() {
                    self.phase = GamePhase::Boot(BootState::new());
                }
                TickSignal::Running
            },
            GamePhase::Boot(b) => {
                b.update(dt_ms);
                if b.is_finished() {
                    self.phase = GamePhase::Menu(MenuState::new());
                }
                TickSignal::Running
            },
            GamePhase::Menu(m) => {
                let sig = m.update(dt_ms, input);
                if m.should_start_game {
                    self.phase = GamePhase::Game(GameState::new());
                }
                sig
            },
            GamePhase::Game(g) => {
                g.update(dt_ms);
                TickSignal::Running
            },
        }
    }

    /// The frame of the active phase.
    pub fn draw(&self) -> (f: PhaseFrame)
        requires
            self.wf(),
        ensures
            match self.phase {
                GamePhase::Bios(b) => f matches PhaseFrame::Bios(v) && bios_display_ok(b, v),
                GamePhase::Boot(b) => f matches PhaseFrame::Boot(v) && boot_display_ok(b, v),
                GamePhase::Menu(m) => f matches PhaseFrame::Menu(mf) && crate::menu::menu_frame_ok(
                    m,
                    mf,
                ),
                GamePhase::Game(_) => f matches PhaseFrame::Game(s) && s@ == "GAME STARTED"@,
            },
    {
        match &self.phase {
            GamePhase::Bios(b) => PhaseFrame::Bios(b.draw()),
            GamePhase::Boot(b) => PhaseFrame::Boot(b.draw()),
            GamePhase::Menu(m) => PhaseFrame::Menu(m.draw()),
            GamePhase::Game(g) => PhaseFrame::Game(g.draw()),
        }
    }
}

} // verus!
