//! The placeholder game phase: absorbing, never signals completion.

use vstd::prelude::*;

verus! {

pub struct GameState {}

impl GameState {
    pub fn new() -> (r: GameState) {
        GameState {  }
    }

    /// One tick: the stub does nothing.
    pub fn update(&mut self, _dt_ms: u64)
        ensures
            *final(self) == *old(self),
    {
    }

    /// The banner to show.
    pub fn draw(&self) -> (r: String)
        ensures
            r@ == "GAME STARTED"@,
    {
        String::from_str("GAME STARTED")
    }
}

} // verus!
