//! The simplest game shell: an optional ticker that invokes the game loop
//! directly when started.

use vstd::prelude::*;

verus! {

/// Drives the game loop.
#[derive(Clone, Copy, Debug, PartialEq, Eq, Structural)]
pub struct Ticker {
    pub tickrate: u8,
}

impl Ticker {
    /// A ticker for the given tick rate.
    pub fn new(tick_rate: u8) -> (r: Ticker)
        ensures
            r.tickrate == tick_rate,
    {
        Ticker { tickrate: tick_rate }
    }

    /// Run one round of the game loop.
    pub fn run<F: Fn()>(&mut self, game_loop: &F)
        requires
            call_requires(*game_loop, ()),
        ensures
            *final(self) == *old(self),
    {
        game_loop();
    }
}

/// A game: holds the ticker once one is added.
pub struct Game {
    pub ticker: Option<Ticker>,
}

impl Game {
    /// A game with no ticker yet.
    pub fn new() -> (r: Game)
        ensures
            r.ticker is None,
    {
        Game { ticker: None }
    }

    /// Install a ticker with the given tick rate.
    pub fn add_ticker(&mut self, tick_rate: u8)
        ensures
            final(self).ticker == Some(Ticker { tickrate: tick_rate }),
    {
        self.ticker = Some(Ticker::new(tick_rate));
    }

    /// Start the installed ticker; without one nothing runs and the caller
    /// is told so.
    pub fn start_ticker<F: Fn()>(self, game_loop: &F) -> (ran: bool)
        requires
            call_requires(*game_loop, ()),
        ensures
            ran == self.ticker is Some,
    {
        match self.ticker {
            Some(mut ticker) => {
                ticker.run(game_loop);
                true
            },
            None => false,
        }
    }
}

} // verus!
