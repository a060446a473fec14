//! The threaded application shell's verifiable part: the ticker's state
//! and its timing arithmetic. The shell owns the timer thread and the
//! channel that drive the loop.

use vstd::prelude::*;

verus! {

/// Drives the game loop at a fixed rate.
#[derive(Clone, Copy, Debug, PartialEq, Eq, Structural)]
pub struct Ticker {
    pub tickrate: u64,
}

impl Ticker {
    /// A ticker for the given tick rate (ticks per second).
    pub fn new(tick_rate: u64) -> (r: Ticker)
        ensures
            r.tickrate == tick_rate,
    {
        Ticker { tickrate: tick_rate }
    }

    /// The sleep between ticks, in milliseconds.
    pub fn tick_interval_ms(&self) -> (r: u64)
        requires
            self.tickrate > 0,
        ensures
            r == 1000u64 / self.tickrate,
    {
        1000 / self.tickrate
    }
}

/// An application: holds the ticker once one is added.
pub struct App {
    pub ticker: Option<Ticker>,
}

impl App {
    /// An application with no ticker yet.
    pub fn new() -> (r: App)
        ensures
            r.ticker is None,
    {
        App { ticker: None }
    }

    /// Install a ticker with the given tick rate.
    pub fn add_ticker(&mut self, tick_rate: u64)
        ensures
            final(self).ticker == Some(Ticker { tickrate: tick_rate }),
    {
        self.ticker = Some(Ticker::new(tick_rate));
    }
}

} // verus!
