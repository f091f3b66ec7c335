//! The stop signal: a latch that is set at most once and never cleared.

use vstd::prelude::*;

verus! {

/// A one-shot request to stop. It starts out not signaled; `fire` makes it
/// signaled, and nothing makes it not signaled again.
pub struct StopSignal {
    signaled: bool,
}

/// How one bounded wait for the stop signal ended.
#[derive(Clone, Copy, Debug, PartialEq, Eq)]
pub enum WaitOutcome {
    /// The signal fired during the wait, or had fired before it began.
    Signaled,
    /// Whoever could have fired the signal is gone.
    Disconnected,
    /// The interval passed without a signal.
    TimedOut,
}

impl WaitOutcome {
    /// Whether this outcome ends the polling loop. A vanished signal source
    /// counts as a stop: nobody is left who could ask for one later.
    pub open spec fn stops(self) -> bool {
        self != WaitOutcome::TimedOut
    }

    /// Whether this outcome ends the polling loop.
    pub fn is_stop(&self) -> (stop: bool)
        ensures
            stop == self.stops(),
    {
        match self {
            WaitOutcome::TimedOut => false,
            _ => true,
        }
    }
}

impl StopSignal {
    /// Whether the signal has fired.
    pub closed spec fn signaled(&self) -> bool {
        self.signaled
    }

    /// A signal that has not fired.
    pub fn new() -> (signal: StopSignal)
        ensures
            !signal.signaled(),
    {
        StopSignal { signaled: false }
    }

    /// Fires the signal. Returns `true` for the one call that takes the
    /// signal from not signaled to signaled, and `false` for every later one.
    pub fn fire(&mut self) -> (first: bool)
        ensures
            final(self).signaled(),
            first == !old(self).signaled(),
    {
        let first = !self.signaled;
        self.signaled = true;
        first
    }

    /// Whether the signal has fired.
    pub fn is_signaled(&self) -> (signaled: bool)
        ensures
            signaled == self.signaled(),
    {
        self.signaled
    }
}

} // verus!
