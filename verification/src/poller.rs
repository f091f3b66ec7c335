//! The polling loop as a state machine.
//!
//! One cycle is a fetch followed by a bounded wait for the stop signal. The
//! machine performs neither: it says what to do next, and is told what came
//! of it. In between it decides what enters the history and when the loop
//! ends.

use crate::history::History;
use crate::reading::HistoryEntry;
use crate::sensor::FetchError;
use crate::stop::WaitOutcome;
use crate::trace::{collected, run};
use vstd::prelude::*;

verus! {

/// How long one wait for the stop signal may last, in milliseconds.
pub const POLL_INTERVAL_MILLIS: u64 = 1000;

/// Where the loop stands. `Fetching` and `Waiting` are the two halves of
/// the running state; `Stopped` is terminal.
#[derive(Clone, Copy, Debug, PartialEq, Eq)]
pub enum PollerState {
    /// A fetch is due or in flight.
    Fetching,
    /// The wait for the stop signal is due or under way.
    Waiting,
    /// The loop has ended.
    Stopped,
}

/// What the driver reports back.
#[derive(Clone, Copy, Debug, PartialEq, Eq)]
pub enum PollEvent {
    /// The fetch completed: an entry stamped at completion, or the reason
    /// why there is none.
    Fetched(Result<HistoryEntry, FetchError>),
    /// The wait ended.
    Waited(WaitOutcome),
}

/// What the driver is to do next.
#[derive(Clone, Copy, Debug, PartialEq, Eq)]
pub enum PollAction {
    /// Issue one fetch and report `PollEvent::Fetched`.
    Fetch,
    /// Wait for the stop signal for at most `millis` milliseconds and
    /// report `PollEvent::Waited`.
    Wait { millis: u64 },
    /// Leave the loop.
    Halt,
}

impl PollerState {
    /// Running covers both halves of a cycle.
    pub open spec fn running(self) -> bool {
        self != PollerState::Stopped
    }

    /// The state after `event`. An event that answers nothing the machine
    /// asked for leaves the state as it is.
    pub open spec fn next(self, event: PollEvent) -> PollerState {
        match (self, event) {
            (PollerState::Fetching, PollEvent::Fetched(_)) => PollerState::Waiting,
            (PollerState::Waiting, PollEvent::Waited(outcome)) => if outcome.stops() {
                PollerState::Stopped
            } else {
                PollerState::Fetching
            },
            _ => self,
        }
    }

    /// The entry that `event` adds to the history: the one a successful
    /// fetch brought, if a fetch was due; otherwise none.
    pub open spec fn yields(self, event: PollEvent) -> Option<HistoryEntry> {
        match (self, event) {
            (PollerState::Fetching, PollEvent::Fetched(Ok(entry))) => Some(entry),
            _ => None,
        }
    }

    /// What the machine asks for in this state.
    pub open spec fn action(self) -> PollAction {
        match self {
            PollerState::Fetching => PollAction::Fetch,
            PollerState::Waiting => PollAction::Wait { millis: POLL_INTERVAL_MILLIS },
            PollerState::Stopped => PollAction::Halt,
        }
    }
}

/// The polling loop's state machine.
pub struct Poller {
    state: PollerState,
}

impl View for Poller {
    type V = PollerState;

    closed spec fn view(&self) -> PollerState {
        self.state
    }
}

impl Poller {
    /// A poller about to begin its first cycle.
    pub fn new() -> (poller: Poller)
        ensures
            poller@ == PollerState::Fetching,
    {
        Poller { state: PollerState::Fetching }
    }

    /// Where the loop stands.
    pub fn state(&self) -> (state: PollerState)
        ensures
            state == self@,
    {
        self.state
    }

    /// Whether the loop has not ended yet.
    pub fn is_running(&self) -> (running: bool)
        ensures
            running == self@.running(),
    {
        match self.state {
            PollerState::Stopped => false,
            _ => true,
        }
    }

    /// What the driver is to do next.
    pub fn action(&self) -> (action: PollAction)
        ensures
            action == self@.action(),
    {
        match self.state {
            PollerState::Fetching => PollAction::Fetch,
            PollerState::Waiting => PollAction::Wait { millis: POLL_INTERVAL_MILLIS },
            PollerState::Stopped => PollAction::Halt,
        }
    }

    /// Takes in one event. Returns the entry that the caller is to append
    /// to the history, if the event brought one.
    ///
    /// A completed fetch always leads to the wait, with or without an
    /// entry: a failed fetch is dropped and the loop goes on. Only the wait
    /// looks at the stop signal, so a fetch that was in flight when the
    /// signal fired still delivers its entry.
    pub fn step(&mut self, event: PollEvent) -> (entry: Option<HistoryEntry>)
        ensures
            final(self)@ == old(self)@.next(event),
            entry == old(self)@.yields(event),
    {
        match self.state {
            PollerState::Fetching => match event {
                PollEvent::Fetched(outcome) => {
                    self.state = PollerState::Waiting;
                    match outcome {
                        Ok(entry) => Some(entry),
                        Err(_) => None,
                    }
                },
                PollEvent::Waited(_) => None,
            },
            PollerState::Waiting => match event {
                PollEvent::Waited(outcome) => {
                    if outcome.is_stop() {
                        self.state = PollerState::Stopped;
                    } else {
                        self.state = PollerState::Fetching;
                    }
                    None
                },
                PollEvent::Fetched(_) => None,
            },
            PollerState::Stopped => None,
        }
    }

    /// Takes in a recorded run of events and appends to `history` whatever
    /// they bring, as a driver would have done event by event.
    pub fn replay(&mut self, history: &mut History, events: &Vec<PollEvent>)
        ensures
            final(self)@ == run(old(self)@, events@),
            final(history)@ == old(history)@ + collected(old(self)@, events@),
    {
        let mut i: usize = 0;
        while i < events.len()
            invariant
                i <= events.len(),
                self@ == run(old(self)@, events@.take(i as int)),
                history@ == old(history)@ + collected(old(self)@, events@.take(i as int)),
            decreases events.len() - i,
        {
            proof {
                assert(events@.take(i + 1).drop_last() == events@.take(i as int));
            }
            match self.step(events[i]) {
                Some(entry) => history.append(entry),
                None => {},
            }
            i += 1;
        }
        proof {
            assert(events@.take(i as int) == events@);
        }
    }
}

} // verus!
