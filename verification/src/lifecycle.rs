//! Start and stop sequencing.
//!
//! The coordinator asks for one thing at a time and is told how it went.
//! It never closes the listener before the poller has left its loop, and
//! never reports the stop before the listener is closed.

use crate::service::{report_of, status_report, ServiceState, StatusReport};
use vstd::prelude::*;

verus! {

/// Address on which the history is served.
pub const LISTEN_ADDRESS: &'static str = "127.0.0.1:8753";

/// Whether a service manager supervises the process.
#[derive(Clone, Copy, Debug, PartialEq, Eq)]
pub enum Mode {
    /// Nothing supervises the process and nothing fires the stop signal:
    /// it runs until it is killed.
    Standalone,
    /// A service manager starts the process, is told of its state and may
    /// ask it to stop.
    Service,
}

/// What the coordinator is waiting for.
#[derive(Clone, Copy, Debug, PartialEq, Eq)]
pub enum Stage {
    /// Registration of the control handler.
    Registering,
    /// The report that the service is running.
    Announcing,
    /// The listener to be bound and the poller to be started.
    Starting,
    /// The poller to leave its loop.
    Serving,
    /// The listener to be closed.
    Closing,
    /// The report that the service has stopped.
    Retiring,
    /// Nothing: the run is over.
    Done,
}

/// How the step that the coordinator asked for went.
#[derive(Clone, Copy, Debug, PartialEq, Eq)]
pub enum Completion {
    Succeeded,
    Failed,
}

/// How the run ended.
#[derive(Clone, Copy, Debug, PartialEq, Eq)]
pub enum Exit {
    Clean,
    Failed,
}

/// What the coordinator asks for.
#[derive(Clone, Copy, Debug, PartialEq, Eq)]
pub enum LifecycleAction {
    /// Register the control handler with the service manager.
    Register,
    /// Send this status to the service manager.
    Report(StatusReport),
    /// Bind the listener, begin to serve and start the poller.
    Start,
    /// Wait until the poller has left its loop.
    AwaitPoller,
    /// Stop accepting connections, let the requests in flight complete, and
    /// wait until the listener is closed.
    CloseListener,
    /// Leave.
    Exit(Exit),
}

/// The coordinator's state.
#[derive(Clone, Copy, Debug, PartialEq, Eq)]
pub struct LifecycleState {
    pub mode: Mode,
    pub stage: Stage,
    /// Whether some step has failed so far.
    pub failed: bool,
}

impl Stage {
    /// The position of the stage in the order in which stages are passed.
    pub open spec fn rank(self) -> nat {
        match self {
            Stage::Registering => 0,
            Stage::Announcing => 1,
            Stage::Starting => 2,
            Stage::Serving => 3,
            Stage::Closing => 4,
            Stage::Retiring => 5,
            Stage::Done => 6,
        }
    }
}

impl LifecycleState {
    /// Where a run begins: a service registers first, a standalone process
    /// starts right away.
    pub open spec fn initial(mode: Mode) -> LifecycleState {
        LifecycleState {
            mode,
            stage: match mode {
                Mode::Service => Stage::Registering,
                Mode::Standalone => Stage::Starting,
            },
            failed: false,
        }
    }

    /// The stage that follows the end of serving, or a failed start: a
    /// service still has its stop to report.
    pub open spec fn wind_down(self) -> Stage {
        match self.mode {
            Mode::Service => Stage::Retiring,
            Mode::Standalone => Stage::Done,
        }
    }

    /// The state after the pending step completed as `completion` says.
    ///
    /// A failure before anything was started ends the run at once. A failed
    /// start ends it too, after the stop has been reported where there is
    /// someone to report to. From serving on, every stage is gone through
    /// whether or not the one before went well.
    pub open spec fn next(self, completion: Completion) -> LifecycleState {
        let ok = completion == Completion::Succeeded;
        let stage = match self.stage {
            Stage::Registering => if ok {
                Stage::Announcing
            } else {
                Stage::Done
            },
            Stage::Announcing => if ok {
                Stage::Starting
            } else {
                Stage::Done
            },
            Stage::Starting => if ok {
                Stage::Serving
            } else {
                self.wind_down()
            },
            Stage::Serving => Stage::Closing,
            Stage::Closing => self.wind_down(),
            Stage::Retiring => Stage::Done,
            Stage::Done => Stage::Done,
        };
        LifecycleState {
            mode: self.mode,
            stage,
            failed: self.failed || (self.stage != Stage::Done && !ok),
        }
    }

    /// What is asked for in this state.
    pub open spec fn action(self) -> LifecycleAction {
        match self.stage {
            Stage::Registering => LifecycleAction::Register,
            Stage::Announcing => LifecycleAction::Report(report_of(ServiceState::Running)),
            Stage::Starting => LifecycleAction::Start,
            Stage::Serving => LifecycleAction::AwaitPoller,
            Stage::Closing => LifecycleAction::CloseListener,
            Stage::Retiring => LifecycleAction::Report(report_of(ServiceState::Stopped)),
            Stage::Done => LifecycleAction::Exit(
                if self.failed {
                    Exit::Failed
                } else {
                    Exit::Clean
                },
            ),
        }
    }
}

/// The lifecycle coordinator.
pub struct Lifecycle {
    state: LifecycleState,
}

impl View for Lifecycle {
    type V = LifecycleState;

    closed spec fn view(&self) -> LifecycleState {
        self.state
    }
}

impl Lifecycle {
    /// A coordinator at the beginning of a run.
    pub fn new(mode: Mode) -> (lifecycle: Lifecycle)
        ensures
            lifecycle@ == LifecycleState::initial(mode),
    {
        let stage = match mode {
            Mode::Service => Stage::Registering,
            Mode::Standalone => Stage::Starting,
        };
        Lifecycle { state: LifecycleState { mode, stage, failed: false } }
    }

    /// The coordinator's state.
    pub fn state(&self) -> (state: LifecycleState)
        ensures
            state == self@,
    {
        self.state
    }

    /// What the caller is to do now.
    pub fn action(&self) -> (action: LifecycleAction)
        ensures
            action == self@.action(),
    {
        match self.state.stage {
            Stage::Registering => LifecycleAction::Register,
            Stage::Announcing => LifecycleAction::Report(status_report(ServiceState::Running)),
            Stage::Starting => LifecycleAction::Start,
            Stage::Serving => LifecycleAction::AwaitPoller,
            Stage::Closing => LifecycleAction::CloseListener,
            Stage::Retiring => LifecycleAction::Report(status_report(ServiceState::Stopped)),
            Stage::Done => if self.state.failed {
                LifecycleAction::Exit(Exit::Failed)
            } else {
                LifecycleAction::Exit(Exit::Clean)
            },
        }
    }

    /// Takes in how the pending step went and returns what to do next.
    pub fn step(&mut self, completion: Completion) -> (action: LifecycleAction)
        ensures
            final(self)@ == old(self)@.next(completion),
            action == final(self)@.action(),
    {
        let ok = match completion {
            Completion::Succeeded => true,
            Completion::Failed => false,
        };
        let wind_down = match self.state.mode {
            Mode::Service => Stage::Retiring,
            Mode::Standalone => Stage::Done,
        };
        let stage = match self.state.stage {
            Stage::Registering => if ok {
                Stage::Announcing
            } else {
                Stage::Done
            },
            Stage::Announcing => if ok {
                Stage::Starting
            } else {
                Stage::Done
            },
            Stage::Starting => if ok {
                Stage::Serving
            } else {
                wind_down
            },
            Stage::Serving => Stage::Closing,
            Stage::Closing => wind_down,
            Stage::Retiring => Stage::Done,
            Stage::Done => Stage::Done,
        };
        let over = match self.state.stage {
            Stage::Done => true,
            _ => false,
        };
        self.state = LifecycleState {
            mode: self.state.mode,
            stage,
            failed: self.state.failed || (!over && !ok),
        };
        self.action()
    }
}

/// Stages are passed in one order and none twice: every step moves to a
/// later stage, until the run is over, and then nothing changes any more.
pub proof fn lemma_stages_advance(state: LifecycleState, completion: Completion)
    ensures
        state.stage != Stage::Done ==> state.next(completion).stage.rank() > state.stage.rank(),
        state.stage == Stage::Done ==> state.next(completion) == state,
        state.next(completion).mode == state.mode,
        state.failed ==> state.next(completion).failed,
{
}

/// The shutdown order. The listener is asked to close only when the wait
/// for the poller is over, and a stop is reported only in service mode,
/// when the listener has been closed or could not be started.
pub proof fn lemma_shutdown_order(state: LifecycleState, completion: Completion)
    ensures
        state.next(completion).stage == Stage::Closing ==> state.stage == Stage::Serving,
        state.next(completion).stage == Stage::Retiring ==> state.mode == Mode::Service && (state.stage
            == Stage::Closing || (state.stage == Stage::Starting && completion
            == Completion::Failed)),
        state.next(completion).stage == Stage::Serving ==> state.stage == Stage::Starting && completion
            == Completion::Succeeded,
{
}

} // verus!
