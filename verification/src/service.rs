//! What the collector says to a host service manager, and what it makes of
//! the controls that the manager sends.

use crate::stop::StopSignal;
use vstd::prelude::*;

verus! {

/// The name under which the collector registers as a service.
pub const SERVICE_NAME: &'static str = "urad_ingester";

/// A control sent by the service manager.
#[derive(Clone, Copy, Debug, PartialEq, Eq)]
pub enum Control {
    /// The service is asked to stop.
    Stop,
    /// The service is asked to report its status; there is nothing to do.
    Interrogate,
    /// Any other control.
    Other,
}

/// The answer to a control.
#[derive(Clone, Copy, Debug, PartialEq, Eq)]
pub enum ControlReply {
    NoError,
    NotImplemented,
}

/// What handling one control came to.
#[derive(Clone, Copy, Debug, PartialEq, Eq)]
pub struct ControlOutcome {
    /// The answer for the service manager.
    pub reply: ControlReply,
    /// Whether this control fired the stop signal, so that waiters are to
    /// be woken.
    pub fired: bool,
}

/// The state that the service reports.
#[derive(Clone, Copy, Debug, PartialEq, Eq)]
pub enum ServiceState {
    Running,
    Stopped,
}

/// One status report to the service manager. The service runs in a process
/// of its own.
#[derive(Clone, Copy, Debug, PartialEq, Eq)]
pub struct StatusReport {
    pub state: ServiceState,
    /// Whether a stop control is accepted in this state.
    pub accepts_stop: bool,
    pub exit_code: u32,
    pub checkpoint: u32,
    pub wait_hint_millis: u64,
}

/// The answer that `control` gets.
pub open spec fn reply_to(control: Control) -> ControlReply {
    match control {
        Control::Stop | Control::Interrogate => ControlReply::NoError,
        Control::Other => ControlReply::NotImplemented,
    }
}

/// The report for `state`: stop is accepted while running and no longer
/// once stopped; the exit code, the checkpoint and the wait hint are zero,
/// as they are outside of pending states and errors.
pub open spec fn report_of(state: ServiceState) -> StatusReport {
    StatusReport {
        state,
        accepts_stop: state == ServiceState::Running,
        exit_code: 0,
        checkpoint: 0,
        wait_hint_millis: 0,
    }
}

/// Handles one control: a stop fires `signal`, an interrogation does
/// nothing, and both are answered with `NoError`; anything else is not
/// implemented and leaves the signal alone.
pub fn on_control(signal: &mut StopSignal, control: Control) -> (outcome: ControlOutcome)
    ensures
        outcome.reply == reply_to(control),
        outcome.fired == (control == Control::Stop && !old(signal).signaled()),
        final(signal).signaled() == (old(signal).signaled() || control == Control::Stop),
{
    match control {
        Control::Stop => {
            let fired = signal.fire();
            ControlOutcome { reply: ControlReply::NoError, fired }
        },
        Control::Interrogate => ControlOutcome { reply: ControlReply::NoError, fired: false },
        Control::Other => ControlOutcome { reply: ControlReply::NotImplemented, fired: false },
    }
}

/// The status to report for `state`.
pub fn status_report(state: ServiceState) -> (report: StatusReport)
    ensures
        report == report_of(state),
{
    let accepts_stop = match state {
        ServiceState::Running => true,
        ServiceState::Stopped => false,
    };
    StatusReport { state, accepts_stop, exit_code: 0, checkpoint: 0, wait_hint_millis: 0 }
}

} // verus!
