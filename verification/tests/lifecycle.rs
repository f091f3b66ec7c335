use urad_ingester::lifecycle::{
    Completion, Exit, Lifecycle, LifecycleAction, LifecycleState, Mode, Stage, LISTEN_ADDRESS,
};
use urad_ingester::poller::{PollAction, PollEvent, Poller, PollerState};
use urad_ingester::sensor::FetchError;
use urad_ingester::service::{
    on_control, status_report, Control, ControlOutcome, ControlReply, ServiceState, StatusReport,
    SERVICE_NAME,
};
use urad_ingester::stop::{StopSignal, WaitOutcome};

const RUNNING: StatusReport = StatusReport {
    state: ServiceState::Running,
    accepts_stop: true,
    exit_code: 0,
    checkpoint: 0,
    wait_hint_millis: 0,
};

const STOPPED: StatusReport = StatusReport {
    state: ServiceState::Stopped,
    accepts_stop: false,
    exit_code: 0,
    checkpoint: 0,
    wait_hint_millis: 0,
};

fn actions(mode: Mode, completions: &[Completion]) -> Vec<LifecycleAction> {
    let mut lifecycle = Lifecycle::new(mode);
    let mut seen = vec![lifecycle.action()];
    for completion in completions {
        seen.push(lifecycle.step(*completion));
    }
    seen
}

#[test]
fn names_and_addresses_are_fixed() {
    assert_eq!(LISTEN_ADDRESS, "127.0.0.1:8753");
    assert_eq!(SERVICE_NAME, "urad_ingester");
}

#[test]
fn signal_starts_out_not_signaled() {
    assert!(!StopSignal::new().is_signaled());
}

#[test]
fn signal_fires_once_and_stays_signaled() {
    let mut signal = StopSignal::new();
    assert!(signal.fire());
    assert!(signal.is_signaled());
    assert!(!signal.fire());
    assert!(signal.is_signaled());
    assert!(!signal.fire());
    assert!(signal.is_signaled());
}

#[test]
fn stop_control_fires_the_signal() {
    let mut signal = StopSignal::new();
    let outcome = on_control(&mut signal, Control::Stop);
    assert_eq!(outcome, ControlOutcome { reply: ControlReply::NoError, fired: true });
    assert!(signal.is_signaled());
}

#[test]
fn second_stop_control_is_answered_but_fires_nothing() {
    let mut signal = StopSignal::new();
    on_control(&mut signal, Control::Stop);
    let outcome = on_control(&mut signal, Control::Stop);
    assert_eq!(outcome, ControlOutcome { reply: ControlReply::NoError, fired: false });
    assert!(signal.is_signaled());
}

#[test]
fn interrogate_is_answered_and_does_nothing() {
    let mut signal = StopSignal::new();
    let outcome = on_control(&mut signal, Control::Interrogate);
    assert_eq!(outcome, ControlOutcome { reply: ControlReply::NoError, fired: false });
    assert!(!signal.is_signaled());
}

#[test]
fn other_controls_are_not_implemented() {
    let mut signal = StopSignal::new();
    let outcome = on_control(&mut signal, Control::Other);
    assert_eq!(outcome, ControlOutcome { reply: ControlReply::NotImplemented, fired: false });
    assert!(!signal.is_signaled());
}

#[test]
fn controls_after_the_stop_leave_the_signal_fired() {
    let mut signal = StopSignal::new();
    on_control(&mut signal, Control::Stop);
    assert_eq!(on_control(&mut signal, Control::Interrogate).reply, ControlReply::NoError);
    assert_eq!(on_control(&mut signal, Control::Other).reply, ControlReply::NotImplemented);
    assert!(signal.is_signaled());
}

#[test]
fn running_report_accepts_stop() {
    assert_eq!(status_report(ServiceState::Running), RUNNING);
}

#[test]
fn stopped_report_accepts_nothing() {
    assert_eq!(status_report(ServiceState::Stopped), STOPPED);
}

#[test]
fn service_begins_with_registration() {
    let lifecycle = Lifecycle::new(Mode::Service);
    assert_eq!(
        lifecycle.state(),
        LifecycleState { mode: Mode::Service, stage: Stage::Registering, failed: false }
    );
    assert_eq!(lifecycle.action(), LifecycleAction::Register);
}

#[test]
fn standalone_begins_with_the_start() {
    let lifecycle = Lifecycle::new(Mode::Standalone);
    assert_eq!(
        lifecycle.state(),
        LifecycleState { mode: Mode::Standalone, stage: Stage::Starting, failed: false }
    );
    assert_eq!(lifecycle.action(), LifecycleAction::Start);
}

#[test]
fn service_run_goes_through_every_stage_in_order() {
    let seen = actions(Mode::Service, &[Completion::Succeeded; 6]);
    assert_eq!(
        seen,
        vec![
            LifecycleAction::Register,
            LifecycleAction::Report(RUNNING),
            LifecycleAction::Start,
            LifecycleAction::AwaitPoller,
            LifecycleAction::CloseListener,
            LifecycleAction::Report(STOPPED),
            LifecycleAction::Exit(Exit::Clean),
        ]
    );
}

#[test]
fn standalone_run_has_nobody_to_report_to() {
    let seen = actions(Mode::Standalone, &[Completion::Succeeded; 3]);
    assert_eq!(
        seen,
        vec![
            LifecycleAction::Start,
            LifecycleAction::AwaitPoller,
            LifecycleAction::CloseListener,
            LifecycleAction::Exit(Exit::Clean),
        ]
    );
}

#[test]
fn failed_registration_ends_the_run_before_any_work() {
    let seen = actions(Mode::Service, &[Completion::Failed]);
    assert_eq!(seen, vec![LifecycleAction::Register, LifecycleAction::Exit(Exit::Failed)]);
}

#[test]
fn failed_running_report_ends_the_run_before_any_work() {
    let seen = actions(Mode::Service, &[Completion::Succeeded, Completion::Failed]);
    assert_eq!(
        seen,
        vec![
            LifecycleAction::Register,
            LifecycleAction::Report(RUNNING),
            LifecycleAction::Exit(Exit::Failed),
        ]
    );
}

#[test]
fn failed_start_of_a_service_is_reported_as_stopped() {
    let seen = actions(
        Mode::Service,
        &[Completion::Succeeded, Completion::Succeeded, Completion::Failed, Completion::Succeeded],
    );
    assert_eq!(
        seen,
        vec![
            LifecycleAction::Register,
            LifecycleAction::Report(RUNNING),
            LifecycleAction::Start,
            LifecycleAction::Report(STOPPED),
            LifecycleAction::Exit(Exit::Failed),
        ]
    );
}

#[test]
fn failed_start_of_a_standalone_process_ends_the_run() {
    let seen = actions(Mode::Standalone, &[Completion::Failed]);
    assert_eq!(seen, vec![LifecycleAction::Start, LifecycleAction::Exit(Exit::Failed)]);
}

#[test]
fn failure_while_closing_is_remembered_to_the_end() {
    let seen = actions(
        Mode::Service,
        &[
            Completion::Succeeded,
            Completion::Succeeded,
            Completion::Succeeded,
            Completion::Succeeded,
            Completion::Failed,
            Completion::Succeeded,
        ],
    );
    assert_eq!(seen[5], LifecycleAction::Report(STOPPED));
    assert_eq!(seen[6], LifecycleAction::Exit(Exit::Failed));
}

#[test]
fn failed_stopped_report_fails_the_run() {
    let mut completions = [Completion::Succeeded; 6];
    completions[5] = Completion::Failed;
    let seen = actions(Mode::Service, &completions);
    assert_eq!(seen[6], LifecycleAction::Exit(Exit::Failed));
}

#[test]
fn finished_run_stays_finished() {
    let mut lifecycle = Lifecycle::new(Mode::Standalone);
    for _ in 0..3 {
        lifecycle.step(Completion::Succeeded);
    }
    let done = lifecycle.state();
    assert_eq!(done, LifecycleState { mode: Mode::Standalone, stage: Stage::Done, failed: false });
    assert_eq!(lifecycle.step(Completion::Failed), LifecycleAction::Exit(Exit::Clean));
    assert_eq!(lifecycle.state(), done);
    assert_eq!(lifecycle.step(Completion::Succeeded), LifecycleAction::Exit(Exit::Clean));
    assert_eq!(lifecycle.state(), done);
}

#[test]
fn stop_in_the_middle_of_a_wait_winds_the_service_down() {
    let mut signal = StopSignal::new();
    let mut lifecycle = Lifecycle::new(Mode::Service);
    let mut poller = Poller::new();

    assert_eq!(lifecycle.step(Completion::Succeeded), LifecycleAction::Report(RUNNING));
    assert_eq!(lifecycle.step(Completion::Succeeded), LifecycleAction::Start);
    assert_eq!(lifecycle.step(Completion::Succeeded), LifecycleAction::AwaitPoller);

    poller.step(PollEvent::Fetched(Err(FetchError::Connect)));
    assert_eq!(poller.action(), PollAction::Wait { millis: 1_000 });

    assert!(on_control(&mut signal, Control::Stop).fired);
    assert!(signal.is_signaled());

    poller.step(PollEvent::Waited(WaitOutcome::Signaled));
    assert_eq!(poller.state(), PollerState::Stopped);
    assert_eq!(poller.action(), PollAction::Halt);

    assert_eq!(lifecycle.step(Completion::Succeeded), LifecycleAction::CloseListener);
    assert_eq!(lifecycle.step(Completion::Succeeded), LifecycleAction::Report(STOPPED));
    assert_eq!(lifecycle.step(Completion::Succeeded), LifecycleAction::Exit(Exit::Clean));
    assert_eq!(lifecycle.state().stage, Stage::Done);
}
