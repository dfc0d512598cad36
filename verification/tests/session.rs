use exec_session::session::Action;
use exec_session::session::EXIT_STATUS_TIMED_OUT;
use exec_session::session::EXIT_STATUS_UNKNOWN;
use exec_session::session::Event;
use exec_session::session::Phase;
use exec_session::session::Session;

fn request(code: &[u8], timeout_ms: u64) -> Event {
    Event::RequestDecoded { code: code.to_vec(), timeout_ms }
}

#[test]
fn run_only_session_reaches_exit_zero() {
    let mut s = Session::new(false);
    assert_eq!(s.phase, Phase::AwaitRequest);

    let acts = s.step(request(b"prints hi then exits 0", 5000));
    assert_eq!(s.phase, Phase::Provisioning);
    assert_eq!(s.timeout_ms, 5000);
    assert!(matches!(acts[..], [Action::CreateWorkspace { .. }]));

    let acts = s.step(Event::Provisioned);
    assert_eq!(s.phase, Phase::Executing);
    assert!(matches!(acts[..], [Action::StartRun]));

    let acts = s.step(Event::RunExited { code: Some(0) });
    assert_eq!(s.phase, Phase::Exited);
    assert!(matches!(
        acts[..],
        [Action::StopForwarder, Action::EmitExitFrame { status: 0 }, Action::RemoveWorkspace]
    ));

    let acts = s.step(Event::TornDown { removed: true });
    assert_eq!(s.phase, Phase::Finalized);
    assert!(acts.is_empty());
}

#[test]
fn build_session_runs_after_successful_build() {
    let mut s = Session::new(true);
    s.step(request(b"fn main() {}", 1000));
    let acts = s.step(Event::Provisioned);
    assert_eq!(s.phase, Phase::Compiling);
    assert!(matches!(acts[..], [Action::StartBuild]));

    let acts = s.step(Event::BuildExited { code: Some(0) });
    assert_eq!(s.phase, Phase::Executing);
    assert!(matches!(acts[..], [Action::StartRun]));

    let acts = s.step(Event::RunExited { code: Some(3) });
    assert!(matches!(
        acts[..],
        [Action::StopForwarder, Action::EmitExitFrame { status: 3 }, Action::RemoveWorkspace]
    ));
    s.step(Event::TornDown { removed: true });
    assert_eq!(s.phase, Phase::Finalized);
}

#[test]
fn failed_build_emits_error_frame_and_no_exit_frame() {
    let mut s = Session::new(true);
    s.step(request(b"does not compile", 1000));
    s.step(Event::Provisioned);

    let acts = s.step(Event::BuildExited { code: Some(1) });
    assert_eq!(s.phase, Phase::CompileFailed);
    assert!(matches!(
        acts[..],
        [Action::EmitErrorFrame { status: 1 }, Action::RemoveWorkspace]
    ));
    assert!(!acts.iter().any(|a| matches!(a, Action::EmitExitFrame { .. })));

    let acts = s.step(Event::TornDown { removed: true });
    assert_eq!(s.phase, Phase::Finalized);
    assert!(acts.is_empty());
}

#[test]
fn signal_killed_run_reports_sentinel() {
    let mut s = Session::new(false);
    s.step(request(b"aborts", 1000));
    s.step(Event::Provisioned);
    let acts = s.step(Event::RunExited { code: None });
    assert!(matches!(
        acts[..],
        [
            Action::StopForwarder,
            Action::EmitExitFrame { status },
            Action::RemoveWorkspace,
        ] if status == EXIT_STATUS_UNKNOWN
    ));
}

#[test]
fn timed_out_run_is_killed_and_reported() {
    let mut s = Session::new(false);
    s.step(request(b"loop {}", 100));
    s.step(Event::Provisioned);
    assert_eq!(s.phase, Phase::Executing);

    let acts = s.step(Event::TimedOut);
    assert_eq!(s.phase, Phase::Exited);
    assert!(matches!(
        acts[..],
        [
            Action::KillChild,
            Action::StopForwarder,
            Action::EmitExitFrame { status },
            Action::RemoveWorkspace,
        ] if status == EXIT_STATUS_TIMED_OUT
    ));
    s.step(Event::TornDown { removed: true });
    assert_eq!(s.phase, Phase::Finalized);
}

#[test]
fn unreadable_request_finalizes_without_actions() {
    let mut s = Session::new(true);
    let acts = s.step(Event::RequestUnreadable);
    assert_eq!(s.phase, Phase::Finalized);
    assert!(acts.is_empty());
}

#[test]
fn provision_failure_reclaims_without_frames() {
    let mut s = Session::new(true);
    s.step(request(b"anything", 1000));
    let acts = s.step(Event::ProvisionFailed);
    assert_eq!(s.phase, Phase::CompileFailed);
    assert!(matches!(acts[..], [Action::RemoveWorkspace]));
    s.step(Event::TornDown { removed: true });
    assert_eq!(s.phase, Phase::Finalized);
}

#[test]
fn launch_failure_is_fatal_and_reclaims() {
    let mut s = Session::new(true);
    s.step(request(b"anything", 1000));
    s.step(Event::Provisioned);
    let acts = s.step(Event::LaunchFailed);
    assert_eq!(s.phase, Phase::CompileFailed);
    assert!(matches!(acts[..], [Action::RemoveWorkspace]));
}

#[test]
fn run_launch_failure_is_fatal_and_reclaims() {
    let mut s = Session::new(false);
    s.step(request(b"anything", 1000));
    s.step(Event::Provisioned);
    assert_eq!(s.phase, Phase::Executing);
    let acts = s.step(Event::LaunchFailed);
    assert_eq!(s.phase, Phase::CompileFailed);
    assert!(matches!(acts[..], [Action::RemoveWorkspace]));
}

#[test]
fn failed_teardown_still_finalizes() {
    let mut s = Session::new(false);
    s.step(request(b"anything", 1000));
    s.step(Event::Provisioned);
    s.step(Event::RunExited { code: Some(0) });
    let acts = s.step(Event::TornDown { removed: false });
    assert_eq!(s.phase, Phase::Finalized);
    assert!(acts.is_empty());
}

#[test]
fn unexpected_events_are_absorbed() {
    let mut s = Session::new(false);
    let acts = s.step(Event::RunExited { code: Some(0) });
    assert_eq!(s.phase, Phase::AwaitRequest);
    assert!(acts.is_empty());

    s.step(request(b"anything", 1000));
    let acts = s.step(Event::TimedOut);
    assert_eq!(s.phase, Phase::Provisioning);
    assert!(acts.is_empty());

    s.step(Event::Provisioned);
    s.step(Event::RunExited { code: Some(0) });
    s.step(Event::TornDown { removed: true });
    let acts = s.step(Event::Provisioned);
    assert_eq!(s.phase, Phase::Finalized);
    assert!(acts.is_empty());
}
