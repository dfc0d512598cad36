//! The session state machine: provision, optionally build, run, finalize.
//!
//! One `Session` value drives one accepted connection. The driver delivers
//! `Event`s (a decoded request, a process exit, a teardown result, ...) and
//! performs the returned `Action`s (create the workspace, start a child,
//! emit a terminal frame, remove the workspace). All decisions live here and
//! are verified; the driver only moves bytes and processes.

use vstd::prelude::*;

verus! {

/// Exit status reported when the run child terminated without a numeric
/// exit code (killed by a signal).
pub const EXIT_STATUS_UNKNOWN: i32 = -1;

/// Exit status reported when the run child was forcibly terminated because
/// the caller-requested wall-clock budget (`timeout_ms`) ran out.
pub const EXIT_STATUS_TIMED_OUT: i32 = -2;

/// The phases of a session, from the first frame to reclamation.
#[derive(Clone, Copy, PartialEq, Eq, Structural, Debug)]
pub enum Phase {
    /// Waiting for the client's request frame.
    AwaitRequest,
    /// Creating the workspace and writing the submitted source.
    Provisioning,
    /// The build child is running.
    Compiling,
    /// The run child is running; output streamers and the stdin forwarder are live.
    Executing,
    /// The run child has terminated; terminal frame emitted, teardown issued.
    Exited,
    /// Provisioning, launching or building failed; teardown issued.
    CompileFailed,
    /// Terminal: the workspace reclamation attempt is done and the session is over.
    Finalized,
}

/// What the driver observed since the last step.
pub enum Event {
    /// The client's request frame arrived and its payload parsed.
    RequestDecoded { code: Vec<u8>, timeout_ms: u64 },
    /// The connection closed or the first frame was malformed.
    RequestUnreadable,
    /// Workspace created and source written.
    Provisioned,
    /// Workspace creation or source write failed.
    ProvisionFailed,
    /// The build child terminated; `code` is `None` on abnormal termination.
    BuildExited { code: Option<i32> },
    /// A child process could not be spawned (toolchain missing).
    LaunchFailed,
    /// The run child terminated; `code` is `None` on abnormal termination.
    RunExited { code: Option<i32> },
    /// The run child outlived the requested `timeout_ms` budget.
    TimedOut,
    /// The workspace reclamation attempt finished; `removed` tells whether it
    /// succeeded. Failure is absorbed: the session finalizes either way.
    TornDown { removed: bool },
}

/// The ghost mirror of an `Event`, with the submitted code as a byte sequence.
pub ghost enum EventView {
    RequestDecoded { code: Seq<u8>, timeout_ms: u64 },
    RequestUnreadable,
    Provisioned,
    ProvisionFailed,
    BuildExited { code: Option<i32> },
    LaunchFailed,
    RunExited { code: Option<i32> },
    TimedOut,
    TornDown { removed: bool },
}

impl View for Event {
    type V = EventView;

    open spec fn view(&self) -> EventView {
        match self {
            Event::RequestDecoded { code, timeout_ms } => EventView::RequestDecoded {
                code: code@,
                timeout_ms: *timeout_ms,
            },
            Event::RequestUnreadable => EventView::RequestUnreadable,
            Event::Provisioned => EventView::Provisioned,
            Event::ProvisionFailed => EventView::ProvisionFailed,
            Event::BuildExited { code } => EventView::BuildExited { code: *code },
            Event::LaunchFailed => EventView::LaunchFailed,
            Event::RunExited { code } => EventView::RunExited { code: *code },
            Event::TimedOut => EventView::TimedOut,
            Event::TornDown { removed } => EventView::TornDown { removed: *removed },
        }
    }
}

/// What the driver must do after a step, in order.
pub enum Action {
    /// Create the session workspace and write `code` into its source file.
    CreateWorkspace { code: Vec<u8> },
    /// Spawn the build child with its output piped.
    StartBuild,
    /// Spawn the run child with its input and output piped.
    StartRun,
    /// Forcibly terminate the run child.
    KillChild,
    /// Signal the stdin forwarder to stop before the child's stdin handle dies.
    StopForwarder,
    /// Emit the terminal `Exit` frame carrying `status`.
    EmitExitFrame { status: i32 },
    /// Emit an `Error` frame carrying the failed build's `status`.
    EmitErrorFrame { status: i32 },
    /// Attempt to remove the session workspace.
    RemoveWorkspace,
}

/// The ghost mirror of an `Action`.
pub ghost enum ActionView {
    CreateWorkspace { code: Seq<u8> },
    StartBuild,
    StartRun,
    KillChild,
    StopForwarder,
    EmitExitFrame { status: i32 },
    EmitErrorFrame { status: i32 },
    RemoveWorkspace,
}

impl View for Action {
    type V = ActionView;

    open spec fn view(&self) -> ActionView {
        match self {
            Action::CreateWorkspace { code } => ActionView::CreateWorkspace { code: code@ },
            Action::StartBuild => ActionView::StartBuild,
            Action::StartRun => ActionView::StartRun,
            Action::KillChild => ActionView::KillChild,
            Action::StopForwarder => ActionView::StopForwarder,
            Action::EmitExitFrame { status } => ActionView::EmitExitFrame { status: *status },
            Action::EmitErrorFrame { status } => ActionView::EmitErrorFrame { status: *status },
            Action::RemoveWorkspace => ActionView::RemoveWorkspace,
        }
    }
}

impl DeepView for Action {
    type V = ActionView;

    open spec fn deep_view(&self) -> ActionView {
        self.view()
    }
}

/// One session's control state.
///
/// `has_build_step` is fixed per deployment: whether the configured toolchain
/// needs a separate build child before the run child. `provision_issued` and
/// `teardown_issued` record whether a `CreateWorkspace` respectively a
/// `RemoveWorkspace` action has been handed to the driver; the well-formedness
/// invariant ties them to the phase, so that no path can finalize a
/// provisioned session without attempting reclamation.
pub struct Session {
    pub phase: Phase,
    pub has_build_step: bool,
    pub timeout_ms: u64,
    pub provision_issued: bool,
    pub teardown_issued: bool,
}

impl Session {
    /// The phase invariant: a workspace action has been issued exactly where
    /// the phase says one must have been.
    pub open spec fn wf(self) -> bool {
        &&& (self.phase == Phase::AwaitRequest ==> !self.provision_issued
            && !self.teardown_issued)
        &&& ((self.phase == Phase::Provisioning || self.phase == Phase::Compiling
            || self.phase == Phase::Executing) ==> self.provision_issued
            && !self.teardown_issued)
        &&& ((self.phase == Phase::Exited || self.phase == Phase::CompileFailed)
            ==> self.provision_issued && self.teardown_issued)
        &&& (self.phase == Phase::Finalized ==> (self.provision_issued
            ==> self.teardown_issued))
    }

    /// A fresh session on a just-accepted connection.
    pub fn new(has_build_step: bool) -> (s: Session)
        ensures
            s == spec_init(has_build_step),
            s.wf(),
    {
        Session {
            phase: Phase::AwaitRequest,
            has_build_step,
            timeout_ms: 0,
            provision_issued: false,
            teardown_issued: false,
        }
    }

    /// Advance the machine by one observed event.
    ///
    /// The returned actions are to be performed in order; the next event is
    /// the driver's report on them. The whole transition, state and actions
    /// both, is pinned to `spec_step`.
    pub fn step(&mut self, event: Event) -> (actions: Vec<Action>)
        requires
            old(self).wf(),
        ensures
            final(self).wf(),
            *final(self) == spec_step(*old(self), event@).0,
            actions.deep_view() == spec_step(*old(self), event@).1,
    {
        match (self.phase, event) {
            (Phase::AwaitRequest, Event::RequestDecoded { code, timeout_ms }) => {
                self.phase = Phase::Provisioning;
                self.timeout_ms = timeout_ms;
                self.provision_issued = true;
                let mut acts: Vec<Action> = Vec::new();
                acts.push(Action::CreateWorkspace { code });
                proof {
                    assert(acts.deep_view() =~= spec_step(*old(self), event@).1);
                }
                acts
            }
            (Phase::AwaitRequest, Event::RequestUnreadable) => {
                self.phase = Phase::Finalized;
                let acts: Vec<Action> = Vec::new();
                proof {
                    assert(acts.deep_view() =~= spec_step(*old(self), event@).1);
                }
                acts
            }
            (Phase::Provisioning, Event::Provisioned) => {
                let mut acts: Vec<Action> = Vec::new();
                if self.has_build_step {
                    self.phase = Phase::Compiling;
                    acts.push(Action::StartBuild);
                } else {
                    self.phase = Phase::Executing;
                    acts.push(Action::StartRun);
                }
                proof {
                    assert(acts.deep_view() =~= spec_step(*old(self), event@).1);
                }
                acts
            }
            (Phase::Provisioning, Event::ProvisionFailed) => {
                self.fail_without_frame()
            }
            (Phase::Compiling, Event::BuildExited { code }) => {
                let mut acts: Vec<Action> = Vec::new();
                match code {
                    Some(0i32) => {
                        self.phase = Phase::Executing;
                        acts.push(Action::StartRun);
                    }
                    _ => {
                        self.phase = Phase::CompileFailed;
                        self.teardown_issued = true;
                        let status: i32 = match code {
                            Some(c) => c,
                            None => EXIT_STATUS_UNKNOWN,
                        };
                        acts.push(Action::EmitErrorFrame { status });
                        acts.push(Action::RemoveWorkspace);
                    }
                }
                proof {
                    assert(acts.deep_view() =~= spec_step(*old(self), event@).1);
                }
                acts
            }
            (Phase::Compiling, Event::LaunchFailed) => {
                self.fail_without_frame()
            }
            (Phase::Executing, Event::LaunchFailed) => {
                self.fail_without_frame()
            }
            (Phase::Executing, Event::RunExited { code }) => {
                self.phase = Phase::Exited;
                self.teardown_issued = true;
                let status: i32 = match code {
                    Some(c) => c,
                    None => EXIT_STATUS_UNKNOWN,
                };
                let mut acts: Vec<Action> = Vec::new();
                acts.push(Action::StopForwarder);
                acts.push(Action::EmitExitFrame { status });
                acts.push(Action::RemoveWorkspace);
                proof {
                    assert(acts.deep_view() =~= spec_step(*old(self), event@).1);
                }
                acts
            }
            (Phase::Executing, Event::TimedOut) => {
                self.phase = Phase::Exited;
                self.teardown_issued = true;
                let mut acts: Vec<Action> = Vec::new();
                acts.push(Action::KillChild);
                acts.push(Action::StopForwarder);
                acts.push(Action::EmitExitFrame { status: EXIT_STATUS_TIMED_OUT });
                acts.push(Action::RemoveWorkspace);
                proof {
                    assert(acts.deep_view() =~= spec_step(*old(self), event@).1);
                }
                acts
            }
            (Phase::Exited, Event::TornDown { removed: _ }) => {
                self.phase = Phase::Finalized;
                let acts: Vec<Action> = Vec::new();
                proof {
                    assert(acts.deep_view() =~= spec_step(*old(self), event@).1);
                }
                acts
            }
            (Phase::CompileFailed, Event::TornDown { removed: _ }) => {
                self.phase = Phase::Finalized;
                let acts: Vec<Action> = Vec::new();
                proof {
                    assert(acts.deep_view() =~= spec_step(*old(self), event@).1);
                }
                acts
            }
            (_, _) => {
                let acts: Vec<Action> = Vec::new();
                proof {
                    assert(acts.deep_view() =~= spec_step(*old(self), event@).1);
                }
                acts
            }
        }
    }

    /// Shared failure path for provisioning and launch errors: no terminal
    /// frame, workspace reclamation issued.
    fn fail_without_frame(&mut self) -> (actions: Vec<Action>)
        ensures
            *final(self) == (Session {
                phase: Phase::CompileFailed,
                teardown_issued: true,
                ..*old(self)
            }),
            actions.deep_view() =~= seq![ActionView::RemoveWorkspace],
    {
        self.phase = Phase::CompileFailed;
        self.teardown_issued = true;
        let mut acts: Vec<Action> = Vec::new();
        acts.push(Action::RemoveWorkspace);
        acts
    }
}

/// The state a fresh session starts in.
pub open spec fn spec_init(has_build_step: bool) -> Session {
    Session {
        phase: Phase::AwaitRequest,
        has_build_step,
        timeout_ms: 0,
        provision_issued: false,
        teardown_issued: false,
    }
}

/// Whether the driver may deliver `e` in state `s`: each phase waits for the
/// reports that its issued actions can produce.
pub open spec fn expected_event(s: Session, e: EventView) -> bool {
    match s.phase {
        Phase::AwaitRequest => e is RequestDecoded || e is RequestUnreadable,
        Phase::Provisioning => e is Provisioned || e is ProvisionFailed,
        Phase::Compiling => e is BuildExited || e is LaunchFailed,
        Phase::Executing => e is RunExited || e is TimedOut || e is LaunchFailed,
        Phase::Exited => e is TornDown,
        Phase::CompileFailed => e is TornDown,
        Phase::Finalized => false,
    }
}

/// The exit status a run child's termination reports: its own code, or the
/// sentinel when it was killed by a signal.
pub open spec fn spec_exit_status(code: Option<i32>) -> i32 {
    match code {
        Some(c) => c,
        None => EXIT_STATUS_UNKNOWN,
    }
}

/// The full transition function: next state and issued actions for every
/// state and event. An event a phase does not expect is absorbed unchanged.
pub open spec fn spec_step(s: Session, e: EventView) -> (Session, Seq<ActionView>) {
    match (s.phase, e) {
        (Phase::AwaitRequest, EventView::RequestDecoded { code, timeout_ms }) => (
            Session { phase: Phase::Provisioning, timeout_ms, provision_issued: true, ..s },
            seq![ActionView::CreateWorkspace { code }],
        ),
        (Phase::AwaitRequest, EventView::RequestUnreadable) => (
            Session { phase: Phase::Finalized, ..s },
            seq![],
        ),
        (Phase::Provisioning, EventView::Provisioned) => {
            if s.has_build_step {
                (Session { phase: Phase::Compiling, ..s }, seq![ActionView::StartBuild])
            } else {
                (Session { phase: Phase::Executing, ..s }, seq![ActionView::StartRun])
            }
        }
        (Phase::Provisioning, EventView::ProvisionFailed) => spec_fail_without_frame(s),
        (Phase::Compiling, EventView::BuildExited { code }) => {
            if code == Some(0i32) {
                (Session { phase: Phase::Executing, ..s }, seq![ActionView::StartRun])
            } else {
                (
                    Session { phase: Phase::CompileFailed, teardown_issued: true, ..s },
                    seq![
                        ActionView::EmitErrorFrame { status: spec_exit_status(code) },
                        ActionView::RemoveWorkspace,
                    ],
                )
            }
        }
        (Phase::Compiling, EventView::LaunchFailed) => spec_fail_without_frame(s),
        (Phase::Executing, EventView::LaunchFailed) => spec_fail_without_frame(s),
        (Phase::Executing, EventView::RunExited { code }) => (
            Session { phase: Phase::Exited, teardown_issued: true, ..s },
            seq![
                ActionView::StopForwarder,
                ActionView::EmitExitFrame { status: spec_exit_status(code) },
                ActionView::RemoveWorkspace,
            ],
        ),
        (Phase::Executing, EventView::TimedOut) => (
            Session { phase: Phase::Exited, teardown_issued: true, ..s },
            seq![
                ActionView::KillChild,
                ActionView::StopForwarder,
                ActionView::EmitExitFrame { status: EXIT_STATUS_TIMED_OUT },
                ActionView::RemoveWorkspace,
            ],
        ),
        (Phase::Exited, EventView::TornDown { .. }) => (
            Session { phase: Phase::Finalized, ..s },
            seq![],
        ),
        (Phase::CompileFailed, EventView::TornDown { .. }) => (
            Session { phase: Phase::Finalized, ..s },
            seq![],
        ),
        (_, _) => (s, seq![]),
    }
}

/// The failure transition shared by provisioning and launch errors: the
/// session ends without a terminal frame, but reclamation is still issued.
pub open spec fn spec_fail_without_frame(s: Session) -> (Session, Seq<ActionView>) {
    (
        Session { phase: Phase::CompileFailed, teardown_issued: true, ..s },
        seq![ActionView::RemoveWorkspace],
    )
}

/// A strictly decreasing measure on phases: every expected transition lowers
/// it, so no session can step forever.
pub open spec fn phase_rank(p: Phase) -> nat {
    match p {
        Phase::AwaitRequest => 6,
        Phase::Provisioning => 5,
        Phase::Compiling => 4,
        Phase::Executing => 3,
        Phase::Exited => 2,
        Phase::CompileFailed => 2,
        Phase::Finalized => 0,
    }
}

/// Law: the machine is total and terminating. Every event the current phase
/// expects strictly lowers the phase rank, and the step keeps the phase
/// invariant; since the rank is bounded, every driver that delivers expected
/// events reaches `Finalized` from `AwaitRequest` in at most six steps.
pub proof fn lemma_step_progress(s: Session, e: EventView)
    requires
        s.wf(),
        expected_event(s, e),
    ensures
        spec_step(s, e).0.wf(),
        phase_rank(spec_step(s, e).0.phase) < phase_rank(s.phase),
{
}

/// Law: every phase but `Finalized` expects some event, so the machine never
/// gets stuck before finalizing.
pub proof fn lemma_no_phase_stuck(s: Session)
    requires
        s.phase != Phase::Finalized,
    ensures
        exists|e: EventView| expected_event(s, e),
{
    assert(expected_event(s, expected_event_witness(s.phase)));
}

/// An event each non-final phase expects; the witness behind
/// `lemma_no_phase_stuck`.
pub open spec fn expected_event_witness(p: Phase) -> EventView {
    match p {
        Phase::AwaitRequest => EventView::RequestUnreadable,
        Phase::Provisioning => EventView::Provisioned,
        Phase::Compiling => EventView::LaunchFailed,
        Phase::Executing => EventView::TimedOut,
        Phase::Exited => EventView::TornDown { removed: true },
        Phase::CompileFailed => EventView::TornDown { removed: true },
        Phase::Finalized => EventView::RequestUnreadable,
    }
}

/// Law: no path leaves the workspace unreclaimed. A finalized session that
/// ever issued `CreateWorkspace` has also issued `RemoveWorkspace` — and the
/// step function issues `RemoveWorkspace` on every edge into `Exited` and
/// `CompileFailed`, whether or not the phase before it failed.
pub proof fn lemma_finalized_reclaims_workspace(s: Session)
    requires
        s.wf(),
        s.phase == Phase::Finalized,
        s.provision_issued,
    ensures
        s.teardown_issued,
{
}

/// Law (one terminal frame): an `Exit` frame is issued only on the edge from
/// `Executing` to `Exited`, and an `Error` frame only on a build failure's
/// edge from `Compiling` to `CompileFailed`. Since `lemma_step_progress`
/// makes the rank strictly decrease, a session passes each edge at most
/// once: at most one terminal frame per session, an `Exit` exactly when the
/// run phase ends and never after a failed build.
pub proof fn lemma_terminal_frames_only_on_their_edges(s: Session, e: EventView)
    ensures
        (exists|i: int|
            0 <= i < spec_step(s, e).1.len() && spec_step(s, e).1[i] is EmitExitFrame) ==> (
        s.phase == Phase::Executing && spec_step(s, e).0.phase == Phase::Exited),
        (exists|i: int|
            0 <= i < spec_step(s, e).1.len() && spec_step(s, e).1[i] is EmitErrorFrame) ==> (
        s.phase == Phase::Compiling && spec_step(s, e).0.phase == Phase::CompileFailed),
{
}

/// Law: reclamation failure is absorbed. Whatever the teardown attempt
/// reported, the session finalizes and issues nothing further.
pub proof fn lemma_teardown_result_absorbed(s: Session, removed: bool)
    requires
        s.wf(),
        s.phase == Phase::Exited || s.phase == Phase::CompileFailed,
    ensures
        spec_step(s, EventView::TornDown { removed }).0.phase == Phase::Finalized,
        spec_step(s, EventView::TornDown { removed }).1 =~= Seq::<ActionView>::empty(),
{
}

} // verus!
