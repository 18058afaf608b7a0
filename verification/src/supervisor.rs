//! The supervisor: launch planning and shutdown coordination.
//!
//! The supervisor launches the selected operating mode as supervised
//! background work, waits for the first terminating event — an external
//! interrupt or a reason reported by the launched service — signals all
//! outstanding work to wind down, waits for it to finish, and maps the one
//! accepted reason to the process exit status.

use crate::modes::{spec_is_synchronous, OperatingMode};
use crate::shutdown::{
    slot_after_send, ShutdownCause, ShutdownChannel, ShutdownReason,
};
use vstd::prelude::*;

verus! {

/// How the selected mode is to be run.
#[derive(Clone, Copy, PartialEq, Eq, Structural, Debug)]
pub enum LaunchPlan {
    /// The mode runs to completion on the calling thread; the supervised
    /// shutdown path is never entered.
    RunSynchronously,
    /// Immediate shutdown was requested: report success to the shutdown
    /// channel without starting the service's business logic.
    ReportImmediateSuccess,
    /// Start the service as supervised background work.
    StartService,
}

/// The plan for a mode: synchronous modes run on the calling thread; for the
/// others the immediate-shutdown flag decides whether the business logic is
/// started at all.
pub open spec fn spec_launch_plan(mode: OperatingMode, immediate_shutdown: bool) -> LaunchPlan {
    if spec_is_synchronous(mode) {
        LaunchPlan::RunSynchronously
    } else if immediate_shutdown {
        LaunchPlan::ReportImmediateSuccess
    } else {
        LaunchPlan::StartService
    }
}

/// Decides how the selected mode is to be run.
pub fn plan_launch(mode: OperatingMode, immediate_shutdown: bool) -> (p: LaunchPlan)
    ensures
        p == spec_launch_plan(mode, immediate_shutdown),
{
    if mode.is_synchronous() {
        LaunchPlan::RunSynchronously
    } else if immediate_shutdown {
        LaunchPlan::ReportImmediateSuccess
    } else {
        LaunchPlan::StartService
    }
}

/// The success message reported when immediate shutdown preempts the launch
/// of the given mode.
pub open spec fn spec_immediate_message(mode: OperatingMode) -> Seq<char> {
    match mode {
        OperatingMode::ServingNode => "Beacon node immediate shutdown triggered."@,
        OperatingMode::SigningClient => "Validator client immediate shutdown triggered."@,
        _ => "Remote signer immediate shutdown triggered."@,
    }
}

/// Builds the immediate-shutdown success message for the given mode.
pub fn immediate_success_message(mode: OperatingMode) -> (m: String)
    requires
        !spec_is_synchronous(mode),
    ensures
        m@ == spec_immediate_message(mode),
{
    match mode {
        OperatingMode::ServingNode => {
            String::from_str("Beacon node immediate shutdown triggered.")
        },
        OperatingMode::SigningClient => {
            String::from_str("Validator client immediate shutdown triggered.")
        },
        _ => String::from_str("Remote signer immediate shutdown triggered."),
    }
}

/// The fixed prefix of a failure reported for the given mode.
pub open spec fn spec_failure_prefix(mode: OperatingMode) -> Seq<char> {
    match mode {
        OperatingMode::ServingNode => "Failed to start beacon node"@,
        OperatingMode::SigningClient => "Failed to start validator client"@,
        _ => "Failed to start remote signer"@,
    }
}

/// The full failure message: the mode's prefix, then the service's own
/// descriptive error.
pub open spec fn spec_failure_message(mode: OperatingMode, err: Seq<char>) -> Seq<char> {
    spec_failure_prefix(mode) + ": "@ + err
}

/// Builds the failure message reported when the given mode's entry point
/// completes with the given error.
pub fn failure_message(mode: OperatingMode, err: &String) -> (m: String)
    ensures
        m@ == spec_failure_message(mode, err@),
{
    let prefix = match mode {
        OperatingMode::ServingNode => String::from_str("Failed to start beacon node"),
        OperatingMode::SigningClient => String::from_str("Failed to start validator client"),
        _ => String::from_str("Failed to start remote signer"),
    };
    prefix.concat(": ").concat(err.as_str())
}

/// A terminating event observed while the service runs: an external
/// interrupt, the service's entry point completing with an error, or the
/// entry point completing successfully (which by itself does not stop the
/// process).
pub enum ServiceEvent {
    Interrupt,
    ServiceFailed(String),
    ServiceCompleted,
}

/// The shutdown cause an event reports into the channel, if any. An
/// interrupt is an orderly stop; a failed entry point reports a descriptive
/// failure; an entry point that completes successfully reports nothing.
pub open spec fn spec_event_cause(mode: OperatingMode, e: ServiceEvent) -> Option<ShutdownCause> {
    match e {
        ServiceEvent::Interrupt => Some(ShutdownCause::Success("interrupt"@)),
        ServiceEvent::ServiceFailed(err) => Some(
            ShutdownCause::Failure(spec_failure_message(mode, err@)),
        ),
        ServiceEvent::ServiceCompleted => None,
    }
}

/// The cause the channel holds right after launch: the immediate-shutdown
/// success, or nothing.
pub open spec fn spec_initial_cause(mode: OperatingMode, immediate_shutdown: bool) -> Option<
    ShutdownCause,
> {
    if immediate_shutdown {
        Some(ShutdownCause::Success(spec_immediate_message(mode)))
    } else {
        None
    }
}

/// The first cause any event of `events` reports, in arrival order.
pub open spec fn spec_first_event_cause(mode: OperatingMode, events: Seq<ServiceEvent>) -> Option<
    ShutdownCause,
>
    decreases events.len(),
{
    if events.len() == 0 {
        None
    } else {
        match spec_event_cause(mode, events[0]) {
            Some(c) => Some(c),
            None => spec_first_event_cause(mode, events.drop_first()),
        }
    }
}

/// The one cause that terminates a supervised run: the immediate-shutdown
/// success if that flag is set, else the first cause any event reports.
pub open spec fn spec_final_cause(
    mode: OperatingMode,
    immediate_shutdown: bool,
    events: Seq<ServiceEvent>,
) -> Option<ShutdownCause> {
    match spec_initial_cause(mode, immediate_shutdown) {
        Some(c) => Some(c),
        None => spec_first_event_cause(mode, events),
    }
}

/// The exit status derived from the accepted cause: an orderly stop exits
/// with status zero, a failure with status one.
pub open spec fn spec_exit_status(c: ShutdownCause) -> u8 {
    if c is Success {
        0
    } else {
        1
    }
}

/// Maps the accepted reason to the process exit status.
pub fn exit_status(reason: &ShutdownReason) -> (status: u8)
    ensures
        status == spec_exit_status(reason@),
{
    match reason {
        ShutdownReason::Success(_) => 0,
        ShutdownReason::Failure(_) => 1,
    }
}

/// The log line recorded when the supervisor observes the accepted reason
/// and begins the graceful shutdown.
pub fn shutdown_log_line(reason: &ShutdownReason) -> (line: String)
    ensures
        line@ == "Shutting down.. reason: "@ + reason@.description(),
{
    let d = reason.describe();
    String::from_str("Shutting down.. reason: ").concat(d.as_str())
}

/// The supervisor's phase: it initialises, runs the launched service, shuts
/// down after the first accepted reason, and terminates.
#[derive(Clone, Copy, PartialEq, Eq, Structural, Debug)]
pub enum Phase {
    Initializing,
    Running,
    ShuttingDown,
    Terminated,
}

/// The supervisor of one launched service.
///
/// It owns the consuming end of the shutdown channel and the cooperative
/// exit signal. Its phases move only forward: `Running` while the service
/// is supervised, `ShuttingDown` once the first reason is accepted and the
/// exit signal has been broadcast, `Terminated` once all outstanding work
/// has drained.
pub struct Supervisor {
    mode: OperatingMode,
    immediate_shutdown: bool,
    phase: Phase,
    channel: ShutdownChannel,
    exit_signal_fired: bool,
}

impl Supervisor {
    /// The mode being supervised.
    pub closed spec fn spec_mode(&self) -> OperatingMode {
        self.mode
    }

    /// Whether immediate shutdown was requested at launch.
    pub closed spec fn spec_immediate(&self) -> bool {
        self.immediate_shutdown
    }

    /// The supervisor's phase.
    pub closed spec fn spec_phase(&self) -> Phase {
        self.phase
    }

    /// The cause accepted by the shutdown channel so far, if any.
    pub closed spec fn accepted_cause(&self) -> Option<ShutdownCause> {
        self.channel@
    }

    /// Whether the cooperative exit signal has been broadcast.
    pub closed spec fn signal_fired(&self) -> bool {
        self.exit_signal_fired
    }

    /// Launches the given mode as supervised work. With immediate shutdown
    /// set, the launcher reports success to the channel instead of starting
    /// the service's business logic.
    pub fn launch(mode: OperatingMode, immediate_shutdown: bool) -> (s: Self)
        requires
            !spec_is_synchronous(mode),
        ensures
            s.spec_mode() == mode,
            s.spec_immediate() == immediate_shutdown,
            s.spec_phase() is Running,
            s.accepted_cause() == spec_initial_cause(mode, immediate_shutdown),
            !s.signal_fired(),
    {
        let mut channel = ShutdownChannel::new();
        if immediate_shutdown {
            let message = immediate_success_message(mode);
            channel.try_send(ShutdownReason::Success(message));
        }
        Supervisor {
            mode,
            immediate_shutdown,
            phase: Phase::Running,
            channel,
            exit_signal_fired: false,
        }
    }

    /// Feeds one observed event into the shutdown channel. The first cause
    /// ever reported is accepted; later ones are dropped unchanged.
    pub fn deliver(&mut self, event: ServiceEvent)
        requires
            old(self).spec_phase() is Running,
        ensures
            final(self).spec_phase() is Running,
            final(self).spec_mode() == old(self).spec_mode(),
            final(self).spec_immediate() == old(self).spec_immediate(),
            final(self).signal_fired() == old(self).signal_fired(),
            final(self).accepted_cause() == match spec_event_cause(old(self).spec_mode(), event) {
                Some(c) => slot_after_send(old(self).accepted_cause(), c),
                None => old(self).accepted_cause(),
            },
    {
        match event {
            ServiceEvent::Interrupt => {
                self.channel.try_send(ShutdownReason::Success(String::from_str("interrupt")));
            },
            ServiceEvent::ServiceFailed(err) => {
                let message = failure_message(self.mode, &err);
                self.channel.try_send(ShutdownReason::Failure(message));
            },
            ServiceEvent::ServiceCompleted => {},
        }
    }

    /// Whether a terminating reason has been accepted yet.
    pub fn has_shutdown_reason(&self) -> (b: bool)
        ensures
            b == (self.accepted_cause() is Some),
    {
        self.channel.has_reason()
    }

    /// Observes the accepted reason, broadcasts the cooperative exit signal
    /// to all outstanding work, and moves to the shutting-down phase.
    pub fn begin_shutdown(&mut self) -> (reason: ShutdownReason)
        requires
            old(self).spec_phase() is Running,
            old(self).accepted_cause() is Some,
        ensures
            final(self).spec_phase() is ShuttingDown,
            final(self).signal_fired(),
            final(self).spec_mode() == old(self).spec_mode(),
            final(self).spec_immediate() == old(self).spec_immediate(),
            Some(reason@) == old(self).accepted_cause(),
    {
        let taken = self.channel.take();
        self.exit_signal_fired = true;
        self.phase = Phase::ShuttingDown;
        taken.unwrap()
    }

    /// Waits for all signalled work to finish, then terminates. Cancellation
    /// is cooperative: the supervisor never kills work, it waits for the
    /// work to observe the already-broadcast signal.
    pub fn drain(&mut self)
        requires
            old(self).spec_phase() is ShuttingDown,
            old(self).signal_fired(),
        ensures
            final(self).spec_phase() is Terminated,
            final(self).spec_mode() == old(self).spec_mode(),
            final(self).spec_immediate() == old(self).spec_immediate(),
            final(self).signal_fired(),
    {
        self.phase = Phase::Terminated;
    }
}

/// The outcome of a supervised run: the accepted reason and the exit status
/// derived from it, or nothing if no terminating event ever arrived within
/// the observed trace (the service runs on).
pub enum SupervisedOutcome {
    Terminated(ShutdownReason, u8),
    StillRunning,
}

/// Runs the whole supervised path over an observed trace of events: launch
/// (honouring the immediate-shutdown flag), deliver every event in arrival
/// order, and — once a reason is accepted — signal, drain and derive the
/// exit status. Exactly the first reported cause decides the outcome,
/// whatever arrives after it.
pub fn run_supervised(
    mode: OperatingMode,
    immediate_shutdown: bool,
    events: Vec<ServiceEvent>,
) -> (outcome: SupervisedOutcome)
    requires
        !spec_is_synchronous(mode),
    ensures
        match spec_final_cause(mode, immediate_shutdown, events@) {
            Some(c) => outcome matches SupervisedOutcome::Terminated(reason, status)
                && reason@ == c && status == spec_exit_status(c),
            None => outcome is StillRunning,
        },
{
    let mut supervisor = Supervisor::launch(mode, immediate_shutdown);
    let mut remaining = events;
    let ghost all = remaining@;
    while remaining.len() > 0
        invariant
            !spec_is_synchronous(mode),
            supervisor.spec_phase() is Running,
            supervisor.spec_mode() == mode,
            spec_final_cause(mode, immediate_shutdown, all) == match supervisor.accepted_cause() {
                Some(c) => Some(c),
                None => spec_first_event_cause(mode, remaining@),
            },
        decreases remaining.len(),
    {
        let ghost before = remaining@;
        let event = remaining.remove(0);
        supervisor.deliver(event);
        proof {
            assert(remaining@ =~= before.drop_first());
        }
    }
    if supervisor.has_shutdown_reason() {
        let reason = supervisor.begin_shutdown();
        supervisor.drain();
        let status = exit_status(&reason);
        SupervisedOutcome::Terminated(reason, status)
    } else {
        SupervisedOutcome::StillRunning
    }
}

/// With immediate shutdown set, the service's business logic is never
/// started — the launch plan reports success instead of starting the
/// service — and whatever events arrive afterwards, the run terminates
/// with an orderly success and exit status zero.
pub proof fn lemma_immediate_shutdown_terminates_cleanly(
    mode: OperatingMode,
    events: Seq<ServiceEvent>,
)
    requires
        !spec_is_synchronous(mode),
    ensures
        spec_launch_plan(mode, true) != LaunchPlan::StartService,
        spec_final_cause(mode, true, events) matches Some(c) && c is Success
            && spec_exit_status(c) == 0,
{
}

/// The terminal exit status corresponds to exactly one cause — the first
/// reported — and is a function of the arrival order alone: any trace that
/// reports the same first cause terminates with the same status.
pub proof fn lemma_exit_status_is_first_cause(
    mode: OperatingMode,
    events: Seq<ServiceEvent>,
    i: int,
)
    requires
        0 <= i < events.len(),
        spec_event_cause(mode, events[i]) is Some,
        forall|j: int| 0 <= j < i ==> spec_event_cause(mode, events[j]) is None,
    ensures
        spec_final_cause(mode, false, events) == spec_event_cause(mode, events[i]),
    decreases i,
{
    if i > 0 {
        lemma_exit_status_is_first_cause(mode, events.drop_first(), i - 1);
    }
}

/// Events arriving after the first reported cause have no observable effect:
/// the run over the extended trace terminates with the same cause, and so
/// with the same exit status, as the run over the shorter trace alone.
pub proof fn lemma_later_events_have_no_effect(
    mode: OperatingMode,
    immediate_shutdown: bool,
    events: Seq<ServiceEvent>,
    later: Seq<ServiceEvent>,
)
    requires
        spec_final_cause(mode, immediate_shutdown, events) is Some,
    ensures
        spec_final_cause(mode, immediate_shutdown, events + later) == spec_final_cause(
            mode,
            immediate_shutdown,
            events,
        ),
{
    if !immediate_shutdown {
        lemma_first_event_cause_of_extension(mode, events, later);
    }
}

/// Extending a trace whose events already report a cause does not change
/// which cause is reported first.
proof fn lemma_first_event_cause_of_extension(
    mode: OperatingMode,
    events: Seq<ServiceEvent>,
    later: Seq<ServiceEvent>,
)
    requires
        spec_first_event_cause(mode, events) is Some,
    ensures
        spec_first_event_cause(mode, events + later) == spec_first_event_cause(mode, events),
    decreases events.len(),
{
    assert((events + later)[0] == events[0]);
    if spec_event_cause(mode, events[0]) is None {
        lemma_first_event_cause_of_extension(mode, events.drop_first(), later);
        assert((events + later).drop_first() =~= events.drop_first() + later);
    }
}

} // verus!
