//! The scheduler: owns the run/cancel lifecycle and drives one supervised
//! cycle per tick.
//!
//! The lifecycle is the state machine `Idle -> Running -> Stopping ->
//! Terminated`. Ticks fire only while `Running`; one cycle probes the
//! daemon once and, exactly when the probe classifies `Disconnected`,
//! makes one restart attempt with the configured daemon name. A probe
//! failure is reported and triggers no restart: failures are contained
//! within their cycle and never stop the scheduler.
//!
//! Ticks never overlap: the driving loop executes cycles strictly one
//! after another, and a tick that arrives while the scheduler is not
//! `Running` — before `start`, or after cancellation was observed — is
//! skipped, not queued.
//!
//! Cancellation is cooperative: `request_cancel` moves a running
//! scheduler to `Stopping`, the in-flight cycle is allowed to finish
//! (`cycle_finished` then reaches `Terminated`), and no later event ever
//! makes ticks fire again ([`lemma_no_ticks_after_cancel`]).

use vstd::prelude::*;
use crate::probe::{check, outcome_status, Transport};
use crate::process::{restart_process, ProcessControl, RestartOutcome};
use crate::status::HealthStatus;

verus! {

/// The fixed cadence: one tick every this many seconds.
pub const TICK_INTERVAL_SECS: u64 = 30;

/// The name of the daemon this watchdog supervises.
pub const PROCESS_NAME: &'static str = "M17Gateway";

/// The lifecycle states of the scheduler.
#[derive(Debug, Clone, Copy, PartialEq, Eq, Structural)]
pub enum SchedulerState {
    /// Created, not yet started; no ticks fire.
    Idle,
    /// Started: ticks fire on the cadence.
    Running,
    /// Cancellation observed; the in-flight cycle may still finish, no
    /// new tick fires.
    Stopping,
    /// Fully stopped; nothing fires any more.
    Terminated,
}

/// The lifecycle events the scheduler reacts to.
#[derive(Debug, Clone, Copy, PartialEq, Eq, Structural)]
pub enum SchedulerEvent {
    /// The scheduler is started.
    Start,
    /// A scheduled tick arrives.
    Tick,
    /// An external cancellation signal arrives.
    Cancel,
    /// The cycle that was in flight has completed.
    CycleFinished,
}

/// A cadence description: a fixed interval, immutable for the process
/// lifetime.
#[derive(Debug, Clone, Copy, PartialEq, Eq, Structural)]
pub struct ScheduleSpec {
    /// Seconds from one tick to the next.
    pub interval_secs: u64,
}

/// The lifecycle transition relation.
///
/// `Start` only leaves `Idle`; `Cancel` moves a scheduler that has not
/// terminated towards termination — directly if no cycle can be in
/// flight, through `Stopping` otherwise; `CycleFinished` completes a
/// pending cancellation; `Tick` never changes the state.
pub open spec fn spec_step(state: SchedulerState, event: SchedulerEvent) -> SchedulerState {
    match (state, event) {
        (SchedulerState::Idle, SchedulerEvent::Start) => SchedulerState::Running,
        (SchedulerState::Idle, SchedulerEvent::Cancel) => SchedulerState::Terminated,
        (SchedulerState::Running, SchedulerEvent::Cancel) => SchedulerState::Stopping,
        (SchedulerState::Stopping, SchedulerEvent::CycleFinished) => SchedulerState::Terminated,
        _ => state,
    }
}

/// Whether ticks fire in `state`.
pub open spec fn ticks_fire(state: SchedulerState) -> bool {
    state == SchedulerState::Running
}

/// Whether cancellation has been observed in `state`.
pub open spec fn cancelled(state: SchedulerState) -> bool {
    state == SchedulerState::Stopping || state == SchedulerState::Terminated
}

/// The state after reacting to `events` in order, starting from `state`.
pub open spec fn run_events(state: SchedulerState, events: Seq<SchedulerEvent>) -> SchedulerState
    decreases events.len(),
{
    if events.len() == 0 {
        state
    } else {
        run_events(spec_step(state, events.first()), events.drop_first())
    }
}

/// Law: once cancellation has been observed, it stays observed and no
/// sequence of later events ever makes ticks fire again — the current
/// cycle may complete, further ticks do not.
pub proof fn lemma_no_ticks_after_cancel(state: SchedulerState, events: Seq<SchedulerEvent>)
    requires
        cancelled(state),
    ensures
        cancelled(run_events(state, events)),
        !ticks_fire(run_events(state, events)),
    decreases events.len(),
{
    if events.len() > 0 {
        lemma_no_ticks_after_cancel(spec_step(state, events.first()), events.drop_first());
    }
}

/// What one supervised cycle observed and did.
#[derive(Debug, PartialEq, Eq)]
pub struct CycleReport {
    /// How the probe outcome was classified.
    pub status: HealthStatus,
    /// The restart attempt, made exactly when the status is
    /// `Disconnected`.
    pub restarted: Option<RestartOutcome>,
}

/// One supervised cycle: probes the daemon once and, exactly when the
/// probe observes `Disconnected`, makes one restart attempt with
/// `daemon_name`. A healthy or failed probe triggers no termination
/// request at all; a probe failure is carried in the report, never
/// propagated.
pub fn check_and_reconnect<T: Transport, C: ProcessControl>(
    transport: &mut T,
    control: &mut C,
    daemon_name: &str,
) -> (report: CycleReport)
    ensures
        final(transport).history().len() == old(transport).history().len() + 1,
        final(transport).history() == old(transport).history().push(
            final(transport).history().last(),
        ),
        final(transport).history().last().command == "status"@,
        outcome_status(final(transport).history().last().response, report.status),
        report.restarted is Some <==> report.status is Disconnected,
        match report.restarted {
            Some(outcome) => {
                &&& final(control).requests().len() == old(control).requests().len()
                    + outcome.matched_count
                &&& old(control).requests().is_prefix_of(final(control).requests())
                &&& outcome.killed_count <= outcome.matched_count
            },
            None => final(control).requests() == old(control).requests(),
        },
{
    let status = check(transport);
    let restarted = if matches!(status, HealthStatus::Disconnected) {
        Some(restart_process(control, daemon_name))
    } else {
        None
    };
    CycleReport { status, restarted }
}

/// The scheduler: the lifecycle state and the cadence it was built with.
pub struct Scheduler {
    state: SchedulerState,
    cadence: ScheduleSpec,
}

impl Scheduler {
    /// The current lifecycle state, at specification level.
    pub closed spec fn current_state(&self) -> SchedulerState {
        self.state
    }

    /// The cadence, at specification level.
    pub closed spec fn schedule(&self) -> ScheduleSpec {
        self.cadence
    }

    /// A scheduler with a fixed cadence of one tick every
    /// `interval_secs` seconds, not yet started.
    pub fn new(interval_secs: u64) -> (scheduler: Scheduler)
        ensures
            scheduler.current_state() == SchedulerState::Idle,
            scheduler.schedule() == (ScheduleSpec { interval_secs }),
    {
        Scheduler { state: SchedulerState::Idle, cadence: ScheduleSpec { interval_secs } }
    }

    /// The current lifecycle state.
    pub fn state(&self) -> (state: SchedulerState)
        ensures
            state == self.current_state(),
    {
        self.state
    }

    /// The cadence, immutable for the scheduler's lifetime.
    pub fn cadence(&self) -> (cadence: ScheduleSpec)
        ensures
            cadence == self.schedule(),
    {
        self.cadence
    }

    /// Starts firing ticks on the cadence: `Idle -> Running`. In any
    /// other state this does nothing.
    pub fn start(&mut self)
        ensures
            final(self).current_state() == spec_step(old(self).current_state(), SchedulerEvent::Start),
            final(self).schedule() == old(self).schedule(),
    {
        if matches!(self.state, SchedulerState::Idle) {
            self.state = SchedulerState::Running;
        }
    }

    /// Observes an external cancellation signal: a running scheduler
    /// moves to `Stopping` and its in-flight cycle may finish; an idle
    /// one terminates at once.
    pub fn request_cancel(&mut self)
        ensures
            final(self).current_state() == spec_step(old(self).current_state(), SchedulerEvent::Cancel),
            final(self).schedule() == old(self).schedule(),
            cancelled(final(self).current_state()),
            !ticks_fire(final(self).current_state()),
    {
        match self.state {
            SchedulerState::Idle => {
                self.state = SchedulerState::Terminated;
            },
            SchedulerState::Running => {
                self.state = SchedulerState::Stopping;
            },
            _ => {},
        }
    }

    /// Observes that the in-flight cycle has completed: a stopping
    /// scheduler terminates.
    pub fn cycle_finished(&mut self)
        ensures
            final(self).current_state() == spec_step(old(self).current_state(), SchedulerEvent::CycleFinished),
            final(self).schedule() == old(self).schedule(),
    {
        if matches!(self.state, SchedulerState::Stopping) {
            self.state = SchedulerState::Terminated;
        }
    }

    /// Reacts to one scheduled tick: exactly when the scheduler is
    /// `Running`, one supervised cycle executes and its report is handed
    /// back. A tick in any other state is skipped — it runs no probe and
    /// issues no termination request. The state never changes on a tick.
    pub fn on_tick<T: Transport, C: ProcessControl>(
        &mut self,
        transport: &mut T,
        control: &mut C,
        daemon_name: &str,
    ) -> (report: Option<CycleReport>)
        ensures
            final(self).current_state() == spec_step(old(self).current_state(), SchedulerEvent::Tick),
            final(self).schedule() == old(self).schedule(),
            report is Some <==> ticks_fire(old(self).current_state()),
            match report {
                Some(r) => {
                    &&& final(transport).history().len() == old(transport).history().len() + 1
                    &&& final(transport).history() == old(transport).history().push(
                        final(transport).history().last(),
                    )
                    &&& final(transport).history().last().command == "status"@
                    &&& outcome_status(final(transport).history().last().response, r.status)
                    &&& (r.restarted is Some <==> r.status is Disconnected)
                    &&& match r.restarted {
                        Some(outcome) => {
                            &&& final(control).requests().len() == old(
                                control,
                            ).requests().len() + outcome.matched_count
                            &&& old(control).requests().is_prefix_of(final(control).requests())
                            &&& outcome.killed_count <= outcome.matched_count
                        },
                        None => final(control).requests() == old(control).requests(),
                    }
                },
                None => {
                    &&& final(transport).history() == old(transport).history()
                    &&& final(control).requests() == old(control).requests()
                },
            },
    {
        if matches!(self.state, SchedulerState::Running) {
            Some(check_and_reconnect(transport, control, daemon_name))
        } else {
            None
        }
    }
}

} // verus!
