//! The control loop of the service runtime, as a state machine.
//!
//! The `Engine` owns all mutable lifecycle state: the externally reported
//! `ServiceState`, the handle of the live child, the pending-restart and
//! stop bookkeeping, and the attempt history for backoff. A driver feeds it
//! one `Event` at a time — a control request from the SCM's callback, a
//! spawn result, an exit notification, an elapsed timer — and `step` returns
//! the `Action`s the driver must perform: spawn the child, deliver the stop
//! signal, arm or cancel timers, force-kill, publish a status.
//!
//! Every transition is pinned to the spec function `spec_step`, and the
//! state-machine invariants (`wf`) plus the stop-safety laws are proved over
//! it: once a stop is accepted no spawn is ever emitted again, a pending
//! restart delay is cancelled in the very step that accepts the stop, and
//! after that step only `StopPending`/`Stopped` is ever reported.

use vstd::prelude::*;
use crate::policy::{
    AttemptCounter, Decision, ExitOutcome, RestartPolicy, spec_advance, spec_decide,
    advance_counter, decide,
};

verus! {

/// The lifecycle states the SCM knows. Exactly one is current at any
/// instant; only the control loop mutates it.
#[derive(Clone, Copy, Debug, PartialEq, Eq, Structural)]
pub enum ServiceState {
    StartPending,
    Running,
    StopPending,
    Stopped,
    PausePending,
    Paused,
    ContinuePending,
}

/// A control request, produced by the SCM's callback thread and consumed by
/// the control loop.
#[derive(Clone, Copy, Debug, PartialEq, Eq, Structural)]
pub enum ControlRequest {
    Stop,
    Pause,
    Continue,
    Shutdown,
    Interrogate,
}

/// The graceful stop primitive the driver delivers on `SendStopSignal`: a
/// console-style interrupt, a break event, or nothing where neither is
/// supported (the stop then rests on the forced-termination fallback).
#[derive(Clone, Copy, Debug, PartialEq, Eq, Structural)]
pub enum StopSignalKind {
    Interrupt,
    Break,
    NoGraceful,
}

/// Identifies the live child: its process identifier and the driver-clock
/// timestamp of its spawn. Exists iff the child is currently running.
#[derive(Clone, Copy, Debug, PartialEq, Eq, Structural)]
pub struct ChildProcessHandle {
    pub id: u64,
    pub started_at_ms: u64,
}

/// An exit notification from the exit watcher: which spawn it belongs to,
/// how the child ended, and when. Events whose handle is not the current one
/// are stale and discarded.
#[derive(Clone, Copy, Debug, PartialEq, Eq, Structural)]
pub struct ExitEvent {
    pub handle_id: u64,
    pub outcome: ExitOutcome,
    pub at_ms: u64,
}

/// Everything the control loop consumes, in arrival order.
#[derive(Clone, Copy, Debug, PartialEq, Eq, Structural)]
pub enum Event {
    Control(ControlRequest),
    Spawned(ChildProcessHandle),
    SpawnFailed(u64),
    Exit(ExitEvent),
    RestartDelayElapsed,
    StopTimeoutElapsed,
}

/// Everything the control loop asks the driver to do. The driver performs
/// each action in order and posts the outcome back as an `Event`.
#[derive(Clone, Copy, Debug, PartialEq, Eq, Structural)]
pub enum Action {
    Report(ServiceState),
    Spawn,
    SendStopSignal,
    StartStopTimer(u64),
    CancelStopTimer,
    ScheduleRestart(u64),
    CancelRestartTimer,
    ForceKill,
    SuspendChild,
    ResumeChild,
}

/// The immutable configuration of one service instance, built once from
/// external configuration and owned by the control loop.
#[derive(Clone, Debug)]
pub struct ServiceConfig {
    pub command: String,
    pub args: Vec<String>,
    pub working_dir: Option<String>,
    pub env_overrides: Vec<(String, String)>,
    pub policy: RestartPolicy,
    pub stop_timeout_ms: u64,
    pub stop_signal: StopSignalKind,
    pub pass_start_args: bool,
    pub pass_stop_args: bool,
    pub forward_pause: bool,
}

/// The control loop's state: sole owner of the lifecycle data.
#[derive(Clone, Debug)]
pub struct Engine {
    pub config: ServiceConfig,
    pub state: ServiceState,
    /// Set the moment a `Stop`/`Shutdown` is accepted, before any signal is
    /// sent, and never cleared: from then on no restart can be decided.
    pub stop_accepted: bool,
    pub child: Option<ChildProcessHandle>,
    /// A `Spawn` action has been emitted and its result is still out.
    pub awaiting_spawn: bool,
    /// A `ScheduleRestart` delay is in flight.
    pub restart_pending: bool,
    /// A `ForceKill` has been emitted; it is emitted at most once.
    pub force_kill_issued: bool,
    pub counter: AttemptCounter,
}

/// The state-machine invariants: at most one child concern is in flight at a
/// time, an accepted stop confines the state to `StopPending`/`Stopped` and
/// keeps every restart cancelled, and each state names what must be live
/// under it.
pub open spec fn wf(s: Engine) -> bool {
    &&& (s.child is Some ==> !s.awaiting_spawn && !s.restart_pending)
    &&& !(s.awaiting_spawn && s.restart_pending)
    &&& (s.stop_accepted ==> s.state is StopPending || s.state is Stopped)
    &&& (s.state is StopPending ==> s.stop_accepted)
    &&& (s.stop_accepted ==> !s.restart_pending)
    &&& (s.state is Stopped ==> s.child is None && !s.awaiting_spawn && !s.restart_pending)
    &&& ((s.state is Paused || s.state is PausePending || s.state is ContinuePending) ==> s.child is Some)
    &&& (s.state is Running ==> s.child is Some || s.awaiting_spawn || s.restart_pending)
    &&& (s.force_kill_issued ==> s.stop_accepted)
}

/// Accepting a `Stop`/`Shutdown`: mark the instance as "no further
/// restarts" first, cancel a pending restart delay at once, signal a live
/// child and arm the stop deadline, and otherwise go straight to `Stopped`.
pub open spec fn spec_on_stop_request(s: Engine) -> (Engine, Seq<Action>) {
    if s.state is Stopped || s.state is StopPending {
        (Engine { stop_accepted: true, ..s }, seq![])
    } else if s.restart_pending {
        (
            Engine {
                state: ServiceState::Stopped,
                stop_accepted: true,
                restart_pending: false,
                ..s
            },
            seq![
                Action::CancelRestartTimer,
                Action::Report(ServiceState::StopPending),
                Action::Report(ServiceState::Stopped),
            ],
        )
    } else if s.child is Some {
        (
            Engine { state: ServiceState::StopPending, stop_accepted: true, ..s },
            seq![
                Action::Report(ServiceState::StopPending),
                Action::SendStopSignal,
                Action::StartStopTimer(s.config.stop_timeout_ms),
            ],
        )
    } else if s.awaiting_spawn {
        (
            Engine { state: ServiceState::StopPending, stop_accepted: true, ..s },
            seq![Action::Report(ServiceState::StopPending)],
        )
    } else {
        (
            Engine { state: ServiceState::Stopped, stop_accepted: true, ..s },
            seq![Action::Report(ServiceState::Stopped)],
        )
    }
}

/// A pause is acknowledged only while a live child is running; whether it is
/// forwarded to the child is a configuration option.
pub open spec fn spec_on_pause(s: Engine) -> (Engine, Seq<Action>) {
    if s.state is Running && s.child is Some {
        (
            Engine { state: ServiceState::Paused, ..s },
            seq![Action::Report(ServiceState::PausePending)] + (if s.config.forward_pause {
                seq![Action::SuspendChild]
            } else {
                seq![]
            }) + seq![Action::Report(ServiceState::Paused)],
        )
    } else {
        (s, seq![])
    }
}

/// A continue is acknowledged only while paused with a live child.
pub open spec fn spec_on_continue(s: Engine) -> (Engine, Seq<Action>) {
    if s.state is Paused && s.child is Some {
        (
            Engine { state: ServiceState::Running, ..s },
            seq![Action::Report(ServiceState::ContinuePending)] + (if s.config.forward_pause {
                seq![Action::ResumeChild]
            } else {
                seq![]
            }) + seq![Action::Report(ServiceState::Running)],
        )
    } else {
        (s, seq![])
    }
}

/// A spawn result: a stop accepted meanwhile is served at once (signal the
/// fresh child and arm the deadline); otherwise the service is running.
pub open spec fn spec_on_spawned(s: Engine, h: ChildProcessHandle) -> (Engine, Seq<Action>) {
    if s.awaiting_spawn {
        if s.stop_accepted {
            (
                Engine {
                    state: ServiceState::StopPending,
                    awaiting_spawn: false,
                    child: Some(h),
                    ..s
                },
                seq![Action::SendStopSignal, Action::StartStopTimer(s.config.stop_timeout_ms)],
            )
        } else {
            (
                Engine {
                    state: ServiceState::Running,
                    awaiting_spawn: false,
                    child: Some(h),
                    ..s
                },
                seq![Action::Report(ServiceState::Running)],
            )
        }
    } else {
        (s, seq![])
    }
}

/// The restart-policy path, taken after the child went down without a stop
/// accepted (the child handle or pending spawn already cleared in `s`): ask
/// `spec_decide`, then either stop, spawn at once, or schedule the delay,
/// advancing the attempt history on either restart.
pub open spec fn spec_policy_path(s: Engine, outcome: ExitOutcome, now_ms: u64) -> (Engine, Seq<Action>) {
    let next_state = if s.state is StartPending {
        ServiceState::StartPending
    } else {
        ServiceState::Running
    };
    match spec_decide(s.config.policy, outcome, s.counter, now_ms) {
        Decision::Stop => (
            Engine { state: ServiceState::Stopped, ..s },
            seq![Action::Report(ServiceState::Stopped)],
        ),
        Decision::RestartNow => (
            Engine {
                state: next_state,
                awaiting_spawn: true,
                counter: spec_advance(s.counter, s.config.policy.backoff, now_ms),
                ..s
            },
            seq![Action::Spawn],
        ),
        Decision::RestartAfter(delay_ms) => (
            Engine {
                state: next_state,
                restart_pending: true,
                counter: spec_advance(s.counter, s.config.policy.backoff, now_ms),
                ..s
            },
            seq![Action::ScheduleRestart(delay_ms)],
        ),
    }
}

/// An exit notification: stale ones (not the current handle) are discarded;
/// with a stop accepted the instance is stopped; otherwise the restart
/// policy decides.
pub open spec fn spec_on_exit(s: Engine, ev: ExitEvent) -> (Engine, Seq<Action>) {
    if s.child matches Some(h) && h.id == ev.handle_id {
        if s.stop_accepted {
            (
                Engine { state: ServiceState::Stopped, child: None, ..s },
                seq![Action::CancelStopTimer, Action::Report(ServiceState::Stopped)],
            )
        } else {
            spec_policy_path(Engine { child: None, ..s }, ev.outcome, ev.at_ms)
        }
    } else {
        (s, seq![])
    }
}

/// A spawn failure is a synthetic exit: it flows through the same
/// restart-policy path, unless a stop was accepted meanwhile.
pub open spec fn spec_on_spawn_failed(s: Engine, at_ms: u64) -> (Engine, Seq<Action>) {
    if s.awaiting_spawn {
        if s.stop_accepted {
            (
                Engine { state: ServiceState::Stopped, awaiting_spawn: false, ..s },
                seq![Action::Report(ServiceState::Stopped)],
            )
        } else {
            spec_policy_path(
                Engine { awaiting_spawn: false, ..s },
                ExitOutcome::SpawnFailed,
                at_ms,
            )
        }
    } else {
        (s, seq![])
    }
}

/// The backoff delay elapsed: spawn now — unless the delay was cancelled by
/// an accepted stop, in which case a late firing is discarded.
pub open spec fn spec_on_restart_due(s: Engine) -> (Engine, Seq<Action>) {
    if s.restart_pending && !s.stop_accepted {
        (Engine { restart_pending: false, awaiting_spawn: true, ..s }, seq![Action::Spawn])
    } else {
        (s, seq![])
    }
}

/// The stop deadline elapsed with the child still up: force-kill, exactly
/// once; a stale firing after the child already exited is discarded.
pub open spec fn spec_on_stop_timeout(s: Engine) -> (Engine, Seq<Action>) {
    if s.state is StopPending && s.child is Some && !s.force_kill_issued {
        (Engine { force_kill_issued: true, ..s }, seq![Action::ForceKill])
    } else {
        (s, seq![])
    }
}

/// The whole transition relation of the control loop: one event in, the next
/// state and the actions out. `Interrogate` only re-publishes the current
/// state.
pub open spec fn spec_step(s: Engine, e: Event) -> (Engine, Seq<Action>) {
    match e {
        Event::Control(ControlRequest::Stop) => spec_on_stop_request(s),
        Event::Control(ControlRequest::Shutdown) => spec_on_stop_request(s),
        Event::Control(ControlRequest::Pause) => spec_on_pause(s),
        Event::Control(ControlRequest::Continue) => spec_on_continue(s),
        Event::Control(ControlRequest::Interrogate) => (s, seq![Action::Report(s.state)]),
        Event::Spawned(h) => spec_on_spawned(s, h),
        Event::SpawnFailed(at_ms) => spec_on_spawn_failed(s, at_ms),
        Event::Exit(ev) => spec_on_exit(s, ev),
        Event::RestartDelayElapsed => spec_on_restart_due(s),
        Event::StopTimeoutElapsed => spec_on_stop_timeout(s),
    }
}

/// The first transition of an instance: report `StartPending` and spawn.
/// Anywhere but a fresh `StartPending`, starting is refused.
pub open spec fn spec_start(s: Engine) -> (Engine, Seq<Action>) {
    if s.state is StartPending && !s.stop_accepted && !s.awaiting_spawn && !s.restart_pending
        && s.child is None {
        (
            Engine { awaiting_spawn: true, ..s },
            seq![Action::Report(ServiceState::StartPending), Action::Spawn],
        )
    } else {
        (s, seq![])
    }
}

impl Engine {
    /// A fresh instance: `StartPending`, nothing in flight, no stop
    /// accepted, a fresh attempt history.
    pub fn new(config: ServiceConfig) -> (e: Engine)
        ensures
            e.config == config,
            e.state is StartPending,
            !e.stop_accepted,
            e.child is None,
            !e.awaiting_spawn,
            !e.restart_pending,
            !e.force_kill_issued,
            e.counter.attempts == 0,
            e.counter.window_start_ms == 0,
            wf(e),
    {
        Engine {
            config,
            state: ServiceState::StartPending,
            stop_accepted: false,
            child: None,
            awaiting_spawn: false,
            restart_pending: false,
            force_kill_issued: false,
            counter: AttemptCounter::new(),
        }
    }

    /// Begin the instance, per `spec_start`.
    pub fn start(&mut self) -> (out: Vec<Action>)
        ensures
            *final(self) == spec_start(*old(self)).0,
            out@ == spec_start(*old(self)).1,
            wf(*old(self)) ==> wf(*final(self)),
    {
        let mut out: Vec<Action> = Vec::new();
        let fresh = match self.state {
            ServiceState::StartPending => !self.stop_accepted && !self.awaiting_spawn
                && !self.restart_pending && self.child.is_none(),
            _ => false,
        };
        if fresh {
            self.awaiting_spawn = true;
            out.push(Action::Report(ServiceState::StartPending));
            out.push(Action::Spawn);
        }
        proof {
            assert(out@ =~= spec_start(*old(self)).1);
        }
        out
    }

    /// Consume one event and return the actions the driver must perform, per
    /// `spec_step`. The invariants `wf` are preserved.
    pub fn step(&mut self, e: Event) -> (out: Vec<Action>)
        ensures
            *final(self) == spec_step(*old(self), e).0,
            out@ == spec_step(*old(self), e).1,
            wf(*old(self)) ==> wf(*final(self)),
    {
        let out = match e {
            Event::Control(ControlRequest::Stop) => self.on_stop_request(),
            Event::Control(ControlRequest::Shutdown) => self.on_stop_request(),
            Event::Control(ControlRequest::Pause) => self.on_pause(),
            Event::Control(ControlRequest::Continue) => self.on_continue(),
            Event::Control(ControlRequest::Interrogate) => {
                let mut out: Vec<Action> = Vec::new();
                out.push(Action::Report(self.state));
                proof {
                    assert(out@ =~= spec_step(*old(self), e).1);
                }
                out
            },
            Event::Spawned(h) => self.on_spawned(h),
            Event::SpawnFailed(at_ms) => self.on_spawn_failed(at_ms),
            Event::Exit(ev) => self.on_exit(ev),
            Event::RestartDelayElapsed => self.on_restart_due(),
            Event::StopTimeoutElapsed => self.on_stop_timeout(),
        };
        proof {
            if wf(*old(self)) {
                lemma_step_preserves_wf(*old(self), e);
            }
        }
        out
    }

    fn on_stop_request(&mut self) -> (out: Vec<Action>)
        ensures
            *final(self) == spec_on_stop_request(*old(self)).0,
            out@ == spec_on_stop_request(*old(self)).1,
    {
        let mut out: Vec<Action> = Vec::new();
        self.stop_accepted = true;
        let settled = match self.state {
            ServiceState::Stopped => true,
            ServiceState::StopPending => true,
            _ => false,
        };
        if settled {
            // nothing to do: already stopping or stopped
        } else if self.restart_pending {
            self.restart_pending = false;
            self.state = ServiceState::Stopped;
            out.push(Action::CancelRestartTimer);
            out.push(Action::Report(ServiceState::StopPending));
            out.push(Action::Report(ServiceState::Stopped));
        } else if self.child.is_some() {
            self.state = ServiceState::StopPending;
            out.push(Action::Report(ServiceState::StopPending));
            out.push(Action::SendStopSignal);
            out.push(Action::StartStopTimer(self.config.stop_timeout_ms));
        } else if self.awaiting_spawn {
            self.state = ServiceState::StopPending;
            out.push(Action::Report(ServiceState::StopPending));
        } else {
            self.state = ServiceState::Stopped;
            out.push(Action::Report(ServiceState::Stopped));
        }
        proof {
            assert(out@ =~= spec_on_stop_request(*old(self)).1);
        }
        out
    }

    fn on_pause(&mut self) -> (out: Vec<Action>)
        ensures
            *final(self) == spec_on_pause(*old(self)).0,
            out@ == spec_on_pause(*old(self)).1,
    {
        let mut out: Vec<Action> = Vec::new();
        let running = match self.state {
            ServiceState::Running => self.child.is_some(),
            _ => false,
        };
        if running {
            self.state = ServiceState::Paused;
            out.push(Action::Report(ServiceState::PausePending));
            if self.config.forward_pause {
                out.push(Action::SuspendChild);
            }
            out.push(Action::Report(ServiceState::Paused));
        }
        proof {
            assert(out@ =~= spec_on_pause(*old(self)).1);
        }
        out
    }

    fn on_continue(&mut self) -> (out: Vec<Action>)
        ensures
            *final(self) == spec_on_continue(*old(self)).0,
            out@ == spec_on_continue(*old(self)).1,
    {
        let mut out: Vec<Action> = Vec::new();
        let paused = match self.state {
            ServiceState::Paused => self.child.is_some(),
            _ => false,
        };
        if paused {
            self.state = ServiceState::Running;
            out.push(Action::Report(ServiceState::ContinuePending));
            if self.config.forward_pause {
                out.push(Action::ResumeChild);
            }
            out.push(Action::Report(ServiceState::Running));
        }
        proof {
            assert(out@ =~= spec_on_continue(*old(self)).1);
        }
        out
    }

    fn on_spawned(&mut self, h: ChildProcessHandle) -> (out: Vec<Action>)
        ensures
            *final(self) == spec_on_spawned(*old(self), h).0,
            out@ == spec_on_spawned(*old(self), h).1,
    {
        let mut out: Vec<Action> = Vec::new();
        if self.awaiting_spawn {
            self.awaiting_spawn = false;
            self.child = Some(h);
            if self.stop_accepted {
                self.state = ServiceState::StopPending;
                out.push(Action::SendStopSignal);
                out.push(Action::StartStopTimer(self.config.stop_timeout_ms));
            } else {
                self.state = ServiceState::Running;
                out.push(Action::Report(ServiceState::Running));
            }
        }
        proof {
            assert(out@ =~= spec_on_spawned(*old(self), h).1);
        }
        out
    }

    /// The restart-policy path; the caller has already cleared the child
    /// handle or the pending spawn.
    fn policy_path(&mut self, outcome: ExitOutcome, now_ms: u64) -> (out: Vec<Action>)
        ensures
            *final(self) == spec_policy_path(*old(self), outcome, now_ms).0,
            out@ == spec_policy_path(*old(self), outcome, now_ms).1,
    {
        let mut out: Vec<Action> = Vec::new();
        let next_state = match self.state {
            ServiceState::StartPending => ServiceState::StartPending,
            _ => ServiceState::Running,
        };
        let d = decide(&self.config.policy, &outcome, &self.counter, now_ms);
        match d {
            Decision::Stop => {
                self.state = ServiceState::Stopped;
                out.push(Action::Report(ServiceState::Stopped));
            },
            Decision::RestartNow => {
                self.counter = advance_counter(&self.counter, &self.config.policy.backoff, now_ms);
                self.state = next_state;
                self.awaiting_spawn = true;
                out.push(Action::Spawn);
            },
            Decision::RestartAfter(delay_ms) => {
                self.counter = advance_counter(&self.counter, &self.config.policy.backoff, now_ms);
                self.state = next_state;
                self.restart_pending = true;
                out.push(Action::ScheduleRestart(delay_ms));
            },
        }
        proof {
            assert(out@ =~= spec_policy_path(*old(self), outcome, now_ms).1);
        }
        out
    }

    fn on_exit(&mut self, ev: ExitEvent) -> (out: Vec<Action>)
        ensures
            *final(self) == spec_on_exit(*old(self), ev).0,
            out@ == spec_on_exit(*old(self), ev).1,
    {
        let current = match self.child {
            Some(h) => h.id == ev.handle_id,
            None => false,
        };
        if current {
            self.child = None;
            if self.stop_accepted {
                self.state = ServiceState::Stopped;
                let mut out: Vec<Action> = Vec::new();
                out.push(Action::CancelStopTimer);
                out.push(Action::Report(ServiceState::Stopped));
                proof {
                    assert(out@ =~= spec_on_exit(*old(self), ev).1);
                }
                out
            } else {
                self.policy_path(ev.outcome, ev.at_ms)
            }
        } else {
            let out: Vec<Action> = Vec::new();
            proof {
                assert(out@ =~= spec_on_exit(*old(self), ev).1);
            }
            out
        }
    }

    fn on_spawn_failed(&mut self, at_ms: u64) -> (out: Vec<Action>)
        ensures
            *final(self) == spec_on_spawn_failed(*old(self), at_ms).0,
            out@ == spec_on_spawn_failed(*old(self), at_ms).1,
    {
        if self.awaiting_spawn {
            self.awaiting_spawn = false;
            if self.stop_accepted {
                self.state = ServiceState::Stopped;
                let mut out: Vec<Action> = Vec::new();
                out.push(Action::Report(ServiceState::Stopped));
                proof {
                    assert(out@ =~= spec_on_spawn_failed(*old(self), at_ms).1);
                }
                out
            } else {
                self.policy_path(ExitOutcome::SpawnFailed, at_ms)
            }
        } else {
            let out: Vec<Action> = Vec::new();
            proof {
                assert(out@ =~= spec_on_spawn_failed(*old(self), at_ms).1);
            }
            out
        }
    }

    fn on_restart_due(&mut self) -> (out: Vec<Action>)
        ensures
            *final(self) == spec_on_restart_due(*old(self)).0,
            out@ == spec_on_restart_due(*old(self)).1,
    {
        let mut out: Vec<Action> = Vec::new();
        if self.restart_pending && !self.stop_accepted {
            self.restart_pending = false;
            self.awaiting_spawn = true;
            out.push(Action::Spawn);
        }
        proof {
            assert(out@ =~= spec_on_restart_due(*old(self)).1);
        }
        out
    }

    fn on_stop_timeout(&mut self) -> (out: Vec<Action>)
        ensures
            *final(self) == spec_on_stop_timeout(*old(self)).0,
            out@ == spec_on_stop_timeout(*old(self)).1,
    {
        let mut out: Vec<Action> = Vec::new();
        let due = match self.state {
            ServiceState::StopPending => self.child.is_some() && !self.force_kill_issued,
            _ => false,
        };
        if due {
            self.force_kill_issued = true;
            out.push(Action::ForceKill);
        }
        proof {
            assert(out@ =~= spec_on_stop_timeout(*old(self)).1);
        }
        out
    }
}

/// Every step from a well-formed state lands in a well-formed state.
pub proof fn lemma_step_preserves_wf(s: Engine, e: Event)
    requires
        wf(s),
    ensures
        wf(spec_step(s, e).0),
{
}

/// The engine after consuming a whole sequence of events, first one first.
pub open spec fn spec_run(s: Engine, evs: Seq<Event>) -> Engine
    decreases evs.len(),
{
    if evs.len() == 0 {
        s
    } else {
        spec_run(spec_step(s, evs[0]).0, evs.drop_first())
    }
}

/// Once a stop has been accepted, the very next step emits no `Spawn` —
/// whatever the event, including an exit notification for the in-flight
/// child — and the stop stays accepted.
pub proof fn lemma_no_spawn_after_stop(s: Engine, e: Event)
    requires
        wf(s),
        s.stop_accepted,
    ensures
        !spec_step(s, e).1.contains(Action::Spawn),
        spec_step(s, e).0.stop_accepted,
{
}

/// Once a stop has been accepted it stays accepted over any sequence of
/// further events, and the state stays well formed. Together with
/// `lemma_no_spawn_after_stop` this says no new child is ever spawned for
/// the instance after the stop, however late the exit events arrive.
pub proof fn lemma_stop_accepted_forever(s: Engine, evs: Seq<Event>)
    requires
        wf(s),
        s.stop_accepted,
    ensures
        wf(spec_run(s, evs)),
        spec_run(s, evs).stop_accepted,
    decreases evs.len(),
{
    if evs.len() > 0 {
        lemma_step_preserves_wf(s, evs[0]);
        lemma_no_spawn_after_stop(s, evs[0]);
        lemma_stop_accepted_forever(spec_step(s, evs[0]).0, evs.drop_first());
    }
}

/// Whether an action is a report of a stopping state (or no report at all).
pub open spec fn reports_only_stopping(a: Action) -> bool {
    a matches Action::Report(st) ==> st is StopPending || st is Stopped
}

/// After a stop has been accepted, every status the engine ever asks to be
/// published is `StopPending` or `Stopped`, whatever events still arrive.
pub proof fn lemma_reports_after_stop(s: Engine, e: Event)
    requires
        wf(s),
        s.stop_accepted,
    ensures
        forall|i: int|
            0 <= i < spec_step(s, e).1.len() ==> reports_only_stopping(#[trigger] spec_step(s, e).1[i]),
{
}

/// A `Running` status is asked to be published only when the step leaves a
/// live child behind. The one state this needs as a premise: while a restart
/// delay or a respawn is in flight the stored state still reads `Running`,
/// and an `Interrogate` arriving in that window re-publishes it with no
/// child live — such a state is excluded here.
pub proof fn lemma_running_report_has_child(s: Engine, e: Event)
    requires
        wf(s),
        s.state is Running ==> s.child is Some,
    ensures
        spec_step(s, e).1.contains(Action::Report(ServiceState::Running)) ==> spec_step(
            s,
            e,
        ).0.child is Some,
{
}

/// The step that accepts a `Stop`/`Shutdown` cancels a pending restart
/// delay in that same step: the cancel action is emitted at once, and the
/// delay is pending no more. By `wf`, `stop_accepted ==> !restart_pending`,
/// it stays cancelled ever after.
pub proof fn lemma_stop_cancels_restart(s: Engine, e: Event)
    requires
        wf(s),
        e == Event::Control(ControlRequest::Stop) || e == Event::Control(ControlRequest::Shutdown),
    ensures
        !spec_step(s, e).0.restart_pending,
        s.restart_pending ==> spec_step(s, e).1.contains(Action::CancelRestartTimer),
        spec_step(s, e).0.stop_accepted,
{
    if s.restart_pending {
        assert(spec_step(s, e).1[0] == Action::CancelRestartTimer);
    }
}

/// However many events follow an accepted stop, no step among them or after
/// them ever emits `Spawn`: no new child is spawned for this instance again.
pub proof fn lemma_no_spawn_after_stop_forever(s: Engine, evs: Seq<Event>, e: Event)
    requires
        wf(s),
        s.stop_accepted,
    ensures
        !spec_step(spec_run(s, evs), e).1.contains(Action::Spawn),
{
    lemma_stop_accepted_forever(s, evs);
    lemma_no_spawn_after_stop(spec_run(s, evs), e);
}

/// However many events follow an accepted stop, every status ever published
/// from then on is `StopPending` or `Stopped`.
pub proof fn lemma_reports_after_stop_forever(s: Engine, evs: Seq<Event>, e: Event)
    requires
        wf(s),
        s.stop_accepted,
    ensures
        forall|i: int|
            0 <= i < spec_step(spec_run(s, evs), e).1.len() ==> reports_only_stopping(
                #[trigger] spec_step(spec_run(s, evs), e).1[i],
            ),
{
    lemma_stop_accepted_forever(s, evs);
    lemma_reports_after_stop(spec_run(s, evs), e);
}

/// Forced termination is invoked at most once per instance: once the flag
/// is up, no later step emits `ForceKill`, and nothing takes the flag down.
pub proof fn lemma_force_kill_at_most_once(s: Engine, e: Event)
    requires
        wf(s),
        s.force_kill_issued,
    ensures
        !spec_step(s, e).1.contains(Action::ForceKill),
        spec_step(s, e).0.force_kill_issued,
{
}

} // verus!
