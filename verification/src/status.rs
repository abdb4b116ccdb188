//! The status reporter: it maintains the checkpoint/wait-hint progress
//! contract the SCM enforces. Every publication carries a checkpoint that
//! grows monotonically and a wait hint fitted to the operation in progress —
//! longest for `StopPending`, where the stop timeout must be waited out.
//! Re-publishing the same pending state with a fresh checkpoint is the
//! heartbeat that keeps the SCM from declaring the service hung.

use vstd::prelude::*;
use crate::engine::ServiceState;

verus! {

/// Wait hint for the short pending transitions (milliseconds).
pub const PENDING_WAIT_HINT_MS: u64 = 5000;

/// Slack added to the stop timeout for the `StopPending` wait hint
/// (milliseconds), covering signal delivery and the forced-kill fallback.
pub const STOP_WAIT_GRACE_MS: u64 = 2000;

/// One publication to the SCM: the state, the progress checkpoint, the wait
/// hint, and the service's own exit code (always 0 here: a stop through this
/// runtime is administrative success; the child's exit code only feeds the
/// restart decision and is never the service's).
#[derive(Clone, Copy, Debug, PartialEq, Eq, Structural)]
pub struct StatusReport {
    pub state: ServiceState,
    pub checkpoint: u64,
    pub wait_hint_ms: u64,
    pub service_exit_code: u32,
}

/// The wait hint fitted to a state: stable states promise nothing pending,
/// short transitions get the default hint, and `StopPending` gets the stop
/// timeout plus grace (saturating).
pub open spec fn spec_wait_hint(state: ServiceState, stop_timeout_ms: u64) -> int {
    match state {
        ServiceState::StartPending => PENDING_WAIT_HINT_MS as int,
        ServiceState::PausePending => PENDING_WAIT_HINT_MS as int,
        ServiceState::ContinuePending => PENDING_WAIT_HINT_MS as int,
        ServiceState::StopPending => if stop_timeout_ms + STOP_WAIT_GRACE_MS <= u64::MAX {
            stop_timeout_ms + STOP_WAIT_GRACE_MS
        } else {
            u64::MAX as int
        },
        ServiceState::Running => 0,
        ServiceState::Paused => 0,
        ServiceState::Stopped => 0,
    }
}

/// Owns the checkpoint counter; only publishing advances it.
#[derive(Clone, Copy, Debug, PartialEq, Eq, Structural)]
pub struct StatusReporter {
    pub checkpoint: u64,
}

impl StatusReporter {
    /// A fresh reporter: no checkpoint spent yet.
    pub fn new() -> (r: StatusReporter)
        ensures
            r.checkpoint == 0,
    {
        StatusReporter { checkpoint: 0 }
    }

    /// Build the next publication for `state`: the checkpoint advances by
    /// one (saturating, so it never goes backward) and the wait hint is
    /// `spec_wait_hint`. Publishing the same pending state again is the
    /// heartbeat.
    pub fn publish(&mut self, state: ServiceState, stop_timeout_ms: u64) -> (r: StatusReport)
        ensures
            final(self).checkpoint == if old(self).checkpoint == u64::MAX {
                u64::MAX as int
            } else {
                old(self).checkpoint + 1
            },
            final(self).checkpoint >= old(self).checkpoint,
            r.checkpoint == final(self).checkpoint,
            r.state == state,
            r.wait_hint_ms == spec_wait_hint(state, stop_timeout_ms),
            r.service_exit_code == 0,
    {
        if self.checkpoint < u64::MAX {
            self.checkpoint = self.checkpoint + 1;
        }
        let wait_hint_ms: u64 = match state {
            ServiceState::StartPending => PENDING_WAIT_HINT_MS,
            ServiceState::PausePending => PENDING_WAIT_HINT_MS,
            ServiceState::ContinuePending => PENDING_WAIT_HINT_MS,
            ServiceState::StopPending => if stop_timeout_ms <= u64::MAX - STOP_WAIT_GRACE_MS {
                stop_timeout_ms + STOP_WAIT_GRACE_MS
            } else {
                u64::MAX
            },
            ServiceState::Running => 0,
            ServiceState::Paused => 0,
            ServiceState::Stopped => 0,
        };
        StatusReport { state, checkpoint: self.checkpoint, wait_hint_ms, service_exit_code: 0 }
    }
}

} // verus!
