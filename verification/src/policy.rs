//! The restart-policy engine: a pure decision function mapping a policy, an
//! exit outcome and the attempt history to a restart decision.
//!
//! `decide` never touches global state; everything it depends on is passed in
//! explicitly, and its result is pinned to the spec function `spec_decide`,
//! so two calls with identical inputs return identical decisions.

use vstd::prelude::*;
use vstd::arithmetic::power2::{pow2, lemma_pow2_unfold, lemma2_to64};
use vstd::arithmetic::mul::lemma_mul_nonnegative;

verus! {

/// Backoff parameters of a restart policy: the first delay, the ceiling the
/// delay may grow to, and how long after the start of a restart window the
/// consecutive-attempt counter is treated as reset. All durations are in
/// milliseconds.
#[derive(Clone, Copy, Debug, PartialEq, Eq, Structural)]
pub struct Backoff {
    pub initial_ms: u64,
    pub max_ms: u64,
    pub reset_after_ms: u64,
}

/// The kind of a restart policy: never restart, always restart, or restart
/// unless the child exited normally with a code in the given success set.
#[derive(Clone, Debug)]
pub enum PolicyKind {
    Never,
    Always,
    OnFailure(Vec<u32>),
}

/// A restart policy: its kind, optionally together with backoff parameters.
/// Without backoff parameters every restart is immediate.
#[derive(Clone, Debug)]
pub struct RestartPolicy {
    pub kind: PolicyKind,
    pub backoff: Option<Backoff>,
}

/// How a child process run ended: a normal exit with a code, a death by
/// forced kill or unhandled signal, or a failure to launch at all.
#[derive(Clone, Copy, Debug, PartialEq, Eq, Structural)]
pub enum ExitOutcome {
    Exited(u32),
    Killed,
    SpawnFailed,
}

/// The attempt history the backoff computation works from: how many
/// consecutive restarts have happened, and when the current restart window
/// started (milliseconds on the driver's clock).
#[derive(Clone, Copy, Debug, PartialEq, Eq, Structural)]
pub struct AttemptCounter {
    pub attempts: u32,
    pub window_start_ms: u64,
}

/// What the policy engine tells the control loop to do after a child exit:
/// relaunch at once, relaunch after a delay (milliseconds), or stop the
/// service.
#[derive(Clone, Copy, Debug, PartialEq, Eq, Structural)]
pub enum Decision {
    RestartNow,
    RestartAfter(u64),
    Stop,
}

impl AttemptCounter {
    /// A fresh history: no restart has happened yet.
    pub fn new() -> (c: AttemptCounter)
        ensures
            c.attempts == 0,
            c.window_start_ms == 0,
    {
        AttemptCounter { attempts: 0, window_start_ms: 0 }
    }
}

/// The smaller of `v` and `cap`.
pub open spec fn capped(v: int, cap: int) -> int {
    if v <= cap {
        v
    } else {
        cap
    }
}

/// Whether the restart window has aged out: only with backoff parameters, and
/// only once more than `reset_after_ms` has passed since the window started.
pub open spec fn spec_window_expired(backoff: Option<Backoff>, c: AttemptCounter, now_ms: u64) -> bool {
    backoff matches Some(b) && now_ms - c.window_start_ms > b.reset_after_ms
}

/// The attempt count the backoff computation uses: the recorded count, or
/// zero once the restart window has aged out.
pub open spec fn spec_effective_attempts(b: Backoff, c: AttemptCounter, now_ms: u64) -> nat {
    if spec_window_expired(Some(b), c, now_ms) {
        0
    } else {
        c.attempts as nat
    }
}

/// The backoff delay before restart attempt number `attempts`:
/// `initial * 2^attempts`, capped at `max`.
pub open spec fn spec_backoff_delay(b: Backoff, attempts: nat) -> int {
    capped(b.initial_ms * pow2(attempts), b.max_ms as int)
}

/// Whether `outcome` counts as a success under an `OnFailure` policy: a
/// normal exit whose code is in the success set. A forced kill or a spawn
/// failure is never a success.
pub open spec fn spec_is_success(outcome: ExitOutcome, success_codes: Seq<u32>) -> bool {
    outcome matches ExitOutcome::Exited(code) && success_codes.contains(code)
}

/// The restart decision once the policy has decided to restart at all: at
/// once without backoff parameters, after the computed backoff delay with
/// them.
pub open spec fn spec_restart_decision(backoff: Option<Backoff>, c: AttemptCounter, now_ms: u64) -> Decision {
    match backoff {
        Option::None => Decision::RestartNow,
        Option::Some(b) => Decision::RestartAfter(
            spec_backoff_delay(b, spec_effective_attempts(b, c, now_ms)) as u64,
        ),
    }
}

/// The whole decision rule:
/// - `Never` always stops;
/// - `Always` always restarts, per the backoff rule;
/// - `OnFailure` stops on a successful exit and otherwise restarts per the
///   same backoff rule.
pub open spec fn spec_decide(policy: RestartPolicy, outcome: ExitOutcome, c: AttemptCounter, now_ms: u64) -> Decision {
    match policy.kind {
        PolicyKind::Never => Decision::Stop,
        PolicyKind::Always => spec_restart_decision(policy.backoff, c, now_ms),
        PolicyKind::OnFailure(codes) => {
            if spec_is_success(outcome, codes@) {
                Decision::Stop
            } else {
                spec_restart_decision(policy.backoff, c, now_ms)
            }
        },
    }
}

/// The attempt history after one more restart has been decided: a window
/// that aged out starts afresh with this restart as its first; otherwise the
/// count grows by one (saturating) and the window keeps its start.
pub open spec fn spec_advance(c: AttemptCounter, backoff: Option<Backoff>, now_ms: u64) -> AttemptCounter {
    if spec_window_expired(backoff, c, now_ms) {
        AttemptCounter { attempts: 1, window_start_ms: now_ms }
    } else {
        AttemptCounter {
            attempts: if c.attempts == u32::MAX {
                u32::MAX
            } else {
                (c.attempts + 1) as u32
            },
            window_start_ms: c.window_start_ms,
        }
    }
}

/// The backoff delay is never negative and never above the configured
/// ceiling.
pub proof fn lemma_backoff_delay_bounds(b: Backoff, attempts: nat)
    ensures
        0 <= spec_backoff_delay(b, attempts) <= b.max_ms,
{
    lemma_mul_nonnegative(b.initial_ms as int, pow2(attempts) as int);
}

/// Computes `spec_backoff_delay(b, attempts)` by repeated doubling, capped at
/// `b.max_ms` throughout so nothing overflows.
pub fn backoff_delay(b: &Backoff, attempts: u32) -> (d: u64)
    ensures
        d == spec_backoff_delay(*b, attempts as nat),
{
    proof {
        lemma2_to64();
    }
    let mut d: u64 = if b.initial_ms <= b.max_ms {
        b.initial_ms
    } else {
        b.max_ms
    };
    let mut k: u32 = 0;
    while k < attempts
        invariant
            k <= attempts,
            d == spec_backoff_delay(*b, k as nat),
        decreases attempts - k,
    {
        proof {
            lemma_pow2_unfold((k + 1) as nat);
            lemma_mul_nonnegative(b.initial_ms as int, pow2(k as nat) as int);
            assert(b.initial_ms * pow2((k + 1) as nat) == 2 * (b.initial_ms * pow2(k as nat)))
                by (nonlinear_arith)
                requires pow2((k + 1) as nat) == 2 * pow2(k as nat);
        }
        if d <= b.max_ms / 2 {
            d = d * 2;
        } else {
            d = b.max_ms;
        }
        k = k + 1;
    }
    d
}

/// Whether `code` is in the success set, i.e. whether `codes@.contains(code)`.
pub fn code_in_set(codes: &Vec<u32>, code: u32) -> (r: bool)
    ensures
        r == codes@.contains(code),
{
    let mut i: usize = 0;
    while i < codes.len()
        invariant
            i <= codes@.len(),
            forall|j: int| 0 <= j < i ==> codes@[j] != code,
        decreases codes@.len() - i,
    {
        if codes[i] == code {
            return true;
        }
        i = i + 1;
    }
    false
}

/// The restart decision once the policy has decided to restart at all.
fn restart_decision(backoff: &Option<Backoff>, c: &AttemptCounter, now_ms: u64) -> (d: Decision)
    ensures
        d == spec_restart_decision(*backoff, *c, now_ms),
{
    match backoff {
        Option::None => Decision::RestartNow,
        Option::Some(b) => {
            let attempts: u32 = if now_ms > c.window_start_ms && now_ms - c.window_start_ms
                > b.reset_after_ms {
                0
            } else {
                c.attempts
            };
            proof {
                lemma_backoff_delay_bounds(*b, attempts as nat);
            }
            Decision::RestartAfter(backoff_delay(b, attempts))
        },
    }
}

/// The restart-policy engine's decision function. Pure: the result is
/// exactly `spec_decide` of the four arguments, so it depends on nothing
/// else, and identical inputs always yield the identical decision.
pub fn decide(policy: &RestartPolicy, outcome: &ExitOutcome, c: &AttemptCounter, now_ms: u64) -> (d: Decision)
    ensures
        d == spec_decide(*policy, *outcome, *c, now_ms),
{
    match &policy.kind {
        PolicyKind::Never => Decision::Stop,
        PolicyKind::Always => restart_decision(&policy.backoff, c, now_ms),
        PolicyKind::OnFailure(codes) => {
            let success = match outcome {
                ExitOutcome::Exited(code) => code_in_set(codes, *code),
                ExitOutcome::Killed => false,
                ExitOutcome::SpawnFailed => false,
            };
            if success {
                Decision::Stop
            } else {
                restart_decision(&policy.backoff, c, now_ms)
            }
        },
    }
}

/// One more restart has been decided: advance the attempt history per
/// `spec_advance`.
pub fn advance_counter(c: &AttemptCounter, backoff: &Option<Backoff>, now_ms: u64) -> (next: AttemptCounter)
    ensures
        next == spec_advance(*c, *backoff, now_ms),
{
    let expired = match backoff {
        Option::Some(b) => now_ms > c.window_start_ms && now_ms - c.window_start_ms
            > b.reset_after_ms,
        Option::None => false,
    };
    if expired {
        AttemptCounter { attempts: 1, window_start_ms: now_ms }
    } else {
        AttemptCounter {
            attempts: if c.attempts == u32::MAX {
                u32::MAX
            } else {
                c.attempts + 1
            },
            window_start_ms: c.window_start_ms,
        }
    }
}

/// The decision function is pure: two results obtained from identical
/// inputs are identical, whatever the policy and outcome.
pub proof fn lemma_decide_deterministic(
    policy: RestartPolicy,
    outcome: ExitOutcome,
    c: AttemptCounter,
    now_ms: u64,
    d1: Decision,
    d2: Decision,
)
    requires
        d1 == spec_decide(policy, outcome, c, now_ms),
        d2 == spec_decide(policy, outcome, c, now_ms),
    ensures
        d1 == d2,
{
}

} // verus!
