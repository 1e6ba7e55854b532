//! The reconnection supervisor: what to do when one run of the client
//! session driver has ended, and how long to wait before the next.
//!
//! The supervisor never gives up. A run that ended cleanly is followed at
//! once by the next; a run that failed is followed by a pause that doubles
//! with each failure in a row, up to a ceiling.

use vstd::prelude::*;

verus! {

/// The pause after the first failure, in milliseconds.
pub const BASE_BACKOFF_MS: u64 = 100;

/// The longest pause between two attempts, in milliseconds.
pub const MAX_BACKOFF_MS: u64 = 30_000;

/// How one run of the session driver ended.
#[derive(Debug, Clone, Copy, PartialEq, Eq, Structural)]
pub enum DriverOutcome {
    /// The driver returned without error: the connection has ended.
    Completed,
    /// The driver returned an error.
    Failed,
    /// The task that ran the driver ended abnormally.
    TaskFailed,
    /// A background task signalled a fault while the driver was running.
    Fault,
}

/// What the supervisor does before the next attempt. There is always a
/// next attempt.
#[derive(Debug, Clone, Copy, PartialEq, Eq, Structural)]
pub struct Retry {
    /// Whether the driver is still in flight and has to be aborted first.
    pub abort_driver: bool,
    /// How long to sleep before reconnecting, in milliseconds.
    pub delay_ms: u64,
}

/// Whether an outcome counts as a failure of the attempt.
pub open spec fn is_failure(outcome: DriverOutcome) -> bool {
    outcome != DriverOutcome::Completed
}

/// The pause that follows `backoff`, after one more failure.
pub open spec fn doubled(backoff: nat) -> nat {
    if 2 * backoff <= MAX_BACKOFF_MS {
        2 * backoff
    } else {
        MAX_BACKOFF_MS as nat
    }
}

/// The pause that is due after `failures` failures in a row, counted from
/// a fresh supervisor or from the last clean run: 0 for the first.
pub open spec fn backoff_after(failures: nat) -> nat
    decreases failures,
{
    if failures == 0 {
        BASE_BACKOFF_MS as nat
    } else {
        doubled(backoff_after((failures - 1) as nat))
    }
}

/// 2 to the power `k`.
pub open spec fn pow2(k: nat) -> nat
    decreases k,
{
    if k == 0 {
        1
    } else {
        2 * pow2((k - 1) as nat)
    }
}

/// What the supervisor answers to an outcome, given the pause it holds.
pub open spec fn retry_for(backoff: u64, outcome: DriverOutcome) -> Retry {
    match outcome {
        DriverOutcome::Completed => Retry { abort_driver: false, delay_ms: 0 },
        DriverOutcome::Failed => Retry { abort_driver: false, delay_ms: backoff },
        DriverOutcome::TaskFailed => Retry { abort_driver: false, delay_ms: backoff },
        DriverOutcome::Fault => Retry { abort_driver: true, delay_ms: backoff },
    }
}

/// The pause the supervisor holds after an outcome.
pub open spec fn next_backoff(backoff: u64, outcome: DriverOutcome) -> nat {
    if is_failure(outcome) {
        doubled(backoff as nat)
    } else {
        BASE_BACKOFF_MS as nat
    }
}

/// The state of the outer retry loop: the pause that the next failure will
/// cost.
pub struct Supervisor {
    backoff_ms: u64,
}

impl Supervisor {
    #[verifier::type_invariant]
    spec fn in_range(self) -> bool {
        BASE_BACKOFF_MS <= self.backoff_ms <= MAX_BACKOFF_MS
    }

    /// The pause that the next failure will cost, in milliseconds.
    pub closed spec fn backoff(self) -> u64 {
        self.backoff_ms
    }

    /// A supervisor before its first attempt.
    pub fn new() -> (s: Self)
        ensures
            s.backoff() == BASE_BACKOFF_MS,
    {
        Supervisor { backoff_ms: BASE_BACKOFF_MS }
    }

    /// The pause that the next failure will cost, in milliseconds.
    pub fn backoff_ms(&self) -> (ms: u64)
        ensures
            ms == self.backoff(),
            BASE_BACKOFF_MS <= ms <= MAX_BACKOFF_MS,
    {
        proof {
            use_type_invariant(self);
        }
        self.backoff_ms
    }

    /// Takes note of how an attempt ended and says what to do before the
    /// next one.
    ///
    /// After a clean run the next attempt follows at once and the pause is
    /// back at its base. After any failure the supervisor sleeps for the
    /// pause it held, and the pause doubles, up to the ceiling. A fault
    /// signalled from outside also has the running driver aborted.
    pub fn on_outcome(&mut self, outcome: DriverOutcome) -> (retry: Retry)
        ensures
            retry == retry_for(old(self).backoff(), outcome),
            final(self).backoff() == next_backoff(old(self).backoff(), outcome),
            retry.delay_ms <= MAX_BACKOFF_MS,
    {
        proof {
            use_type_invariant(&*self);
        }
        let held = self.backoff_ms;
        match outcome {
            DriverOutcome::Completed => {
                self.backoff_ms = BASE_BACKOFF_MS;
                Retry { abort_driver: false, delay_ms: 0 }
            },
            DriverOutcome::Failed | DriverOutcome::TaskFailed => {
                self.backoff_ms = Self::double(held);
                Retry { abort_driver: false, delay_ms: held }
            },
            DriverOutcome::Fault => {
                self.backoff_ms = Self::double(held);
                Retry { abort_driver: true, delay_ms: held }
            },
        }
    }

    fn double(backoff: u64) -> (next: u64)
        requires
            BASE_BACKOFF_MS <= backoff <= MAX_BACKOFF_MS,
        ensures
            next == doubled(backoff as nat),
            BASE_BACKOFF_MS <= next <= MAX_BACKOFF_MS,
    {
        let twice: u64 = backoff * 2;
        if twice <= MAX_BACKOFF_MS {
            twice
        } else {
            MAX_BACKOFF_MS
        }
    }
}

/// The pause never leaves the range from the base to the ceiling, and
/// never shrinks while failures go on.
pub proof fn theorem_backoff_bounded_and_monotone(failures: nat)
    ensures
        BASE_BACKOFF_MS <= backoff_after(failures) <= MAX_BACKOFF_MS,
        backoff_after(failures) <= backoff_after(failures + 1),
    decreases failures,
{
    if failures > 0 {
        theorem_backoff_bounded_and_monotone((failures - 1) as nat);
    }
}

/// After `failures` failures in a row the pause is the base doubled that
/// many times, or the ceiling where that would exceed it.
pub proof fn theorem_backoff_doubles_to_ceiling(failures: nat)
    ensures
        backoff_after(failures) == if BASE_BACKOFF_MS * pow2(failures) <= MAX_BACKOFF_MS {
            BASE_BACKOFF_MS * pow2(failures)
        } else {
            MAX_BACKOFF_MS as int
        },
    decreases failures,
{
    if failures > 0 {
        let k = (failures - 1) as nat;
        theorem_backoff_doubles_to_ceiling(k);
        lemma_pow2_grows(k);
        assert(BASE_BACKOFF_MS * pow2(failures) == 2 * (BASE_BACKOFF_MS * pow2(k))) by (nonlinear_arith)
            requires
                pow2(failures) == 2 * pow2(k),
        ;
    }
}

proof fn lemma_pow2_grows(k: nat)
    ensures
        pow2(k) >= 1,
        pow2(k + 1) == 2 * pow2(k),
    decreases k,
{
    if k > 0 {
        lemma_pow2_grows((k - 1) as nat);
    }
}

/// A supervisor that has seen `failures` failures in a row holds the pause
/// that the formula gives, and one more failure costs exactly that pause.
pub proof fn theorem_failure_costs_current_pause(failures: nat, outcome: DriverOutcome)
    requires
        is_failure(outcome),
    ensures
        retry_for(backoff_after(failures) as u64, outcome).delay_ms == backoff_after(failures),
        next_backoff(backoff_after(failures) as u64, outcome) == backoff_after(failures + 1),
{
    theorem_backoff_bounded_and_monotone(failures);
}

/// A clean run puts the supervisor back where a fresh one starts, whatever
/// came before.
pub proof fn theorem_clean_run_resets(backoff: u64)
    ensures
        retry_for(backoff, DriverOutcome::Completed).delay_ms == 0,
        next_backoff(backoff, DriverOutcome::Completed) == backoff_after(0),
{
}

} // verus!
