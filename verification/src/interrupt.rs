//! The cooperative cancellation token: a start instant and a millisecond
//! budget, polled by the evaluation engine at safe points. The token is
//! advisory; it performs no forcible termination.

use vstd::prelude::*;

verus! {

/// A wall-clock instant, kept opaque: only the elapsed time since it is read.
#[verifier::external_type_specification]
#[verifier::external_body]
pub struct ExInstant(std::time::Instant);

/// Relies on std::time::Instant::now: reads the monotonic clock. The value
/// depends on when the call runs, so nothing is assumed of it.
pub assume_specification[ std::time::Instant::now ]() -> std::time::Instant;

/// Relies on std::time::Instant::duration_since: the time from `earlier` to
/// `later` (zero if `earlier` is the later of the two). The instants are
/// opaque, so nothing is assumed of the value.
pub assume_specification[ std::time::Instant::duration_since ](
    later: &std::time::Instant,
    earlier: std::time::Instant,
) -> core::time::Duration;

/// Relies on core::time::Duration::as_millis: the whole milliseconds of the
/// span. The span is opaque, so nothing is assumed of the value.
pub assume_specification[ core::time::Duration::as_millis ](
    d: &core::time::Duration,
) -> u128;

/// The interruption rule: a call is due to stop once the time elapsed since
/// its start exceeds its budget, both in milliseconds.
pub open spec fn interrupt_due(elapsed_ms: u128, budget_ms: u128) -> bool {
    elapsed_ms > budget_ms
}

/// Once due, an interrupt stays due: elapsed wall-clock time only grows, and
/// the rule is monotone in it. This is what makes the token's answer stable
/// for the rest of its lifetime.
pub proof fn lemma_interrupt_monotonic(e1: u128, e2: u128, budget_ms: u128)
    requires
        e1 <= e2,
        interrupt_due(e1, budget_ms),
    ensures
        interrupt_due(e2, budget_ms),
{
}

/// A tighter budget never outlasts a looser one: at any elapsed time at which
/// a call bounded by the larger budget is due to stop, a call bounded by the
/// smaller budget is due to stop as well.
pub proof fn lemma_tighter_budget_fires_first(elapsed_ms: u128, t1: u128, t2: u128)
    requires
        t1 <= t2,
        interrupt_due(elapsed_ms, t2),
    ensures
        interrupt_due(elapsed_ms, t1),
{
}

/// A cooperative cancellation token. One is created fresh for every
/// evaluation call and discarded after; it is never shared between calls.
pub struct TimeoutInterrupt {
    pub start: std::time::Instant,
    pub timeout: u128,
}

impl TimeoutInterrupt {
    /// A fresh token whose budget is `timeout` milliseconds, starting now.
    pub fn new_with_timeout(timeout: u128) -> (r: Self)
        ensures
            r.timeout == timeout,
    {
        TimeoutInterrupt { start: std::time::Instant::now(), timeout }
    }

    /// Milliseconds elapsed since the token was created. The value depends on
    /// the clock, so nothing is stated of it beyond what `duration_since`
    /// gives.
    pub fn elapsed_ms(&self) -> u128 {
        std::time::Instant::now().duration_since(self.start).as_millis()
    }

    /// The interruption rule applied to a given elapsed time: exactly
    /// `interrupt_due` against this token's budget.
    pub fn due_at(&self, elapsed_ms: u128) -> (r: bool)
        ensures
            r == interrupt_due(elapsed_ms, self.timeout),
    {
        elapsed_ms > self.timeout
    }

    /// Whether the budget is exhausted right now: the interruption rule
    /// applied to a fresh reading of the clock.
    pub fn poll(&self) -> bool {
        let elapsed: u128 = self.elapsed_ms();
        self.due_at(elapsed)
    }
}

impl fend_core::Interrupt for TimeoutInterrupt {
    /// Relies on fend_core::Interrupt: the engine polls this method at safe
    /// points and stops with an interruption error once it returns true. The
    /// impl of an outside trait cannot be verified, so this body only
    /// forwards to the verified `poll`.
    #[verifier::external_body]
    fn should_interrupt(&self) -> bool {
        self.poll()
    }
}

} // verus!
