//! The evaluation context store: owns the one long-lived interpreter context
//! and exposes the two evaluation entry points with their isolation
//! guarantees. Committing evaluation mutates the live context in place;
//! preview evaluation runs on a disposable copy, so the live context is
//! shared, not borrowed mutably, and cannot change through it.

use vstd::prelude::*;

use crate::engine::install_random_source;
use crate::engine::local_clock;
use crate::prompt::evaluate;

verus! {

/// The owner of the live interpreter context. Exactly one is meant to exist
/// per session; callers that share it across threads guard it themselves,
/// and a preview copy, once taken, needs no further synchronization.
pub struct ContextStore {
    ctx: fend_core::Context,
}

impl ContextStore {
    /// Builds the live context: a fresh engine context seeded with the local
    /// clock (epoch milliseconds and UTC offset in seconds) and with the
    /// process random-number source. Meant to be called once at startup.
    pub fn initialize() -> ContextStore {
        let mut ctx = fend_core::Context::new();
        let (epoch_ms, offset_secs) = local_clock();
        ctx.set_current_time_v1(epoch_ms, offset_secs);
        install_random_source(&mut ctx);
        ContextStore { ctx }
    }

    /// Wraps a context built elsewhere, for callers that seed or augment the
    /// engine themselves before handing it over.
    pub fn from_context(ctx: fend_core::Context) -> ContextStore {
        ContextStore { ctx }
    }

    /// The isolation boundary: an independent copy of the live context.
    /// Whatever a later evaluation does to the copy, the original is only
    /// shared here and stays as it was.
    pub fn snapshot_for_preview(&self) -> ContextStore {
        ContextStore { ctx: self.ctx.clone() }
    }

    /// Committing evaluation: runs against the live context in place, so new
    /// variable bindings persist for later calls. Empty input is owed an
    /// empty success; everything else is the engine's decision.
    pub fn commit_evaluate(&mut self, expr: &str, timeout_ms: u64) -> (r: Result<String, String>)
        ensures
            expr@.len() == 0 ==> match r {
                Ok(shown) => shown@ == Seq::<char>::empty(),
                Err(_) => false,
            },
            expr@.len() == 0 ==> *final(self) == *old(self),
    {
        evaluate(expr, timeout_ms, &mut self.ctx)
    }

    /// Preview evaluation: runs against a disposable copy of the live
    /// context. The store is only shared here, so no mutation of the live
    /// context is observable through this call, whatever the expression does.
    pub fn preview_evaluate(&self, expr: &str, timeout_ms: u64) -> (r: Result<String, String>)
        ensures
            expr@.len() == 0 ==> match r {
                Ok(shown) => shown@ == Seq::<char>::empty(),
                Err(_) => false,
            },
    {
        let mut copy = self.snapshot_for_preview();
        copy.commit_evaluate(expr, timeout_ms)
    }

    /// Hands out the engine context itself, for the one augmentation the
    /// verified code cannot hold: installing the currency-rate resolver,
    /// whose values cross as floating point.
    pub fn context_mut(&mut self) -> &mut fend_core::Context {
        &mut self.ctx
    }
}

} // verus!
