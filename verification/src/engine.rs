//! Trusted boundary to the outside evaluation engine and to the clocks it is
//! seeded from. The engine is an opaque capability: evaluate an expression
//! against a mutable context, interruptibly, and classify the result. Its
//! arithmetic and unit semantics are deliberately not modelled here.

use vstd::prelude::*;

use crate::interrupt::TimeoutInterrupt;

verus! {

/// The engine's mutable interpreter state (variable bindings, configured
/// current time, random source, currency-rate resolver), kept opaque.
#[verifier::external_type_specification]
#[verifier::external_body]
pub struct ExContext(fend_core::Context);

/// Relies on fend_core::Context::new: a fresh interpreter context.
pub assume_specification[ fend_core::Context::new ]() -> fend_core::Context;

/// Relies on fend_core::Context::set_current_time_v1: stores the given epoch
/// milliseconds and UTC offset in seconds as the context's current time.
pub assume_specification[ fend_core::Context::set_current_time_v1 ](
    ctx: &mut fend_core::Context,
    ms_since_1970: u64,
    tz_offset_secs: i64,
);

/// Relies on fend_core::Context::clone: an independent copy of the context,
/// whose later mutation the original never observes. The context is opaque,
/// so nothing further is assumed of the copy.
pub assume_specification[ <fend_core::Context as Clone>::clone ](
    ctx: &fend_core::Context,
) -> fend_core::Context;

/// Relies on fend_core::evaluate_with_interrupt, with the result converted
/// through fend_core::FendResult::output_is_empty and
/// fend_core::FendResult::get_main_result: runs the engine on `expr` against
/// `ctx`, polling `token` at safe points, and hands back whether the engine
/// classifies the outcome as having no output, together with its main text.
/// On empty input the engine's source returns its empty result outright —
/// no output, empty text — and never touches the context; every other
/// outcome depends on the context's opaque state, so nothing more is stated.
#[verifier::external_body]
pub(crate) fn engine_evaluate(
    expr: &str,
    ctx: &mut fend_core::Context,
    token: &TimeoutInterrupt,
) -> (r: Result<(bool, String), String>)
    ensures
        expr@.len() == 0 ==> match r {
            Ok(outcome) => outcome.0 == true && outcome.1@ == Seq::<char>::empty(),
            Err(_) => false,
        },
        expr@.len() == 0 ==> *final(ctx) == *old(ctx),
{
    fend_core::evaluate_with_interrupt(expr, ctx, token)
        .map(|res| (res.output_is_empty(), res.get_main_result().to_owned()))
}

/// Relies on fend_core::Context::set_random_u32_fn and rand::random: installs
/// the process-wide random number source into the context. Nothing is assumed
/// of the numbers it will later yield.
#[verifier::external_body]
pub(crate) fn install_random_source(ctx: &mut fend_core::Context) {
    ctx.set_random_u32_fn(rand::random::<u32>);
}

/// Relies on chrono::Local::now, chrono::DateTime::timestamp_millis,
/// chrono::DateTime::offset and chrono::FixedOffset::local_minus_utc, as one
/// reading of the local clock: the moment as non-leap milliseconds since the
/// Unix epoch (negative before 1970, and then taken modulo 2^64 by the cast
/// here), and the local offset as seconds east of UTC. One
/// wrapper holds the whole chain because `DateTime::offset` returns a value
/// of chrono's `TimeZone::Offset` associated type, which cannot be declared
/// here. The values depend on the machine's clock and time zone, so nothing
/// is assumed of them.
#[verifier::external_body]
pub(crate) fn local_clock() -> (r: (u64, i64)) {
    let now = chrono::Local::now();
    (now.timestamp_millis() as u64, now.offset().local_minus_utc() as i64)
}

/// The insert texts of the completions the engine offers for a prefix. The
/// engine computes them from a fixed table, so they are a function of the
/// prefix alone; the value is named, not written out.
pub uninterp spec fn completions_of(prefix: Seq<char>) -> Seq<Seq<char>>;

/// Relies on fend_core::get_completions_for_prefix and
/// fend_core::Completion::insert: the insert text of each completion offered
/// for `prefix`, in the engine's order, a pure function of the prefix.
#[verifier::external_body]
pub(crate) fn completion_inserts(prefix: &str) -> (r: Vec<String>)
    ensures
        r.deep_view() == completions_of(prefix@),
{
    let (_, completions) = fend_core::get_completions_for_prefix(prefix);
    completions.iter().map(|c| c.insert().to_owned()).collect()
}

} // verus!
