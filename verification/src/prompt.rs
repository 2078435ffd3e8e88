//! The prompt evaluator: drives one evaluation call against a context and a
//! millisecond deadline, and normalizes the outcome into a display string or
//! an error message.

use vstd::prelude::*;

use crate::engine::completion_inserts;
use crate::engine::completions_of;
use crate::engine::engine_evaluate;
use crate::interrupt::TimeoutInterrupt;

verus! {

/// The display rule: a result the engine classifies as having no output
/// shows as the empty string; any other result shows its main text.
pub open spec fn display_rule(empty_output: bool, text: Seq<char>) -> Seq<char> {
    if empty_output {
        Seq::empty()
    } else {
        text
    }
}

/// Normalizes one successful engine outcome for display, exactly as
/// `display_rule` says.
pub fn normalized_display(empty_output: bool, text: &str) -> (r: String)
    ensures
        r@ == display_rule(empty_output, text@),
{
    if empty_output {
        String::new()
    } else {
        text.to_owned()
    }
}

/// One evaluation call: builds a fresh interrupt token from `timeout_ms`,
/// hands the expression, the context and the token to the engine, and
/// normalizes the outcome by the display rule. Empty input is owed an empty
/// success: the engine accepts it without touching the context. Every other
/// outcome depends on the engine's opaque state, so the error channel
/// carries the engine's message unchanged, with an interruption
/// indistinguishable from any other failure.
pub fn evaluate(expr: &str, timeout_ms: u64, ctx: &mut fend_core::Context) -> (r: Result<
    String,
    String,
>)
    ensures
        expr@.len() == 0 ==> match r {
            Ok(shown) => shown@ == Seq::<char>::empty(),
            Err(_) => false,
        },
        expr@.len() == 0 ==> *final(ctx) == *old(ctx),
{
    let token = TimeoutInterrupt::new_with_timeout(timeout_ms as u128);
    match engine_evaluate(expr, ctx, &token) {
        Ok(outcome) => {
            let (empty_output, text) = outcome;
            Ok(normalized_display(empty_output, text.as_str()))
        },
        Err(message) => Err(message),
    }
}

/// The first completion the engine offers for the prefix, if it offers any:
/// exactly the head of `completions_of`.
pub fn fend_completion(value: String) -> (r: Option<String>)
    ensures
        match r {
            Some(s) => completions_of(value@).len() > 0 && s@ == completions_of(value@)[0],
            None => completions_of(value@).len() == 0,
        },
{
    let mut inserts = completion_inserts(value.as_str());
    if inserts.len() > 0 {
        let first = inserts.remove(0);
        assert(first@ == completions_of(value@)[0]);
        Some(first)
    } else {
        assert(completions_of(value@).len() == 0);
        None
    }
}

} // verus!
