//! An interactive evaluation pipeline over a mutable interpreter context:
//! cancellable, time-bounded evaluation in two isolated modes (committing and
//! preview), together with a daily-refreshing table of currency exchange
//! rates that the evaluator consults.

pub mod engine;
pub mod interrupt;
pub mod prompt;
pub mod rates;
pub mod store;
