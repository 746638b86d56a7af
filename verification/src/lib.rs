//! Retrying a fallible operation with exponential backoff.
//!
//! An operation is invoked, and for as long as it fails and retries are left
//! it is invoked again after a delay that doubles each time. The result is
//! the first success, or the failure of the last attempt. A delay that fails
//! ends the retry at once.
//!
//! The library is divided along the line between deciding and doing:
//!
//! * [`settings`] holds the configuration, [`BackoffSettings`];
//! * [`schedule`] is the arithmetic of the doubling delays;
//! * [`machine`] is the retry state machine, [`RetryState`]: it is told how
//!   an attempt or a delay went and answers with what has to happen next, so
//!   that it can be driven from code that awaits, blocks or simulates;
//! * [`model`] replays the state machine against scripted outcomes, and
//!   [`laws`] proves what holds of every such run;
//! * [`orchestrator`] is [`retry`], the loop that drives the state machine
//!   with an operation and a delay supplied by the caller, and
//!   [`checked_retry`], the same loop for settings under which the backoff
//!   may outgrow a `Duration`;
//! * [`time`] states what is taken on trust about `std::time::Duration`.

pub mod laws;
pub mod machine;
pub mod model;
pub mod orchestrator;
pub mod schedule;
pub mod settings;
pub mod time;

pub use machine::{Action, Phase, RetryState};
pub use orchestrator::{checked_retry, retry};
pub use settings::BackoffSettings;
