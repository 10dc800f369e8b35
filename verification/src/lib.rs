//! Decision logic of a small client that asks a streaming-software control
//! endpoint to start or to stop recording.
//!
//! The endpoint may not be ready to take commands right after the connection
//! is made, so the client repeats the remote call at a fixed rate until it
//! succeeds or a time budget is used up. Everything that touches the outside
//! world (the socket, the clock, sleeping) is left to the caller: the library
//! holds the rules as a state machine from events to actions, and proves what
//! those rules imply for whole runs.
//!
//! - [`policy`]: the time budget and the poll interval.
//! - [`command`]: the two commands and their status lines.
//! - [`runner`]: the state machine, and what follows the attempt to connect.
//! - [`script`]: runs against a scripted endpoint and a simulated clock.
//! - [`laws`]: what holds of every run.

pub mod command;
pub mod laws;
pub mod policy;
pub mod runner;
pub mod script;

pub use command::Command;
pub use policy::{RetryPolicy, POLL_INTERVAL_MS, RETRY_WINDOW_MS};
pub use runner::{on_connect, Action, Event, Failure, Pending, Phase, Runner};
pub use script::{rehearse, Report, ScriptedCall};
