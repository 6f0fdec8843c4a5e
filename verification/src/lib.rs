//! A single-flight background task runner.
//!
//! An interactive, single-threaded consumer (for example a UI event loop)
//! triggers a potentially slow operation without blocking. At most one
//! instance of the operation runs at a time, and its outcome comes back to
//! the consumer through a one-shot, non-blocking, poll-based channel.
//!
//! The crate is split into the terminal [`outcome::Outcome`] of a task, the
//! one-shot [`channel`] that carries it, the [`runner::TaskRunner`] that
//! enforces single-flight execution, and the [`controller::Controller`] state
//! machine that a consumer loop drives one tick at a time. [`laws`] states
//! and proves the properties the design promises.

pub mod channel;
pub mod controller;
pub mod laws;
pub mod outcome;
pub mod runner;
