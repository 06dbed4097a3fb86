//! Lifecycle core of a long-running chat-bot process.
//!
//! The crate brokers the construction order between a realtime client and the
//! controller that handles its events, initialises the application data once,
//! and supervises one background maintenance task for the duration of a run.
//! Every decision is a verified, synchronous step; the surrounding program
//! performs the asynchronous work and reports its outcome back.
//!
//! - [`cell`]: the write-once slot behind both deferred values.
//! - [`bridge`]: the event receiver that exists before its framework does.
//! - [`framework`]: the controller and the steps of its lifecycle.
//! - [`builder`]: step-by-step configuration of a framework.
//! - [`options`]: what is fixed at construction.
//! - [`task`]: the runtime's handles that the steps carry and release.
//! - [`trace`]: what holds along every sequence of steps.

pub mod bridge;
pub mod builder;
pub mod cell;
pub mod framework;
pub mod options;
pub mod task;
pub mod trace;
