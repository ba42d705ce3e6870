//! A verified core for event-driven applications.
//!
//! An application describes how each event changes its model and which
//! side-effects ("operations") it asks the host shell to perform. The
//! [`Core`] feeds events to the application, settles every follow-up event
//! the application emits, and hands the outstanding effect requests back to
//! the shell. The shell later resolves a request with the operation's output,
//! which the application turns into a new event.

pub mod request;
pub mod app;
pub mod core_runtime;
pub mod decimal;
pub mod web;
pub mod counter;

pub use request::{Request, RequestView, Resolve, ResolveError};
pub use app::{App, Command};
pub use core_runtime::Core;
