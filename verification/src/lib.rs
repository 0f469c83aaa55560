//! Decision logic of a small network clock: it brings a wireless link up,
//! starts clock synchronisation, fetches one short text over HTTP and then
//! redraws a status line (UTC time, a fixed label, the fetched text) once a
//! second.
//!
//! The crate holds no I/O. A driver performs each [`protocol::Action`]
//! on the hardware and reports the outcome back as a [`protocol::Event`];
//! everything that is decided in between is decided here.
//!
//! - [`protocol`]: the actions and the events.
//! - [`model`]: the transitions, as a mathematical function.
//! - [`orchestrator`]: the machine that a driver holds and steps.
//! - [`trace`]: what is proved of every run.
//! - [`fetch`]: the request, and the text that a response body stands for.
//! - [`text`]: the replacement of the degree sign.
//! - [`frame`]: the status line.
//! - [`wifi`]: the credentials.

pub mod fetch;
pub mod frame;
pub mod model;
pub mod orchestrator;
pub mod protocol;
pub mod text;
pub mod trace;
pub mod wifi;
