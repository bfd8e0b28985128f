//! Lifecycle supervision for a single bundled backend server process.
//!
//! The host application must make sure a backend service is listening on a
//! fixed local port before it proceeds: if nothing answers there, a child
//! process is launched and the port is polled a bounded number of times.
//! When the host shuts down, the child (if one was launched) is terminated.
//!
//! All decisions of that lifecycle live here as a verified state machine:
//! the caller performs the probes, launches, and sleeps that the machine
//! requests, and feeds the outcomes back in as events.

pub mod guarantees;
pub mod supervisor;
