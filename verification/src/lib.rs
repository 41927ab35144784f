//! Port-to-process correlation and classification engine.
//!
//! The library discovers which process owns a network listening port,
//! enriches each result with process data and a risk classification,
//! optionally correlates a port with a container, and decides how a
//! termination request must be confirmed and executed.
//!
//! All I/O (invoking the system's connection-listing tools, reading the
//! process table, talking to the container runtime) happens outside this
//! crate; the callers hand the raw text and tables in, and every decision
//! taken on them is verified here.

pub mod config;
pub mod dashboard;
pub mod display;
pub mod docker;
pub mod error;
pub mod flow;
pub mod net;
pub mod port;
pub mod process;
pub mod services;
pub mod strutil;
