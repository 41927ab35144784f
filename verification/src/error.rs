//! The error taxonomy of the engine.

use vstd::prelude::*;

verus! {

/// Every failure the engine can report.
///
/// Enumeration failures carry the tool's message, termination failures carry
/// the PID they were about, so that a caller can act on them without a stack
/// trace.
#[derive(Debug, Clone)]
pub enum PortrError {
    /// The given string is not a port number or known alias.
    InvalidPort(String),
    /// The given string is not a valid `start-end` port range.
    InvalidPortRange(String),
    /// The connection-listing tool could not be invoked at all.
    NetworkError(String),
    /// Termination failed for a reason other than the two below.
    KillError(u32, String),
    /// Termination was blocked by the OS privilege model.
    PermissionDenied(String),
    /// The target process vanished between discovery and action.
    ProcessNotFound(u32),
    /// Exporting the result set failed.
    ExportError(String),
    /// An input/output failure outside the categories above.
    IoError(String),
    /// Serializing to JSON failed.
    JsonError(String),
    /// The container runtime reported a failure.
    DockerError(String),
    /// The container runtime is not present on this machine.
    DockerNotAvailable(String),
    /// A system-level failure outside the categories above.
    SystemError(String),
}

} // verus!
