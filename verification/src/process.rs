//! The termination executor.
//!
//! A termination request is delivered exactly once, with no retry; whether
//! the process is actually gone afterwards is for the caller to re-check by
//! enumerating again.  Every OS-level failure is translated into the typed
//! error taxonomy, carrying the pid it was about.

use vstd::prelude::*;

use crate::error::PortrError;
use crate::strutil::{dec_str, find_sub, find_sub_from, string_of, u64_to_string};

verus! {

/// The outcome of one signal delivery attempt, as the OS reported it.
#[derive(Debug, Clone)]
pub enum SignalOutcome {
    /// The signal was delivered.
    Delivered,
    /// The OS refused for lack of privilege.
    NotPermitted,
    /// No process with that pid exists.
    NoSuchProcess,
    /// Any other OS failure, with its message.
    Other(String),
}

/// Relies on nix's `kill`: sends SIGTERM (or SIGKILL when `force`) to the
/// process `pid`, and on its errno mapping: EPERM means not permitted,
/// ESRCH means no such process.  The pid must fit the OS's signed pid
/// type.
#[verifier::external_body]
fn send_signal(pid: u32, force: bool) -> (r: SignalOutcome)
    requires
        pid <= 0x7fff_ffff,
{
    let signal = if force {
        nix::sys::signal::Signal::SIGKILL
    } else {
        nix::sys::signal::Signal::SIGTERM
    };
    match nix::sys::signal::kill(nix::unistd::Pid::from_raw(pid as i32), signal) {
        Ok(()) => SignalOutcome::Delivered,
        Err(nix::errno::Errno::EPERM) => SignalOutcome::NotPermitted,
        Err(nix::errno::Errno::ESRCH) => SignalOutcome::NoSuchProcess,
        Err(e) => SignalOutcome::Other(e.to_string()),
    }
}

/// The escalation hint attached to a privilege failure on `pid`.
pub open spec fn permission_denied_text(pid: u32) -> Seq<char> {
    "Cannot kill process "@ + dec_str(pid as int) + ". Try running with sudo."@
}

/// Translate one delivery outcome into the error taxonomy: success exactly
/// for a delivered signal, a privilege failure into `PermissionDenied`
/// with its escalation hint, a vanished target into `ProcessNotFound`, and
/// anything else into `KillError` with the OS message.
pub fn kill_outcome_to_result(pid: u32, outcome: SignalOutcome) -> (r: Result<(), PortrError>)
    ensures
        r is Ok <==> outcome is Delivered,
        outcome is NotPermitted ==> (r matches Err(e) && e matches PortrError::PermissionDenied(
            m,
        ) && m@ == permission_denied_text(pid)),
        outcome is NoSuchProcess ==> (r matches Err(e) && e matches PortrError::ProcessNotFound(
            p,
        ) && p == pid),
        outcome matches SignalOutcome::Other(msg) ==> (r matches Err(e) && e matches
            PortrError::KillError(p, m) && p == pid && m@ == msg@),
{
    match outcome {
        SignalOutcome::Delivered => Ok(()),
        SignalOutcome::NotPermitted => {
            let mut m = string_of("Cannot kill process ");
            let ps = u64_to_string(pid as u64);
            m.append(ps.as_str());
            m.append(". Try running with sudo.");
            Err(PortrError::PermissionDenied(m))
        },
        SignalOutcome::NoSuchProcess => Err(PortrError::ProcessNotFound(pid)),
        SignalOutcome::Other(msg) => Err(PortrError::KillError(pid, msg)),
    }
}

/// Send a termination request to `pid`: SIGTERM unless `force` asks for
/// SIGKILL.  Attempted exactly once.  Whatever the OS answers, a failure
/// is reported as one of the three typed errors about this pid, with the
/// exact translation pinned by [`kill_outcome_to_result`].
pub fn kill_process(pid: u32, force: bool) -> (r: Result<(), PortrError>)
    requires
        pid <= 0x7fff_ffff,
    ensures
        r matches Err(e) ==> (e matches PortrError::PermissionDenied(m) && m@
            == permission_denied_text(pid)) || (e matches PortrError::ProcessNotFound(p) && p
            == pid) || (e matches PortrError::KillError(p, m) && p == pid),
{
    let outcome = send_signal(pid, force);
    kill_outcome_to_result(pid, outcome)
}

/// The escalation hint used by the forced-termination tool's translation.
pub open spec fn admin_denied_text(pid: u32) -> Seq<char> {
    "Cannot kill process "@ + dec_str(pid as int) + ". Try running as Administrator."@
}

/// Classify the forced-termination tool's outcome, for platforms whose
/// only termination facility is that tool: success passes through, an
/// "Access is denied" message becomes `PermissionDenied` with its hint, a
/// "not found" message becomes `ProcessNotFound`, and anything else
/// becomes `KillError` carrying the tool's text.
pub fn classify_taskkill_output(pid: u32, success: bool, stderr: &str) -> (r: Result<
    (),
    PortrError,
>)
    ensures
        r is Ok <==> success,
        !success && find_sub_from(stderr@, "Access is denied"@, 0) is Some ==> (r matches Err(e)
            && e matches PortrError::PermissionDenied(m) && m@ == admin_denied_text(pid)),
        !success && find_sub_from(stderr@, "Access is denied"@, 0) is None && find_sub_from(
            stderr@,
            "not found"@,
            0,
        ) is Some ==> (r matches Err(e) && e matches PortrError::ProcessNotFound(p) && p == pid),
        !success && find_sub_from(stderr@, "Access is denied"@, 0) is None && find_sub_from(
            stderr@,
            "not found"@,
            0,
        ) is None ==> (r matches Err(e) && e matches PortrError::KillError(p, m) && p == pid && m@
            == stderr@),
{
    if success {
        return Ok(());
    }
    if find_sub(stderr, "Access is denied").is_some() {
        let mut m = string_of("Cannot kill process ");
        let ps = u64_to_string(pid as u64);
        m.append(ps.as_str());
        m.append(". Try running as Administrator.");
        Err(PortrError::PermissionDenied(m))
    } else if find_sub(stderr, "not found").is_some() {
        Err(PortrError::ProcessNotFound(pid))
    } else {
        Err(PortrError::KillError(pid, string_of(stderr)))
    }
}

/// Relies on nix's `kill` with no signal: the OS checks permissions only
/// and delivers nothing; true when the current user may signal `pid`.
#[verifier::external_body]
pub fn can_kill(pid: u32) -> bool
    requires
        pid <= 0x7fff_ffff,
{
    nix::sys::signal::kill(nix::unistd::Pid::from_raw(pid as i32), None).is_ok()
}

/// Relies on nix's `geteuid`: whether this process already runs as root.
#[verifier::external_body]
pub fn needs_elevation() -> bool {
    nix::unistd::geteuid().is_root()
}

} // verus!
