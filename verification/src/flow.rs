//! The kill-flow decision.
//!
//! Discovery, classification and confirmation compose into one decision:
//! what a termination request on a port should do, before anything is
//! executed.  A container on the port takes precedence over the owning
//! process and is always stopped by name, never by id, so the decision
//! stays right after a restart changed the id.  The caller performs the
//! action and obtains any confirmation; a critical target with
//! confirmation on demands the exact-phrase prompt rather than a
//! single-character one.

use vstd::prelude::*;

use crate::docker::{is_critical_image, ContainerInfo};
use crate::port::PortInfo;
use crate::services::confirmation_required;

verus! {

/// What a termination request on a port should do.
#[derive(Debug, Clone)]
pub enum KillPlan {
    /// The port is not in use: nothing to terminate.
    NotFound,
    /// Stop the named container; `critical` marks a data service, whose
    /// confirmation must be the exact phrase.
    StopContainer { name: String, critical: bool, confirm: bool },
    /// Terminate the process; `critical` marks a High or Critical service
    /// port.
    Terminate { pid: u32, critical: bool, confirm: bool },
}

/// Decide the kill flow for one port: a container publishing the port is
/// stopped by name (its image deciding criticality); otherwise the
/// port's owning process is terminated (its classification deciding
/// criticality); a port not in use does nothing.  Confirmation is
/// demanded exactly when the caller did not force.
pub fn plan_kill(
    port_info: Option<&PortInfo>,
    container: Option<&ContainerInfo>,
    force: bool,
) -> (r: KillPlan)
    ensures
        match container {
            Some(c) => r matches KillPlan::StopContainer { name, critical, confirm } && name@
                == c.name@ && critical == is_critical_image(c.image@) && confirm == !force,
            None => match port_info {
                Some(p) => r matches KillPlan::Terminate { pid, critical, confirm } && pid
                    == p.pid && critical == confirmation_required(p.port) && confirm == !force,
                None => r is NotFound,
            },
        },
{
    match container {
        Some(c) => {
            let critical = crate::docker::is_critical_container(c);
            KillPlan::StopContainer { name: c.name.clone(), critical, confirm: !force }
        },
        None => match port_info {
            Some(p) => {
                let critical = crate::services::requires_confirmation(p.port);
                KillPlan::Terminate { pid: p.pid, critical, confirm: !force }
            },
            None => KillPlan::NotFound,
        },
    }
}

} // verus!
