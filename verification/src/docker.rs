//! Container detection and identity.
//!
//! A container is identified by name plus image, not by its runtime id: the
//! id changes when a container is recreated, while operators expect
//! continuity by name.  The port-to-container match scans each running
//! container's published ports for a host-side binding.

use vstd::prelude::*;

use crate::strutil::{ci_contains, ci_contains_sub, str_eq, string_of};

verus! {

/// One published port of a container.
#[derive(Debug, Clone)]
pub struct PortMapping {
    /// The host-side port, absent when the port is not published.
    pub host_port: Option<u16>,
    /// The container-side port.
    pub container_port: u16,
    /// The protocol of the mapping.
    pub protocol: String,
}

/// A running container, as the runtime reports it.
#[derive(Debug, Clone)]
pub struct ContainerInfo {
    /// Runtime-assigned id (short form); changes when the container is
    /// recreated.
    pub id: String,
    /// Container name; stable across recreation.
    pub name: String,
    /// Image name; with the name, the stable identity.
    pub image: String,
    /// Status text reported by the runtime.
    pub status: String,
    /// All published ports.
    pub ports: Vec<PortMapping>,
}

impl ContainerInfo {
    /// The stable identity key: name and image, joined by a colon.  The
    /// runtime id plays no part in it.
    pub fn stable_key(&self) -> (r: String)
        ensures
            r@ == self.name@ + ":"@ + self.image@,
    {
        let mut k = string_of(self.name.as_str());
        k.append(":");
        k.append(self.image.as_str());
        k
    }

    /// Whether two reports describe the same container: true exactly when
    /// name and image both agree, whatever the ids and statuses say.
    pub fn matches(&self, other: &ContainerInfo) -> (r: bool)
        ensures
            r == (self.name@ == other.name@ && self.image@ == other.image@),
    {
        str_eq(self.name.as_str(), other.name.as_str()) && str_eq(
            self.image.as_str(),
            other.image.as_str(),
        )
    }

    /// Whether every binding is known to be local-only.  The runtime's port
    /// summary does not carry the bind address, so this stays false for
    /// safety.
    pub fn is_localhost_only(&self) -> (r: bool)
        ensures
            !r,
    {
        false
    }
}

/// True when the image name contains one of the fragments that mark a data
/// service (database, broker, store), ignoring ASCII case.
pub open spec fn is_critical_image(image: Seq<char>) -> bool {
    ci_contains(image, "postgres"@) || ci_contains(image, "mysql"@) || ci_contains(
        image,
        "mariadb"@,
    ) || ci_contains(image, "mongo"@) || ci_contains(image, "redis"@) || ci_contains(
        image,
        "elasticsearch"@,
    ) || ci_contains(image, "rabbitmq"@) || ci_contains(image, "kafka"@) || ci_contains(
        image,
        "zookeeper"@,
    ) || ci_contains(image, "consul"@) || ci_contains(image, "vault"@) || ci_contains(
        image,
        "etcd"@,
    ) || ci_contains(image, "minio"@)
}

/// Whether stopping this container risks data loss: its image names one of
/// the critical data services.  Decided from the image alone, since a
/// container gives no fixed port-binding guarantee.
pub fn is_critical_container(container: &ContainerInfo) -> (r: bool)
    ensures
        r == is_critical_image(container.image@),
{
    let image = container.image.as_str();
    ci_contains_sub(image, "postgres") || ci_contains_sub(image, "mysql") || ci_contains_sub(
        image,
        "mariadb",
    ) || ci_contains_sub(image, "mongo") || ci_contains_sub(image, "redis") || ci_contains_sub(
        image,
        "elasticsearch",
    ) || ci_contains_sub(image, "rabbitmq") || ci_contains_sub(image, "kafka")
        || ci_contains_sub(image, "zookeeper") || ci_contains_sub(image, "consul")
        || ci_contains_sub(image, "vault") || ci_contains_sub(image, "etcd") || ci_contains_sub(
        image,
        "minio",
    )
}

/// True when the container publishes `port` on the host side.
pub open spec fn publishes_port(c: ContainerInfo, port: u16) -> bool {
    exists|i: int| 0 <= i < c.ports@.len() && (#[trigger] c.ports@[i]).host_port == Some(port)
}

/// Whether this container publishes `port` on the host side.
pub fn container_publishes_port(c: &ContainerInfo, port: u16) -> (r: bool)
    ensures
        r == publishes_port(*c, port),
{
    let n = c.ports.len();
    let mut i: usize = 0;
    while i < n
        invariant
            n == c.ports@.len(),
            0 <= i <= n,
            forall|j: int| 0 <= j < i ==> (#[trigger] c.ports@[j]).host_port != Some(port),
        decreases n - i,
    {
        let mapping = &c.ports[i];
        match mapping.host_port {
            Some(hp) => {
                if hp == port {
                    return true;
                }
            },
            None => {},
        }
        i = i + 1;
    }
    false
}

/// The first container in the list that publishes `port`.
pub open spec fn first_container_for_port(
    cs: Seq<ContainerInfo>,
    port: u16,
    i: int,
) -> Option<ContainerInfo>
    decreases cs.len() - i,
{
    if i < 0 || i >= cs.len() {
        None
    } else if publishes_port(cs[i], port) {
        Some(cs[i])
    } else {
        first_container_for_port(cs, port, i + 1)
    }
}

/// Find the container that publishes `port`: the first match in the list,
/// which in practice is unique, since host ports cannot collide across
/// running containers.
pub fn find_container_for_port<'a>(containers: &'a Vec<ContainerInfo>, port: u16) -> (r: Option<
    &'a ContainerInfo,
>)
    ensures
        match r {
            Some(c) => first_container_for_port(containers@, port, 0) == Some(*c),
            None => first_container_for_port(containers@, port, 0) is None,
        },
{
    let n = containers.len();
    let mut i: usize = 0;
    while i < n
        invariant
            n == containers@.len(),
            0 <= i <= n,
            first_container_for_port(containers@, port, 0) == first_container_for_port(
                containers@,
                port,
                i as int,
            ),
        decreases n - i,
    {
        if container_publishes_port(&containers[i], port) {
            return Some(&containers[i]);
        }
        i = i + 1;
    }
    None
}

/// Relies on `std::path::Path::exists`: the container runtime counts as
/// available exactly when its Unix control socket is present on disk.  A
/// cheap, synchronous probe; no network call.
#[verifier::external_body]
pub fn is_docker_available() -> bool {
    std::path::Path::new("/var/run/docker.sock").exists()
}


} // verus!
