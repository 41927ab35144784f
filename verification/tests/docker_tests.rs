use portr::docker::{
    find_container_for_port, is_critical_container, is_docker_available, ContainerInfo,
    PortMapping,
};

fn container(id: &str, name: &str, image: &str, status: &str) -> ContainerInfo {
    ContainerInfo {
        id: id.to_string(),
        name: name.to_string(),
        image: image.to_string(),
        status: status.to_string(),
        ports: vec![],
    }
}

#[test]
fn test_is_docker_available() {
    // Just ensure it doesn't panic
    let _ = is_docker_available();
}

#[test]
fn test_container_stable_key() {
    let c = container("abc123def456", "my-postgres", "postgres:15", "Up 2 hours");

    // Stable key should be name:image
    assert_eq!(c.stable_key(), "my-postgres:postgres:15");
}

#[test]
fn test_container_matches_same_container_different_id() {
    // Simulates container restart where ID changes but name/image stay same
    let container1 = container("abc123def456", "my-postgres", "postgres:15", "Up 2 hours");
    let container2 = container("xyz789abc012", "my-postgres", "postgres:15", "Up 1 minute");

    // Should match because name + image are the same
    assert!(container1.matches(&container2));
    assert_eq!(container1.stable_key(), container2.stable_key());
}

#[test]
fn test_container_does_not_match_different_container() {
    let container1 = container("abc123def456", "my-postgres", "postgres:15", "Up 2 hours");
    let container2 = container("xyz789abc012", "my-redis", "redis:7", "Up 1 hour");

    // Should NOT match - different containers
    assert!(!container1.matches(&container2));
    assert_ne!(container1.stable_key(), container2.stable_key());
}

#[test]
fn test_container_identity_changes_with_name_or_image() {
    let base = container("abc123", "svc", "postgres:15", "Up");
    let renamed = container("abc123", "svc2", "postgres:15", "Up");
    let reimaged = container("abc123", "svc", "postgres:16", "Up");

    assert!(!base.matches(&renamed));
    assert!(!base.matches(&reimaged));
}

#[test]
fn test_critical_container_detection_postgres() {
    let c = container("abc123", "my-db", "postgres:15-alpine", "Up");

    assert!(is_critical_container(&c));
}

#[test]
fn test_critical_container_detection_mysql() {
    let c = container("abc123", "my-db", "mysql:8.0", "Up");

    assert!(is_critical_container(&c));
}

#[test]
fn test_critical_container_detection_redis() {
    let c = container("abc123", "cache", "redis:7-alpine", "Up");

    assert!(is_critical_container(&c));
}

#[test]
fn test_non_critical_container_detection() {
    let c = container("abc123", "my-app", "node:20-alpine", "Up");

    // Node app is not critical
    assert!(!is_critical_container(&c));
}

#[test]
fn test_non_critical_nginx_container() {
    let c = container("abc123", "web", "nginx:latest", "Up");

    // Nginx is not in critical list (stateless)
    assert!(!is_critical_container(&c));
}

#[test]
fn test_critical_container_detection_mixed_case() {
    let c = container("abc123", "db", "library/PostgreSQL:15", "Up");

    assert!(is_critical_container(&c));
}

#[test]
fn test_find_container_for_port_first_match() {
    let mut first = container("a1", "one", "nginx", "Up");
    first.ports.push(PortMapping {
        host_port: Some(8080),
        container_port: 80,
        protocol: "tcp".to_string(),
    });
    let mut second = container("b2", "two", "nginx", "Up");
    second.ports.push(PortMapping {
        host_port: Some(8080),
        container_port: 81,
        protocol: "tcp".to_string(),
    });
    let unpublished = container("c3", "three", "nginx", "Up");
    let containers = vec![unpublished, first, second];

    let found = find_container_for_port(&containers, 8080).expect("a match");
    assert_eq!(found.name, "one");
    assert!(find_container_for_port(&containers, 9999).is_none());
}
