use portr::net::{parse_address, NetConnection};
use portr::port::{
    correlate, enrich, find_port, get_child_processes, get_process_tree, PortInfo, ProcessEntry,
    ProcessTable,
};

fn entry(pid: u32, name: &str, parent: Option<u32>) -> ProcessEntry {
    ProcessEntry {
        pid,
        name: name.to_string(),
        path: None,
        user: None,
        memory_bytes: 0,
        cpu_centi_percent: 0,
        uptime_secs: 0,
        parent_pid: parent,
    }
}

fn conn(port: u16, proto: &str, pid: Option<u32>) -> NetConnection {
    NetConnection {
        protocol: proto.to_string(),
        local_addr: "0.0.0.0".to_string(),
        local_port: port,
        remote_addr: None,
        remote_port: None,
        state: "LISTEN".to_string(),
        pid,
    }
}

fn sample_info(uptime_secs: u64) -> PortInfo {
    PortInfo {
        port: 3000,
        protocol: "TCP".to_string(),
        pid: 1234,
        process_name: "test".to_string(),
        process_path: None,
        local_address: "0.0.0.0:3000".to_string(),
        remote_address: None,
        state: "LISTENING".to_string(),
        user: None,
        memory_bytes: 0,
        cpu_centi_percent: 0,
        uptime_secs,
        parent_pid: None,
        parent_name: None,
    }
}

#[test]
fn test_parse_address_ipv4() {
    let result = parse_address("0.0.0.0:3000");
    assert_eq!(result, Some(("0.0.0.0".to_string(), 3000)));
}

#[test]
fn test_parse_address_ipv4_localhost() {
    let result = parse_address("127.0.0.1:8080");
    assert_eq!(result, Some(("127.0.0.1".to_string(), 8080)));
}

#[test]
fn test_parse_address_ipv6() {
    let result = parse_address("[::]:3000");
    assert_eq!(result, Some(("::".to_string(), 3000)));
}

#[test]
fn test_parse_address_ipv6_full() {
    let result = parse_address("[::1]:8080");
    assert_eq!(result, Some(("::1".to_string(), 8080)));
}

#[test]
fn test_parse_address_invalid() {
    let result = parse_address("invalid");
    assert_eq!(result, None);
}

#[test]
fn test_uptime_display_seconds() {
    let info = sample_info(45);
    assert_eq!(info.uptime_display(), "45s");
}

#[test]
fn test_uptime_display_minutes() {
    let info = sample_info(125);
    assert_eq!(info.uptime_display(), "2m 5s");
}

#[test]
fn test_uptime_display_hours() {
    let info = sample_info(7384);
    assert_eq!(info.uptime_display(), "2h 3m");
}

#[test]
fn test_uptime_display_days() {
    let info = sample_info(180000);
    assert_eq!(info.uptime_display(), "2d 2h");
}

#[test]
fn test_correlate_sorts_and_dedups() {
    let table = ProcessTable {
        entries: vec![entry(10, "web", Some(1)), entry(11, "db", Some(1)), entry(1, "init", None)],
    };
    let conns = vec![
        conn(8080, "TCP", Some(10)),
        conn(22, "TCP", Some(11)),
        conn(8080, "UDP", Some(11)),
        conn(443, "TCP", None),
        conn(3000, "TCP", Some(99)),
    ];
    let ports = correlate(&conns, &table);

    let numbers: Vec<u16> = ports.iter().map(|p| p.port).collect();
    assert_eq!(numbers, vec![22, 3000, 8080]);
    // the connection without an owner is dropped
    assert!(ports.iter().all(|p| p.port != 443));
    // on a duplicate port the first-seen connection wins
    let on_8080 = ports.iter().find(|p| p.port == 8080).unwrap();
    assert_eq!(on_8080.pid, 10);
    assert_eq!(on_8080.protocol, "TCP");
    assert_eq!(on_8080.process_name, "web");
    assert_eq!(on_8080.local_address, "0.0.0.0:8080");
    // parent hop resolved through the table
    assert_eq!(on_8080.parent_pid, Some(1));
    assert_eq!(on_8080.parent_name, Some("init".to_string()));
    // a vanished pid yields the sentinel, not an error
    let on_3000 = ports.iter().find(|p| p.port == 3000).unwrap();
    assert_eq!(on_3000.process_name, "<unknown>");
}

#[test]
fn test_find_port_consistent_with_listing() {
    let table = ProcessTable { entries: vec![entry(10, "web", None), entry(11, "db", None)] };
    let conns = vec![conn(8080, "TCP", Some(10)), conn(22, "TCP", Some(11))];
    let ports = correlate(&conns, &table);

    for p in &ports {
        let found = find_port(&ports, p.port).expect("listed port must be found");
        assert_eq!(found.port, p.port);
        assert_eq!(found.pid, p.pid);
        assert_eq!(found.process_name, p.process_name);
        assert_eq!(found.local_address, p.local_address);
    }
    assert!(find_port(&ports, 65432).is_none());
}

#[test]
fn test_enrich_missing_pid_is_sentinel() {
    let table = ProcessTable { entries: vec![] };
    let e = enrich(&table, 4242);
    assert_eq!(e.name, "<unknown>");
    assert_eq!(e.memory_bytes, 0);
    assert_eq!(e.uptime_secs, 0);
    assert_eq!(e.parent_pid, None);
    assert_eq!(e.parent_name, None);
}

#[test]
fn test_process_tree_walks_parents() {
    let table = ProcessTable {
        entries: vec![entry(3, "leaf", Some(2)), entry(2, "mid", Some(1)), entry(1, "root", None)],
    };
    let chain = get_process_tree(&table, 3);
    let pids: Vec<u32> = chain.iter().map(|p| p.0).collect();
    assert_eq!(pids, vec![3, 2, 1]);
    assert_eq!(chain[0].1, "leaf");
    assert_eq!(chain[2].1, "root");
}

#[test]
fn test_process_tree_cycle_capped() {
    // a corrupted table where two processes claim each other as parent
    let table = ProcessTable { entries: vec![entry(1, "a", Some(2)), entry(2, "b", Some(1))] };
    let chain = get_process_tree(&table, 1);
    // the target plus at most 20 ancestors, even on a cycle
    assert_eq!(chain.len(), 21);
    assert_eq!(chain[0].0, 1);
}

#[test]
fn test_child_processes() {
    let table = ProcessTable {
        entries: vec![
            entry(1, "root", None),
            entry(2, "worker-a", Some(1)),
            entry(3, "worker-b", Some(1)),
            entry(4, "other", Some(2)),
        ],
    };
    let children = get_child_processes(&table, 1);
    assert_eq!(children, vec![(2, "worker-a".to_string()), (3, "worker-b".to_string())]);
}

#[test]
fn test_correlate_empty_inputs() {
    let table = ProcessTable { entries: vec![] };
    let none: Vec<NetConnection> = vec![];
    assert!(correlate(&none, &table).is_empty());
    let only_unowned = vec![conn(80, "TCP", None)];
    assert!(correlate(&only_unowned, &table).is_empty());
}
