use portr::dashboard::ExportFormat;
use portr::docker::ContainerInfo;
use portr::error::PortrError;
use portr::flow::{plan_kill, KillPlan};
use portr::net::{
    extract_pid_from_ss, extract_port_from_lsof, parse_address, parse_linux_address,
    parse_lsof_output, parse_netstat_output, parse_ss_output,
};
use portr::port::PortInfo;
use portr::process::{
    classify_taskkill_output, kill_outcome_to_result, kill_process, SignalOutcome,
};
use portr::strutil::{parse_u16, u64_to_string};

#[test]
fn test_parse_linux_address_forms() {
    assert_eq!(parse_linux_address("*:3000"), Some(("*".to_string(), 3000)));
    assert_eq!(parse_linux_address("0.0.0.0:80"), Some(("0.0.0.0".to_string(), 80)));
    assert_eq!(parse_linux_address("[::]:8080"), Some(("::".to_string(), 8080)));
    assert_eq!(parse_linux_address(":::53"), Some(("::".to_string(), 53)));
    assert_eq!(parse_linux_address("nonsense"), None);
}

#[test]
fn test_extract_pid_from_ss_text() {
    assert_eq!(extract_pid_from_ss("users:((\"node\",pid=12345,fd=21))"), Some(12345));
    assert_eq!(extract_pid_from_ss("no pid here"), None);
    assert_eq!(extract_pid_from_ss("pid="), None);
}

#[test]
fn test_extract_port_from_lsof_text() {
    assert_eq!(extract_port_from_lsof("*:3000"), Some(3000));
    assert_eq!(extract_port_from_lsof("localhost:8080"), Some(8080));
    assert_eq!(extract_port_from_lsof("localhost:http"), None);
    assert_eq!(extract_port_from_lsof("no-colon"), None);
}

#[test]
fn test_parse_ss_output_rows() {
    let tcp = "State  Recv-Q Send-Q Local Address:Port Peer Address:Port Process\n\
               LISTEN 0      128    0.0.0.0:22        0.0.0.0:*         users:((\"sshd\",pid=900,fd=3))\n\
               LISTEN 0      511    [::]:8080         [::]:*            users:((\"node\",pid=1500,fd=21))\n\
               garbage line\n";
    // the UDP run's address is read from the fifth column
    let udp = "State  Recv-Q Send-Q Peer Address:Port Local Address:Port Process\n\
               UNCONN 0      0      0.0.0.0:*         127.0.0.53:53      users:((\"resolved\",pid=70,fd=12))\n";
    let conns = parse_ss_output(tcp, udp);
    assert_eq!(conns.len(), 3);
    assert_eq!(conns[0].protocol, "TCP");
    assert_eq!(conns[0].local_port, 22);
    assert_eq!(conns[0].local_addr, "0.0.0.0");
    assert_eq!(conns[0].state, "LISTEN");
    assert_eq!(conns[0].pid, Some(900));
    assert_eq!(conns[1].local_port, 8080);
    assert_eq!(conns[1].local_addr, "::");
    assert_eq!(conns[1].pid, Some(1500));
    assert_eq!(conns[2].protocol, "UDP");
    assert_eq!(conns[2].local_addr, "127.0.0.53");
    assert_eq!(conns[2].local_port, 53);
    assert_eq!(conns[2].state, "*");
    assert_eq!(conns[2].pid, Some(70));
}

#[test]
fn test_parse_netstat_output_rows() {
    let tcp = "\nActive Connections\n\n  Proto  Local Address          Foreign Address        State           PID\n\
               TCP    0.0.0.0:135            0.0.0.0:0              LISTENING       1000\n\
               TCP    127.0.0.1:5000         127.0.0.1:5001         ESTABLISHED     1200\n\
               TCP    [::]:445               [::]:0                 LISTENING       4\n";
    let udp = "\nActive Connections\n\n  Proto  Local Address          Foreign Address        State\n\
               UDP    0.0.0.0:123            *:*                                    1300\n";
    let conns = parse_netstat_output(tcp, udp);
    assert_eq!(conns.len(), 3);
    assert_eq!(conns[0].local_port, 135);
    assert_eq!(conns[0].pid, Some(1000));
    assert_eq!(conns[0].state, "LISTENING");
    assert_eq!(conns[0].remote_addr, Some("0.0.0.0".to_string()));
    assert_eq!(conns[0].remote_port, Some(0));
    // the established row is dropped: only listening sockets are kept
    assert_eq!(conns[1].local_port, 445);
    assert_eq!(conns[1].local_addr, "::");
    assert_eq!(conns[2].protocol, "UDP");
    assert_eq!(conns[2].local_port, 123);
    assert_eq!(conns[2].pid, Some(1300));
}

#[test]
fn test_parse_lsof_output_rows() {
    let tcp = "COMMAND   PID USER   FD   TYPE DEVICE SIZE/OFF NODE NAME\n\
               node     3200 user   21u  IPv4 0x1234      0t0  TCP *:3000 (LISTEN)\n\
               short line\n";
    let udp = "COMMAND   PID USER   FD   TYPE DEVICE SIZE/OFF NODE NAME\n\
               mdns      400 user    5u  IPv4 0x9999      0t0  UDP *:5353\n";
    let conns = parse_lsof_output(tcp, udp);
    assert_eq!(conns.len(), 2);
    assert_eq!(conns[0].protocol, "TCP");
    assert_eq!(conns[0].local_port, 3000);
    assert_eq!(conns[0].local_addr, "*");
    assert_eq!(conns[0].state, "LISTEN");
    assert_eq!(conns[0].pid, Some(3200));
    assert_eq!(conns[1].protocol, "UDP");
    assert_eq!(conns[1].local_port, 5353);
    assert_eq!(conns[1].pid, Some(400));
}

#[test]
fn test_kill_nonexistent_pid() {
    // far above any real pid on this machine, but still a valid pid_t
    let r = kill_process(2_000_000_000, false);
    assert!(matches!(r, Err(PortrError::ProcessNotFound(2_000_000_000))));
}

#[test]
fn test_kill_outcome_translation() {
    assert!(kill_outcome_to_result(42, SignalOutcome::Delivered).is_ok());
    match kill_outcome_to_result(42, SignalOutcome::NotPermitted) {
        Err(PortrError::PermissionDenied(m)) => {
            assert_eq!(m, "Cannot kill process 42. Try running with sudo.");
        }
        other => panic!("unexpected: {:?}", other),
    }
    assert!(matches!(
        kill_outcome_to_result(42, SignalOutcome::NoSuchProcess),
        Err(PortrError::ProcessNotFound(42))
    ));
    match kill_outcome_to_result(42, SignalOutcome::Other("boom".to_string())) {
        Err(PortrError::KillError(42, m)) => assert_eq!(m, "boom"),
        other => panic!("unexpected: {:?}", other),
    }
}

#[test]
fn test_classify_taskkill_output_cases() {
    assert!(classify_taskkill_output(7, true, "").is_ok());
    match classify_taskkill_output(7, false, "ERROR: Access is denied.") {
        Err(PortrError::PermissionDenied(m)) => {
            assert_eq!(m, "Cannot kill process 7. Try running as Administrator.");
        }
        other => panic!("unexpected: {:?}", other),
    }
    assert!(matches!(
        classify_taskkill_output(7, false, "ERROR: The process \"7\" not found."),
        Err(PortrError::ProcessNotFound(7))
    ));
    match classify_taskkill_output(7, false, "something else went wrong") {
        Err(PortrError::KillError(7, m)) => assert_eq!(m, "something else went wrong"),
        other => panic!("unexpected: {:?}", other),
    }
}

fn sample_port_info(port: u16, pid: u32) -> PortInfo {
    PortInfo {
        port,
        protocol: "TCP".to_string(),
        pid,
        process_name: "svc".to_string(),
        process_path: None,
        local_address: format!("0.0.0.0:{}", port),
        remote_address: None,
        state: "LISTEN".to_string(),
        user: None,
        memory_bytes: 0,
        cpu_centi_percent: 0,
        uptime_secs: 0,
        parent_pid: None,
        parent_name: None,
    }
}

#[test]
fn test_plan_kill_paths() {
    let c = ContainerInfo {
        id: "abc".to_string(),
        name: "my-postgres".to_string(),
        image: "postgres:15".to_string(),
        status: "Up".to_string(),
        ports: vec![],
    };
    let p = sample_port_info(5432, 900);

    // a container on the port wins, and is addressed by name
    match plan_kill(Some(&p), Some(&c), false) {
        KillPlan::StopContainer { name, critical, confirm } => {
            assert_eq!(name, "my-postgres");
            assert!(critical);
            assert!(confirm);
        }
        other => panic!("unexpected: {:?}", other),
    }
    // otherwise the owning process is terminated, with its classification
    match plan_kill(Some(&p), None, true) {
        KillPlan::Terminate { pid, critical, confirm } => {
            assert_eq!(pid, 900);
            assert!(critical); // 5432 classifies Critical
            assert!(!confirm); // forced
        }
        other => panic!("unexpected: {:?}", other),
    }
    match plan_kill(Some(&sample_port_info(3000, 40)), None, false) {
        KillPlan::Terminate { critical, confirm, .. } => {
            assert!(!critical); // 3000 classifies Low
            assert!(confirm);
        }
        other => panic!("unexpected: {:?}", other),
    }
    assert!(matches!(plan_kill(None, None, false), KillPlan::NotFound));
}

#[test]
fn test_export_format_cycle() {
    assert_eq!(ExportFormat::Json.cycle(), ExportFormat::Csv);
    assert_eq!(ExportFormat::Csv.cycle(), ExportFormat::Markdown);
    assert_eq!(ExportFormat::Markdown.cycle(), ExportFormat::Json);
    assert_eq!(ExportFormat::Json.extension(), "json");
    assert_eq!(ExportFormat::Csv.extension(), "csv");
    assert_eq!(ExportFormat::Markdown.extension(), "md");
    assert_eq!(ExportFormat::Json.name(), "JSON");
    assert_eq!(ExportFormat::Markdown.name(), "Markdown");
}

#[test]
fn test_parse_u16_bounds() {
    assert_eq!(parse_u16("0"), Some(0));
    assert_eq!(parse_u16("65535"), Some(65535));
    assert_eq!(parse_u16("65536"), None);
    assert_eq!(parse_u16("000123"), Some(123));
    assert_eq!(parse_u16(""), None);
    assert_eq!(parse_u16("12a"), None);
}

#[test]
fn test_u64_to_string_digits() {
    assert_eq!(u64_to_string(0), "0");
    assert_eq!(u64_to_string(9), "9");
    assert_eq!(u64_to_string(65535), "65535");
    assert_eq!(u64_to_string(18446744073709551615), "18446744073709551615");
}

#[test]
fn test_parse_outputs_empty_input() {
    assert!(parse_ss_output("", "").is_empty());
    assert!(parse_netstat_output("", "").is_empty());
    assert!(parse_lsof_output("", "").is_empty());
    // a header alone yields nothing
    assert!(parse_ss_output("State Recv-Q Send-Q Local:Port Peer:Port Process\n", "").is_empty());
}

#[test]
fn test_parse_address_port_bounds() {
    assert_eq!(parse_address("host:65535"), Some(("host".to_string(), 65535)));
    assert_eq!(parse_address("host:65536"), None);
    assert_eq!(parse_address("host:0"), Some(("host".to_string(), 0)));
    assert_eq!(parse_address(":80"), Some(("".to_string(), 80)));
}
