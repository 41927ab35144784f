use portr::display::{format_uptime, port_status_icon, truncate};

#[test]
fn test_truncate_short() {
    assert_eq!(truncate("hello", 10), "hello");
}

#[test]
fn test_truncate_long() {
    assert_eq!(truncate("this is a very long string", 10), "this is...");
}

#[test]
fn test_truncate_exact() {
    assert_eq!(truncate("hello", 5), "hello");
}

#[test]
fn test_port_status_icon_listen() {
    assert_eq!(port_status_icon("LISTEN"), "\u{25cf}");
    assert_eq!(port_status_icon("LISTENING"), "\u{25cf}");
}

#[test]
fn test_port_status_icon_established() {
    assert_eq!(port_status_icon("ESTABLISHED"), "\u{25c9}");
}

#[test]
fn test_port_status_icon_unknown() {
    assert_eq!(port_status_icon("UNKNOWN"), "\u{25cb}");
}

#[test]
fn test_port_status_icon_ignores_case() {
    assert_eq!(port_status_icon("listen"), "\u{25cf}");
    assert_eq!(port_status_icon("time_wait"), "\u{25cc}");
    assert_eq!(port_status_icon("close_wait"), "\u{25ce}");
}

#[test]
fn test_format_uptime_values() {
    assert_eq!(format_uptime(0), "0s");
    assert_eq!(format_uptime(59), "59s");
    assert_eq!(format_uptime(60), "1m 0s");
    assert_eq!(format_uptime(3599), "59m 59s");
    assert_eq!(format_uptime(3600), "1h 0m");
    assert_eq!(format_uptime(86399), "23h 59m");
    assert_eq!(format_uptime(86400), "1d 0h");
    assert_eq!(format_uptime(180000), "2d 2h");
}
