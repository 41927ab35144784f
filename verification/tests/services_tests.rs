use portr::services::{
    all, get_warning, lookup, requires_confirmation, short_name, RiskLevel,
};

#[test]
fn test_lookup_mysql() {
    let service = lookup(3306).unwrap();
    assert_eq!(service.name, "MySQL");
    assert_eq!(service.risk, RiskLevel::Critical);
}

#[test]
fn test_lookup_unknown() {
    assert!(lookup(54321).is_none());
}

#[test]
fn test_requires_confirmation() {
    assert!(requires_confirmation(3306)); // MySQL - Critical
    assert!(requires_confirmation(22)); // SSH - Critical
    assert!(requires_confirmation(6379)); // Redis - High
    assert!(!requires_confirmation(3000)); // Dev server - Low
    assert!(!requires_confirmation(65432)); // Unknown port
}

#[test]
fn test_short_name() {
    assert_eq!(short_name(5432), Some("PostgreSQL".to_string()));
    assert_eq!(short_name(11434), Some("Ollama".to_string()));
    assert_eq!(short_name(65432), None);
}

#[test]
fn test_classify_table() {
    let mysql = lookup(3306).unwrap();
    assert_eq!((mysql.name.as_str(), mysql.risk), ("MySQL", RiskLevel::Critical));
    let postgres = lookup(5432).unwrap();
    assert_eq!((postgres.name.as_str(), postgres.risk), ("PostgreSQL", RiskLevel::Critical));
    let redis = lookup(6379).unwrap();
    assert_eq!((redis.name.as_str(), redis.risk), ("Redis", RiskLevel::High));
    let dev = lookup(3000).unwrap();
    assert_eq!((dev.name.as_str(), dev.risk), ("Dev Server", RiskLevel::Low));
    assert!(lookup(54321).is_none());
}

#[test]
fn test_risk_labels() {
    assert_eq!(RiskLevel::Low.label(), "Low Risk");
    assert_eq!(RiskLevel::Medium.label(), "Medium Risk");
    assert_eq!(RiskLevel::High.label(), "High Risk");
    assert_eq!(RiskLevel::Critical.label(), "CRITICAL");
    assert_eq!(RiskLevel::Critical.colored_label(), "CRITICAL");
    assert_eq!(RiskLevel::Low.warning(), "\u{25cf}");
    assert_eq!(RiskLevel::Critical.warning(), "\u{26a0}");
}

#[test]
fn test_get_warning_text() {
    let w = get_warning(3306).unwrap();
    assert_eq!(w, "\u{26a0} MySQL - MySQL/MariaDB database server (CRITICAL)");
    let r = get_warning(6379).unwrap();
    assert_eq!(r, "\u{25cf} Redis - Redis in-memory data store (High Risk)");
    assert!(get_warning(54321).is_none());
}

#[test]
fn test_all_has_every_known_entry() {
    let table = all();
    assert_eq!(table.len(), 49);
    assert!(table.iter().any(|s| s.port == 3306 && s.name == "MySQL"));
    assert!(table.iter().any(|s| s.port == 8888 && s.name == "Jupyter"));
    assert!(table.iter().any(|s| s.port == 8888 && s.name == "Proxy"));
    // lookup prefers the first table entry on the shared port
    assert_eq!(lookup(8888).unwrap().name, "Jupyter");
}
