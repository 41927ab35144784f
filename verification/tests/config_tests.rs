use portr::config::{is_port_or_alias, parse_config, resolve_alias, Config};

#[test]
fn test_default_config() {
    let config = Config::default();
    assert_eq!(config.defaults.signal, "SIGTERM");
    assert!(config.defaults.confirm);
    assert_eq!(config.defaults.color, "auto");
}

#[test]
fn test_parse_config_aliases() {
    let content = "\n[aliases]\nreact = 3000\nbackend = 8080\ndb = 5432\n";
    let config = parse_config(content);
    assert_eq!(config.aliases.get("react"), Some(3000));
    assert_eq!(config.aliases.get("backend"), Some(8080));
    assert_eq!(config.aliases.get("db"), Some(5432));
}

#[test]
fn test_parse_config_defaults() {
    let content = "\n[defaults]\nsignal = \"SIGKILL\"\nconfirm = false\ncolor = \"never\"\n";
    let config = parse_config(content);
    assert_eq!(config.defaults.signal, "SIGKILL");
    assert!(!config.defaults.confirm);
    assert_eq!(config.defaults.color, "never");
}

#[test]
fn test_resolve_alias() {
    let mut config = Config::default();
    config.aliases.set("react", 3000);
    config.aliases.set("db", 5432);

    assert_eq!(resolve_alias("react", &config), Some(3000));
    assert_eq!(resolve_alias("db", &config), Some(5432));
    assert_eq!(resolve_alias("unknown", &config), None);
}

#[test]
fn test_is_port_or_alias() {
    assert!(is_port_or_alias("3000"));
    assert!(is_port_or_alias("react"));
    assert!(is_port_or_alias("my-app"));
    assert!(is_port_or_alias("app_123"));
}

#[test]
fn test_is_port_or_alias_rejects_punctuation() {
    assert!(!is_port_or_alias("not an alias"));
    assert!(!is_port_or_alias("semi;colon"));
}

#[test]
fn test_alias_overwrite_last_wins() {
    let content = "[aliases]\napp = 3000\napp = 4000\n";
    let config = parse_config(content);
    assert_eq!(config.aliases.get("app"), Some(4000));
}

#[test]
fn test_parse_config_ignores_comments_and_unknown_sections() {
    let content = "# a comment\n[defaults]\nsignal = \"SIGKILL\"\n[mystery]\nsignal = \"other\"\n";
    let config = parse_config(content);
    assert_eq!(config.defaults.signal, "SIGKILL");
}

#[test]
fn test_parse_config_theme() {
    let content = "[theme]\nbanner_color = \"magenta\"\nerror_color = \"white\"\n";
    let config = parse_config(content);
    assert_eq!(config.theme.banner_color, "magenta");
    assert_eq!(config.theme.success_color, "green");
    assert_eq!(config.theme.error_color, "white");
}

#[test]
fn test_default_config_content_parses_back() {
    let content = portr::config::default_config_content();
    let config = parse_config(content.as_str());
    assert_eq!(config.defaults.signal, "SIGTERM");
    assert!(config.defaults.confirm);
    assert_eq!(config.aliases.get("postgres"), Some(5432));
    assert_eq!(config.aliases.get("redis"), Some(6379));
    assert_eq!(config.theme.banner_color, "cyan");
}
