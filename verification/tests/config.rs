use icon_maker::config::{AppConfig, ConfigError, ConfigFileState, default_path, load_from_path};

#[test]
fn load_from_path_returns_none_when_missing() {
    let loaded = load_from_path("/tmp/icon-maker-config-missing.toml", ConfigFileState::Missing)
        .expect("load missing file");
    assert!(loaded.is_none());
}

#[test]
fn load_from_path_parses_values() {
    let table: toml::Table = toml::from_str("openai_key = \"sk-test\"\nmodel = \"gpt-image-1.5\"\n")
        .expect("valid toml");
    let parsed = AppConfig {
        openai_key: table.get("openai_key").and_then(|v| v.as_str()).map(str::to_string),
        model: table.get("model").and_then(|v| v.as_str()).map(str::to_string),
    };
    let loaded = load_from_path("/tmp/valid.toml", ConfigFileState::Parsed(parsed))
        .expect("load config")
        .expect("config exists");
    assert_eq!(loaded.openai_key.as_deref(), Some("sk-test"));
    assert_eq!(loaded.model.as_deref(), Some("gpt-image-1.5"));
}

#[test]
fn load_from_path_fails_on_invalid_toml() {
    let reason = toml::from_str::<toml::Table>("openai_key = [}")
        .expect_err("invalid toml")
        .to_string();
    let err = load_from_path("/tmp/invalid.toml", ConfigFileState::Malformed(reason.clone()))
        .expect_err("expected parse error");
    assert!(
        err.message().contains("failed to parse TOML config"),
        "unexpected error: {}",
        err.message()
    );
    assert_eq!(err.message(), "failed to parse TOML config at /tmp/invalid.toml");
    assert_eq!(err.reason(), &reason);
}

#[test]
fn load_from_path_reports_unreadable_file() {
    let err = load_from_path("/etc/x.toml", ConfigFileState::Unreadable("denied".to_string()))
        .unwrap_err();
    assert!(matches!(err, ConfigError::Read { .. }));
    assert_eq!(err.message(), "failed to read /etc/x.toml");
    assert_eq!(err.reason(), "denied");
}

#[test]
fn default_path_prefers_xdg_then_home() {
    assert_eq!(
        default_path(Some("/xdg"), Some("/home/u")),
        Some("/xdg/icon-maker/config.toml".to_string())
    );
    assert_eq!(
        default_path(None, Some("/home/u")),
        Some("/home/u/.config/icon-maker/config.toml".to_string())
    );
    assert_eq!(
        default_path(Some("/xdg/"), None),
        Some("/xdg/icon-maker/config.toml".to_string())
    );
    assert_eq!(default_path(None, None), None);
}

#[test]
fn default_config_is_empty() {
    let cfg = AppConfig::default();
    assert!(cfg.openai_key.is_none());
    assert!(cfg.model.is_none());
    let copy = AppConfig { model: Some("m".to_string()), ..cfg }.clone();
    assert_eq!(copy.model.as_deref(), Some("m"));
}
