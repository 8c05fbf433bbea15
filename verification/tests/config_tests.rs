use paii::config::{
    add_registry, config_candidates, config_get, config_set, registries_contain, registries_get,
    remove_registry, Config, DefaultsConfig, HooksConfig, PaiiConfig, parse_config_text,
};

#[test]
fn test_default_config() {
    let config = Config::default();
    assert!(!config.paii.version.is_empty());
    assert_eq!(config.defaults.language, "python");
    assert_eq!(config.defaults.log_level, "info");
    assert!(config.hooks.security_enabled);
    assert!(config.hooks.history_enabled);
    assert!(registries_contain(&config.registries, "core"));
}

#[test]
fn test_default_paii_config() {
    let config = PaiiConfig::default();
    assert!(!config.version.is_empty());
}

#[test]
fn test_default_defaults_config() {
    let config = DefaultsConfig::default();
    assert_eq!(config.language, "python");
    assert_eq!(config.log_level, "info");
}

#[test]
fn test_default_hooks_config() {
    let config = HooksConfig::default();
    assert!(config.security_enabled);
    assert!(config.history_enabled);
}

#[test]
fn test_expand_path_no_expansion() {
    let expanded = Config::expand_path("/usr/local/bin");
    assert_eq!(expanded, "/usr/local/bin");
}

#[test]
fn test_expand_path_with_tilde() {
    let expanded = Config::expand_path("~/test");
    assert!(!expanded.contains('~'));
    assert!(expanded.contains("test"));
}

#[test]
fn test_paii_dir_default() {
    let dir = Config::paii_dir(None);
    assert!(!dir.is_empty());
}

#[test]
fn test_paii_dir_from_env() {
    let dir = Config::paii_dir(Some("/custom/paii".to_string()));
    assert_eq!(dir, "/custom/paii");
}

#[test]
fn test_config_serialization_roundtrip() {
    let config = Config::default();
    let toml_str = config.serialize().expect("Failed to serialize");
    let parsed = parse_config_text(&toml_str, &config).expect("Failed to deserialize");
    assert_eq!(parsed.paii.version, config.paii.version);
    assert_eq!(parsed.defaults.language, config.defaults.language);
}

#[test]
fn config_get_known_and_unknown_keys() {
    let config = Config::with_base("/base");
    assert_eq!(config_get(&config, "paths.plugins").unwrap(), "/base/plugins");
    assert_eq!(config_get(&config, "defaults.language").unwrap(), "python");
    assert_eq!(config_get(&config, "hooks.security_enabled").unwrap(), "true");
    assert!(config_get(&config, "no.such.key").is_none());
}

#[test]
fn config_set_updates_and_rejects() {
    let config = Config::with_base("/base");
    let updated = config_set(&config, "defaults.language", "rust").unwrap();
    assert_eq!(updated.defaults.language, "rust");
    assert_eq!(config.defaults.language, "python");

    let updated = config_set(&config, "hooks.security_enabled", "false").unwrap();
    assert!(!updated.hooks.security_enabled);

    let err = config_set(&config, "hooks.security_enabled", "maybe").unwrap_err();
    assert!(matches!(err, paii::errors::CoreError::InvalidInput { .. }));

    let err = config_set(&config, "no.such.key", "x").unwrap_err();
    assert!(matches!(err, paii::errors::CoreError::InvalidInput { .. }));
}

#[test]
fn add_and_remove_registry() {
    let config = Config::with_base("/base");
    let err = add_registry(&config, "core", "https://elsewhere").unwrap_err();
    assert!(matches!(err, paii::errors::CoreError::AlreadyExists { .. }));

    let with_extra = add_registry(&config, "extra", "https://example/listing.toml").unwrap();
    assert_eq!(
        registries_get(&with_extra.registries, "extra").unwrap(),
        "https://example/listing.toml"
    );

    let removed = remove_registry(&with_extra, "extra").unwrap();
    assert!(!registries_contain(&removed.registries, "extra"));
    assert!(registries_contain(&removed.registries, "core"));

    let err = remove_registry(&config, "ghost").unwrap_err();
    assert!(matches!(err, paii::errors::CoreError::NotFound { .. }));
}

#[test]
fn config_candidates_in_order() {
    let cands = config_candidates(
        Some("/explicit/cfg.toml".to_string()),
        Some("/envdir".to_string()),
        Some("/xdg".to_string()),
    );
    assert_eq!(
        cands,
        vec![
            "/explicit/cfg.toml".to_string(),
            "/envdir/paii.toml".to_string(),
            "/xdg/paii/paii.toml".to_string(),
            "paii.toml".to_string(),
        ]
    );

    let cands = config_candidates(None, None, None);
    assert_eq!(cands, vec!["paii.toml".to_string()]);
}

#[test]
fn partial_config_file_keeps_defaults() {
    let dflt = Config::with_base("/base");
    let parsed = parse_config_text("[defaults]\nlanguage = \"rust\"\n", &dflt).unwrap();
    assert_eq!(parsed.defaults.language, "rust");
    assert_eq!(parsed.defaults.log_level, "info");
    assert_eq!(parsed.paths.plugins, "/base/plugins");
    assert!(registries_contain(&parsed.registries, "core"));
}

#[test]
fn corrupt_config_file_is_invalid_input() {
    let dflt = Config::with_base("/base");
    let err = parse_config_text("not [valid", &dflt).unwrap_err();
    assert!(matches!(err, paii::errors::CoreError::InvalidInput { .. }));
}
