use paii::manifest::{BuildType, HooksSpec, PluginLanguage, PluginManifest};

const MINIMAL_MANIFEST: &str = r#"
[plugin]
name = "test-plugin"
version = "0.1.0"
description = "A test plugin"
"#;

const FULL_MANIFEST: &str = r#"
[plugin]
name = "full-plugin"
version = "1.2.3"
description = "A fully configured plugin"
authors = ["Test Author <test@example.com>"]
language = "rust"
license = "MIT"
repository = "https://github.com/example/plugin"
keywords = ["test", "example"]

[paii]
core_version = ">=0.1.0"

[provides.memory]
contract = "MemoryProvider"
service = "sqlite-memory"

[consumes.config]
contract = "ConfigProvider"
optional = true

[hooks]
pre_tool_use = true
stop = true

[build]
type = "cargo"
"#;

fn has_key<T>(entries: &[(String, T)], key: &str) -> bool {
    entries.iter().any(|(k, _)| k == key)
}

fn get<'a, T>(entries: &'a [(String, T)], key: &str) -> &'a T {
    &entries.iter().find(|(k, _)| k == key).unwrap().1
}

#[test]
fn test_parse_minimal_manifest() {
    let manifest = PluginManifest::from_str(MINIMAL_MANIFEST).unwrap();
    assert_eq!(manifest.plugin.name, "test-plugin");
    assert_eq!(manifest.plugin.version, "0.1.0");
    assert_eq!(manifest.plugin.description, "A test plugin");
    assert!(manifest.plugin.authors.is_empty());
}

#[test]
fn test_parse_full_manifest() {
    let manifest = PluginManifest::from_str(FULL_MANIFEST).unwrap();
    assert_eq!(manifest.plugin.name, "full-plugin");
    assert_eq!(manifest.plugin.version, "1.2.3");
    assert_eq!(manifest.plugin.authors.len(), 1);
    assert!(matches!(manifest.plugin.language, PluginLanguage::Rust));
    assert_eq!(manifest.plugin.license, Some("MIT".to_string()));
    assert!(has_key(&manifest.provides, "memory"));
    assert!(has_key(&manifest.consumes, "config"));
    assert!(manifest.hooks.pre_tool_use);
    assert!(manifest.hooks.stop);
    assert!(!manifest.hooks.post_tool_use);
    assert!(matches!(manifest.build.build_type, BuildType::Cargo));
}

#[test]
fn test_default_plugin_language() {
    let lang = PluginLanguage::default();
    assert!(matches!(lang, PluginLanguage::Python));
}

#[test]
fn test_default_build_type() {
    let build = BuildType::default();
    assert!(matches!(build, BuildType::Uv));
}

#[test]
fn test_default_hooks_spec() {
    let hooks = HooksSpec::default();
    assert!(!hooks.pre_tool_use);
    assert!(!hooks.post_tool_use);
    assert!(!hooks.stop);
    assert!(!hooks.session_start);
    assert!(!hooks.session_end);
}

#[test]
fn test_consume_spec_optional() {
    let toml_str = r#"
[plugin]
name = "test"
version = "0.1.0"
description = "test"

[consumes.optional_dep]
contract = "SomeContract"
optional = true

[consumes.required_dep]
contract = "OtherContract"
"#;
    let manifest = PluginManifest::from_str(toml_str).unwrap();
    assert!(get(&manifest.consumes, "optional_dep").optional);
    assert!(!get(&manifest.consumes, "required_dep").optional);
}

#[test]
fn test_manifest_serialization_roundtrip() {
    let manifest = PluginManifest::from_str(FULL_MANIFEST).unwrap();
    let toml_str = manifest.serialize().unwrap();
    let reparsed = PluginManifest::from_str(&toml_str).unwrap();
    assert_eq!(reparsed.plugin.name, manifest.plugin.name);
    assert_eq!(reparsed.plugin.version, manifest.plugin.version);
}

#[test]
fn roundtrip_preserves_language_and_contract_keys() {
    let manifest = PluginManifest::from_str(FULL_MANIFEST).unwrap();
    let text = manifest.serialize().unwrap();
    let back = PluginManifest::from_str(&text).unwrap();
    assert!(matches!(back.plugin.language, PluginLanguage::Rust));
    let keys = |v: &[(String, paii::manifest::ProvideSpec)]| {
        v.iter().map(|(k, _)| k.clone()).collect::<Vec<_>>()
    };
    assert_eq!(keys(&back.provides), keys(&manifest.provides));
    assert_eq!(
        back.consumes.iter().map(|(k, _)| k.clone()).collect::<Vec<_>>(),
        manifest.consumes.iter().map(|(k, _)| k.clone()).collect::<Vec<_>>()
    );
    assert!(back.hooks.pre_tool_use && back.hooks.stop && !back.hooks.session_end);
    assert!(matches!(back.build.build_type, BuildType::Cargo));
}

#[test]
fn empty_name_is_rejected_with_field_context() {
    let text = "[plugin]\nname = \"\"\nversion = \"1.0\"\ndescription = \"x\"\n";
    let err = PluginManifest::from_str(text).unwrap_err();
    match err {
        paii::errors::CoreError::InvalidInput { context } => assert_eq!(context, "plugin.name"),
        other => panic!("expected InvalidInput, got {:?}", other),
    }
}

#[test]
fn missing_version_is_rejected() {
    let text = "[plugin]\nname = \"a\"\ndescription = \"x\"\n";
    let err = PluginManifest::from_str(text).unwrap_err();
    match err {
        paii::errors::CoreError::InvalidInput { context } => assert_eq!(context, "plugin.version"),
        other => panic!("expected InvalidInput, got {:?}", other),
    }
}

#[test]
fn unparseable_text_is_rejected() {
    let err = PluginManifest::from_str("this is [not toml").unwrap_err();
    assert!(matches!(err, paii::errors::CoreError::InvalidInput { .. }));
}

#[test]
fn unknown_sections_are_ignored() {
    let text = "[plugin]\nname = \"a\"\nversion = \"1\"\ndescription = \"d\"\n\n[mystery]\nx = 1\n";
    let manifest = PluginManifest::from_str(text).unwrap();
    assert_eq!(manifest.plugin.name, "a");
}

#[test]
fn language_defaults_to_interpreted() {
    let manifest = PluginManifest::from_str(MINIMAL_MANIFEST).unwrap();
    assert!(matches!(manifest.plugin.language, PluginLanguage::Python));
    assert!(matches!(manifest.build.build_type, BuildType::Uv));
}

#[test]
fn bad_language_is_rejected() {
    let text = "[plugin]\nname = \"a\"\nversion = \"1\"\ndescription = \"d\"\nlanguage = \"cobol\"\n";
    let err = PluginManifest::from_str(text).unwrap_err();
    match err {
        paii::errors::CoreError::InvalidInput { context } => assert_eq!(context, "plugin.language"),
        other => panic!("expected InvalidInput, got {:?}", other),
    }
}
