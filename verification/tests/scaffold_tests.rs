use paii::cli::OutputFormat;
use paii::errors::CoreError;
use paii::manifest::{BuildType, PluginLanguage, PluginManifest};
use paii::scaffold::{plan_new, EntryKind};

#[test]
fn new_python_skill_plugin() {
    let plan = plan_new("greeter", "python", "skill", None, false).unwrap();
    assert_eq!(plan.root, "./greeter");
    assert_eq!(plan.entry_rel, "src/main.py");
    assert_eq!(plan.entry_kind, EntryKind::PythonMain);
    let names: Vec<&str> = plan.files.iter().map(|(n, _)| n.as_str()).collect();
    assert_eq!(names, vec!["plugin.toml", "pyproject.toml", "SKILL.md", "README.md"]);
}

#[test]
fn new_rust_plugin_without_skill_sheet() {
    let plan = plan_new("fast", "rust", "integration", Some("/work/fast".to_string()), false).unwrap();
    assert_eq!(plan.root, "/work/fast");
    assert_eq!(plan.entry_rel, "src/main.rs");
    assert_eq!(plan.entry_kind, EntryKind::RustMain);
    let names: Vec<&str> = plan.files.iter().map(|(n, _)| n.as_str()).collect();
    assert_eq!(names, vec!["plugin.toml", "Cargo.toml", "README.md"]);
}

#[test]
fn generated_descriptor_parses_back() {
    let plan = plan_new("greeter", "rust", "skill", None, false).unwrap();
    let descriptor = &plan.files.iter().find(|(n, _)| n == "plugin.toml").unwrap().1;
    let manifest = PluginManifest::from_str(descriptor).unwrap();
    assert_eq!(manifest.plugin.name, "greeter");
    assert_eq!(manifest.plugin.version, "0.1.0");
    assert!(matches!(manifest.plugin.language, PluginLanguage::Rust));
    assert!(matches!(manifest.build.build_type, BuildType::Cargo));
    assert!(!manifest.hooks.pre_tool_use);
}

#[test]
fn new_plugin_rejects_unknown_language_and_existing_destination() {
    let err = plan_new("x", "cobol", "skill", None, false).unwrap_err();
    match err {
        CoreError::InvalidInput { context } => assert_eq!(context, "cobol"),
        other => panic!("expected InvalidInput, got {:?}", other),
    }

    let err = plan_new("x", "python", "skill", None, true).unwrap_err();
    assert!(matches!(err, CoreError::AlreadyExists { .. }));
}

#[test]
fn output_format_resolution() {
    assert_eq!(OutputFormat::resolve(Some(OutputFormat::Yaml), true), OutputFormat::Yaml);
    assert_eq!(OutputFormat::resolve(None, true), OutputFormat::Text);
    assert_eq!(OutputFormat::resolve(None, false), OutputFormat::Json);
}
