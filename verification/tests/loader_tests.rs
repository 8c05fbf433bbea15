use paii::errors::CoreError;
use paii::loader::{expected_entry_file, find_by_name, load_plugin_from, Plugin};
use paii::manifest::{PluginLanguage, PluginManifest};

const DESCRIPTOR: &str = "[plugin]\nname = \"demo\"\nversion = \"0.2.0\"\ndescription = \"d\"\n";

#[test]
fn load_requires_a_descriptor() {
    let err = load_plugin_from("/store/demo", None).unwrap_err();
    match err {
        CoreError::NotFound { context } => assert_eq!(context, "/store/demo"),
        other => panic!("expected NotFound, got {:?}", other),
    }
}

#[test]
fn load_parses_the_descriptor_and_keeps_the_path() {
    let plugin = load_plugin_from("/store/demo", Some(DESCRIPTOR)).unwrap();
    assert_eq!(plugin.path, "/store/demo");
    assert_eq!(plugin.manifest.plugin.name, "demo");
    assert_eq!(plugin.manifest.plugin.version, "0.2.0");
}

#[test]
fn load_wraps_a_parse_failure_with_the_path() {
    let err = load_plugin_from("/store/demo", Some("[plugin]\nname = \"\"\n")).unwrap_err();
    match err {
        CoreError::InvalidInput { context } => assert_eq!(context, "/store/demo: plugin.name"),
        other => panic!("expected InvalidInput, got {:?}", other),
    }
}

#[test]
fn find_by_name_takes_the_first_match() {
    let mk = |name: &str, path: &str| Plugin {
        manifest: PluginManifest::from_str(&format!(
            "[plugin]\nname = \"{}\"\nversion = \"1\"\ndescription = \"d\"\n",
            name
        ))
        .unwrap(),
        path: path.to_string(),
    };
    let plugins = vec![mk("alpha", "/store/a"), mk("beta", "/store/b"), mk("beta", "/store/c")];
    assert_eq!(find_by_name(&plugins, "beta"), Some(1));
    assert_eq!(find_by_name(&plugins, "alpha"), Some(0));
    assert_eq!(find_by_name(&plugins, "gamma"), None);
}

#[test]
fn verification_checks_the_language_entry_file() {
    assert_eq!(expected_entry_file(PluginLanguage::Python), Some("src/main.py"));
    assert_eq!(expected_entry_file(PluginLanguage::Rust), Some("Cargo.toml"));
    assert_eq!(expected_entry_file(PluginLanguage::Mixed), None);
}
