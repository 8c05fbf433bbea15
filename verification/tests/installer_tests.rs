use paii::errors::CoreError;
use paii::installer::{
    classify_install_source, install_dest, install_transition, plan_registry_install, plan_update,
    remove_transition, resolve_clone_dir, should_skip_dir, InstallMethod, InstallPlan, RemoveKind,
    SourceKind, StoreState, UpdateDecision,
};
use paii::registry::RegistryEntry;

fn entry(name: &str) -> RegistryEntry {
    RegistryEntry {
        name: name.to_string(),
        version: None,
        description: None,
        source: None,
        path: None,
        language: None,
        entry_type: None,
        tags: vec![],
    }
}

#[test]
fn install_twice_fails_then_force_replaces() {
    // First install into an empty store slot.
    let plan = install_transition(StoreState::Absent, false, false, "demo").unwrap();
    assert_eq!(plan, InstallPlan { pre_remove: None, method: InstallMethod::CopyTree });

    // Second install of the same name without force collides.
    let err = install_transition(StoreState::InstalledCopy, false, false, "demo").unwrap_err();
    match err {
        CoreError::AlreadyExists { context } => assert_eq!(context, "demo"),
        other => panic!("expected AlreadyExists, got {:?}", other),
    }

    // With force the prior directory is removed first, then replaced.
    let plan = install_transition(StoreState::InstalledCopy, false, true, "demo").unwrap();
    assert_eq!(
        plan,
        InstallPlan { pre_remove: Some(RemoveKind::DeleteTree), method: InstallMethod::CopyTree }
    );
}

#[test]
fn dev_install_links_and_remove_only_unlinks() {
    let plan = install_transition(StoreState::Absent, true, false, "demo").unwrap();
    assert_eq!(plan, InstallPlan { pre_remove: None, method: InstallMethod::Symlink });

    // Removing a dev install deletes only the link, never the source tree.
    let kind = remove_transition(StoreState::InstalledSymlink, false, "demo").unwrap();
    assert_eq!(kind, RemoveKind::Unlink);
}

#[test]
fn force_over_symlink_unlinks_first() {
    let plan = install_transition(StoreState::InstalledSymlink, false, true, "demo").unwrap();
    assert_eq!(
        plan,
        InstallPlan { pre_remove: Some(RemoveKind::Unlink), method: InstallMethod::CopyTree }
    );
}

#[test]
fn remove_absent_plugin_is_not_found() {
    let err = remove_transition(StoreState::Absent, true, "ghost").unwrap_err();
    assert!(matches!(err, CoreError::NotFound { .. }));
}

#[test]
fn update_on_symlink_is_informational_noop() {
    let decision = plan_update(true, true, "1.0", &Some(entry("demo")));
    assert!(matches!(decision, UpdateDecision::DevInstall));
    // The decision carries no filesystem action: the link stays untouched.
}

#[test]
fn update_decisions() {
    assert!(matches!(plan_update(false, false, "1.0", &None), UpdateDecision::NotInstalled));
    assert!(matches!(plan_update(true, false, "1.0", &None), UpdateDecision::NoRegistryEntry));

    let mut e = entry("demo");
    e.version = Some("1.0".to_string());
    assert!(matches!(plan_update(true, false, "1.0", &Some(e)), UpdateDecision::AlreadyCurrent));

    let mut e = entry("demo");
    e.version = Some("2.0".to_string());
    match plan_update(true, false, "1.0", &Some(e)) {
        UpdateDecision::Reinstall { new_version } => assert_eq!(new_version, "2.0"),
        other => panic!("expected Reinstall, got {:?}", other),
    }
}

#[test]
fn source_classification() {
    assert_eq!(classify_install_source("whatever", true), SourceKind::LocalPath);
    assert_eq!(classify_install_source("memory", false), SourceKind::RegistryName);
    assert_eq!(classify_install_source("./missing/dir", false), SourceKind::Ambiguous);
    assert_eq!(classify_install_source("a\\b", false), SourceKind::Ambiguous);
}

#[test]
fn copy_skips_build_output_and_hidden_dirs() {
    assert!(should_skip_dir("target"));
    assert!(should_skip_dir(".git"));
    assert!(should_skip_dir(".hidden"));
    assert!(!should_skip_dir("src"));
    assert!(!should_skip_dir("targets"));
}

#[test]
fn install_dest_joins_store_root_and_name() {
    assert_eq!(install_dest("/store", "demo"), "/store/demo");
}

const FOO_LISTING: &str = "[registry]\nname = \"upstream\"\n\n[[plugins]]\nname = \"foo\"\nversion = \"2.0\"\nsource = \"https://example/repo.git\"\npath = \"plugins/foo\"\n";

fn cache(entries: &[(&str, &str)]) -> Vec<(String, String)> {
    entries.iter().map(|(n, c)| (n.to_string(), c.to_string())).collect()
}

#[test]
fn registry_install_scenario() {
    // A cached registry holds foo 2.0 at plugins/foo of a remote repository.
    let files = cache(&[("main", FOO_LISTING)]);
    let plan = plan_registry_install(true, &files, "foo").unwrap();
    assert_eq!(plan.url, "https://example/repo.git");
    assert_eq!(plan.subpath, "plugins/foo");
    assert_eq!(plan.registry, "main");
    assert_eq!(plan.version_label, "2.0");

    // The plugin is located inside the clone through its path field.
    let loc = resolve_clone_dir("/tmp/clone", &plan.subpath, true).unwrap();
    assert_eq!(loc, "/tmp/clone/plugins/foo");

    // The copy-install that follows runs with dev off.
    let step = install_transition(StoreState::Absent, false, false, "foo").unwrap();
    assert_eq!(step.method, InstallMethod::CopyTree);
}

#[test]
fn registry_install_failures() {
    let err = plan_registry_install(false, &vec![], "foo").unwrap_err();
    assert!(matches!(err, CoreError::NotFound { .. }));

    let files = cache(&[("main", "[registry]\nname = \"main\"\n")]);
    let err = plan_registry_install(true, &files, "foo").unwrap_err();
    match err {
        CoreError::NotFound { context } => assert_eq!(context, "foo"),
        other => panic!("expected NotFound, got {:?}", other),
    }

    // An entry without a source URL cannot be cloned.
    let files = cache(&[("main", "[registry]\nname = \"main\"\n\n[[plugins]]\nname = \"foo\"\n")]);
    let err = plan_registry_install(true, &files, "foo").unwrap_err();
    match err {
        CoreError::InvalidInput { context } => assert_eq!(context, "foo"),
        other => panic!("expected InvalidInput, got {:?}", other),
    }
}

#[test]
fn registry_install_reads_cache_files_lazily() {
    // A corrupt cache file before the match is fatal and names its registry.
    let files = cache(&[("broken", "not [ toml"), ("main", FOO_LISTING)]);
    let err = plan_registry_install(true, &files, "foo").unwrap_err();
    match err {
        CoreError::InvalidInput { context } => assert_eq!(context, "broken"),
        other => panic!("expected InvalidInput, got {:?}", other),
    }

    // A corrupt cache file after the match is never read.
    let files = cache(&[("main", FOO_LISTING), ("broken", "not [ toml")]);
    let plan = plan_registry_install(true, &files, "foo").unwrap();
    assert_eq!(plan.registry, "main");
}

#[test]
fn clone_subpath_must_exist() {
    let err = resolve_clone_dir("/tmp/clone", "plugins/foo", false).unwrap_err();
    assert!(matches!(err, CoreError::NotFound { .. }));
    let root = resolve_clone_dir("/tmp/clone", "", false).unwrap();
    assert_eq!(root, "/tmp/clone");
}
