use paii::dispatch::{build_outcome, exec_outcome, plan_run, ExecPlan};
use paii::errors::CoreError;
use paii::manifest::PluginLanguage;

#[test]
fn missing_interpreted_entry_is_an_external_tool_failure() {
    let err = plan_run(PluginLanguage::Python, "/plugins/demo", "demo", false, false, false)
        .unwrap_err();
    match err {
        CoreError::ExternalToolFailure { context, exit_code, .. } => {
            // The failure identifies the missing script path.
            assert_eq!(context, "/plugins/demo/src/main.py");
            assert_eq!(exit_code, None);
        }
        other => panic!("expected ExternalToolFailure, got {:?}", other),
    }
}

#[test]
fn interpreted_plugin_runs_its_entry_script() {
    let plan = plan_run(PluginLanguage::Python, "/plugins/demo", "demo", true, false, false).unwrap();
    match plan {
        ExecPlan::Interpreter { script } => assert_eq!(script, "/plugins/demo/src/main.py"),
        other => panic!("expected Interpreter, got {:?}", other),
    }
}

#[test]
fn compiled_plugin_prefers_release_then_debug_then_builds_once() {
    let plan = plan_run(PluginLanguage::Rust, "/p/demo", "demo", false, true, true).unwrap();
    match plan {
        ExecPlan::Binary { program } => assert_eq!(program, "/p/demo/target/release/demo"),
        other => panic!("expected Binary, got {:?}", other),
    }

    let plan = plan_run(PluginLanguage::Rust, "/p/demo", "demo", false, false, true).unwrap();
    match plan {
        ExecPlan::Binary { program } => assert_eq!(program, "/p/demo/target/debug/demo"),
        other => panic!("expected Binary, got {:?}", other),
    }

    let plan = plan_run(PluginLanguage::Rust, "/p/demo", "demo", false, false, false).unwrap();
    match plan {
        ExecPlan::BuildThenRun { program } => assert_eq!(program, "/p/demo/target/release/demo"),
        other => panic!("expected BuildThenRun, got {:?}", other),
    }
}

#[test]
fn mixed_plugin_prefers_interpreted_entry() {
    let plan = plan_run(PluginLanguage::Mixed, "/p/demo", "demo", true, true, true).unwrap();
    assert!(matches!(plan, ExecPlan::Interpreter { .. }));

    let plan = plan_run(PluginLanguage::Mixed, "/p/demo", "demo", false, true, false).unwrap();
    assert!(matches!(plan, ExecPlan::Binary { .. }));
}

#[test]
fn nonzero_exit_bundles_both_streams_verbatim() {
    let ok = exec_outcome(true, Some(0), "{\"v\":1}\n".to_string(), String::new(), "demo").unwrap();
    assert_eq!(ok, "{\"v\":1}\n");

    let err = exec_outcome(
        false,
        Some(3),
        "partial out".to_string(),
        "boom".to_string(),
        "demo",
    )
    .unwrap_err();
    match err {
        CoreError::ExternalToolFailure { context, exit_code, stdout, stderr } => {
            assert_eq!(context, "demo");
            assert_eq!(exit_code, Some(3));
            assert_eq!(stdout, "partial out");
            assert_eq!(stderr, "boom");
        }
        other => panic!("expected ExternalToolFailure, got {:?}", other),
    }
}

#[test]
fn build_failure_is_fatal() {
    assert!(build_outcome(true, "demo").is_ok());
    let err = build_outcome(false, "demo").unwrap_err();
    assert!(matches!(err, CoreError::ExternalToolFailure { .. }));
}
