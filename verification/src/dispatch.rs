//! The execution dispatcher: how a resolved plugin's program is invoked.
//!
//! The dispatcher decides which program runs for a plugin's language; the
//! driver spawns it with the action followed by the arguments, working
//! directory set to the plugin path, and hands the outcome back.  The
//! dispatcher is pure transport: a child's output is never inspected, and a
//! non-zero exit always fails with both captured streams kept verbatim.

use vstd::prelude::*;
use crate::errors::{CoreError, ErrorV};
use crate::manifest::PluginLanguage;
use crate::strutil::{path_join, str_concat};

verus! {

/// Spec shape of [`ExecPlan`].
pub enum ExecPlanV {
    Interpreter { script: Seq<char> },
    Binary { program: Seq<char> },
    BuildThenRun { program: Seq<char> },
}

/// How a plugin is executed.
#[derive(Debug, Clone)]
pub enum ExecPlan {
    /// Invoke the language interpreter on the entry script.
    Interpreter { script: String },
    /// Run a prebuilt binary.
    Binary { program: String },
    /// No binary exists yet: invoke the build tool once for the optimized
    /// binary — a build failure is fatal — then run it.  The build is never
    /// retried, and a failing execution never triggers a build.
    BuildThenRun { program: String },
}

impl View for ExecPlan {
    type V = ExecPlanV;

    open spec fn view(&self) -> ExecPlanV {
        match self {
            ExecPlan::Interpreter { script } => ExecPlanV::Interpreter { script: script@ },
            ExecPlan::Binary { program } => ExecPlanV::Binary { program: program@ },
            ExecPlan::BuildThenRun { program } => ExecPlanV::BuildThenRun { program: program@ },
        }
    }
}

/// The interpreted entry script of a plugin.
pub open spec fn entry_script(path: Seq<char>) -> Seq<char> {
    path + "/"@ + "src/main.py"@
}

/// The optimized build output for a plugin named `name`.
pub open spec fn release_binary(path: Seq<char>, name: Seq<char>) -> Seq<char> {
    path + "/target/release/"@ + name
}

/// The debug build output for a plugin named `name`.
pub open spec fn debug_binary(path: Seq<char>, name: Seq<char>) -> Seq<char> {
    path + "/target/debug/"@ + name
}

/// The dispatch decision.  An interpreted plugin without its entry script
/// fails as an external-tool failure naming the script path.  A compiled
/// plugin prefers the optimized binary, then the debug one; with neither it
/// builds once.  A mixed plugin prefers the interpreted entry point when it
/// is present, else falls back to the compiled path.
pub open spec fn spec_run_plan(
    lang: PluginLanguage,
    path: Seq<char>,
    name: Seq<char>,
    entry_exists: bool,
    release_exists: bool,
    debug_exists: bool,
) -> Result<ExecPlanV, ErrorV> {
    match lang {
        PluginLanguage::Python => if entry_exists {
            Ok(ExecPlanV::Interpreter { script: entry_script(path) })
        } else {
            Err(ErrorV::ExternalToolFailure {
                context: entry_script(path),
                exit_code: None,
                stdout: Seq::empty(),
                stderr: Seq::empty(),
            })
        },
        PluginLanguage::Rust => if release_exists {
            Ok(ExecPlanV::Binary { program: release_binary(path, name) })
        } else if debug_exists {
            Ok(ExecPlanV::Binary { program: debug_binary(path, name) })
        } else {
            Ok(ExecPlanV::BuildThenRun { program: release_binary(path, name) })
        },
        PluginLanguage::Mixed => if entry_exists {
            Ok(ExecPlanV::Interpreter { script: entry_script(path) })
        } else if release_exists {
            Ok(ExecPlanV::Binary { program: release_binary(path, name) })
        } else if debug_exists {
            Ok(ExecPlanV::Binary { program: debug_binary(path, name) })
        } else {
            Ok(ExecPlanV::BuildThenRun { program: release_binary(path, name) })
        },
    }
}

/// Decides how to execute a plugin, from its language and which of its
/// program files exist on disk.
pub fn plan_run(
    lang: PluginLanguage,
    path: &str,
    name: &str,
    entry_exists: bool,
    release_exists: bool,
    debug_exists: bool,
) -> (r: Result<ExecPlan, CoreError>)
    ensures
        match r {
            Ok(p) => spec_run_plan(lang, path@, name@, entry_exists, release_exists, debug_exists) == Ok::<
                ExecPlanV,
                ErrorV,
            >(p@),
            Err(e) => spec_run_plan(lang, path@, name@, entry_exists, release_exists, debug_exists)
                == Err::<ExecPlanV, ErrorV>(e@),
        },
{
    match lang {
        PluginLanguage::Python => {
            let script = path_join(path, "src/main.py");
            if entry_exists {
                Ok(ExecPlan::Interpreter { script })
            } else {
                Err(CoreError::ExternalToolFailure {
                    context: script,
                    exit_code: None,
                    stdout: String::new(),
                    stderr: String::new(),
                })
            }
        },
        PluginLanguage::Rust => Ok(plan_rust(path, name, release_exists, debug_exists)),
        PluginLanguage::Mixed => {
            if entry_exists {
                Ok(ExecPlan::Interpreter { script: path_join(path, "src/main.py") })
            } else {
                Ok(plan_rust(path, name, release_exists, debug_exists))
            }
        },
    }
}

/// The compiled branch of the dispatch decision.
fn plan_rust(path: &str, name: &str, release_exists: bool, debug_exists: bool) -> (r: ExecPlan)
    ensures
        release_exists ==> r@ == (ExecPlanV::Binary { program: release_binary(path@, name@) }),
        !release_exists && debug_exists ==> r@ == (ExecPlanV::Binary {
            program: debug_binary(path@, name@),
        }),
        !release_exists && !debug_exists ==> r@ == (ExecPlanV::BuildThenRun {
            program: release_binary(path@, name@),
        }),
{
    if release_exists {
        ExecPlan::Binary { program: str_concat(str_concat(path, "/target/release/").as_str(), name) }
    } else if debug_exists {
        ExecPlan::Binary { program: str_concat(str_concat(path, "/target/debug/").as_str(), name) }
    } else {
        ExecPlan::BuildThenRun { program: str_concat(str_concat(path, "/target/release/").as_str(), name) }
    }
}

/// The outcome of one executed child process: success passes the standard
/// output through verbatim; any failure bundles the exit code and both
/// captured streams, neither discarded.
pub fn exec_outcome(
    success: bool,
    exit_code: Option<i32>,
    stdout: String,
    stderr: String,
    context: &str,
) -> (r: Result<String, CoreError>)
    ensures
        success ==> (r matches Ok(s) && s == stdout),
        !success ==> (r matches Err(e) && e@ == (ErrorV::ExternalToolFailure {
            context: context@,
            exit_code,
            stdout: stdout@,
            stderr: stderr@,
        })),
{
    if success {
        Ok(stdout)
    } else {
        Err(CoreError::ExternalToolFailure {
            context: String::from_str(context),
            exit_code,
            stdout,
            stderr,
        })
    }
}

/// The outcome of the one attempted build: a failure is fatal for the run.
pub fn build_outcome(success: bool, context: &str) -> (r: Result<(), CoreError>)
    ensures
        success ==> r is Ok,
        !success ==> (r matches Err(e) && e@ == (ErrorV::ExternalToolFailure {
            context: context@,
            exit_code: None,
            stdout: Seq::<char>::empty(),
            stderr: Seq::<char>::empty(),
        })),
{
    if success {
        Ok(())
    } else {
        Err(CoreError::ExternalToolFailure {
            context: String::from_str(context),
            exit_code: None,
            stdout: String::new(),
            stderr: String::new(),
        })
    }
}

} // verus!
