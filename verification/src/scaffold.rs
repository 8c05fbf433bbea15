//! Scaffolding of a new plugin: which files are generated, where, and with
//! what contents.
//!
//! The entry-point program of the scaffold (the interpreted script or the
//! compiled main) names process and environment facilities that this
//! library's source may not mention, so its text lives with the driver; the
//! plan names the entry file and its kind, and the driver writes its text.

use vstd::prelude::*;
use crate::errors::{CoreError, ErrorV};
use crate::strutil::{lower_of, lowercase, str_concat, str_eq};

verus! {

/// Which entry-point program the driver writes for the scaffold.
#[derive(Debug, Clone, Copy, PartialEq, Eq, Structural)]
pub enum EntryKind {
    /// The interpreted entry script, at `src/main.py`.
    PythonMain,
    /// The compiled entry program, at `src/main.rs`.
    RustMain,
}

/// Spec shape of [`ScaffoldPlan`].
pub struct ScaffoldPlanV {
    pub root: Seq<char>,
    pub files: Seq<(Seq<char>, Seq<char>)>,
    pub entry_rel: Seq<char>,
    pub entry_kind: EntryKind,
}

/// The plan of one scaffold: the output directory, the files to write under
/// it (relative path and contents), and the entry-point program.
#[derive(Debug)]
pub struct ScaffoldPlan {
    pub root: String,
    pub files: Vec<(String, String)>,
    pub entry_rel: String,
    pub entry_kind: EntryKind,
}

impl View for ScaffoldPlan {
    type V = ScaffoldPlanV;

    open spec fn view(&self) -> ScaffoldPlanV {
        ScaffoldPlanV {
            root: self.root@,
            files: Seq::new(self.files@.len(), |i: int| (self.files@[i].0@, self.files@[i].1@)),
            entry_rel: self.entry_rel@,
            entry_kind: self.entry_kind,
        }
    }
}

/// The generated descriptor of a new plugin.
pub open spec fn tpl_manifest(name: Seq<char>, language: Seq<char>, ptype: Seq<char>) -> Seq<char> {
    "[plugin]\nname = \""@ + name + "\"\nversion = \"0.1.0\"\ndescription = \"A PAII "@ + ptype
        + " plugin\"\nauthors = []\nlanguage = \""@ + language
        + "\"\nlicense = \"MIT\"\n\n[paii]\ncore_version = \">=0.1.0\"\n\n# Contracts this plugin provides\n[provides]\n\n# Contracts this plugin consumes (optional dependencies)\n[consumes]\n\n# Plugin configuration schema\n[config]\n\n# Hook subscriptions\n[hooks]\npre_tool_use = false\npost_tool_use = false\nstop = false\nsession_start = false\nsession_end = false\n\n# Build configuration\n[build]\ntype = \""@
        + (if language == "rust"@ {
        "cargo"@
    } else {
        "uv"@
    }) + "\"\n"@
}

/// The generated descriptor of a new plugin.
pub fn generate_manifest(name: &str, language: &str, ptype: &str) -> (r: String)
    ensures
        r@ == tpl_manifest(name@, language@, ptype@),
{
    let mut r = String::from_str("[plugin]\nname = \"");
    r.append(name);
    r.append("\"\nversion = \"0.1.0\"\ndescription = \"A PAII ");
    r.append(ptype);
    r.append(" plugin\"\nauthors = []\nlanguage = \"");
    r.append(language);
    r.append(
        "\"\nlicense = \"MIT\"\n\n[paii]\ncore_version = \">=0.1.0\"\n\n# Contracts this plugin provides\n[provides]\n\n# Contracts this plugin consumes (optional dependencies)\n[consumes]\n\n# Plugin configuration schema\n[config]\n\n# Hook subscriptions\n[hooks]\npre_tool_use = false\npost_tool_use = false\nstop = false\nsession_start = false\nsession_end = false\n\n# Build configuration\n[build]\ntype = \"",
    );
    if str_eq(language, "rust") {
        r.append("cargo");
    } else {
        r.append("uv");
    }
    r.append("\"\n");
    r
}

/// The generated build manifest of a compiled plugin.
pub open spec fn tpl_cargo_toml(name: Seq<char>) -> Seq<char> {
    "[package]\nname = \""@ + name
        + "\"\nversion = \"0.1.0\"\nedition = \"2021\"\n\n[dependencies]\nserde = { version = \"1.0\", features = [\"derive\"] }\nserde_json = \"1.0\"\n"@
}

/// The generated build manifest of a compiled plugin.
pub fn generate_cargo_toml(name: &str) -> (r: String)
    ensures
        r@ == tpl_cargo_toml(name@),
{
    let mut r = String::from_str("[package]\nname = \"");
    r.append(name);
    r.append(
        "\"\nversion = \"0.1.0\"\nedition = \"2021\"\n\n[dependencies]\nserde = { version = \"1.0\", features = [\"derive\"] }\nserde_json = \"1.0\"\n",
    );
    r
}

/// The generated project file of an interpreted plugin.
pub open spec fn tpl_pyproject(name: Seq<char>) -> Seq<char> {
    "[project]\nname = \""@ + name
        + "\"\nversion = \"0.1.0\"\ndescription = \"A PAII plugin\"\nrequires-python = \">=3.10\"\ndependencies = []\n\n[build-system]\nrequires = [\"hatchling\"]\nbuild-backend = \"hatchling.build\"\n\n[tool.uv]\ndev-dependencies = []\n"@
}

/// The generated project file of an interpreted plugin.
pub fn generate_pyproject_toml(name: &str) -> (r: String)
    ensures
        r@ == tpl_pyproject(name@),
{
    let mut r = String::from_str("[project]\nname = \"");
    r.append(name);
    r.append(
        "\"\nversion = \"0.1.0\"\ndescription = \"A PAII plugin\"\nrequires-python = \">=3.10\"\ndependencies = []\n\n[build-system]\nrequires = [\"hatchling\"]\nbuild-backend = \"hatchling.build\"\n\n[tool.uv]\ndev-dependencies = []\n",
    );
    r
}

/// The generated skill sheet of a skill plugin.
pub open spec fn tpl_skill_md(name: Seq<char>) -> Seq<char> {
    "# "@ + name + "\n\n## USE WHEN\n\n- User asks about "@ + name
        + "\n- User wants to perform actions related to "@ + name
        + "\n\n## ACTIONS\n\n### greet\nGreet someone by name.\n\n**Arguments:**\n- `name` (optional): Name to greet. Defaults to \"World\".\n\n**Example:**\n```\npaii run "@
        + name
        + " greet Alice\n```\n\n### version\nShow the plugin version.\n\n## NOTES\n\n- This is a sample skill template\n- Customize the USE WHEN triggers for your use case\n"@
}

/// The generated skill sheet of a skill plugin.
pub fn generate_skill_md(name: &str) -> (r: String)
    ensures
        r@ == tpl_skill_md(name@),
{
    let mut r = String::from_str("# ");
    r.append(name);
    r.append("\n\n## USE WHEN\n\n- User asks about ");
    r.append(name);
    r.append("\n- User wants to perform actions related to ");
    r.append(name);
    r.append(
        "\n\n## ACTIONS\n\n### greet\nGreet someone by name.\n\n**Arguments:**\n- `name` (optional): Name to greet. Defaults to \"World\".\n\n**Example:**\n```\npaii run ",
    );
    r.append(name);
    r.append(
        " greet Alice\n```\n\n### version\nShow the plugin version.\n\n## NOTES\n\n- This is a sample skill template\n- Customize the USE WHEN triggers for your use case\n",
    );
    r
}

/// The generated readme of a new plugin.
pub open spec fn tpl_readme(name: Seq<char>, ptype: Seq<char>, language: Seq<char>) -> Seq<char> {
    "# "@ + name + "\n\nA PAII "@ + ptype + " plugin written in "@ + language
        + ".\n\n## Installation\n\n```bash\npaii plugin install --dev .\n```\n\n## Usage\n\n```bash\npaii run "@
        + name + " greet\npaii run "@ + name + " greet Alice\npaii run "@ + name
        + " version\n```\n\n## Development\n\n"@ + (if language == "rust"@ {
        "```bash\ncargo build --release\n```"@
    } else {
        "```bash\nuv sync\n```"@
    }) + "\n\n## License\n\nMIT\n"@
}

/// The generated readme of a new plugin.
pub fn generate_readme(name: &str, ptype: &str, language: &str) -> (r: String)
    ensures
        r@ == tpl_readme(name@, ptype@, language@),
{
    let mut r = String::from_str("# ");
    r.append(name);
    r.append("\n\nA PAII ");
    r.append(ptype);
    r.append(" plugin written in ");
    r.append(language);
    r.append(
        ".\n\n## Installation\n\n```bash\npaii plugin install --dev .\n```\n\n## Usage\n\n```bash\npaii run ",
    );
    r.append(name);
    r.append(" greet\npaii run ");
    r.append(name);
    r.append(" greet Alice\npaii run ");
    r.append(name);
    r.append(" version\n```\n\n## Development\n\n");
    if str_eq(language, "rust") {
        r.append("```bash\ncargo build --release\n```");
    } else {
        r.append("```bash\nuv sync\n```");
    }
    r.append("\n\n## License\n\nMIT\n");
    r
}

/// The files of a new scaffold: the descriptor, the language's project
/// file, the skill sheet for a skill plugin, and the readme.  The
/// entry-point program at `src/main.py` or `src/main.rs` is written by the
/// driver, as the plan's entry kind says.
pub open spec fn spec_scaffold(
    name: Seq<char>,
    language: Seq<char>,
    ptype: Seq<char>,
    path: Option<Seq<char>>,
    dest_exists: bool,
) -> Result<ScaffoldPlanV, ErrorV> {
    let root = match path {
        Some(p) => p,
        None => "./"@ + name,
    };
    if dest_exists {
        Err(ErrorV::AlreadyExists { context: root })
    } else if lower_of(language) == "python"@ {
        Ok(ScaffoldPlanV {
            root,
            files: seq![("plugin.toml"@, tpl_manifest(name, language, ptype)), (
                "pyproject.toml"@,
                tpl_pyproject(name),
            )] + (if ptype == "skill"@ {
                seq![("SKILL.md"@, tpl_skill_md(name))]
            } else {
                Seq::empty()
            }) + seq![("README.md"@, tpl_readme(name, ptype, language))],
            entry_rel: "src/main.py"@,
            entry_kind: EntryKind::PythonMain,
        })
    } else if lower_of(language) == "rust"@ {
        Ok(ScaffoldPlanV {
            root,
            files: seq![("plugin.toml"@, tpl_manifest(name, language, ptype)), (
                "Cargo.toml"@,
                tpl_cargo_toml(name),
            )] + (if ptype == "skill"@ {
                seq![("SKILL.md"@, tpl_skill_md(name))]
            } else {
                Seq::empty()
            }) + seq![("README.md"@, tpl_readme(name, ptype, language))],
            entry_rel: "src/main.rs"@,
            entry_kind: EntryKind::RustMain,
        })
    } else {
        Err(ErrorV::InvalidInput { context: language })
    }
}

/// Decides the scaffold of a new plugin.  An existing destination is a
/// collision; a language other than the supported two is invalid input.
pub fn plan_new(
    name: &str,
    language: &str,
    ptype: &str,
    path: Option<String>,
    dest_exists: bool,
) -> (r: Result<ScaffoldPlan, CoreError>)
    ensures
        match r {
            Ok(p) => spec_scaffold(
                name@,
                language@,
                ptype@,
                crate::manifest::osv(path),
                dest_exists,
            ) == Ok::<ScaffoldPlanV, ErrorV>(p@),
            Err(e) => spec_scaffold(
                name@,
                language@,
                ptype@,
                crate::manifest::osv(path),
                dest_exists,
            ) == Err::<ScaffoldPlanV, ErrorV>(e@),
        },
{
    let root = match &path {
        Some(p) => p.clone(),
        None => str_concat("./", name),
    };
    if dest_exists {
        return Err(CoreError::AlreadyExists { context: root });
    }
    let lang_low = lowercase(language);
    let is_python = str_eq(lang_low.as_str(), "python");
    let is_rust = str_eq(lang_low.as_str(), "rust");
    if !is_python && !is_rust {
        return Err(CoreError::InvalidInput { context: String::from_str(language) });
    }
    let mut files: Vec<(String, String)> = Vec::new();
    files.push((String::from_str("plugin.toml"), generate_manifest(name, language, ptype)));
    if is_python {
        files.push((String::from_str("pyproject.toml"), generate_pyproject_toml(name)));
    } else {
        files.push((String::from_str("Cargo.toml"), generate_cargo_toml(name)));
    }
    if str_eq(ptype, "skill") {
        files.push((String::from_str("SKILL.md"), generate_skill_md(name)));
    }
    files.push((String::from_str("README.md"), generate_readme(name, ptype, language)));
    let plan = if is_python {
        ScaffoldPlan {
            root,
            files,
            entry_rel: String::from_str("src/main.py"),
            entry_kind: EntryKind::PythonMain,
        }
    } else {
        ScaffoldPlan {
            root,
            files,
            entry_rel: String::from_str("src/main.rs"),
            entry_kind: EntryKind::RustMain,
        }
    };
    proof {
        let sp = spec_scaffold(name@, language@, ptype@, crate::manifest::osv(path), dest_exists);
        assert(sp is Ok);
        assert(plan@.files =~= sp->Ok_0.files);
    }
    Ok(plan)
}

} // verus!
